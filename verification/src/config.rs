//! What the program remembers between runs.

use vstd::prelude::*;

verus! {

/// The port on which the page is served unless the user chooses another.
pub const DEFAULT_WEB_PORT: u16 = 4651;

/// The settings of the program.
#[derive(Debug, PartialEq, Eq)]
pub struct Config {
    pub bd_path: Option<String>,
    pub web_port: u16,
}

impl Clone for Config {
    fn clone(&self) -> (r: Self)
        ensures
            crate::ws::message::opt_text(r.bd_path) == crate::ws::message::opt_text(self.bd_path),
            r.web_port == self.web_port,
    {
        Config {
            bd_path: crate::ws::message::clone_opt_text(&self.bd_path),
            web_port: self.web_port,
        }
    }
}

impl Config {
    /// The settings of a first run: the first of the folders in which the
    /// plugin host was found, and the default port. There are none where
    /// the plugin host was not found.
    pub fn first_run(found: &Vec<String>) -> (r: Option<Config>)
        ensures
            match r {
                Some(config) => {
                    &&& found@.len() > 0
                    &&& config.bd_path is Some
                    &&& config.bd_path->0@ == found@[0]@
                    &&& config.web_port == DEFAULT_WEB_PORT
                },
                None => found@.len() == 0,
            },
    {
        if found.len() == 0 {
            None
        } else {
            Some(Config { bd_path: Some(found[0].clone()), web_port: DEFAULT_WEB_PORT })
        }
    }

    /// Remembers another folder of the plugin host.
    pub fn set_bd_path(&mut self, path: String)
        ensures
            final(self).bd_path == Some(path),
            final(self).web_port == old(self).web_port,
    {
        self.bd_path = Some(path);
    }

    /// Remembers another port for the page.
    pub fn set_web_port(&mut self, port: u16)
        ensures
            final(self).web_port == port,
            final(self).bd_path == old(self).bd_path,
    {
        self.web_port = port;
    }
}

} // verus!
