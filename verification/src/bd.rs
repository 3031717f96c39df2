//! The settings of the companion browser plugin and the test that tells
//! whether the installed plugin is the one shipped with this program.

use vstd::prelude::*;
use vstd::string::{StringExecFns, StringSliceAdditionalSpecFns};

verus! {

/// The port on which the relay listens when no settings file says
/// otherwise.
pub const DEFAULT_WS_PORT: u16 = 8214;

/// What the plugin is told about the relay.
#[derive(Debug, Clone, Copy, PartialEq, Eq, Structural)]
pub struct BdSettings {
    pub ws_port: u16,
}

impl BdSettings {
    /// Settings that name `port`.
    pub fn new(port: u16) -> (r: Self)
        ensures
            r.ws_port == port,
    {
        Self { ws_port: port }
    }

    /// What was read from the settings file, or, where nothing could be
    /// read, settings that name the default port: those are new, and the
    /// second component tells the caller to write them out.
    pub fn or_default(loaded: Option<BdSettings>) -> (r: (BdSettings, bool))
        ensures
            r.0 == match loaded {
                Some(settings) => settings,
                None => BdSettings { ws_port: DEFAULT_WS_PORT },
            },
            r.1 == (loaded is None),
    {
        match loaded {
            Some(settings) => (settings, false),
            None => (BdSettings::new(DEFAULT_WS_PORT), true),
        }
    }
}

/// Where the plugin's settings are kept, below the plugin host's folder.
pub fn settings_file(bd_path: &str) -> (r: String)
    ensures
        r@ == bd_path@ + "/plugins/DiscordSourcePlugin.config.json"@,
{
    let mut path = bd_path.to_owned();
    path.append("/plugins/DiscordSourcePlugin.config.json");
    path
}

/// Where the plugin itself is kept, below the plugin host's folder.
pub fn plugin_file(bd_path: &str) -> (r: String)
    ensures
        r@ == bd_path@ + "/plugins/DiscordSourcePlugin.plugin.js"@,
{
    let mut path = bd_path.to_owned();
    path.append("/plugins/DiscordSourcePlugin.plugin.js");
    path
}

/// The MD5 digest of `data`, as the `md5` crate computes it.
pub uninterp spec fn md5_of(data: Seq<u8>) -> Seq<u8>;

/// Calls `md5::compute` and hands out the sixteen bytes of the digest.
/// The digest depends on the data alone, so it has a name; nothing more
/// is claimed of it.
#[verifier::external_body]
fn md5_digest(data: &[u8]) -> (r: Vec<u8>)
    ensures
        r@ == md5_of(data@),
{
    md5::compute(data).0.to_vec()
}

/// Whether two digests are the same.
pub fn same_digest(a: &Vec<u8>, b: &Vec<u8>) -> (r: bool)
    ensures
        r == (a@ == b@),
{
    if a.len() != b.len() {
        return false;
    }
    let mut i: usize = 0;
    while i < a.len()
        invariant
            a@.len() == b@.len(),
            i <= a@.len(),
            forall|k: int| 0 <= k < i ==> a@[k] == b@[k],
        decreases a.len() - i,
    {
        if a[i] != b[i] {
            return false;
        }
        i += 1;
    }
    assert(a@ =~= b@);
    true
}

/// The digest of the plugin's text, by which two versions of the plugin
/// are told apart.
pub fn plugin_digest(text: &str) -> (r: Vec<u8>)
    ensures
        r@ == md5_of(text.spec_bytes()),
{
    md5_digest(text.as_bytes())
}

/// Whether the installed plugin is the one that ships with this program:
/// their digests are the same. An installation that could not be read
/// counts as empty text.
pub fn plugin_is_current(installed: &str, latest: &str) -> (r: bool)
    ensures
        r == (md5_of(installed.spec_bytes()) == md5_of(latest.spec_bytes())),
{
    let have = plugin_digest(installed);
    let want = plugin_digest(latest);
    same_digest(&have, &want)
}

} // verus!
