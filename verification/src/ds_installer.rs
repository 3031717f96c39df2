//! Finding the running chat client and tuning the settings of its
//! replacement loader.

use crate::text::{contains_bytes, occurs_in};
use vstd::prelude::*;
use vstd::string::StringExecFns;

verus! {

/// `text` in lower case, as `str::to_lowercase` gives it.
pub uninterp spec fn lowercase_of(text: Seq<char>) -> Seq<char>;

/// Calls `str::to_lowercase`. The result depends on the text alone, so it
/// has a name; nothing more is claimed of it.
#[verifier::external_body]
fn lowercase(text: &str) -> (r: String)
    ensures
        r@ == lowercase_of(text@),
{
    text.to_lowercase()
}

/// The bytes of `text` in UTF-8.
pub open spec fn bytes_of(text: Seq<char>) -> Seq<u8> {
    vstd::utf8::encode_utf8(text)
}

/// Whether a command line, already in lower case, is that of the chat
/// client: it names one of the client's executables and does not name
/// this program.
pub open spec fn names_discord(lowered: Seq<char>, windows: bool) -> bool {
    &&& !occurs_in(bytes_of(lowered), bytes_of("discord-source"@))
    &&& if windows {
        ||| occurs_in(bytes_of(lowered), bytes_of("discord.exe"@))
        ||| occurs_in(bytes_of(lowered), bytes_of("discordcanary.exe"@))
        ||| occurs_in(bytes_of(lowered), bytes_of("discordptb.exe"@))
    } else {
        ||| occurs_in(bytes_of(lowered), bytes_of("discord"@))
        ||| occurs_in(bytes_of(lowered), bytes_of("discord-canary"@))
        ||| occurs_in(bytes_of(lowered), bytes_of("discord-ptb"@))
    }
}

/// Whether `cmdline` is the command line of the chat client. The names of
/// its executables differ between Windows and the other systems.
pub fn is_discord(cmdline: &str, windows: bool) -> (r: bool)
    ensures
        r == names_discord(lowercase_of(cmdline@), windows),
{
    let lowered = lowercase(cmdline);
    let line = lowered.as_str().as_bytes();
    if contains_bytes(line, "discord-source".as_bytes()) {
        return false;
    }
    if windows {
        contains_bytes(line, "discord.exe".as_bytes()) || contains_bytes(
            line,
            "discordcanary.exe".as_bytes(),
        ) || contains_bytes(line, "discordptb.exe".as_bytes())
    } else {
        contains_bytes(line, "discord".as_bytes()) || contains_bytes(
            line,
            "discord-canary".as_bytes(),
        ) || contains_bytes(line, "discord-ptb".as_bytes())
    }
}

/// Whether a process is to be killed: it has a command line, and the first
/// word of it is the chat client's.
pub open spec fn is_target(process: (u32, Option<String>), windows: bool) -> bool {
    match process.1 {
        Some(command) => names_discord(lowercase_of(command@), windows),
        None => false,
    }
}

/// The ids of the processes of `processes` that are to be killed, in
/// order.
pub open spec fn targets(processes: Seq<(u32, Option<String>)>, windows: bool) -> Seq<u32>
    decreases processes.len(),
{
    if processes.len() == 0 {
        Seq::empty()
    } else if is_target(processes.last(), windows) {
        targets(processes.drop_last(), windows).push(processes.last().0)
    } else {
        targets(processes.drop_last(), windows)
    }
}

/// Picks the processes of the chat client out of a list of processes, each
/// given by its id and the first word of its command line. The caller
/// kills them.
pub fn kill_discord(processes: &Vec<(u32, Option<String>)>, windows: bool) -> (r: Vec<u32>)
    ensures
        r@ == targets(processes@, windows),
{
    let mut out: Vec<u32> = Vec::new();
    let mut i: usize = 0;
    while i < processes.len()
        invariant
            i <= processes.len(),
            out@ == targets(processes@.take(i as int), windows),
        decreases processes.len() - i,
    {
        proof {
            assert(processes@.take(i + 1).drop_last() =~= processes@.take(i as int));
            assert(processes@.take(i + 1).last() == processes@[i as int]);
        }
        let hit = match &processes[i].1 {
            Some(command) => is_discord(command.as_str(), windows),
            None => false,
        };
        if hit {
            out.push(processes[i].0);
        }
        i += 1;
    }
    proof {
        assert(processes@.take(processes.len() as int) =~= processes@);
    }
    out
}

/// How the replacement loader trades speed for power.
#[derive(Debug, Clone, Copy, PartialEq, Eq, Structural)]
pub enum OpenasarPerformanceMode {
    Performance,
    Balanced,
    Battery,
}

/// The settings of the replacement loader that this program cares about.
#[derive(Debug, PartialEq, Eq)]
pub struct Openasar {
    pub custom_flags: Option<String>,
    pub cmd_preset: Option<OpenasarPerformanceMode>,
}

/// The settings of the chat client that this program cares about.
#[derive(Debug, PartialEq, Eq)]
pub struct DiscordSettings {
    pub enable_devtools: Option<bool>,
    pub openasar: Option<Openasar>,
}

/// The settings of one installation after tuning, and what is left to do.
#[derive(Debug, PartialEq, Eq)]
pub struct Configured {
    pub settings: DiscordSettings,
    /// The replacement loader is missing and has not been installed in
    /// this run yet: install it now.
    pub install: bool,
    /// A setting changed that the client reads only when it starts: kill
    /// the client when all installations are done.
    pub restart: bool,
}

/// The custom flags of an installation; empty where it has none.
pub open spec fn flags_of(settings: DiscordSettings) -> Seq<char> {
    match settings.openasar {
        Some(openasar) => match openasar.custom_flags {
            Some(flags) => flags@,
            None => Seq::empty(),
        },
        None => Seq::empty(),
    }
}

/// The performance mode of an installation.
pub open spec fn preset_of(settings: DiscordSettings) -> Option<OpenasarPerformanceMode> {
    match settings.openasar {
        Some(openasar) => openasar.cmd_preset,
        None => None,
    }
}

/// The flags name desktop OpenGL.
pub open spec fn uses_desktop_gl(flags: Seq<char>) -> bool {
    occurs_in(bytes_of(flags), bytes_of("--use-gl=desktop"@))
}

/// The flags with desktop OpenGL named.
pub open spec fn tuned_flags(flags: Seq<char>) -> Seq<char> {
    if uses_desktop_gl(flags) {
        flags
    } else {
        flags + " --use-gl=desktop"@
    }
}

/// Tunes the settings of one installation of the chat client: developer
/// tools are switched on, desktop OpenGL is added to the custom flags
/// unless they name it, and the performance mode becomes
/// `Performance`. `installation_run` tells whether the replacement
/// loader has been installed in this run already.
pub fn configure_open_asar(settings: DiscordSettings, installation_run: bool) -> (r: Configured)
    ensures
        r.settings.enable_devtools == Some(true),
        r.settings.openasar is Some,
        r.settings.openasar->0.custom_flags is Some,
        flags_of(r.settings) == tuned_flags(flags_of(settings)),
        preset_of(r.settings) == Some(OpenasarPerformanceMode::Performance),
        r.install == (settings.openasar is None && !installation_run),
        r.restart == (!uses_desktop_gl(flags_of(settings)) || preset_of(settings) != Some(
            OpenasarPerformanceMode::Performance,
        )),
{
    let install = settings.openasar.is_none() && !installation_run;
    let (flags, preset) = match settings.openasar {
        Some(openasar) => (openasar.custom_flags, openasar.cmd_preset),
        None => (None, None),
    };
    let mut flags = match flags {
        Some(text) => text,
        None => String::new(),
    };
    let mut restart = false;
    if !contains_bytes(flags.as_str().as_bytes(), "--use-gl=desktop".as_bytes()) {
        flags.append(" --use-gl=desktop");
        restart = true;
    }
    match preset {
        Some(OpenasarPerformanceMode::Performance) => {},
        _ => {
            restart = true;
        },
    }
    Configured {
        settings: DiscordSettings {
            enable_devtools: Some(true),
            openasar: Some(
                Openasar {
                    custom_flags: Some(flags),
                    cmd_preset: Some(OpenasarPerformanceMode::Performance),
                },
            ),
        },
        install,
        restart,
    }
}

} // verus!
