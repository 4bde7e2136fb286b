//! Where the Roblox client keeps its data and its logs, below the user's
//! home directory.

use vstd::prelude::*;
use vstd::string::StringExecFns;

use crate::text::{chars_of, push_char};

verus! {

/// The variant of the Roblox client that is running.
#[derive(Debug, Clone, Copy, PartialEq, Eq, Structural)]
pub enum RobloxType {
    Player,
    Studio,
}

/// The family of operating system the agent runs on.
#[derive(Debug, Clone, Copy, PartialEq, Eq, Structural)]
pub enum Platform {
    Windows,
    MacOs,
    Linux,
}

/// Whether `c` separates path components on `platform`.
pub open spec fn is_separator(platform: Platform, c: char) -> bool {
    c == '/' || (platform == Platform::Windows && c == '\\')
}

/// The separator that `platform` writes between path components.
pub open spec fn separator(platform: Platform) -> char {
    if platform == Platform::Windows {
        '\\'
    } else {
        '/'
    }
}

/// `rel` below `base`: a separator is put between them unless `base` is
/// empty or already ends in one.
pub open spec fn joined(base: Seq<char>, rel: Seq<char>, platform: Platform) -> Seq<char> {
    if base.len() == 0 || is_separator(platform, base.last()) {
        base + rel
    } else {
        base.push(separator(platform)) + rel
    }
}

/// The Roblox data directory, relative to the home directory.
pub open spec fn roblox_dir(platform: Platform) -> Seq<char> {
    match platform {
        Platform::Windows => "AppData/Local/Roblox"@,
        Platform::MacOs => "Library/Application Support/Roblox"@,
        Platform::Linux => ".local/share/Roblox"@,
    }
}

/// The Roblox data directory below `home`.
pub open spec fn roblox_path(home: Seq<char>, platform: Platform) -> Seq<char> {
    joined(home, roblox_dir(platform), platform)
}

/// The Roblox log directory below `home`.
pub open spec fn roblox_logs_path(home: Seq<char>, platform: Platform) -> Seq<char> {
    joined(roblox_path(home, platform), "logs"@, platform)
}

/// The path of `rel` below `base`.
pub fn join(base: &str, rel: &str, platform: Platform) -> (path: String)
    ensures
        path@ == joined(base@, rel@, platform),
{
    let chars = chars_of(base);
    let mut path = base.to_owned();
    if chars.len() > 0 {
        let last = chars[chars.len() - 1];
        let ends_in_separator = last == '/' || (platform == Platform::Windows && last == '\\');
        if !ends_in_separator {
            let sep = if platform == Platform::Windows {
                '\\'
            } else {
                '/'
            };
            push_char(&mut path, sep);
        }
    }
    path.append(rel);
    path
}

/// The Roblox data directory of the user whose home directory is `home`;
/// nothing where no home directory is known.
pub fn roblox(home: Option<&str>, platform: Platform) -> (path: Option<String>)
    ensures
        match home {
            Some(h) => path matches Some(p) && p@ == roblox_path(h@, platform),
            None => path is None,
        },
{
    match home {
        Some(h) => {
            let dir = match platform {
                Platform::Windows => "AppData/Local/Roblox",
                Platform::MacOs => "Library/Application Support/Roblox",
                Platform::Linux => ".local/share/Roblox",
            };
            Some(join(h, dir, platform))
        },
        None => None,
    }
}

/// The directory in which the Roblox client writes its logs; nothing where
/// no home directory is known.
pub fn roblox_logs(home: Option<&str>, platform: Platform) -> (path: Option<String>)
    ensures
        match home {
            Some(h) => path matches Some(p) && p@ == roblox_logs_path(h@, platform),
            None => path is None,
        },
{
    match roblox(home, platform) {
        Some(roblox_path) => Some(join(roblox_path.as_str(), "logs", platform)),
        None => None,
    }
}

} // verus!
