//! Where the per-user configuration directory, home of the port file, lies
//! on each platform.

use vstd::prelude::*;
use vstd::string::*;

verus! {

/// A directory given as a relative path under a base directory, or, with
/// no base, as a path of its own.
#[derive(Debug)]
pub struct ConfigLocation {
    pub base: Option<String>,
    pub path: String,
}

/// The base directory and path of the configuration directory on the
/// platform named `os`, given the `APPDATA` variable and the home directory
/// where they are known.
pub open spec fn config_location_spec(
    os: Seq<char>,
    appdata: Option<Seq<char>>,
    home: Option<Seq<char>>,
) -> (Option<Seq<char>>, Seq<char>) {
    if os == "macos"@ {
        match home {
            Some(h) => (Some(h), "Library/Application Support/ValueCell"@),
            None => (None, "/tmp/ValueCell"@),
        }
    } else if os == "windows"@ {
        match appdata {
            Some(a) => (Some(a), "ValueCell"@),
            None => match home {
                Some(h) => (Some(h), "AppData/Roaming/ValueCell"@),
                None => (None, "C:\\ValueCell"@),
            },
        }
    } else {
        match home {
            Some(h) => (Some(h), ".config/valuecell"@),
            None => (None, "/tmp/valuecell"@),
        }
    }
}

/// The configuration directory on the platform named `os`.
pub fn config_location(os: &str, appdata: Option<String>, home: Option<String>) -> (r:
    ConfigLocation)
    ensures
        (match r.base {
            Some(b) => Some(b@),
            None => None,
        }, r.path@) == config_location_spec(
            os@,
            match appdata {
                Some(a) => Some(a@),
                None => None,
            },
            match home {
                Some(h) => Some(h@),
                None => None,
            },
        ),
{
    let name = String::from_str(os);
    if name == String::from_str("macos") {
        match home {
            Some(h) => ConfigLocation {
                base: Some(h),
                path: String::from_str("Library/Application Support/ValueCell"),
            },
            None => ConfigLocation { base: None, path: String::from_str("/tmp/ValueCell") },
        }
    } else if name == String::from_str("windows") {
        match appdata {
            Some(a) => ConfigLocation { base: Some(a), path: String::from_str("ValueCell") },
            None => match home {
                Some(h) => ConfigLocation {
                    base: Some(h),
                    path: String::from_str("AppData/Roaming/ValueCell"),
                },
                None => ConfigLocation { base: None, path: String::from_str("C:\\ValueCell") },
            },
        }
    } else {
        match home {
            Some(h) => ConfigLocation {
                base: Some(h),
                path: String::from_str(".config/valuecell"),
            },
            None => ConfigLocation { base: None, path: String::from_str("/tmp/valuecell") },
        }
    }
}

} // verus!
