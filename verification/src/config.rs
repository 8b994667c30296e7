//! Where the panel keeps its own files, and its settings.

use crate::system::Platform;
use vstd::prelude::*;
use vstd::string::StringExecFns;

verus! {

/// The settings of the panel.
#[derive(Debug, Clone, PartialEq, Eq)]
pub struct AppConfig {
    /// Where versions of PHP are installed.
    pub php_install_dir: String,
    /// Where the profiles of projects are kept.
    pub projects_config_dir: String,
    /// The version of PHP that projects use unless they say otherwise.
    pub default_php_version: Option<String>,
}

/// The character that separates the components of a path.
pub open spec fn separator(platform: Platform) -> char {
    match platform {
        Platform::Windows => '\\',
        _ => '/',
    }
}

/// Whether a character ends a component of a path: the separator of the
/// platform, and on Windows the slash as well.
pub open spec fn is_separator(platform: Platform, c: char) -> bool {
    c == separator(platform) || (platform == Platform::Windows && c == '/')
}

/// A path with one more component: the component alone where the path is
/// empty, else the two, with the separator between them unless the path ends
/// in one.
pub open spec fn join_spec(platform: Platform, base: Seq<char>, name: Seq<char>) -> Seq<char> {
    if base.len() == 0 {
        name
    } else if is_separator(platform, base.last()) {
        base + name
    } else {
        base.push(separator(platform)) + name
    }
}

/// Adds a component to a path of the platform.
pub fn join(platform: Platform, base: &str, name: &str) -> (path: String)
    ensures
        path@ == join_spec(platform, base@, name@),
{
    let length = base.unicode_len();
    if length == 0 {
        return name.to_owned();
    }
    let last = base.get_char(length - 1);
    let windows = match platform {
        Platform::Windows => true,
        _ => false,
    };
    proof {
        reveal_strlit("\\");
        reveal_strlit("/");
    }
    if (windows && (last == '\\' || last == '/')) || (!windows && last == '/') {
        base.to_owned().concat(name)
    } else if windows {
        let path = base.to_owned().concat("\\").concat(name);
        path
    } else {
        let path = base.to_owned().concat("/").concat(name);
        path
    }
}

/// The home directory: the one the environment names, else the one that the
/// platform falls back on.
pub open spec fn home_or_default_spec(platform: Platform, home: Option<Seq<char>>) -> Seq<char> {
    match home {
        Some(path) => path,
        None => match platform {
            Platform::Windows => "C:\\Users\\Default"@,
            _ => "/tmp"@,
        },
    }
}

/// The home directory for the settings of the panel; `home` is what the
/// environment names as the user's profile or home, if it names one.
pub fn home_or_default(platform: Platform, home: Option<&str>) -> (path: String)
    ensures
        path@ == home_or_default_spec(
            platform,
            match home {
                Some(text) => Some(text@),
                None => None,
            },
        ),
{
    match home {
        Some(path) => path.to_owned(),
        None => match platform {
            Platform::Windows => "C:\\Users\\Default".to_owned(),
            _ => "/tmp".to_owned(),
        },
    }
}

/// The home directory for the registry. On Windows, without a user profile,
/// it is made of the home drive and the home path, each with its default.
pub open spec fn registry_home_spec(
    platform: Platform,
    home: Option<Seq<char>>,
    drive: Option<Seq<char>>,
    path: Option<Seq<char>>,
) -> Seq<char> {
    match home {
        Some(found) => found,
        None => match platform {
            Platform::Windows => (match drive {
                Some(d) => d,
                None => "C:"@,
            }) + (match path {
                Some(p) => p,
                None => "\\Users\\Default"@,
            }),
            _ => "/tmp"@,
        },
    }
}

/// The text of an optional text.
pub open spec fn view_optional(text: Option<&str>) -> Option<Seq<char>> {
    match text {
        Some(found) => Some(found@),
        None => None,
    }
}

/// The home directory for the registry; `home`, `drive` and `path` are what
/// the environment names as the user's profile or home, the home drive and
/// the home path.
pub fn registry_home(platform: Platform, home: Option<&str>, drive: Option<&str>, path: Option<
    &str,
>) -> (found: String)
    ensures
        found@ == registry_home_spec(
            platform,
            view_optional(home),
            view_optional(drive),
            view_optional(path),
        ),
{
    match home {
        Some(found) => found.to_owned(),
        None => match platform {
            Platform::Windows => {
                let d = match drive {
                    Some(d) => d,
                    None => "C:",
                };
                let p = match path {
                    Some(p) => p,
                    None => "\\Users\\Default",
                };
                d.to_owned().concat(p)
            },
            _ => "/tmp".to_owned(),
        },
    }
}

/// The directory of the panel's own files: below the place that the
/// environment prefers for application data where it names one (on Windows
/// and on Linux), else below the place that the platform keeps for it in
/// the home directory.
pub open spec fn config_dir_spec(
    platform: Platform,
    home: Seq<char>,
    preferred: Option<Seq<char>>,
) -> Seq<char> {
    let base = match platform {
        Platform::Windows => match preferred {
            Some(dir) => dir,
            None => join_spec(platform, join_spec(platform, home, "AppData"@), "Roaming"@),
        },
        Platform::MacOs => join_spec(
            platform,
            join_spec(platform, home, "Library"@),
            "Application Support"@,
        ),
        Platform::Linux => match preferred {
            Some(dir) => dir,
            None => join_spec(platform, home, ".config"@),
        },
    };
    join_spec(platform, base, "localhost-manager"@)
}

/// The directory of the panel's own files; `preferred` is the directory that
/// the environment names for application data, if it names one.
pub fn config_dir(platform: Platform, home: &str, preferred: Option<&str>) -> (dir: String)
    ensures
        dir@ == config_dir_spec(platform, home@, view_optional(preferred)),
{
    let base = match platform {
        Platform::Windows => match preferred {
            Some(dir) => dir.to_owned(),
            None => join(platform, join(platform, home, "AppData").as_str(), "Roaming"),
        },
        Platform::MacOs => join(
            platform,
            join(platform, home, "Library").as_str(),
            "Application Support",
        ),
        Platform::Linux => match preferred {
            Some(dir) => dir.to_owned(),
            None => join(platform, home, ".config"),
        },
    };
    join(platform, base.as_str(), "localhost-manager")
}

/// The file of the settings in the directory of the panel.
pub fn config_file(platform: Platform, dir: &str) -> (path: String)
    ensures
        path@ == join_spec(platform, dir@, "config.json"@),
{
    join(platform, dir, "config.json")
}

impl AppConfig {
    /// The settings that the panel starts with in a directory: PHP below
    /// `php-versions`, projects below `projects`, no default version.
    pub fn in_directory(platform: Platform, dir: &str) -> (config: AppConfig)
        ensures
            config.php_install_dir@ == join_spec(platform, dir@, "php-versions"@),
            config.projects_config_dir@ == join_spec(platform, dir@, "projects"@),
            config.default_php_version is None,
    {
        AppConfig {
            php_install_dir: join(platform, dir, "php-versions"),
            projects_config_dir: join(platform, dir, "projects"),
            default_php_version: None,
        }
    }
}

} // verus!
