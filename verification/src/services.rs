//! The services of the stack: how the panel asks whether they run, starts
//! and stops them, and installs their packages.

use crate::commands::{command, command_spec, CommandLine, CommandView};
use crate::system::Platform;
use crate::text::{chars_of, contains_text, find_text, same_text};
use vstd::prelude::*;
use vstd::string::StringExecFns;

verus! {

/// The name of the image of a process on Windows.
pub open spec fn process_image_spec(name: Seq<char>) -> Seq<char> {
    if name == "httpd"@ {
        "httpd.exe"@
    } else if name == "mysqld"@ {
        "mysqld.exe"@
    } else if name == "php-fpm"@ {
        "php-cgi.exe"@
    } else {
        name
    }
}

/// The name of the image of a process on Windows, where PHP runs as
/// `php-cgi`.
pub fn process_image(name: &str) -> (image: String)
    ensures
        image@ == process_image_spec(name@),
{
    if same_text(name, "httpd") {
        "httpd.exe".to_owned()
    } else if same_text(name, "mysqld") {
        "mysqld.exe".to_owned()
    } else if same_text(name, "php-fpm") {
        "php-cgi.exe".to_owned()
    } else {
        name.to_owned()
    }
}

/// The command that lists the processes of a name.
pub open spec fn process_probe_spec(platform: Platform, name: Seq<char>) -> CommandView {
    match platform {
        Platform::Windows => command_spec(
            "tasklist"@,
            seq!["/FI"@, "IMAGENAME eq "@ + process_image_spec(name), "/NH"@],
        ),
        _ => if name == "php-fpm"@ {
            command_spec("pgrep"@, seq!["-f"@, name])
        } else {
            command_spec("pgrep"@, seq![name])
        },
    }
}

/// The command that lists the processes of a name.
pub fn process_probe(platform: Platform, name: &str) -> (probe: CommandLine)
    ensures
        probe@ == process_probe_spec(platform, name@),
{
    match platform {
        Platform::Windows => {
            let filter = "IMAGENAME eq ".to_owned().concat(process_image(name).as_str());
            let probe = command("tasklist", vec!["/FI", filter.as_str(), "/NH"]);
            assert(probe@.arguments =~= seq![
                "/FI"@,
                "IMAGENAME eq "@ + process_image_spec(name@),
                "/NH"@,
            ]);
            probe
        },
        _ => {
            if same_text(name, "php-fpm") {
                let probe = command("pgrep", vec!["-f", name]);
                assert(probe@.arguments =~= seq!["-f"@, name@]);
                probe
            } else {
                let probe = command("pgrep", vec![name]);
                assert(probe@.arguments =~= seq![name@]);
                probe
            }
        },
    }
}

/// Whether what the probe printed shows a process of the name: on Windows
/// the list names the image, elsewhere the list is not empty.
pub open spec fn process_running_spec(platform: Platform, name: Seq<char>, printed: Seq<char>) -> bool {
    match platform {
        Platform::Windows => contains_text(printed, process_image_spec(name)),
        _ => printed.len() > 0,
    }
}

/// Whether what the probe printed shows a process of the name.
pub fn process_running(platform: Platform, name: &str, printed: &str) -> (running: bool)
    ensures
        running == process_running_spec(platform, name@, printed@),
{
    match platform {
        Platform::Windows => {
            let hay = chars_of(printed);
            let image = process_image(name);
            let needle = chars_of(image.as_str());
            find_text(&hay, &needle, 0, hay.len()).is_some()
        },
        _ => !printed.is_empty(),
    }
}

/// The command that says whether a program is on the path.
pub open spec fn command_probe_spec(platform: Platform, program: Seq<char>) -> CommandView {
    match platform {
        Platform::Windows => command_spec("where"@, seq![program]),
        _ => command_spec("which"@, seq![program]),
    }
}

/// The command that says whether a program is on the path; the program is
/// there where the command succeeds.
pub fn command_probe(platform: Platform, program: &str) -> (probe: CommandLine)
    ensures
        probe@ == command_probe_spec(platform, program@),
{
    let probe = match platform {
        Platform::Windows => command("where", vec![program]),
        _ => command("which", vec![program]),
    };
    assert(probe@.arguments =~= seq![program@]);
    probe
}

/// The command that says whether a package is installed.
pub open spec fn package_probe_spec(
    platform: Platform,
    brew_name: Seq<char>,
    windows_program: Seq<char>,
    dpkg_name: Seq<char>,
) -> CommandView {
    match platform {
        Platform::MacOs => command_spec("brew"@, seq!["list"@, brew_name]),
        Platform::Windows => command_probe_spec(platform, windows_program),
        Platform::Linux => command_spec("dpkg"@, seq!["-l"@, dpkg_name]),
    }
}

/// The command that says whether a package is installed; the package is
/// there where the command succeeds.
pub fn package_probe(platform: Platform, brew_name: &str, windows_program: &str, dpkg_name: &str) -> (probe:
    CommandLine)
    ensures
        probe@ == package_probe_spec(platform, brew_name@, windows_program@, dpkg_name@),
{
    match platform {
        Platform::MacOs => {
            let probe = command("brew", vec!["list", brew_name]);
            assert(probe@.arguments =~= seq!["list"@, brew_name@]);
            probe
        },
        Platform::Windows => command_probe(platform, windows_program),
        Platform::Linux => {
            let probe = command("dpkg", vec!["-l", dpkg_name]);
            assert(probe@.arguments =~= seq!["-l"@, dpkg_name@]);
            probe
        },
    }
}

/// The command that says whether a package of the stack is installed;
/// `None` for a package that the panel does not know.
pub open spec fn stack_package_probe_spec(platform: Platform, package: Seq<char>) -> Option<
    CommandView,
> {
    if package == "apache"@ {
        Some(package_probe_spec(platform, "httpd"@, "httpd"@, "apache2"@))
    } else if package == "mysql"@ {
        Some(package_probe_spec(platform, "mysql"@, "mysql"@, "mysql-server"@))
    } else if package == "php"@ {
        Some(package_probe_spec(platform, "php"@, "php"@, "php"@))
    } else {
        None
    }
}

/// The model of an optional command line.
pub open spec fn view_probe(probe: Option<CommandLine>) -> Option<CommandView> {
    match probe {
        Some(line) => Some(line@),
        None => None,
    }
}

/// The command that says whether a package of the stack is installed. A
/// package that the panel does not know has none and counts as absent.
pub fn stack_package_probe(platform: Platform, package: &str) -> (probe: Option<CommandLine>)
    ensures
        view_probe(probe) == stack_package_probe_spec(platform, package@),
{
    if same_text(package, "apache") {
        Some(package_probe(platform, "httpd", "httpd", "apache2"))
    } else if same_text(package, "mysql") {
        Some(package_probe(platform, "mysql", "mysql", "mysql-server"))
    } else if same_text(package, "php") {
        Some(package_probe(platform, "php", "php", "php"))
    } else {
        None
    }
}

/// The version of PHP to install where none is asked for.
pub open spec fn version_or_current(version: Seq<char>) -> Seq<char> {
    if version.len() == 0 {
        "8.3"@
    } else {
        version
    }
}

/// The command that installs a package of the stack; `None` for a package
/// that the panel does not know.
pub open spec fn install_command_spec(platform: Platform, package: Seq<char>, version: Seq<char>) -> Option<
    CommandView,
> {
    let wanted = version_or_current(version);
    match platform {
        Platform::MacOs => if package == "apache"@ {
            Some(command_spec("brew"@, seq!["install"@, "httpd"@]))
        } else if package == "mysql"@ {
            Some(command_spec("brew"@, seq!["install"@, "mysql"@]))
        } else if package == "php"@ {
            if version.len() == 0 || version == "8.3"@ {
                Some(command_spec("brew"@, seq!["install"@, "php"@]))
            } else {
                Some(command_spec("brew"@, seq!["install"@, "php@"@ + version]))
            }
        } else {
            None
        },
        Platform::Windows => if package == "apache"@ {
            Some(command_spec("choco"@, seq!["install"@, "apache-httpd"@, "-y"@]))
        } else if package == "mysql"@ {
            Some(command_spec("choco"@, seq!["install"@, "mysql"@, "-y"@]))
        } else if package == "php"@ {
            Some(command_spec("choco"@, seq!["install"@, "php"@, "--version="@ + wanted, "-y"@]))
        } else {
            None
        },
        Platform::Linux => if package == "apache"@ {
            Some(command_spec("sudo"@, seq!["apt"@, "install"@, "-y"@, "apache2"@]))
        } else if package == "mysql"@ {
            Some(command_spec("sudo"@, seq!["apt"@, "install"@, "-y"@, "mysql-server"@]))
        } else if package == "php"@ {
            Some(
                command_spec(
                    "sudo"@,
                    seq![
                        "apt"@,
                        "install"@,
                        "-y"@,
                        "php"@ + wanted,
                        "php"@ + wanted + "-fpm"@,
                        "php"@ + wanted + "-mysql"@,
                        "php"@ + wanted + "-curl"@,
                        "php"@ + wanted + "-gd"@,
                        "php"@ + wanted + "-mbstring"@,
                    ],
                ),
            )
        } else {
            None
        },
    }
}

/// The command that installs a package of the stack in a version; an empty
/// version stands for the current one.
pub fn install_command(platform: Platform, package: &str, version: &str) -> (line: Option<
    CommandLine,
>)
    ensures
        view_probe(line) == install_command_spec(platform, package@, version@),
{
    let apache = same_text(package, "apache");
    let mysql = same_text(package, "mysql");
    let php = same_text(package, "php");
    if !apache && !mysql && !php {
        return None;
    }
    let unset = version.is_empty();
    let wanted = if unset {
        "8.3"
    } else {
        version
    };
    match platform {
        Platform::MacOs => {
            if apache {
                let line = command("brew", vec!["install", "httpd"]);
                assert(line@.arguments =~= seq!["install"@, "httpd"@]);
                Some(line)
            } else if mysql {
                let line = command("brew", vec!["install", "mysql"]);
                assert(line@.arguments =~= seq!["install"@, "mysql"@]);
                Some(line)
            } else if unset || same_text(version, "8.3") {
                let line = command("brew", vec!["install", "php"]);
                assert(line@.arguments =~= seq!["install"@, "php"@]);
                Some(line)
            } else {
                let formula = "php@".to_owned().concat(version);
                let line = command("brew", vec!["install", formula.as_str()]);
                assert(line@.arguments =~= seq!["install"@, "php@"@ + version@]);
                Some(line)
            }
        },
        Platform::Windows => {
            if apache {
                let line = command("choco", vec!["install", "apache-httpd", "-y"]);
                assert(line@.arguments =~= seq!["install"@, "apache-httpd"@, "-y"@]);
                Some(line)
            } else if mysql {
                let line = command("choco", vec!["install", "mysql", "-y"]);
                assert(line@.arguments =~= seq!["install"@, "mysql"@, "-y"@]);
                Some(line)
            } else {
                let flag = "--version=".to_owned().concat(wanted);
                let line = command("choco", vec!["install", "php", flag.as_str(), "-y"]);
                assert(line@.arguments =~= seq![
                    "install"@,
                    "php"@,
                    "--version="@ + version_or_current(version@),
                    "-y"@,
                ]);
                Some(line)
            }
        },
        Platform::Linux => {
            if apache {
                let line = command("sudo", vec!["apt", "install", "-y", "apache2"]);
                assert(line@.arguments =~= seq!["apt"@, "install"@, "-y"@, "apache2"@]);
                Some(line)
            } else if mysql {
                let line = command("sudo", vec!["apt", "install", "-y", "mysql-server"]);
                assert(line@.arguments =~= seq!["apt"@, "install"@, "-y"@, "mysql-server"@]);
                Some(line)
            } else {
                let base = "php".to_owned().concat(wanted);
                let fpm = "php".to_owned().concat(wanted).concat("-fpm");
                let mysql_ext = "php".to_owned().concat(wanted).concat("-mysql");
                let curl = "php".to_owned().concat(wanted).concat("-curl");
                let gd = "php".to_owned().concat(wanted).concat("-gd");
                let mbstring = "php".to_owned().concat(wanted).concat("-mbstring");
                let line = command(
                    "sudo",
                    vec![
                        "apt",
                        "install",
                        "-y",
                        base.as_str(),
                        fpm.as_str(),
                        mysql_ext.as_str(),
                        curl.as_str(),
                        gd.as_str(),
                        mbstring.as_str(),
                    ],
                );
                assert(line@.arguments =~= seq![
                    "apt"@,
                    "install"@,
                    "-y"@,
                    "php"@ + version_or_current(version@),
                    "php"@ + version_or_current(version@) + "-fpm"@,
                    "php"@ + version_or_current(version@) + "-mysql"@,
                    "php"@ + version_or_current(version@) + "-curl"@,
                    "php"@ + version_or_current(version@) + "-gd"@,
                    "php"@ + version_or_current(version@) + "-mbstring"@,
                ]);
                Some(line)
            }
        },
    }
}

/// The command that restarts the PHP process manager; Windows has none.
pub open spec fn restart_php_fpm_spec(platform: Platform) -> Option<CommandView> {
    match platform {
        Platform::MacOs => Some(command_spec("brew"@, seq!["services"@, "restart"@, "php"@])),
        Platform::Windows => None,
        Platform::Linux => Some(
            command_spec("sudo"@, seq!["systemctl"@, "restart"@, "php-fpm"@]),
        ),
    }
}

/// The command that restarts the PHP process manager.
pub fn restart_php_fpm_command(platform: Platform) -> (line: Option<CommandLine>)
    ensures
        view_probe(line) == restart_php_fpm_spec(platform),
{
    match platform {
        Platform::MacOs => {
            let line = command("brew", vec!["services", "restart", "php"]);
            assert(line@.arguments =~= seq!["services"@, "restart"@, "php"@]);
            Some(line)
        },
        Platform::Windows => None,
        Platform::Linux => {
            let line = command("sudo", vec!["systemctl", "restart", "php-fpm"]);
            assert(line@.arguments =~= seq!["systemctl"@, "restart"@, "php-fpm"@]);
            Some(line)
        },
    }
}

} // verus!
