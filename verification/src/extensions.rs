//! The extensions of PHP: which are loaded, and the line of the ini file
//! that switches one on or off.

use crate::text::{
    chars_of, contains_text, find_text, lines_of, lowercase, lowercase_of, replace_all,
    replace_text, same_text, split_lines, text_of, view_lines,
};
use crate::commands::{command, command_spec, view_strings, CommandLine};
use crate::php::{first_present, lemma_first_present};
use crate::system::Platform;
use vstd::prelude::*;
use vstd::string::StringExecFns;

verus! {

/// An extension as the panel lists it.
#[derive(Debug, PartialEq, Eq)]
pub struct ExtensionInfo {
    pub name: String,
    pub enabled: bool,
    pub installed: bool,
}

/// The extensions that the panel lists, in the order in which it shows them.
pub open spec fn common_extensions() -> Seq<Seq<char>> {
    seq![
        "bcmath"@,
        "bz2"@,
        "calendar"@,
        "ctype"@,
        "curl"@,
        "dom"@,
        "exif"@,
        "fileinfo"@,
        "filter"@,
        "ftp"@,
        "gd"@,
        "gettext"@,
        "gmp"@,
        "iconv"@,
        "imagick"@,
        "imap"@,
        "intl"@,
        "json"@,
        "ldap"@,
        "mbstring"@,
        "memcached"@,
        "mongodb"@,
        "mysqli"@,
        "mysqlnd"@,
        "opcache"@,
        "openssl"@,
        "pcntl"@,
        "pdo"@,
        "pdo_mysql"@,
        "pdo_pgsql"@,
        "pdo_sqlite"@,
        "pgsql"@,
        "phar"@,
        "posix"@,
        "readline"@,
        "redis"@,
        "session"@,
        "shmop"@,
        "simplexml"@,
        "soap"@,
        "sockets"@,
        "sodium"@,
        "sqlite3"@,
        "ssh2"@,
        "sysvmsg"@,
        "sysvsem"@,
        "sysvshm"@,
        "tidy"@,
        "tokenizer"@,
        "xdebug"@,
        "xml"@,
        "xmlreader"@,
        "xmlrpc"@,
        "xmlwriter"@,
        "xsl"@,
        "zip"@,
        "zlib"@,
    ]
}

/// The names of a list of texts.
pub open spec fn view_names(names: Seq<&'static str>) -> Seq<Seq<char>> {
    Seq::new(names.len(), |i: int| names[i]@)
}

/// The extensions that the panel lists.
pub fn common_extension_names() -> (names: Vec<&'static str>)
    ensures
        view_names(names@) == common_extensions(),
{
    let names = vec![
        "bcmath",
        "bz2",
        "calendar",
        "ctype",
        "curl",
        "dom",
        "exif",
        "fileinfo",
        "filter",
        "ftp",
        "gd",
        "gettext",
        "gmp",
        "iconv",
        "imagick",
        "imap",
        "intl",
        "json",
        "ldap",
        "mbstring",
        "memcached",
        "mongodb",
        "mysqli",
        "mysqlnd",
        "opcache",
        "openssl",
        "pcntl",
        "pdo",
        "pdo_mysql",
        "pdo_pgsql",
        "pdo_sqlite",
        "pgsql",
        "phar",
        "posix",
        "readline",
        "redis",
        "session",
        "shmop",
        "simplexml",
        "soap",
        "sockets",
        "sodium",
        "sqlite3",
        "ssh2",
        "sysvmsg",
        "sysvsem",
        "sysvshm",
        "tidy",
        "tokenizer",
        "xdebug",
        "xml",
        "xmlreader",
        "xmlrpc",
        "xmlwriter",
        "xsl",
        "zip",
        "zlib",
    ];
    names
}

/// Whether a line of the list of loaded modules names the extension, case
/// apart.
pub open spec fn is_loaded(lines: Seq<Seq<char>>, name: Seq<char>) -> bool {
    exists|j: int| 0 <= j < lines.len() && lowercase_of(#[trigger] lines[j]) == lowercase_of(name)
}

/// Whether a text is among the texts of a list.
pub open spec fn is_among(listed: Seq<Seq<char>>, text: Seq<char>) -> bool {
    exists|j: int| 0 <= j < listed.len() && #[trigger] listed[j] == text
}

/// The extensions that the panel lists, for the lines of the list of loaded
/// modules and the names of the extensions, both in lower case already:
/// extension `i` is switched on where `lowered_names[i]` is among the lines.
/// All of them count as installed.
pub fn extension_infos_from(loaded: &Vec<String>, lowered_names: &Vec<String>) -> (infos: Vec<
    ExtensionInfo,
>)
    ensures
        infos@.len() == common_extensions().len(),
        forall|i: int|
            0 <= i < infos@.len() ==> {
                &&& (#[trigger] infos@[i]).name@ == common_extensions()[i]
                &&& infos@[i].installed
                &&& infos@[i].enabled == (i < lowered_names@.len() && is_among(
                    view_strings(loaded@),
                    lowered_names@[i]@,
                ))
            },
{
    let names = common_extension_names();
    let mut infos: Vec<ExtensionInfo> = Vec::new();
    let mut i: usize = 0;
    while i < names.len()
        invariant
            i <= names.len(),
            view_names(names@) == common_extensions(),
            infos@.len() == i,
            forall|k: int|
                0 <= k < i ==> {
                    &&& (#[trigger] infos@[k]).name@ == common_extensions()[k]
                    &&& infos@[k].installed
                    &&& infos@[k].enabled == (k < lowered_names@.len() && is_among(
                        view_strings(loaded@),
                        lowered_names@[k]@,
                    ))
                },
        decreases names.len() - i,
    {
        let mut enabled = false;
        if i < lowered_names.len() {
            let mut k: usize = 0;
            while k < loaded.len()
                invariant
                    k <= loaded.len(),
                    i < lowered_names.len(),
                    enabled == exists|n: int|
                        0 <= n < k && #[trigger] view_strings(loaded@)[n] == lowered_names@[i as int]@,
                decreases loaded.len() - k,
            {
                if same_text(loaded[k].as_str(), lowered_names[i].as_str()) {
                    enabled = true;
                    assert(view_strings(loaded@)[k as int] == lowered_names@[i as int]@);
                }
                k += 1;
            }
        }
        assert(view_names(names@)[i as int] == names@[i as int]@);
        infos.push(ExtensionInfo { name: names[i].to_owned(), enabled, installed: true });
        i += 1;
    }
    assert(view_names(names@).len() == names@.len());
    infos
}

/// The extensions that the panel lists, each switched on where `php -m`
/// names it among the loaded modules. All of them count as installed.
pub fn extension_infos(loaded_output: &str) -> (infos: Vec<ExtensionInfo>)
    ensures
        infos@.len() == common_extensions().len(),
        forall|i: int|
            0 <= i < infos@.len() ==> {
                &&& (#[trigger] infos@[i]).name@ == common_extensions()[i]
                &&& infos@[i].installed
                &&& infos@[i].enabled == is_loaded(lines_of(loaded_output@), common_extensions()[i])
            },
{
    let chars = chars_of(loaded_output);
    let lines = split_lines(&chars);
    let ghost all = lines_of(loaded_output@);
    let mut loaded: Vec<String> = Vec::new();
    let mut j: usize = 0;
    while j < lines.len()
        invariant
            j <= lines.len(),
            all == view_lines(lines@),
            loaded@.len() == j,
            forall|k: int| 0 <= k < j ==> (#[trigger] loaded@[k])@ == lowercase_of(all[k]),
        decreases lines.len() - j,
    {
        let line = text_of(&lines[j]);
        loaded.push(lowercase(line.as_str()));
        j += 1;
    }
    let names = common_extension_names();
    let mut lowered: Vec<String> = Vec::new();
    let mut n: usize = 0;
    while n < names.len()
        invariant
            n <= names.len(),
            view_names(names@) == common_extensions(),
            lowered@.len() == n,
            forall|k: int|
                0 <= k < n ==> (#[trigger] lowered@[k])@ == lowercase_of(common_extensions()[k]),
        decreases names.len() - n,
    {
        assert(view_names(names@)[n as int] == names@[n as int]@);
        lowered.push(lowercase(names[n]));
        n += 1;
    }
    let infos = extension_infos_from(&loaded, &lowered);
    proof {
        assert(view_names(names@).len() == names@.len());
        let held = view_strings(loaded@);
        assert forall|i: int| 0 <= i < infos@.len() implies (#[trigger] infos@[i]).enabled
            == is_loaded(all, common_extensions()[i]) by {
            let name = common_extensions()[i];
            if is_among(held, lowered@[i]@) {
                let k = choose|k: int| 0 <= k < held.len() && #[trigger] held[k] == lowered@[i]@;
                assert(loaded@[k]@ == lowercase_of(all[k]));
                assert(lowercase_of(all[k]) == lowercase_of(name));
            }
            if is_loaded(all, name) {
                let k = choose|k: int|
                    0 <= k < all.len() && lowercase_of(#[trigger] all[k]) == lowercase_of(name);
                assert(held[k] == loaded@[k]@);
                assert(held[k] == lowered@[i]@);
            }
        }
    }
    infos
}

/// The line of the ini file that loads an extension.
pub open spec fn extension_line(extension: Seq<char>) -> Seq<char> {
    "extension="@ + extension
}

/// The line of the ini file that names an extension without loading it.
pub open spec fn commented_extension_line(extension: Seq<char>) -> Seq<char> {
    ";extension="@ + extension
}

/// The ini file with an extension switched on or off.
///
/// To switch it on, every commented line of the extension loses its
/// semicolon; where there is none and the extension is not named at all, its
/// line is added at the end. To switch it off, every line of the extension
/// gets a semicolon, unless a commented line of it is there already.
/// Otherwise the file stays as it is.
pub open spec fn toggle_extension_spec(content: Seq<char>, extension: Seq<char>, enable: bool) -> Seq<
    char,
> {
    let line = extension_line(extension);
    let commented = commented_extension_line(extension);
    if enable {
        if contains_text(content, commented) {
            replace_all(content, commented, line)
        } else if !contains_text(content, line) {
            content + "\n"@ + line
        } else {
            content
        }
    } else {
        if contains_text(content, line) && !contains_text(content, commented) {
            replace_all(content, line, commented)
        } else {
            content
        }
    }
}

/// Switches an extension on or off in the text of an ini file.
pub fn toggle_extension(content: &str, extension: &str, enable: bool) -> (changed: String)
    ensures
        changed@ == toggle_extension_spec(content@, extension@, enable),
{
    let text = chars_of(content);
    let line = "extension=".to_owned().concat(extension);
    let commented = ";extension=".to_owned().concat(extension);
    let line_chars = chars_of(line.as_str());
    let commented_chars = chars_of(commented.as_str());
    let has_commented = find_text(&text, &commented_chars, 0, text.len()).is_some();
    let has_line = find_text(&text, &line_chars, 0, text.len()).is_some();
    if enable {
        if has_commented {
            text_of(&replace_text(&text, &commented_chars, &line_chars))
        } else if !has_line {
            content.to_owned().concat("\n").concat(line.as_str())
        } else {
            content.to_owned()
        }
    } else {
        if has_line && !has_commented {
            text_of(&replace_text(&text, &line_chars, &commented_chars))
        } else {
            content.to_owned()
        }
    }
}

/// The program that lists the loaded modules of a version of PHP: on macOS
/// the one of the version's formula unless the version is the current one,
/// elsewhere the one on the path.
pub open spec fn php_program_spec(platform: Platform, version: Seq<char>) -> Seq<char> {
    match platform {
        Platform::MacOs => if version == "8.3"@ || version.len() == 0 {
            "php"@
        } else {
            "/opt/homebrew/opt/php@"@ + version + "/bin/php"@
        },
        _ => "php"@,
    }
}

/// The command that lists the loaded modules of a version of PHP.
pub fn php_modules_command(platform: Platform, version: &str) -> (line: CommandLine)
    ensures
        line@ == command_spec(php_program_spec(platform, version@), seq!["-m"@]),
{
    let program = match platform {
        Platform::MacOs => {
            if same_text(version, "8.3") || version.is_empty() {
                "php".to_owned()
            } else {
                "/opt/homebrew/opt/php@".to_owned().concat(version).concat("/bin/php")
            }
        },
        _ => "php".to_owned(),
    };
    let line = command(program.as_str(), vec!["-m"]);
    assert(line@.arguments =~= seq!["-m"@]);
    line
}

/// Where the ini file of a version of PHP may lie, in order of preference.
/// Where none of the places exists the first one is taken.
pub open spec fn extension_ini_candidates_spec(platform: Platform, version: Seq<char>) -> Seq<
    Seq<char>,
> {
    match platform {
        Platform::MacOs => if version == "8.3"@ || version.len() == 0 {
            seq!["/opt/homebrew/etc/php/8.3/php.ini"@]
        } else {
            seq!["/opt/homebrew/etc/php/"@ + version + "/php.ini"@]
        },
        Platform::Windows => seq![
            "C:\\php\\php.ini"@,
            "C:\\xampp\\php\\php.ini"@,
            "C:\\wamp64\\bin\\php\\php"@ + version + "\\php.ini"@,
        ],
        Platform::Linux => seq!["/etc/php/"@ + version + "/fpm/php.ini"@],
    }
}

/// Where the ini file of a version of PHP may lie.
pub fn extension_ini_candidates(platform: Platform, version: &str) -> (places: Vec<String>)
    ensures
        view_strings(places@) == extension_ini_candidates_spec(platform, version@),
{
    let mut places: Vec<String> = Vec::new();
    match platform {
        Platform::MacOs => {
            if same_text(version, "8.3") || version.is_empty() {
                places.push("/opt/homebrew/etc/php/8.3/php.ini".to_owned());
            } else {
                places.push("/opt/homebrew/etc/php/".to_owned().concat(version).concat("/php.ini"));
            }
        },
        Platform::Windows => {
            places.push("C:\\php\\php.ini".to_owned());
            places.push("C:\\xampp\\php\\php.ini".to_owned());
            places.push(
                "C:\\wamp64\\bin\\php\\php".to_owned().concat(version).concat("\\php.ini"),
            );
        },
        Platform::Linux => {
            places.push("/etc/php/".to_owned().concat(version).concat("/fpm/php.ini"));
        },
    }
    places
}

/// The ini file to work on: the first of the places that exists, and the
/// first place where none does. `present[i]` says whether place `i` exists.
pub fn choose_ini_path(places: &Vec<String>, present: &Vec<bool>) -> (path: Option<String>)
    ensures
        match path {
            Some(found) => places@.len() > 0 && found@ == places@[if first_present(present@, 0)
                < places@.len() && first_present(present@, 0) < present@.len() {
                first_present(present@, 0)
            } else {
                0
            }]@,
            None => places@.len() == 0,
        },
{
    if places.len() == 0 {
        return None;
    }
    let mut i: usize = 0;
    while i < places.len() && i < present.len()
        invariant
            i <= places.len(),
            i <= present.len(),
            first_present(present@, 0) == first_present(present@, i as int),
        decreases places.len() - i,
    {
        if present[i] {
            return Some(places[i].clone());
        }
        i += 1;
    }
    proof {
        lemma_first_present(present@, i as int);
    }
    Some(places[0].clone())
}

/// What the panel says when the ini file is not where it was looked for.
pub fn ini_not_found_message(path: &str) -> (message: String)
    ensures
        message@ == "php.ini not found at "@ + path@,
{
    "php.ini not found at ".to_owned().concat(path)
}

} // verus!
