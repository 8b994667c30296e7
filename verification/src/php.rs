//! PHP installations: versions, extensions and where they are found.

use crate::text::{
    chars_of, find_either, first_of_two, lemma_first_of_two, parse_u8, parsed_u8, slice_of,
};
use vstd::prelude::*;
use vstd::string::StringExecFns;

verus! {

/// A version of PHP that can be installed or is installed.
#[derive(Debug, Clone, PartialEq, Eq)]
pub struct PhpVersion {
    pub version: String,
    pub major: u8,
    pub minor: u8,
    pub patch: u8,
    pub installed: bool,
    pub install_path: Option<String>,
    pub download_url: Option<String>,
}

/// An extension of PHP.
#[derive(Debug, Clone, PartialEq, Eq)]
pub struct PhpExtension {
    pub name: String,
    pub enabled: bool,
    pub version: Option<String>,
}

/// The configuration of one installed version of PHP. The settings are kept
/// in the order of the ini file; of two settings with one key the later one
/// counts.
#[derive(Debug, Clone, PartialEq, Eq)]
pub struct PhpConfig {
    pub version: String,
    pub install_path: String,
    pub php_ini_path: String,
    pub extensions: Vec<PhpExtension>,
    pub settings: Vec<(String, String)>,
}

/// A project with the PHP it runs on.
#[derive(Debug, Clone, PartialEq, Eq)]
pub struct ProjectProfile {
    pub id: String,
    pub name: String,
    pub path: String,
    pub php_version: String,
    pub extensions: Vec<String>,
    pub custom_ini_settings: Vec<(String, String)>,
}

/// A version that is on offer and not installed.
pub fn create_php_version(version: &str, major: u8, minor: u8, patch: u8) -> (php: PhpVersion)
    ensures
        php.version@ == version@,
        php.major == major,
        php.minor == minor,
        php.patch == patch,
        !php.installed,
        php.install_path is None,
        php.download_url is None,
{
    PhpVersion {
        version: version.to_owned(),
        major,
        minor,
        patch,
        installed: false,
        install_path: None,
        download_url: None,
    }
}

/// An extension that is switched on, of no known version.
fn enabled_extension(name: &str) -> (extension: PhpExtension)
    ensures
        extension.name@ == name@,
        extension.enabled,
        extension.version is None,
{
    PhpExtension { name: name.to_owned(), enabled: true, version: None }
}

/// The extensions that every version is taken to have: mbstring, curl and
/// openssl, all switched on. The version asked for makes no difference.
pub fn get_php_extensions(_version: &str) -> (extensions: Result<Vec<PhpExtension>, String>)
    ensures
        extensions matches Ok(list) && list@.len() == 3 && list@[0].name@ == "mbstring"@
            && list@[1].name@ == "curl"@ && list@[2].name@ == "openssl"@ && forall|i: int|
            0 <= i < 3 ==> (#[trigger] list@[i]).enabled && list@[i].version is None,
{
    let mut list: Vec<PhpExtension> = Vec::new();
    list.push(enabled_extension("mbstring"));
    list.push(enabled_extension("curl"));
    list.push(enabled_extension("openssl"));
    Ok(list)
}

/// The first two parts of a dotted version: the text before its second dot,
/// or all of it where it has fewer than two dots.
pub open spec fn major_minor_spec(version: Seq<char>) -> Seq<char> {
    let first_dot = first_of_two(version, 0, '.', '.');
    if first_dot >= version.len() {
        version
    } else {
        version.subrange(0, first_of_two(version, first_dot + 1, '.', '.'))
    }
}

/// The first two parts of a dotted version, such as "8.3" of "8.3.14".
pub fn major_minor(version: &str) -> (short: String)
    ensures
        short@ == major_minor_spec(version@),
{
    let chars = chars_of(version);
    let first_dot = find_either(&chars, 0, '.', '.');
    if first_dot >= chars.len() {
        version.to_owned()
    } else {
        let second_dot = find_either(&chars, first_dot + 1, '.', '.');
        slice_of(version, 0, second_dot)
    }
}

/// A path with one more component: the component alone where the path is
/// empty, else the two with one slash between them.
pub open spec fn join_path_spec(base: Seq<char>, name: Seq<char>) -> Seq<char> {
    if base.len() == 0 {
        name
    } else if base.last() == '/' {
        base + name
    } else {
        base + "/"@ + name
    }
}

/// Adds a component to a path.
pub fn join_path(base: &str, name: &str) -> (path: String)
    ensures
        path@ == join_path_spec(base@, name@),
{
    let length = base.unicode_len();
    if length == 0 {
        name.to_owned()
    } else if base.get_char(length - 1) == '/' {
        base.to_owned().concat(name)
    } else {
        base.to_owned().concat("/").concat(name)
    }
}

/// The directories in which Homebrew keeps a version of PHP: that of the
/// current formula and that of the formula of the version's first two parts.
pub open spec fn php_install_candidates_spec(version: Seq<char>) -> Seq<Seq<char>> {
    seq![
        "/opt/homebrew/Cellar/php/"@ + version,
        "/opt/homebrew/Cellar/php@"@ + major_minor_spec(version) + "/"@ + version,
    ]
}

/// The texts of a list of strings.
pub open spec fn view_paths(paths: Seq<String>) -> Seq<Seq<char>> {
    Seq::new(paths.len(), |i: int| paths[i]@)
}

/// The directories to look into for a version of PHP, in order of
/// preference.
pub fn php_install_candidates(version: &str) -> (candidates: Vec<String>)
    ensures
        view_paths(candidates@) == php_install_candidates_spec(version@),
{
    let mut candidates: Vec<String> = Vec::new();
    candidates.push("/opt/homebrew/Cellar/php/".to_owned().concat(version));
    let short = major_minor(version);
    candidates.push(
        "/opt/homebrew/Cellar/php@".to_owned().concat(short.as_str()).concat("/").concat(version),
    );
    candidates
}

/// The first position of a list of findings that holds `true`; the length of
/// the list where none does.
pub open spec fn first_present(present: Seq<bool>, from: int) -> int
    decreases present.len() - from,
{
    if from < 0 || from >= present.len() {
        present.len() as int
    } else if present[from] {
        from
    } else {
        first_present(present, from + 1)
    }
}

/// Where a version of PHP is installed: the first of its candidate
/// directories that was found to exist. `present[i]` says whether candidate
/// `i` exists; a candidate without a finding counts as absent.
pub fn find_php_install_path(version: &str, present: &Vec<bool>) -> (path: Option<String>)
    ensures
        match path {
            Some(found) => first_present(present@, 0) < present@.len() && first_present(
                present@,
                0,
            ) < 2 && found@ == php_install_candidates_spec(version@)[first_present(present@, 0)],
            None => first_present(present@, 0) >= present@.len() || first_present(present@, 0)
                >= 2,
        },
{
    let candidates = php_install_candidates(version);
    assert(view_paths(candidates@).len() == 2);
    let mut i: usize = 0;
    while i < present.len() && i < 2
        invariant
            i <= present.len(),
            i <= 2,
            first_present(present@, 0) == first_present(present@, i as int),
            candidates@.len() == 2,
            view_paths(candidates@) == php_install_candidates_spec(version@),
        decreases present.len() - i,
    {
        if present[i] {
            return Some(candidates[i].clone());
        }
        i += 1;
    }
    proof {
        lemma_first_present(present@, i as int);
    }
    None
}

/// `first_present` never finds anything before the position it starts from.
pub proof fn lemma_first_present(present: Seq<bool>, from: int)
    requires
        0 <= from,
    ensures
        first_present(present, from) >= from || first_present(present, from) == present.len(),
        first_present(present, from) <= present.len(),
    decreases present.len() - from,
{
    if from < present.len() && !present[from] {
        lemma_first_present(present, from + 1);
    }
}

/// The ini file of an installation: `etc/php.ini` below it where that file
/// exists, else the development template beside it.
pub open spec fn php_ini_path_spec(install_path: Seq<char>, ini_exists: bool) -> Seq<char> {
    let etc = join_path_spec(install_path, "etc"@);
    if ini_exists {
        join_path_spec(etc, "php.ini"@)
    } else {
        join_path_spec(etc, "php.ini-development"@)
    }
}

/// The ini file of an installation; `ini_exists` says whether `etc/php.ini`
/// was found below it.
pub fn find_php_ini_path(install_path: &str, ini_exists: bool) -> (path: String)
    ensures
        path@ == php_ini_path_spec(install_path@, ini_exists),
{
    let etc = join_path(install_path, "etc");
    if ini_exists {
        join_path(etc.as_str(), "php.ini")
    } else {
        join_path(etc.as_str(), "php.ini-development")
    }
}

/// The Homebrew formula of a version: `php` for the current line 8.4, else
/// `php@` with the version's first two parts.
pub open spec fn php_formula_spec(version: Seq<char>) -> Seq<char> {
    if version.len() >= 3 && version.subrange(0, 3) == "8.4"@ {
        "php"@
    } else {
        "php@"@ + major_minor_spec(version)
    }
}

/// The Homebrew formula that installs or removes a version.
pub fn php_formula(version: &str) -> (formula: String)
    ensures
        formula@ == php_formula_spec(version@),
{
    let chars = chars_of(version);
    let current = chars_of("8.4");
    proof {
        reveal_strlit("8.4");
    }
    if crate::text::is_match_at(&chars, &current, 0) {
        "php".to_owned()
    } else {
        "php@".to_owned().concat(major_minor(version).as_str())
    }
}

/// The number that a part of a version stands for; 0 where it is no number
/// that fits.
pub open spec fn part_number(part: Seq<char>) -> u8 {
    match parsed_u8(part) {
        Some(number) => number,
        None => 0,
    }
}

/// An installed version as the name of its directory and the path of the
/// directory tell it: the name is the version, its parts between the dots
/// give major, minor and patch, a part that is no number counting as 0 and a
/// missing third part too. A name without a dot names no version.
pub open spec fn installed_version_spec(name: Seq<char>, path: Seq<char>) -> Option<PhpVersionView> {
    let first_dot = first_of_two(name, 0, '.', '.');
    if first_dot < 0 || first_dot >= name.len() {
        None
    } else {
        let second_dot = first_of_two(name, first_dot + 1, '.', '.');
        let patch = if second_dot < first_dot + 1 || second_dot >= name.len() {
            0u8
        } else {
            part_number(name.subrange(second_dot + 1, first_of_two(name, second_dot + 1, '.', '.')))
        };
        Some(
            PhpVersionView {
                version: name,
                major: part_number(name.subrange(0, first_dot)),
                minor: if second_dot < first_dot + 1 || second_dot > name.len() {
                    0u8
                } else {
                    part_number(name.subrange(first_dot + 1, second_dot))
                },
                patch: patch,
                installed: true,
                install_path: Some(path),
                download_url: None,
            },
        )
    }
}

/// Model of a version of PHP.
pub struct PhpVersionView {
    pub version: Seq<char>,
    pub major: u8,
    pub minor: u8,
    pub patch: u8,
    pub installed: bool,
    pub install_path: Option<Seq<char>>,
    pub download_url: Option<Seq<char>>,
}

impl View for PhpVersion {
    type V = PhpVersionView;

    open spec fn view(&self) -> PhpVersionView {
        PhpVersionView {
            version: self.version@,
            major: self.major,
            minor: self.minor,
            patch: self.patch,
            installed: self.installed,
            install_path: match self.install_path {
                Some(path) => Some(path@),
                None => None,
            },
            download_url: match self.download_url {
                Some(url) => Some(url@),
                None => None,
            },
        }
    }
}

/// The model of an optional version.
pub open spec fn view_version(version: Option<PhpVersion>) -> Option<PhpVersionView> {
    match version {
        Some(php) => Some(php@),
        None => None,
    }
}

/// The number that a part of a version stands for.
fn number_of_part(name: &str, from: usize, to: usize) -> (number: u8)
    requires
        from <= to <= name@.len(),
    ensures
        number == part_number(name@.subrange(from as int, to as int)),
{
    match parse_u8(slice_of(name, from, to).as_str()) {
        Some(number) => number,
        None => 0,
    }
}

/// The installed version that a directory of the Homebrew cellar holds;
/// `name` is the name of the directory and `path` its path.
pub fn installed_version(name: &str, path: &str) -> (version: Option<PhpVersion>)
    ensures
        view_version(version) == installed_version_spec(name@, path@),
{
    let chars = chars_of(name);
    let first_dot = find_either(&chars, 0, '.', '.');
    if first_dot >= chars.len() {
        return None;
    }
    proof {
        lemma_first_of_two(name@, first_dot + 1, '.', '.');
    }
    let second_dot = find_either(&chars, first_dot + 1, '.', '.');
    let major = number_of_part(name, 0, first_dot);
    let minor = number_of_part(name, first_dot + 1, second_dot);
    let patch = if second_dot >= chars.len() {
        0
    } else {
        proof {
            lemma_first_of_two(name@, second_dot + 1, '.', '.');
        }
        let third_dot = find_either(&chars, second_dot + 1, '.', '.');
        number_of_part(name, second_dot + 1, third_dot)
    };
    Some(
        PhpVersion {
            version: name.to_owned(),
            major,
            minor,
            patch,
            installed: true,
            install_path: Some(path.to_owned()),
            download_url: None,
        },
    )
}

/// Whether a directory of the Homebrew cellar is that of a PHP formula: its
/// name is `php` or begins with `php@`.
pub open spec fn is_php_formula_directory_spec(name: Seq<char>) -> bool {
    name == "php"@ || crate::text::matches_at(name, "php@"@, 0)
}

/// Whether a directory of the Homebrew cellar is that of a PHP formula.
pub fn is_php_formula_directory(name: &str) -> (is_formula: bool)
    ensures
        is_formula == is_php_formula_directory_spec(name@),
{
    if crate::text::same_text(name, "php") {
        return true;
    }
    let chars = chars_of(name);
    let prefix = chars_of("php@");
    crate::text::is_match_at(&chars, &prefix, 0)
}

/// The versions of PHP that Homebrew offers.
pub fn available_php_versions() -> (versions: Vec<PhpVersion>)
    ensures
        versions@.len() == 6,
        versions@[0].version@ == "8.4.1"@ && versions@[0].major == 8 && versions@[0].minor == 4
            && versions@[0].patch == 1,
        versions@[1].version@ == "8.3.14"@ && versions@[1].major == 8 && versions@[1].minor == 3
            && versions@[1].patch == 14,
        versions@[2].version@ == "8.2.26"@ && versions@[2].major == 8 && versions@[2].minor == 2
            && versions@[2].patch == 26,
        versions@[3].version@ == "8.1.30"@ && versions@[3].major == 8 && versions@[3].minor == 1
            && versions@[3].patch == 30,
        versions@[4].version@ == "8.0.30"@ && versions@[4].major == 8 && versions@[4].minor == 0
            && versions@[4].patch == 30,
        versions@[5].version@ == "7.4.33"@ && versions@[5].major == 7 && versions@[5].minor == 4
            && versions@[5].patch == 33,
        forall|i: int|
            0 <= i < 6 ==> !(#[trigger] versions@[i]).installed && versions@[i].install_path is None
                && versions@[i].download_url is None,
{
    let mut versions: Vec<PhpVersion> = Vec::new();
    versions.push(create_php_version("8.4.1", 8, 4, 1));
    versions.push(create_php_version("8.3.14", 8, 3, 14));
    versions.push(create_php_version("8.2.26", 8, 2, 26));
    versions.push(create_php_version("8.1.30", 8, 1, 30));
    versions.push(create_php_version("8.0.30", 8, 0, 30));
    versions.push(create_php_version("7.4.33", 7, 4, 33));
    versions
}

} // verus!
