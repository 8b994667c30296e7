//! The machine the panel runs on: its platform, its language, its services.

use crate::ini::{trim_chars, trimmed};
use crate::text::{
    chars_of, copy_range, find_either, first_of_two, lines_of, lowercase, lowercase_of, same_text,
    split_lines, strip_char, stripped, text_of,
};
use vstd::prelude::*;
use vstd::string::StringExecFns;

verus! {

/// The kind of operating system.
#[derive(Debug, Clone, Copy, PartialEq, Eq, Structural)]
pub enum Platform {
    Windows,
    MacOs,
    Linux,
}

/// Which services of the stack are running.
#[derive(Debug, Clone, Copy, PartialEq, Eq, Structural)]
pub struct ServicesStatus {
    pub apache: bool,
    pub mysql: bool,
    pub php: bool,
    pub all_running: bool,
}

impl ServicesStatus {
    /// The status of the three services; all are running where each is.
    pub fn new(apache: bool, mysql: bool, php: bool) -> (status: ServicesStatus)
        ensures
            status.apache == apache,
            status.mysql == mysql,
            status.php == php,
            status.all_running == (apache && mysql && php),
    {
        ServicesStatus { apache, mysql, php, all_running: apache && mysql && php }
    }
}

/// Where the registry file lies below the home directory.
pub open spec fn hosts_file_path_spec(home: Seq<char>, platform: Platform) -> Seq<char> {
    match platform {
        Platform::Windows => home + "\\localhost-manager\\conf\\hosts.json"@,
        _ => home + "/localhost-manager/conf/hosts.json"@,
    }
}

/// The path of the registry file for a home directory.
pub fn get_hosts_file_path(home: &str, platform: Platform) -> (path: String)
    ensures
        path@ == hosts_file_path_spec(home@, platform),
{
    match platform {
        Platform::Windows => home.to_owned().concat("\\localhost-manager\\conf\\hosts.json"),
        _ => home.to_owned().concat("/localhost-manager/conf/hosts.json"),
    }
}

/// The language of the panel for a language code in lower case: one of the
/// five that the panel speaks, English for every other code.
pub open spec fn language_for_spec(lowered: Seq<char>) -> Seq<char> {
    if lowered == "es"@ || lowered == "es_es"@ || lowered == "es_mx"@ {
        "es"@
    } else if lowered == "fr"@ || lowered == "fr_fr"@ || lowered == "fr_ca"@ {
        "fr"@
    } else if lowered == "de"@ || lowered == "de_de"@ {
        "de"@
    } else if lowered == "pt"@ || lowered == "pt_br"@ || lowered == "pt_pt"@ {
        "pt"@
    } else {
        "en"@
    }
}

/// The language of the panel for a language code that is in lower case.
pub fn language_for(lowered: &str) -> (language: String)
    ensures
        language@ == language_for_spec(lowered@),
{
    let same = |other: &str| -> (r: bool)
        ensures
            r == (lowered@ == other@),
        { same_text(lowered, other) };
    if same("es") || same("es_es") || same("es_mx") {
        "es".to_owned()
    } else if same("fr") || same("fr_fr") || same("fr_ca") {
        "fr".to_owned()
    } else if same("de") || same("de_de") {
        "de".to_owned()
    } else if same("pt") || same("pt_br") || same("pt_pt") {
        "pt".to_owned()
    } else {
        "en".to_owned()
    }
}

/// The language of the panel for a language code, whatever its case.
pub fn map_language_code(code: &str) -> (language: String)
    ensures
        language@ == language_for_spec(lowercase_of(code@)),
{
    let lowered = lowercase(code);
    language_for(lowered.as_str())
}

/// The language code in the name of a locale such as `de_DE.UTF-8`: what
/// stands before its first dot, and of that what stands before its first
/// underscore.
pub open spec fn locale_language(locale: Seq<char>) -> Seq<char> {
    let dot = first_of_two(locale, 0, '.', '.');
    let before_dot = if 0 <= dot <= locale.len() {
        locale.subrange(0, dot)
    } else {
        locale
    };
    let score = first_of_two(before_dot, 0, '_', '_');
    if 0 <= score <= before_dot.len() {
        before_dot.subrange(0, score)
    } else {
        before_dot
    }
}

/// The language of the panel for the locale that the environment names.
pub fn language_from_locale(locale: &str) -> (language: String)
    ensures
        language@ == language_for_spec(lowercase_of(locale_language(locale@))),
{
    let chars = chars_of(locale);
    let dot = find_either(&chars, 0, '.', '.');
    let before_dot = copy_range(&chars, 0, dot);
    let score = find_either(&before_dot, 0, '_', '_');
    let code = text_of(&copy_range(&before_dot, 0, score));
    map_language_code(code.as_str())
}

/// The language code in what macOS prints for the list of the user's
/// languages: of the second line, without white space, quotes and commas
/// around it, what stands before the first hyphen. `None` where there is no
/// second line.
pub open spec fn apple_language(output: Seq<char>) -> Option<Seq<char>> {
    let lines = lines_of(output);
    if lines.len() < 2 {
        None
    } else {
        let entry = stripped(stripped(trimmed(lines[1]), '"'), ',');
        let hyphen = first_of_two(entry, 0, '-', '-');
        if 0 <= hyphen <= entry.len() {
            Some(entry.subrange(0, hyphen))
        } else {
            Some(entry)
        }
    }
}

/// The language of the panel for what macOS prints for the list of the
/// user's languages.
pub fn language_from_apple_languages(output: &str) -> (language: Option<String>)
    ensures
        match language {
            Some(found) => apple_language(output@) matches Some(code) && found@
                == language_for_spec(lowercase_of(code)),
            None => apple_language(output@) is None,
        },
{
    let chars = chars_of(output);
    let lines = split_lines(&chars);
    if lines.len() < 2 {
        return None;
    }
    let entry = strip_char(&strip_char(&trim_chars(&lines[1]), '"'), ',');
    let hyphen = find_either(&entry, 0, '-', '-');
    let code = text_of(&copy_range(&entry, 0, hyphen));
    Some(map_language_code(code.as_str()))
}

} // verus!
