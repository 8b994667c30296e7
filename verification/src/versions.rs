//! Readers of what the tools of the stack print about their version.

use crate::commands::{owned_texts, view_strings, view_strs};
use crate::php::{major_minor, major_minor_spec};
use crate::system::Platform;
use crate::text::{
    chars_of, find_either, find_text, first_match, first_of_two, is_match_at, lines_of, matches_at,
    same_text, slice_of, split_lines, split_words, text_of, view_lines, words_of,
};
use vstd::string::StringExecFns;
use vstd::prelude::*;

verus! {

/// The version in what `php -v` prints: in the first line, what follows the
/// first "PHP ", up to the next space wherever it stands. `None` where the
/// first line has no "PHP " or no space follows.
pub open spec fn php_version_spec(output: Seq<char>) -> Option<Seq<char>> {
    let line_end = first_of_two(output, 0, '\n', '\n');
    match first_match(output, "PHP "@, 0, line_end) {
        Some(start) => {
            let end = first_of_two(output, start + 4, ' ', ' ');
            if end < output.len() {
                Some(output.subrange(start + 4, end))
            } else {
                None
            }
        },
        None => None,
    }
}

/// Where the version of Apache ends: at a space, a closing bracket or the
/// end of the line, a carriage return before the line feed belonging to the
/// end of the line.
pub open spec fn apache_version_end(output: Seq<char>, from: int) -> int
    decreases output.len() - from,
{
    if from < 0 || from >= output.len() {
        output.len() as int
    } else if output[from] == ' ' || output[from] == ')' || output[from] == '\n' || (output[from]
        == '\r' && from + 1 < output.len() && output[from + 1] == '\n') {
        from
    } else {
        apache_version_end(output, from + 1)
    }
}

/// The version in what `httpd -v` prints: what follows the first "Apache/",
/// up to the next space or closing bracket or to the end of its line.
pub open spec fn apache_version_spec(output: Seq<char>) -> Option<Seq<char>> {
    match first_match(output, "Apache/"@, 0, output.len() as int) {
        Some(start) => Some(output.subrange(start + 7, apache_version_end(output, start + 7))),
        None => None,
    }
}

/// The version in what `mysql --version` prints: what follows the first
/// " Ver ", up to the next space or hyphen or to the end.
pub open spec fn mysql_version_spec(output: Seq<char>) -> Option<Seq<char>> {
    match first_match(output, " Ver "@, 0, output.len() as int) {
        Some(start) => Some(output.subrange(start + 5, first_of_two(output, start + 5, ' ', '-'))),
        None => None,
    }
}

/// The model of an optional text.
pub open spec fn view_found(found: Option<String>) -> Option<Seq<char>> {
    match found {
        Some(text) => Some(text@),
        None => None,
    }
}

/// Reads the version of PHP from what `php -v` prints.
pub fn parse_php_version(output: &str) -> (version: Option<String>)
    ensures
        view_found(version) == php_version_spec(output@),
{
    let chars = chars_of(output);
    let needle = chars_of("PHP ");
    proof {
        reveal_strlit("PHP ");
    }
    let line_end = find_either(&chars, 0, '\n', '\n');
    match find_text(&chars, &needle, 0, line_end) {
        Some(start) => {
            proof {
                crate::text::lemma_first_match(output@, "PHP "@, 0, line_end as int);
                crate::text::lemma_first_of_two(output@, start + 4, ' ', ' ');
            }
            let from = start + 4;
            let end = find_either(&chars, from, ' ', ' ');
            if end < chars.len() {
                Some(slice_of(output, from, end))
            } else {
                None
            }
        },
        None => None,
    }
}

/// The position where the version of Apache ends.
fn find_apache_version_end(text: &Vec<char>, from: usize) -> (at: usize)
    requires
        from <= text.len(),
    ensures
        at == apache_version_end(text@, from as int),
        from <= at <= text.len(),
{
    let mut i: usize = from;
    while i < text.len()
        invariant
            from <= i <= text.len(),
            apache_version_end(text@, from as int) == apache_version_end(text@, i as int),
        decreases text.len() - i,
    {
        let c = text[i];
        if c == ' ' || c == ')' || c == '\n' {
            return i;
        }
        if c == '\r' && i + 1 < text.len() && text[i + 1] == '\n' {
            return i;
        }
        i += 1;
    }
    text.len()
}

/// Reads the version of Apache from what `httpd -v` prints.
pub fn parse_apache_version(output: &str) -> (version: Option<String>)
    ensures
        view_found(version) == apache_version_spec(output@),
{
    let chars = chars_of(output);
    let needle = chars_of("Apache/");
    proof {
        reveal_strlit("Apache/");
    }
    match find_text(&chars, &needle, 0, chars.len()) {
        Some(start) => {
            proof {
                crate::text::lemma_first_match(output@, "Apache/"@, 0, output@.len() as int);
            }
            let from = start + 7;
            let end = find_apache_version_end(&chars, from);
            Some(slice_of(output, from, end))
        },
        None => None,
    }
}

/// Reads the version of MySQL from what `mysql --version` prints.
pub fn parse_mysql_version(output: &str) -> (version: Option<String>)
    ensures
        view_found(version) == mysql_version_spec(output@),
{
    let chars = chars_of(output);
    let needle = chars_of(" Ver ");
    proof {
        reveal_strlit(" Ver ");
    }
    match find_text(&chars, &needle, 0, chars.len()) {
        Some(start) => {
            proof {
                crate::text::lemma_first_match(output@, " Ver "@, 0, output@.len() as int);
                crate::text::lemma_first_of_two(output@, start + 5, ' ', '-');
            }
            let from = start + 5;
            let end = find_either(&chars, from, ' ', '-');
            Some(slice_of(output, from, end))
        },
        None => None,
    }
}

/// Where the `php` program may lie, in the order in which the places are
/// tried.
pub open spec fn php_binary_candidates_spec(platform: Platform) -> Seq<Seq<char>> {
    match platform {
        Platform::Windows => seq![
            "C:\\xampp\\php\\php.exe"@,
            "C:\\wamp64\\bin\\php\\php8.3.0\\php.exe"@,
            "C:\\wamp64\\bin\\php\\php8.2.0\\php.exe"@,
            "C:\\wamp64\\bin\\php\\php8.1.0\\php.exe"@,
            "C:\\wamp64\\bin\\php\\php8.0.0\\php.exe"@,
            "C:\\laragon\\bin\\php\\php-8.3.0-nts-Win32-vs16-x64\\php.exe"@,
            "C:\\laragon\\bin\\php\\php-8.2.0-nts-Win32-vs16-x64\\php.exe"@,
            "php.exe"@,
            "php"@,
        ],
        _ => seq![
            "/opt/homebrew/opt/php@8.4/bin/php"@,
            "/opt/homebrew/opt/php@8.3/bin/php"@,
            "/opt/homebrew/opt/php@8.2/bin/php"@,
            "/opt/homebrew/opt/php@8.1/bin/php"@,
            "/opt/homebrew/bin/php"@,
            "/usr/local/bin/php"@,
            "php"@,
        ],
    }
}

/// Where the `php` program may lie.
pub fn php_binary_candidates(platform: Platform) -> (places: Vec<String>)
    ensures
        view_strings(places@) == php_binary_candidates_spec(platform),
{
    let places: Vec<&str> = match platform {
        Platform::Windows => vec![
            "C:\\xampp\\php\\php.exe",
            "C:\\wamp64\\bin\\php\\php8.3.0\\php.exe",
            "C:\\wamp64\\bin\\php\\php8.2.0\\php.exe",
            "C:\\wamp64\\bin\\php\\php8.1.0\\php.exe",
            "C:\\wamp64\\bin\\php\\php8.0.0\\php.exe",
            "C:\\laragon\\bin\\php\\php-8.3.0-nts-Win32-vs16-x64\\php.exe",
            "C:\\laragon\\bin\\php\\php-8.2.0-nts-Win32-vs16-x64\\php.exe",
            "php.exe",
            "php",
        ],
        _ => vec![
            "/opt/homebrew/opt/php@8.4/bin/php",
            "/opt/homebrew/opt/php@8.3/bin/php",
            "/opt/homebrew/opt/php@8.2/bin/php",
            "/opt/homebrew/opt/php@8.1/bin/php",
            "/opt/homebrew/bin/php",
            "/usr/local/bin/php",
            "php",
        ],
    };
    owned_texts(&places)
}

/// Where the `httpd` program may lie, in the order in which the places are
/// tried.
pub open spec fn apache_binary_candidates_spec(platform: Platform) -> Seq<Seq<char>> {
    match platform {
        Platform::Windows => seq![
            "C:\\xampp\\apache\\bin\\httpd.exe"@,
            "C:\\wamp64\\bin\\apache\\apache2.4.54\\bin\\httpd.exe"@,
            "C:\\wamp64\\bin\\apache\\apache2.4.51\\bin\\httpd.exe"@,
            "C:\\laragon\\bin\\apache\\httpd-2.4.54-win64-VS16\\bin\\httpd.exe"@,
            "httpd.exe"@,
            "httpd"@,
        ],
        _ => seq![
            "/opt/homebrew/opt/httpd/bin/httpd"@,
            "/opt/homebrew/bin/httpd"@,
            "/usr/local/bin/httpd"@,
            "/usr/sbin/httpd"@,
            "httpd"@,
        ],
    }
}

/// Where the `httpd` program may lie.
pub fn apache_binary_candidates(platform: Platform) -> (places: Vec<String>)
    ensures
        view_strings(places@) == apache_binary_candidates_spec(platform),
{
    let places: Vec<&str> = match platform {
        Platform::Windows => vec![
            "C:\\xampp\\apache\\bin\\httpd.exe",
            "C:\\wamp64\\bin\\apache\\apache2.4.54\\bin\\httpd.exe",
            "C:\\wamp64\\bin\\apache\\apache2.4.51\\bin\\httpd.exe",
            "C:\\laragon\\bin\\apache\\httpd-2.4.54-win64-VS16\\bin\\httpd.exe",
            "httpd.exe",
            "httpd",
        ],
        _ => vec![
            "/opt/homebrew/opt/httpd/bin/httpd",
            "/opt/homebrew/bin/httpd",
            "/usr/local/bin/httpd",
            "/usr/sbin/httpd",
            "httpd",
        ],
    };
    owned_texts(&places)
}

/// Where the `mysql` program may lie, in the order in which the places are
/// tried.
pub open spec fn mysql_binary_candidates_spec(platform: Platform) -> Seq<Seq<char>> {
    match platform {
        Platform::Windows => seq![
            "C:\\xampp\\mysql\\bin\\mysql.exe"@,
            "C:\\wamp64\\bin\\mysql\\mysql8.0.31\\bin\\mysql.exe"@,
            "C:\\wamp64\\bin\\mysql\\mysql8.0.21\\bin\\mysql.exe"@,
            "C:\\laragon\\bin\\mysql\\mysql-8.0.30-winx64\\bin\\mysql.exe"@,
            "mysql.exe"@,
            "mysql"@,
        ],
        _ => seq![
            "/opt/homebrew/opt/mysql@8.4/bin/mysql"@,
            "/opt/homebrew/opt/mysql@8.0/bin/mysql"@,
            "/opt/homebrew/bin/mysql"@,
            "/usr/local/bin/mysql"@,
            "mysql"@,
        ],
    }
}

/// Where the `mysql` program may lie.
pub fn mysql_binary_candidates(platform: Platform) -> (places: Vec<String>)
    ensures
        view_strings(places@) == mysql_binary_candidates_spec(platform),
{
    let places: Vec<&str> = match platform {
        Platform::Windows => vec![
            "C:\\xampp\\mysql\\bin\\mysql.exe",
            "C:\\wamp64\\bin\\mysql\\mysql8.0.31\\bin\\mysql.exe",
            "C:\\wamp64\\bin\\mysql\\mysql8.0.21\\bin\\mysql.exe",
            "C:\\laragon\\bin\\mysql\\mysql-8.0.30-winx64\\bin\\mysql.exe",
            "mysql.exe",
            "mysql",
        ],
        _ => vec![
            "/opt/homebrew/opt/mysql@8.4/bin/mysql",
            "/opt/homebrew/opt/mysql@8.0/bin/mysql",
            "/opt/homebrew/bin/mysql",
            "/usr/local/bin/mysql",
            "mysql",
        ],
    };
    owned_texts(&places)
}

/// Whether a text is among the texts of a list.
pub open spec fn is_listed(listed: Seq<Seq<char>>, text: Seq<char>) -> bool {
    exists|i: int| 0 <= i < listed.len() && #[trigger] listed[i] == text
}

/// Whether a line of `brew list --versions` is that of a PHP formula.
pub open spec fn is_php_formula_line(line: Seq<char>) -> bool {
    matches_at(line, "php@"@, 0) || matches_at(line, "php "@, 0)
}

/// The versions of PHP that lines of `brew list --versions` name: of each
/// line of a PHP formula the first two parts of its second word, each
/// version once, in order of appearance.
pub open spec fn brew_versions_of_lines(lines: Seq<Seq<char>>) -> Seq<Seq<char>>
    decreases lines.len(),
{
    if lines.len() == 0 {
        Seq::empty()
    } else {
        let before = brew_versions_of_lines(lines.drop_last());
        let words = words_of(lines.last(), 0);
        if is_php_formula_line(lines.last()) && words.len() >= 2 && !is_listed(
            before,
            major_minor_spec(words[1]),
        ) {
            before.push(major_minor_spec(words[1]))
        } else {
            before
        }
    }
}

/// The versions of PHP that `brew list --versions` names.
pub open spec fn brew_php_versions_spec(output: Seq<char>) -> Seq<Seq<char>> {
    brew_versions_of_lines(lines_of(output))
}

/// Whether a text is among the strings of a list.
fn is_in_list(listed: &Vec<String>, text: &str) -> (found: bool)
    ensures
        found == is_listed(view_strings(listed@), text@),
{
    let mut i: usize = 0;
    while i < listed.len()
        invariant
            i <= listed.len(),
            forall|j: int| 0 <= j < i ==> (#[trigger] listed@[j])@ != text@,
        decreases listed.len() - i,
    {
        if same_text(listed[i].as_str(), text) {
            assert(view_strings(listed@)[i as int] == text@);
            return true;
        }
        i += 1;
    }
    false
}

/// Reads the versions of PHP from what `brew list --versions` prints.
pub fn brew_php_versions(output: &str) -> (versions: Vec<String>)
    ensures
        view_strings(versions@) == brew_php_versions_spec(output@),
{
    let chars = chars_of(output);
    let lines = split_lines(&chars);
    let ghost all = lines_of(output@);
    let with_at = chars_of("php@");
    let with_space = chars_of("php ");
    let mut versions: Vec<String> = Vec::new();
    let mut i: usize = 0;
    while i < lines.len()
        invariant
            i <= lines.len(),
            all == view_lines(lines@),
            with_at@ == "php@"@,
            with_space@ == "php "@,
            view_strings(versions@) == brew_versions_of_lines(all.take(i as int)),
        decreases lines.len() - i,
    {
        proof {
            assert(all.take(i + 1).drop_last() =~= all.take(i as int));
        }
        let line = &lines[i];
        if is_match_at(line, &with_at, 0) || is_match_at(line, &with_space, 0) {
            let words = split_words(line);
            if words.len() >= 2 {
                let word = text_of(&words[1]);
                let short = major_minor(word.as_str());
                if !is_in_list(&versions, short.as_str()) {
                    versions.push(short);
                }
            }
        }
        i += 1;
    }
    assert(all.take(i as int) =~= all);
    versions
}

/// The version of PHP that the first line of what `php -v` prints names: the
/// first two parts of its second word.
pub open spec fn banner_php_version_spec(output: Seq<char>) -> Option<Seq<char>> {
    let lines = lines_of(output);
    if lines.len() == 0 {
        None
    } else {
        let words = words_of(lines[0], 0);
        if words.len() >= 2 {
            Some(major_minor_spec(words[1]))
        } else {
            None
        }
    }
}

/// Reads the first two parts of the version of PHP from the first line of
/// what `php -v` prints.
pub fn banner_php_version(output: &str) -> (version: Option<String>)
    ensures
        view_found(version) == banner_php_version_spec(output@),
{
    let chars = chars_of(output);
    let lines = split_lines(&chars);
    if lines.len() == 0 {
        return None;
    }
    let words = split_words(&lines[0]);
    if words.len() >= 2 {
        let word = text_of(&words[1]);
        Some(major_minor(word.as_str()))
    } else {
        None
    }
}

/// The versions of PHP that a Linux machine is searched for.
pub open spec fn linux_php_versions() -> Seq<Seq<char>> {
    seq!["7.4"@, "8.0"@, "8.1"@, "8.2"@, "8.3"@]
}

/// Where the program of each version of PHP lies on Linux.
pub open spec fn linux_php_places() -> Seq<Seq<char>> {
    Seq::new(linux_php_versions().len(), |i: int| "/usr/bin/php"@ + linux_php_versions()[i])
}

/// Where the program of each version of PHP lies on Linux.
pub fn linux_php_candidates() -> (places: Vec<String>)
    ensures
        view_strings(places@) == linux_php_places(),
{
    let versions: Vec<&str> = vec!["7.4", "8.0", "8.1", "8.2", "8.3"];
    let mut places: Vec<String> = Vec::new();
    let mut i: usize = 0;
    while i < versions.len()
        invariant
            i <= versions.len(),
            view_strs(versions@) == linux_php_versions(),
            places@.len() == i,
            forall|j: int|
                0 <= j < i ==> (#[trigger] places@[j])@ == "/usr/bin/php"@ + linux_php_versions()[j],
        decreases versions.len() - i,
    {
        places.push("/usr/bin/php".to_owned().concat(versions[i]));
        i += 1;
    }
    places
}

/// The versions whose program was found, in order.
pub open spec fn present_versions(versions: Seq<Seq<char>>, present: Seq<bool>) -> Seq<Seq<char>>
    decreases versions.len(),
{
    if versions.len() == 0 {
        Seq::empty()
    } else {
        let before = present_versions(versions.drop_last(), present);
        let i = versions.len() - 1;
        if i < present.len() && present[i] {
            before.push(versions.last())
        } else {
            before
        }
    }
}

/// The versions of PHP that are installed on a Linux machine; `present[i]`
/// says whether the program of candidate `i` exists, and a candidate without
/// a finding counts as absent.
pub fn linux_php_installed(present: &Vec<bool>) -> (versions: Vec<String>)
    ensures
        view_strings(versions@) == present_versions(linux_php_versions(), present@),
{
    let all: Vec<&str> = vec!["7.4", "8.0", "8.1", "8.2", "8.3"];
    let mut versions: Vec<String> = Vec::new();
    let mut i: usize = 0;
    while i < all.len()
        invariant
            i <= all.len(),
            all@.len() == 5,
            view_strs(all@) == linux_php_versions(),
            view_strings(versions@) == present_versions(
                linux_php_versions().take(i as int),
                present@,
            ),
        decreases all.len() - i,
    {
        proof {
            assert(linux_php_versions().take(i + 1).drop_last() =~= linux_php_versions().take(
                i as int,
            ));
        }
        if i < present.len() && present[i] {
            versions.push(all[i].to_owned());
        }
        i += 1;
    }
    assert(linux_php_versions().take(5) =~= linux_php_versions());
    versions
}

} // verus!
