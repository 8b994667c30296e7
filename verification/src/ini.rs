//! The ini file of PHP: reading its settings and changing one of them.

use crate::text::{
    append_range, chars_of, copy_range, find_either, find_space_or_not, first_of_two,
    first_space_or_not, is_match_at, is_space, is_whitespace, lines_of, matches_at, split_lines,
    text_of, view_lines,
};
use vstd::prelude::*;

verus! {

/// Where a text ends once the white space at its end is taken away.
pub open spec fn trimmed_end(text: Seq<char>) -> int
    decreases text.len(),
{
    if text.len() == 0 {
        0
    } else if !is_space(text.last()) {
        text.len() as int
    } else {
        trimmed_end(text.drop_last())
    }
}

/// A text without the white space at its start and at its end.
pub open spec fn trimmed(text: Seq<char>) -> Seq<char> {
    let start = first_space_or_not(text, 0, false);
    let end = trimmed_end(text);
    if start < 0 || start >= end || end > text.len() {
        Seq::empty()
    } else {
        text.subrange(start, end)
    }
}

/// A text without the white space at its start.
pub open spec fn trimmed_start(text: Seq<char>) -> Seq<char> {
    let start = first_space_or_not(text, 0, false);
    if start < 0 || start > text.len() {
        Seq::empty()
    } else {
        text.subrange(start, text.len() as int)
    }
}

/// The end of a text without the white space at its end lies within the
/// text; it is the same for the text cut anywhere behind it.
pub proof fn lemma_trimmed_end(text: Seq<char>, cut: int)
    requires
        0 <= cut <= text.len(),
        forall|j: int| cut <= j < text.len() ==> is_space(text[j]),
    ensures
        trimmed_end(text) == trimmed_end(text.take(cut)),
        0 <= trimmed_end(text) <= text.len(),
    decreases text.len() - cut,
{
    if cut < text.len() {
        assert(text.drop_last().take(cut) =~= text.take(cut));
        lemma_trimmed_end(text.drop_last(), cut);
    } else {
        assert(text.take(cut) =~= text);
        lemma_trimmed_end_bounds(text);
    }
}

/// The end of a text without the white space at its end lies within the
/// text.
pub proof fn lemma_trimmed_end_bounds(text: Seq<char>)
    ensures
        0 <= trimmed_end(text) <= text.len(),
    decreases text.len(),
{
    if text.len() > 0 && is_space(text.last()) {
        lemma_trimmed_end_bounds(text.drop_last());
    }
}

/// A text held as characters without the white space at its start and end.
pub fn trim_chars(text: &Vec<char>) -> (part: Vec<char>)
    ensures
        part@ == trimmed(text@),
{
    let start = find_space_or_not(text, 0, false);
    let mut end: usize = text.len();
    while end > 0 && is_whitespace(text[end - 1])
        invariant
            end <= text.len(),
            forall|j: int| end <= j < text.len() ==> is_space(text@[j]),
        decreases end,
    {
        end -= 1;
    }
    proof {
        lemma_trimmed_end(text@, end as int);
    }
    if start >= end {
        Vec::new()
    } else {
        copy_range(text, start, end)
    }
}

/// The setting that a line of the ini file holds: the text before its first
/// equals sign as key and the text behind it as value, both without white
/// space around them. A line that is empty, a comment, or without an equals
/// sign holds none.
pub open spec fn setting_of_line(line: Seq<char>) -> Option<(Seq<char>, Seq<char>)> {
    let text = trimmed(line);
    if text.len() == 0 || text[0] == ';' {
        None
    } else {
        let sign = first_of_two(text, 0, '=', '=');
        if sign < 0 || sign >= text.len() {
            None
        } else {
            Some((trimmed(text.subrange(0, sign)), trimmed(text.subrange(sign + 1, text.len() as int))))
        }
    }
}

/// The settings that lines hold, in order.
pub open spec fn settings_of_lines(lines: Seq<Seq<char>>) -> Seq<(Seq<char>, Seq<char>)>
    decreases lines.len(),
{
    if lines.len() == 0 {
        Seq::empty()
    } else {
        let before = settings_of_lines(lines.drop_last());
        match setting_of_line(lines.last()) {
            Some(setting) => before.push(setting),
            None => before,
        }
    }
}

/// The settings of an ini file, in the order of its lines. Of two settings
/// with one key the later one counts.
pub open spec fn ini_settings_spec(content: Seq<char>) -> Seq<(Seq<char>, Seq<char>)> {
    settings_of_lines(lines_of(content))
}

/// The texts of a list of pairs of strings.
pub open spec fn view_settings(settings: Seq<(String, String)>) -> Seq<(Seq<char>, Seq<char>)> {
    Seq::new(settings.len(), |i: int| (settings[i].0@, settings[i].1@))
}

/// Reads the setting that a line holds.
fn read_setting(line: &Vec<char>) -> (setting: Option<(String, String)>)
    ensures
        match setting {
            Some(pair) => setting_of_line(line@) == Some((pair.0@, pair.1@)),
            None => setting_of_line(line@) is None,
        },
{
    let text = trim_chars(line);
    if text.len() == 0 || text[0] == ';' {
        return None;
    }
    let sign = find_either(&text, 0, '=', '=');
    if sign >= text.len() {
        return None;
    }
    let key = trim_chars(&copy_range(&text, 0, sign));
    let value = trim_chars(&copy_range(&text, sign + 1, text.len()));
    Some((text_of(&key), text_of(&value)))
}

/// Reads the settings of an ini file.
pub fn parse_ini_settings(content: &str) -> (settings: Vec<(String, String)>)
    ensures
        view_settings(settings@) == ini_settings_spec(content@),
{
    let chars = chars_of(content);
    let lines = split_lines(&chars);
    let ghost all = lines_of(content@);
    let mut settings: Vec<(String, String)> = Vec::new();
    let mut i: usize = 0;
    while i < lines.len()
        invariant
            i <= lines.len(),
            all == view_lines(lines@),
            view_settings(settings@) == settings_of_lines(all.take(i as int)),
        decreases lines.len() - i,
    {
        proof {
            assert(all.take(i + 1).drop_last() =~= all.take(i as int));
        }
        match read_setting(&lines[i]) {
            Some(pair) => {
                settings.push(pair);
            },
            None => {},
        }
        i += 1;
    }
    assert(all.take(i as int) =~= all);
    settings
}

/// Whether a line sets `key`: whether, white space at its start apart, it
/// begins with the key.
pub open spec fn line_sets(line: Seq<char>, key: Seq<char>) -> bool {
    matches_at(trimmed_start(line), key, 0)
}

/// The first line at or after `from` that sets `key`; the number of lines
/// where none does.
pub open spec fn first_setting_line(lines: Seq<Seq<char>>, key: Seq<char>, from: int) -> int
    decreases lines.len() - from,
{
    if from < 0 || from >= lines.len() {
        lines.len() as int
    } else if line_sets(lines[from], key) {
        from
    } else {
        first_setting_line(lines, key, from + 1)
    }
}

/// The line that sets `key` to `value`.
pub open spec fn setting_line(key: Seq<char>, value: Seq<char>) -> Seq<char> {
    key + " = "@ + value
}

/// Lines put together with a line feed between one and the next.
pub open spec fn join_lines(lines: Seq<Seq<char>>) -> Seq<char>
    decreases lines.len(),
{
    if lines.len() == 0 {
        Seq::empty()
    } else if lines.len() == 1 {
        lines[0]
    } else {
        join_lines(lines.drop_last()) + seq!['\n'] + lines.last()
    }
}

/// The lines of an ini file with one setting changed: the first line that
/// sets the key is replaced; where no line does, a line is added at the end.
pub open spec fn updated_lines(lines: Seq<Seq<char>>, key: Seq<char>, value: Seq<char>) -> Seq<
    Seq<char>,
> {
    let at = first_setting_line(lines, key, 0);
    if 0 <= at < lines.len() {
        lines.update(at, setting_line(key, value))
    } else {
        lines.push(setting_line(key, value))
    }
}

/// The ini file with one setting changed.
pub open spec fn update_ini_setting_spec(content: Seq<char>, key: Seq<char>, value: Seq<char>) -> Seq<
    char,
> {
    join_lines(updated_lines(lines_of(content), key, value))
}

/// Whether a line sets `key`.
fn does_line_set(line: &Vec<char>, key: &Vec<char>) -> (sets: bool)
    ensures
        sets == line_sets(line@, key@),
{
    let start = find_space_or_not(line, 0, false);
    let rest = copy_range(line, start, line.len());
    is_match_at(&rest, key, 0)
}

/// Puts lines together with a line feed between one and the next.
fn join_chars(lines: &Vec<Vec<char>>) -> (joined: Vec<char>)
    ensures
        joined@ == join_lines(view_lines(lines@)),
{
    let mut joined: Vec<char> = Vec::new();
    let mut i: usize = 0;
    let ghost all = view_lines(lines@);
    while i < lines.len()
        invariant
            i <= lines.len(),
            all == view_lines(lines@),
            joined@ == join_lines(all.take(i as int)),
        decreases lines.len() - i,
    {
        proof {
            assert(all.take(i + 1).drop_last() =~= all.take(i as int));
        }
        if i > 0 {
            joined.push('\n');
        }
        append_range(&mut joined, &lines[i], 0, lines[i].len());
        i += 1;
    }
    assert(all.take(i as int) =~= all);
    joined
}

/// Changes one setting in the text of an ini file. The text comes out with
/// a line feed between its lines and none at its end.
pub fn update_ini_setting(content: &str, key: &str, value: &str) -> (changed: String)
    ensures
        changed@ == update_ini_setting_spec(content@, key@, value@),
{
    let chars = chars_of(content);
    let mut lines = split_lines(&chars);
    let key_chars = chars_of(key);
    let mut line: Vec<char> = Vec::new();
    append_range(&mut line, &key_chars, 0, key_chars.len());
    let middle = chars_of(" = ");
    append_range(&mut line, &middle, 0, middle.len());
    let value_chars = chars_of(value);
    append_range(&mut line, &value_chars, 0, value_chars.len());
    proof {
        assert(key_chars@.subrange(0, key_chars@.len() as int) =~= key_chars@);
        assert(middle@.subrange(0, middle@.len() as int) =~= middle@);
        assert(value_chars@.subrange(0, value_chars@.len() as int) =~= value_chars@);
    }
    let ghost all = lines_of(content@);
    let mut i: usize = 0;
    let mut found = false;
    while i < lines.len() && !found
        invariant
            i <= lines.len(),
            all == view_lines(lines@),
            first_setting_line(all, key@, 0) == first_setting_line(all, key@, i as int),
            key_chars@ == key@,
            found ==> i < lines.len() && line_sets(all[i as int], key@),
        decreases lines.len() - i, (if found { 0int } else { 1int }),
    {
        if does_line_set(&lines[i], &key_chars) {
            found = true;
        } else {
            i += 1;
        }
    }
    if found {
        lines.set(i, line);
        assert(view_lines(lines@) =~= all.update(i as int, setting_line(key@, value@)));
    } else {
        lines.push(line);
        assert(view_lines(lines@) =~= all.push(setting_line(key@, value@)));
    }
    text_of(&join_chars(&lines))
}

} // verus!
