//! Small operations on text that the rest of the library builds on.

use vstd::prelude::*;

verus! {

/// Whether two texts hold the same characters.
pub fn same_text(a: &str, b: &str) -> (same: bool)
    ensures
        same == (a@ == b@),
{
    let x = a.as_bytes();
    let y = b.as_bytes();
    proof {
        vstd::utf8::encode_utf8_decode_utf8(a@);
        vstd::utf8::encode_utf8_decode_utf8(b@);
    }
    if x.len() != y.len() {
        return false;
    }
    let mut i: usize = 0;
    while i < x.len()
        invariant
            i <= x.len(),
            x.len() == y.len(),
            x@ == vstd::utf8::encode_utf8(a@),
            y@ == vstd::utf8::encode_utf8(b@),
            forall|j: int| 0 <= j < i ==> x@[j] == y@[j],
        decreases x.len() - i,
    {
        if x[i] != y[i] {
            return false;
        }
        i += 1;
    }
    assert(x@ =~= y@);
    true
}

/// The characters of a text, in order.
pub fn chars_of(s: &str) -> (chars: Vec<char>)
    ensures
        chars@ == s@,
{
    let mut chars: Vec<char> = Vec::new();
    for c in it: s.chars()
        invariant
            it.seq() == s@,
            chars@ == s@.take(it.index() as int),
    {
        chars.push(c);
    }
    chars
}

/// Whether `needle` stands in `hay` at position `at`.
pub open spec fn matches_at(hay: Seq<char>, needle: Seq<char>, at: int) -> bool {
    &&& 0 <= at
    &&& at + needle.len() <= hay.len()
    &&& hay.subrange(at, at + needle.len()) == needle
}

/// The first position at or after `from` where `needle` stands in `hay`
/// before `limit`; `None` where it stands nowhere there.
pub open spec fn first_match(hay: Seq<char>, needle: Seq<char>, from: int, limit: int) -> Option<int>
    decreases limit - from,
{
    if from < 0 || limit > hay.len() || from + needle.len() > limit {
        None
    } else if matches_at(hay, needle, from) {
        Some(from)
    } else if from >= limit {
        None
    } else {
        first_match(hay, needle, from + 1, limit)
    }
}

/// What `first_match` finds is a match, lies in the range, and is the first
/// there; where it finds nothing there is none.
pub proof fn lemma_first_match(hay: Seq<char>, needle: Seq<char>, from: int, limit: int)
    requires
        0 <= from,
        limit <= hay.len(),
    ensures
        match first_match(hay, needle, from, limit) {
            Some(at) => {
                &&& from <= at
                &&& at + needle.len() <= limit
                &&& matches_at(hay, needle, at)
                &&& forall|j: int| from <= j < at ==> !matches_at(hay, needle, j)
            },
            None => forall|j: int|
                from <= j && j + needle.len() <= limit ==> !matches_at(hay, needle, j),
        },
    decreases limit - from,
{
    if from + needle.len() <= limit && !matches_at(hay, needle, from) && from < limit {
        lemma_first_match(hay, needle, from + 1, limit);
    }
}

/// The first position at or after `from` that holds `a` or `b`; the length of
/// the text where there is none.
pub open spec fn first_of_two(text: Seq<char>, from: int, a: char, b: char) -> int
    decreases text.len() - from,
{
    if from < 0 || from >= text.len() {
        text.len() as int
    } else if text[from] == a || text[from] == b {
        from
    } else {
        first_of_two(text, from + 1, a, b)
    }
}

/// What `first_of_two` finds lies in the range, holds one of the two
/// characters unless it is the end, and nothing before it does.
pub proof fn lemma_first_of_two(text: Seq<char>, from: int, a: char, b: char)
    requires
        0 <= from <= text.len(),
    ensures
        from <= first_of_two(text, from, a, b) <= text.len(),
        first_of_two(text, from, a, b) < text.len() ==> text[first_of_two(text, from, a, b)] == a
            || text[first_of_two(text, from, a, b)] == b,
        forall|j: int|
            from <= j < first_of_two(text, from, a, b) ==> text[j] != a && text[j] != b,
    decreases text.len() - from,
{
    if from < text.len() && text[from] != a && text[from] != b {
        lemma_first_of_two(text, from + 1, a, b);
    }
}

/// Whether `needle` stands in `hay` at position `at`.
pub fn is_match_at(hay: &Vec<char>, needle: &Vec<char>, at: usize) -> (found: bool)
    ensures
        found == matches_at(hay@, needle@, at as int),
{
    if at > hay.len() || needle.len() > hay.len() - at {
        return false;
    }
    let mut k: usize = 0;
    while k < needle.len()
        invariant
            k <= needle.len(),
            at + needle.len() <= hay.len(),
            forall|j: int| 0 <= j < k ==> hay@[at + j] == needle@[j],
        decreases needle.len() - k,
    {
        if hay[at + k] != needle[k] {
            return false;
        }
        k += 1;
    }
    assert(hay@.subrange(at as int, at + needle.len()) =~= needle@);
    true
}

/// The first position at or after `from` where `needle` stands in `hay`
/// before `limit`.
pub fn find_text(hay: &Vec<char>, needle: &Vec<char>, from: usize, limit: usize) -> (found: Option<
    usize,
>)
    ensures
        match found {
            Some(at) => first_match(hay@, needle@, from as int, limit as int) == Some(at as int),
            None => first_match(hay@, needle@, from as int, limit as int) is None,
        },
{
    if limit > hay.len() || from > limit || needle.len() > limit - from {
        return None;
    }
    let mut i: usize = from;
    while needle.len() <= limit - i
        invariant
            from <= i <= limit <= hay.len(),
            first_match(hay@, needle@, from as int, limit as int) == first_match(
                hay@,
                needle@,
                i as int,
                limit as int,
            ),
        decreases limit - i,
    {
        if is_match_at(hay, needle, i) {
            return Some(i);
        }
        if i == limit {
            return None;
        }
        i += 1;
    }
    None
}

/// The first position at or after `from` that holds `a` or `b`; the length of
/// the text where there is none.
pub fn find_either(text: &Vec<char>, from: usize, a: char, b: char) -> (at: usize)
    ensures
        at == first_of_two(text@, from as int, a, b),
        at <= text.len(),
{
    let mut i: usize = from;
    while i < text.len()
        invariant
            first_of_two(text@, from as int, a, b) == first_of_two(text@, i as int, a, b),
        decreases text.len() - i,
    {
        if text[i] == a || text[i] == b {
            return i;
        }
        i += 1;
    }
    text.len()
}

/// The part of a text from position `from` up to position `to`.
pub fn slice_of(text: &str, from: usize, to: usize) -> (part: String)
    requires
        from <= to <= text@.len(),
    ensures
        part@ == text@.subrange(from as int, to as int),
{
    text.substring_char(from, to).to_owned()
}

/// What `str::to_lowercase` makes of a text.
pub uninterp spec fn lowercase_of(text: Seq<char>) -> Seq<char>;

/// Calls `str::to_lowercase`, which lowers every character as Unicode says.
/// Nothing is claimed of the outcome but that it is the one `lowercase_of`
/// names.
#[verifier::external_body]
pub(crate) fn lowercase(text: &str) -> (lowered: String)
    ensures
        lowered@ == lowercase_of(text@),
{
    text.to_lowercase()
}

/// Whether a character is white space as Unicode has it: one of the 25
/// characters with the property White_Space.
pub open spec fn is_space(c: char) -> bool {
    let code = c as u32;
    ||| 0x09 <= code <= 0x0D
    ||| code == 0x20
    ||| code == 0x85
    ||| code == 0xA0
    ||| code == 0x1680
    ||| 0x2000 <= code <= 0x200A
    ||| code == 0x2028
    ||| code == 0x2029
    ||| code == 0x202F
    ||| code == 0x205F
    ||| code == 0x3000
}

/// Whether a character is white space.
pub fn is_whitespace(c: char) -> (space: bool)
    ensures
        space == is_space(c),
{
    let code: u32 = c as u32;
    (0x09 <= code && code <= 0x0D) || code == 0x20 || code == 0x85 || code == 0xA0 || code
        == 0x1680 || (0x2000 <= code && code <= 0x200A) || code == 0x2028 || code == 0x2029
        || code == 0x202F || code == 0x205F || code == 0x3000
}

/// The lines of a text. A line ends at a line feed, and a carriage return
/// just before that line feed is not part of the line. What follows the last
/// line feed is a line only where it is not empty.
pub open spec fn lines_of(text: Seq<char>) -> Seq<Seq<char>>
    decreases text.len(),
{
    if text.len() == 0 {
        Seq::empty()
    } else {
        let feed = first_of_two(text, 0, '\n', '\n');
        if feed < 0 || feed >= text.len() {
            seq![text]
        } else if feed > 0 && text[feed - 1] == '\r' {
            seq![text.subrange(0, feed - 1)] + lines_of(text.subrange(feed + 1, text.len() as int))
        } else {
            seq![text.subrange(0, feed)] + lines_of(text.subrange(feed + 1, text.len() as int))
        }
    }
}

/// The texts of a list of vectors of characters.
pub open spec fn view_lines(lines: Seq<Vec<char>>) -> Seq<Seq<char>> {
    Seq::new(lines.len(), |i: int| lines[i]@)
}

/// The characters of a vector from position `from` up to position `to`.
pub fn copy_range(text: &Vec<char>, from: usize, to: usize) -> (part: Vec<char>)
    requires
        from <= to <= text.len(),
    ensures
        part@ == text@.subrange(from as int, to as int),
{
    let mut part: Vec<char> = Vec::new();
    let mut i: usize = from;
    while i < to
        invariant
            from <= i <= to <= text.len(),
            part@ == text@.subrange(from as int, i as int),
        decreases to - i,
    {
        part.push(text[i]);
        i += 1;
    }
    part
}

/// Splits a text into its lines.
pub fn split_lines(text: &Vec<char>) -> (lines: Vec<Vec<char>>)
    ensures
        view_lines(lines@) == lines_of(text@),
{
    let mut lines: Vec<Vec<char>> = Vec::new();
    let mut start: usize = 0;
    proof {
        assert(text@.subrange(0, text@.len() as int) =~= text@);
    }
    while start < text.len()
        invariant
            start <= text.len(),
            lines_of(text@) == view_lines(lines@) + lines_of(
                text@.subrange(start as int, text@.len() as int),
            ),
        decreases text.len() - start,
    {
        let ghost rest = text@.subrange(start as int, text@.len() as int);
        let mut feed: usize = start;
        while feed < text.len() && text[feed] != '\n'
            invariant
                start <= feed <= text.len(),
                rest == text@.subrange(start as int, text@.len() as int),
                first_of_two(rest, 0, '\n', '\n') == first_of_two(rest, feed - start, '\n', '\n'),
            decreases text.len() - feed,
        {
            feed += 1;
        }
        if feed >= text.len() {
            let line = copy_range(text, start, feed);
            lines.push(line);
            start = feed;
        } else {
            let end = if feed > start && text[feed - 1] == '\r' {
                feed - 1
            } else {
                feed
            };
            let line = copy_range(text, start, end);
            lines.push(line);
            proof {
                assert(line@ =~= rest.subrange(0, end - start));
                assert(rest.subrange(feed - start + 1, rest.len() as int) =~= text@.subrange(
                    feed + 1,
                    text@.len() as int,
                ));
            }
            start = feed + 1;
        }
    }
    lines
}

/// The text of a vector of characters.
pub fn text_of(chars: &Vec<char>) -> (text: String)
    ensures
        text@ == chars@,
{
    let mut text = String::new();
    let mut i: usize = 0;
    while i < chars.len()
        invariant
            i <= chars.len(),
            text@ == chars@.take(i as int),
        decreases chars.len() - i,
    {
        push_char(&mut text, chars[i]);
        i += 1;
    }
    text
}

/// Calls `String::push`, which appends one character.
#[verifier::external_body]
pub(crate) fn push_char(text: &mut String, c: char)
    ensures
        final(text)@ == old(text)@.push(c),
{
    text.push(c);
}

/// The first position at or after `from` that holds white space, or none if
/// `spaces` is false; the length of the text where there is none.
pub open spec fn first_space_or_not(text: Seq<char>, from: int, spaces: bool) -> int
    decreases text.len() - from,
{
    if from < 0 || from >= text.len() {
        text.len() as int
    } else if is_space(text[from]) == spaces {
        from
    } else {
        first_space_or_not(text, from + 1, spaces)
    }
}

/// The first position at or after `from` that holds white space, or none if
/// `spaces` is false.
pub fn find_space_or_not(text: &Vec<char>, from: usize, spaces: bool) -> (at: usize)
    ensures
        at == first_space_or_not(text@, from as int, spaces),
        at <= text.len(),
        from <= text.len() ==> from <= at,
{
    let mut i: usize = from;
    while i < text.len()
        invariant
            from <= i,
            first_space_or_not(text@, from as int, spaces) == first_space_or_not(
                text@,
                i as int,
                spaces,
            ),
        decreases text.len() - i,
    {
        if is_whitespace(text[i]) == spaces {
            return i;
        }
        i += 1;
    }
    text.len()
}

/// The words of a text from position `from` on: its longest stretches
/// without white space.
pub open spec fn words_of(text: Seq<char>, from: int) -> Seq<Seq<char>>
    decreases text.len() - from,
{
    let start = first_space_or_not(text, from, false);
    if from < 0 || start < from || start >= text.len() {
        Seq::empty()
    } else {
        let end = first_space_or_not(text, start + 1, true);
        if end <= start || end > text.len() {
            Seq::empty()
        } else {
            seq![text.subrange(start, end)] + words_of(text, end)
        }
    }
}

/// Splits a text into its words.
pub fn split_words(text: &Vec<char>) -> (words: Vec<Vec<char>>)
    ensures
        view_lines(words@) == words_of(text@, 0),
{
    let mut words: Vec<Vec<char>> = Vec::new();
    let mut from: usize = 0;
    loop
        invariant
            from <= text.len(),
            words_of(text@, 0) == view_lines(words@) + words_of(text@, from as int),
        decreases text.len() - from,
    {
        let start = find_space_or_not(text, from, false);
        if start >= text.len() {
            return words;
        }
        let end = find_space_or_not(text, start + 1, true);
        let word = copy_range(text, start, end);
        words.push(word);
        from = end;
    }
}

/// Whether `needle` stands somewhere in `hay`.
pub open spec fn contains_text(hay: Seq<char>, needle: Seq<char>) -> bool {
    first_match(hay, needle, 0, hay.len() as int) is Some
}

/// Searching the rest of a text from its start is searching the text from
/// where the rest begins.
pub proof fn lemma_first_match_in_rest(hay: Seq<char>, needle: Seq<char>, from: int, skip: int)
    requires
        0 <= skip <= hay.len(),
        0 <= from,
    ensures
        first_match(hay.subrange(skip, hay.len() as int), needle, from, hay.len() - skip)
            == match first_match(hay, needle, skip + from, hay.len() as int) {
            Some(at) => Some(at - skip),
            None => None,
        },
    decreases hay.len() - skip - from,
{
    let rest = hay.subrange(skip, hay.len() as int);
    if from + needle.len() <= rest.len() {
        assert(rest.subrange(from, from + needle.len()) =~= hay.subrange(
            skip + from,
            skip + from + needle.len(),
        ));
        if !matches_at(rest, needle, from) && from < rest.len() {
            lemma_first_match_in_rest(hay, needle, from + 1, skip);
        }
    }
}

/// A text with every stretch that equals `from` replaced by `to`, the
/// stretches taken from left to right without overlap. A text is left as it
/// is where `from` is empty.
pub open spec fn replace_all(text: Seq<char>, from: Seq<char>, to: Seq<char>) -> Seq<char>
    decreases text.len(),
{
    if from.len() == 0 {
        text
    } else {
        match first_match(text, from, 0, text.len() as int) {
            Some(at) => {
                if at < 0 || at + from.len() > text.len() {
                    text
                } else {
                    text.subrange(0, at) + to + replace_all(
                        text.subrange(at + from.len(), text.len() as int),
                        from,
                        to,
                    )
                }
            },
            None => text,
        }
    }
}

/// Appends the characters of a vector from position `from` up to position
/// `to`.
pub fn append_range(out: &mut Vec<char>, text: &Vec<char>, from: usize, to: usize)
    requires
        from <= to <= text.len(),
    ensures
        final(out)@ == old(out)@ + text@.subrange(from as int, to as int),
{
    let ghost before = out@;
    let mut i: usize = from;
    while i < to
        invariant
            from <= i <= to <= text.len(),
            out@ == before + text@.subrange(from as int, i as int),
        decreases to - i,
    {
        out.push(text[i]);
        i += 1;
    }
}

/// Replaces every stretch of a text that equals `from` by `to`.
pub fn replace_text(text: &Vec<char>, from: &Vec<char>, to: &Vec<char>) -> (replaced: Vec<char>)
    ensures
        replaced@ == replace_all(text@, from@, to@),
{
    let mut out: Vec<char> = Vec::new();
    if from.len() == 0 {
        append_range(&mut out, text, 0, text.len());
        return out;
    }
    let mut pos: usize = 0;
    proof {
        assert(text@.subrange(0, text@.len() as int) =~= text@);
    }
    loop
        invariant
            pos <= text.len(),
            from.len() > 0,
            replace_all(text@, from@, to@) == out@ + replace_all(
                text@.subrange(pos as int, text@.len() as int),
                from@,
                to@,
            ),
        decreases text.len() - pos,
    {
        let ghost rest = text@.subrange(pos as int, text@.len() as int);
        proof {
            lemma_first_match_in_rest(text@, from@, 0, pos as int);
            lemma_first_match(text@, from@, pos as int, text@.len() as int);
        }
        match find_text(text, from, pos, text.len()) {
            Some(at) => {
                append_range(&mut out, text, pos, at);
                append_range(&mut out, to, 0, to.len());
                proof {
                    assert(rest.subrange(at - pos + from@.len(), rest.len() as int) =~= text@.subrange(
                        at + from@.len(),
                        text@.len() as int,
                    ));
                }
                pos = at + from.len();
            },
            None => {
                append_range(&mut out, text, pos, text.len());
                return out;
            },
        }
    }
}

/// Whether a character is one of the ten decimal digits.
pub open spec fn is_digit(c: char) -> bool {
    '0' <= c <= '9'
}

/// Whether a text holds decimal digits and nothing else.
pub open spec fn all_digits(text: Seq<char>) -> bool {
    forall|i: int| 0 <= i < text.len() ==> is_digit(#[trigger] text[i])
}

/// The number that a text of decimal digits stands for.
pub open spec fn decimal_value(digits: Seq<char>) -> nat
    decreases digits.len(),
{
    if digits.len() == 0 {
        0
    } else {
        (10 * decimal_value(digits.drop_last()) + (digits.last() as u32 - '0' as u32)) as nat
    }
}

/// The number below 256 that a text stands for: an optional plus sign and
/// then one decimal digit or more, which together stay below 256. `None` for
/// every other text.
pub open spec fn parsed_u8(text: Seq<char>) -> Option<u8> {
    let digits = if text.len() > 0 && text[0] == '+' {
        text.subrange(1, text.len() as int)
    } else {
        text
    };
    if digits.len() == 0 || !all_digits(digits) || decimal_value(digits) > 255 {
        None
    } else {
        Some(decimal_value(digits) as u8)
    }
}

/// The number of a text of digits is no smaller than that of its beginning.
pub proof fn lemma_decimal_value_grows(digits: Seq<char>, cut: int)
    requires
        0 <= cut <= digits.len(),
        all_digits(digits),
    ensures
        decimal_value(digits.take(cut)) <= decimal_value(digits),
    decreases digits.len() - cut,
{
    if cut < digits.len() {
        assert(digits.take(cut + 1).drop_last() =~= digits.take(cut));
        lemma_decimal_value_grows(digits, cut + 1);
    } else {
        assert(digits.take(cut) =~= digits);
    }
}

/// Reads a number below 256 from a text.
pub fn parse_u8(text: &str) -> (number: Option<u8>)
    ensures
        number == parsed_u8(text@),
{
    let chars = chars_of(text);
    let start: usize = if chars.len() > 0 && chars[0] == '+' {
        1
    } else {
        0
    };
    let ghost digits = chars@.subrange(start as int, chars@.len() as int);
    let ghost wanted = if digits.len() == 0 || !all_digits(digits) || decimal_value(digits) > 255 {
        None
    } else {
        Some(decimal_value(digits) as u8)
    };
    proof {
        if start == 0 {
            assert(digits =~= text@);
        }
    }
    if start >= chars.len() {
        return None;
    }
    let mut value: u32 = 0;
    let mut i: usize = start;
    while i < chars.len()
        invariant
            start <= i <= chars.len(),
            parsed_u8(text@) == wanted,
            wanted == if digits.len() == 0 || !all_digits(digits) || decimal_value(digits) > 255 {
                None
            } else {
                Some(decimal_value(digits) as u8)
            },
            digits == chars@.subrange(start as int, chars@.len() as int),
            all_digits(digits.take(i - start)),
            value == decimal_value(digits.take(i - start)),
            value <= 255,
        decreases chars.len() - i,
    {
        let c = chars[i];
        proof {
            assert(digits[i - start] == c);
            assert(digits.take(i - start + 1).drop_last() =~= digits.take(i - start));
        }
        if c < '0' || c > '9' {
            return None;
        }
        let digit: u32 = c as u32 - '0' as u32;
        if value * 10 + digit > 255 {
            proof {
                if all_digits(digits) {
                    lemma_decimal_value_grows(digits, i - start + 1);
                }
            }
            return None;
        }
        value = value * 10 + digit;
        i += 1;
    }
    assert(digits.take(i - start) =~= digits);
    Some(value as u8)
}

/// The first position at or after `from` that does not hold `c`; the length
/// of the text where there is none.
pub open spec fn first_other(text: Seq<char>, from: int, c: char) -> int
    decreases text.len() - from,
{
    if from < 0 || from >= text.len() {
        text.len() as int
    } else if text[from] != c {
        from
    } else {
        first_other(text, from + 1, c)
    }
}

/// Where a text ends once every `c` at its end is taken away.
pub open spec fn end_without(text: Seq<char>, c: char) -> int
    decreases text.len(),
{
    if text.len() == 0 {
        0
    } else if text.last() != c {
        text.len() as int
    } else {
        end_without(text.drop_last(), c)
    }
}

/// A text without every `c` at its start and at its end.
pub open spec fn stripped(text: Seq<char>, c: char) -> Seq<char> {
    let start = first_other(text, 0, c);
    let end = end_without(text, c);
    if start < 0 || start >= end || end > text.len() {
        Seq::empty()
    } else {
        text.subrange(start, end)
    }
}

/// The end of a text without every `c` at its end is the same for the text
/// cut anywhere behind it.
pub proof fn lemma_end_without(text: Seq<char>, c: char, cut: int)
    requires
        0 <= cut <= text.len(),
        forall|j: int| cut <= j < text.len() ==> text[j] == c,
    ensures
        end_without(text, c) == end_without(text.take(cut), c),
    decreases text.len() - cut,
{
    if cut < text.len() {
        assert(text.drop_last().take(cut) =~= text.take(cut));
        lemma_end_without(text.drop_last(), c, cut);
    } else {
        assert(text.take(cut) =~= text);
    }
}

/// A text held as characters without every `c` at its start and at its end.
pub fn strip_char(text: &Vec<char>, c: char) -> (part: Vec<char>)
    ensures
        part@ == stripped(text@, c),
{
    let mut start: usize = 0;
    while start < text.len() && text[start] == c
        invariant
            start <= text.len(),
            first_other(text@, 0, c) == first_other(text@, start as int, c),
        decreases text.len() - start,
    {
        start += 1;
    }
    let mut end: usize = text.len();
    while end > 0 && text[end - 1] == c
        invariant
            end <= text.len(),
            forall|j: int| end <= j < text.len() ==> text@[j] == c,
        decreases end,
    {
        end -= 1;
    }
    proof {
        lemma_end_without(text@, c, end as int);
    }
    if start >= end {
        Vec::new()
    } else {
        copy_range(text, start, end)
    }
}

} // verus!
