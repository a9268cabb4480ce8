//! Text helpers on strings viewed as sequences of characters: trimming,
//! splitting into lines and joining words.

use vstd::prelude::*;
use vstd::string::StringExecFns;

verus! {

/// Whether a character has the Unicode `White_Space` property, as
/// `char::is_whitespace` reports it.
pub uninterp spec fn has_white_space_property(c: char) -> bool;

/// Whether a character below U+0080 is whitespace: the tab, the line feed,
/// the vertical tab, the form feed, the carriage return and the blank.
pub open spec fn is_ascii_whitespace(c: char) -> bool {
    0x09 <= c as u32 <= 0x0D || c as u32 == 0x20
}

/// Whether a character is whitespace. Below U+0080 the whitespace characters
/// are those of [`is_ascii_whitespace`]; from there on they are the
/// characters with the Unicode `White_Space` property.
pub open spec fn is_whitespace(c: char) -> bool {
    if (c as u32) < 0x80 {
        is_ascii_whitespace(c)
    } else {
        has_white_space_property(c)
    }
}

/// Calls `char::is_whitespace`, which tells whether the character has the
/// Unicode `White_Space` property. The property is fixed for each character
/// and named [`has_white_space_property`]; below U+0080 it belongs to
/// U+0009 to U+000D and to U+0020, and to no other character.
#[verifier::external_body]
pub(crate) fn char_is_whitespace(c: char) -> (b: bool)
    ensures
        b == has_white_space_property(c),
        (c as u32) < 0x80 ==> b == is_ascii_whitespace(c),
{
    c.is_whitespace()
}

/// Whether a character is whitespace.
pub fn is_space(c: char) -> (b: bool)
    ensures
        b == is_whitespace(c),
{
    char_is_whitespace(c)
}

/// Calls `String::push`, which appends the character to the end of the
/// string.
#[verifier::external_body]
pub(crate) fn push_char(s: &mut String, c: char)
    ensures
        final(s)@ == old(s)@.push(c),
{
    s.push(c)
}

/// The string that holds exactly the given characters, in order.
pub fn string_from_chars(chars: &[char]) -> (s: String)
    ensures
        s@ == chars@,
{
    let mut s = String::new();
    let mut i: usize = 0;
    while i < chars.len()
        invariant
            0 <= i <= chars.len(),
            s@ == chars@.take(i as int),
        decreases chars.len() - i,
    {
        push_char(&mut s, chars[i]);
        assert(chars@.take(i + 1) == chars@.take(i as int).push(chars@[i as int]));
        i += 1;
    }
    assert(chars@.take(i as int) == chars@);
    s
}

/// The characters of a string, in order.
pub fn chars_of(s: &str) -> (chars: Vec<char>)
    ensures
        chars@ == s@,
{
    let mut chars: Vec<char> = Vec::new();
    for c in it: s.chars()
        invariant
            it.seq() == s@,
            chars@ == it.seq().take(it.index()),
    {
        chars.push(c);
    }
    chars
}

/// Index of the first character at or after `from` that is not whitespace,
/// or the length of `s` if there is none.
pub open spec fn skip_whitespace(s: Seq<char>, from: int) -> int
    decreases s.len() - from,
{
    if 0 <= from < s.len() && is_whitespace(s[from]) {
        skip_whitespace(s, from + 1)
    } else {
        from
    }
}

/// The end of the stretch `[from, to)` once trailing whitespace is cut off:
/// the least `end >= from` such that `[end, to)` is all whitespace.
pub open spec fn drop_whitespace(s: Seq<char>, from: int, to: int) -> int
    decreases to - from,
{
    if from < to <= s.len() && is_whitespace(s[to - 1]) {
        drop_whitespace(s, from, to - 1)
    } else {
        to
    }
}

/// `s` without its leading and trailing whitespace.
pub open spec fn trimmed(s: Seq<char>) -> Seq<char> {
    let start = skip_whitespace(s, 0);
    s.subrange(start, drop_whitespace(s, start, s.len() as int))
}

/// Removes leading and trailing whitespace.
pub fn trim(s: &str) -> (t: String)
    ensures
        t@ == trimmed(s@),
{
    let chars = chars_of(s);
    let n = chars.len();
    let mut start: usize = 0;
    while start < n && is_space(chars[start])
        invariant
            n == chars@.len(),
            0 <= start <= n,
            skip_whitespace(chars@, 0) == skip_whitespace(chars@, start as int),
        decreases n - start,
    {
        start += 1;
    }
    let mut end: usize = n;
    while start < end && is_space(chars[end - 1])
        invariant
            n == chars@.len(),
            start <= end <= n,
            drop_whitespace(chars@, start as int, n as int) == drop_whitespace(
                chars@,
                start as int,
                end as int,
            ),
        decreases end - start,
    {
        end -= 1;
    }
    string_from_chars(vstd::slice::slice_subrange(chars.as_slice(), start, end))
}

/// A line as it stood before a line feed: without the carriage return that
/// directly preceded the line feed, if there was one.
pub open spec fn without_carriage_return(line: Seq<char>) -> Seq<char> {
    if line.len() > 0 && line.last() == '\r' {
        line.drop_last()
    } else {
        line
    }
}

/// The lines of `s` from position `start` on, where the characters in
/// `[start, at)` are known to hold no line feed.
pub open spec fn lines_from(s: Seq<char>, start: int, at: int) -> Seq<Seq<char>>
    decreases s.len() - at,
{
    if at >= s.len() {
        if start < s.len() {
            seq![s.subrange(start, s.len() as int)]
        } else {
            Seq::empty()
        }
    } else if s[at] == '\n' {
        seq![without_carriage_return(s.subrange(start, at))] + lines_from(s, at + 1, at + 1)
    } else {
        lines_from(s, start, at + 1)
    }
}

/// The lines of a text. A line ends at a line feed, or at a carriage return
/// directly followed by one; neither is part of the line. What follows the
/// last line feed is a line of its own unless it is empty.
pub open spec fn lines(s: Seq<char>) -> Seq<Seq<char>> {
    lines_from(s, 0, 0)
}

/// Splits a text into its lines.
pub fn split_lines(s: &str) -> (result: Vec<String>)
    ensures
        result.deep_view() == lines(s@),
{
    let chars = chars_of(s);
    let n = chars.len();
    let mut result: Vec<String> = Vec::new();
    let mut start: usize = 0;
    let mut at: usize = 0;
    while at < n
        invariant
            n == chars@.len(),
            0 <= start <= at <= n,
            lines(chars@) == result.deep_view() + lines_from(chars@, start as int, at as int),
        decreases n - at,
    {
        if chars[at] == '\n' {
            let mut end: usize = at;
            if start < end && chars[end - 1] == '\r' {
                end -= 1;
            }
            let line = string_from_chars(vstd::slice::slice_subrange(chars.as_slice(), start, end));
            proof {
                assert(line@ == without_carriage_return(chars@.subrange(start as int, at as int)));
                assert(result.deep_view().push(line@) + lines_from(
                    chars@,
                    at as int + 1,
                    at as int + 1,
                ) == result.deep_view() + lines_from(chars@, start as int, at as int));
            }
            let ghost before = result.deep_view();
            result.push(line);
            assert(result.deep_view() == before.push(line@));
            start = at + 1;
        }
        at += 1;
    }
    if start < n {
        let line = string_from_chars(vstd::slice::slice_subrange(chars.as_slice(), start, n));
        let ghost before = result.deep_view();
        result.push(line);
        assert(result.deep_view() == before.push(line@));
    }
    assert(result.deep_view() == lines(s@));
    result
}

/// The words written one after another with `separator` between each two.
pub open spec fn joined(words: Seq<Seq<char>>, separator: Seq<char>) -> Seq<char>
    decreases words.len(),
{
    if words.len() == 0 {
        Seq::empty()
    } else if words.len() == 1 {
        words[0]
    } else {
        joined(words.drop_last(), separator) + separator + words.last()
    }
}

/// Writes the words one after another with `separator` between each two.
pub fn join(words: &Vec<String>, separator: &str) -> (text: String)
    ensures
        text@ == joined(words.deep_view(), separator@),
{
    let mut text = String::new();
    let mut i: usize = 0;
    while i < words.len()
        invariant
            0 <= i <= words.len(),
            text@ == joined(words.deep_view().take(i as int), separator@),
        decreases words.len() - i,
    {
        if i > 0 {
            text.append(separator);
        }
        text.append(words[i].as_str());
        proof {
            let all = words.deep_view();
            assert(all.take(i + 1).drop_last() == all.take(i as int));
            assert(all.take(i + 1).last() == words[i as int]@);
            if i == 0 {
                assert(text@ == words[i as int]@);
            }
        }
        i += 1;
    }
    assert(words.deep_view().take(i as int) == words.deep_view());
    text
}

} // verus!
