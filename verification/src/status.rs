//! Reading the short status listing of git.

use vstd::prelude::*;
use vstd::utf8::{decode_utf8, encode_utf8, is_char_boundary};
use crate::text::{lines, split_lines, trim, trimmed};

verus! {

/// The path that a line of the listing reports: the trimmed line without the
/// two bytes of its status code, trimmed again. A line is without a path
/// where its trimmed text cannot be cut after two bytes, because it is
/// shorter or because a character straddles the cut.
pub open spec fn entry_path(line: Seq<char>) -> Option<Seq<char>> {
    let entry = encode_utf8(trimmed(line));
    if is_char_boundary(entry, 2) {
        Some(trimmed(decode_utf8(entry.subrange(2, entry.len() as int))))
    } else {
        None
    }
}

/// The paths that a status listing reports, one for each of its lines, in
/// order; `None` where some line is without a path.
pub open spec fn unstaged(status: Seq<char>) -> Option<Seq<Seq<char>>> {
    let entries = lines(status);
    if forall|i: int| 0 <= i < entries.len() ==> (#[trigger] entry_path(entries[i])) is Some {
        Some(entries.map_values(|line: Seq<char>| entry_path(line)->0))
    } else {
        None
    }
}

/// The path that one line of the listing reports.
pub fn path_of_entry(line: &str) -> (path: Option<String>)
    ensures
        path.deep_view() == entry_path(line@),
{
    let entry = trim(line);
    let text = entry.as_str();
    if !text.is_char_boundary(2) {
        return None;
    }
    let (_, rest) = text.split_at(2);
    proof {
        vstd::utf8::encode_utf8_decode_utf8(rest@);
    }
    Some(trim(rest))
}

/// The paths that a status listing reports.
pub fn unstaged_files(status: &str) -> (files: Option<Vec<String>>)
    ensures
        files.deep_view() == unstaged(status@),
{
    let entries = split_lines(status);
    let mut files: Vec<String> = Vec::new();
    let mut i: usize = 0;
    while i < entries.len()
        invariant
            0 <= i <= entries.len(),
            entries.deep_view() == lines(status@),
            files.len() == i,
            forall|j: int|
                0 <= j < i ==> (#[trigger] entry_path(lines(status@)[j])) == Some(files[j]@),
        decreases entries.len() - i,
    {
        assert(entries.deep_view()[i as int] == entries[i as int]@);
        match path_of_entry(entries[i].as_str()) {
            Some(path) => {
                files.push(path);
            },
            None => {
                assert(entry_path(lines(status@)[i as int]) is None);
                return None;
            },
        }
        i += 1;
    }
    assert(files.deep_view() == unstaged(status@)->0);
    Some(files)
}

} // verus!
