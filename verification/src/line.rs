//! The kinds of line that the configuration reader tells apart.

use vstd::prelude::*;
use crate::pattern::{captures, find_captures, group, take_group};
use crate::text::{trim, trimmed};

verus! {

/// A line that opens a remote section: `[remote "NAME"]`.
pub const REMOTE_PATTERN: &'static str = "^\\[remote \"(.+)\"\\]$";

/// A line that opens a branch section: `[branch "NAME"]`.
pub const BRANCH_PATTERN: &'static str = "^\\[branch \"(.+)\"\\]$";

/// A line that sets a key: `KEY = VALUE`, with or without whitespace around
/// the equals sign.
pub const KEY_VALUE_PATTERN: &'static str = "^(.+)\\s*=\\s*(.+)$";

/// A trimmed line of the configuration, by what it means to the reader.
#[derive(Debug)]
pub enum Line {
    /// Opens the section of the remote `name`.
    RemoteHeader { name: String },
    /// Opens the section of the branch `name`.
    BranchHeader { name: String },
    /// Sets `key` to `value` in the section that is open.
    KeyValue { key: String, value: String },
    /// Anything else; the reader passes over it.
    Other,
}

/// A [`Line`] with its strings as character sequences.
pub ghost enum LineView {
    RemoteHeader { name: Seq<char> },
    BranchHeader { name: Seq<char> },
    KeyValue { key: Seq<char>, value: Seq<char> },
    Other,
}

impl View for Line {
    type V = LineView;

    open spec fn view(&self) -> LineView {
        match self {
            Line::RemoteHeader { name } => LineView::RemoteHeader { name: name@ },
            Line::BranchHeader { name } => LineView::BranchHeader { name: name@ },
            Line::KeyValue { key, value } => LineView::KeyValue { key: key@, value: value@ },
            Line::Other => LineView::Other,
        }
    }
}

/// What a line is by the groups that the three searches found in it: the
/// name that the remote pattern gives, the name that the branch pattern gives,
/// and the key and the value that the key-value pattern gives. A remote
/// header comes first, a branch header second, and a key with its value,
/// both trimmed, third; a line with none of these is passed over.
pub open spec fn kind_of(
    remote: Option<Seq<char>>,
    branch: Option<Seq<char>>,
    key: Option<Seq<char>>,
    value: Option<Seq<char>>,
) -> LineView {
    if remote is Some {
        LineView::RemoteHeader { name: remote->0 }
    } else if branch is Some {
        LineView::BranchHeader { name: branch->0 }
    } else if key is Some && value is Some {
        LineView::KeyValue { key: trimmed(key->0), value: trimmed(value->0) }
    } else {
        LineView::Other
    }
}

/// What a trimmed line is: its kind by the first group of the remote
/// pattern, the first group of the branch pattern and the two groups of the
/// key-value pattern.
pub open spec fn classify(line: Seq<char>) -> LineView {
    kind_of(
        group(captures(REMOTE_PATTERN@, line), 1),
        group(captures(BRANCH_PATTERN@, line), 1),
        group(captures(KEY_VALUE_PATTERN@, line), 1),
        group(captures(KEY_VALUE_PATTERN@, line), 2),
    )
}

impl Line {
    /// Tells what a line is by the groups that the three searches found in
    /// it, see [`kind_of`].
    pub fn from_groups(
        remote: Option<String>,
        branch: Option<String>,
        key: Option<String>,
        value: Option<String>,
    ) -> (kind: Line)
        ensures
            kind@ == kind_of(
                remote.deep_view(),
                branch.deep_view(),
                key.deep_view(),
                value.deep_view(),
            ),
    {
        if let Some(name) = remote {
            return Line::RemoteHeader { name };
        }
        if let Some(name) = branch {
            return Line::BranchHeader { name };
        }
        match (key, value) {
            (Some(key), Some(value)) => Line::KeyValue {
                key: trim(key.as_str()),
                value: trim(value.as_str()),
            },
            _ => Line::Other,
        }
    }

    /// Tells what a trimmed line is.
    pub fn classify(line: &str) -> (kind: Line)
        ensures
            kind@ == classify(line@),
    {
        let remote = find_captures(REMOTE_PATTERN, line);
        let branch = find_captures(BRANCH_PATTERN, line);
        let key_value = find_captures(KEY_VALUE_PATTERN, line);
        Line::from_groups(
            take_group(&remote, 1),
            take_group(&branch, 1),
            take_group(&key_value, 1),
            take_group(&key_value, 2),
        )
    }
}

} // verus!
