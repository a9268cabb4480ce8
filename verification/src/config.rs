//! The repository configuration: its remotes and branches, and the reader
//! that builds them from the configuration text.

use vstd::prelude::*;
use vstd::string::StringExecFns;
use crate::line::{classify, Line, LineView};
use crate::text::{lines, split_lines, trim, trimmed};

verus! {

/// A named reference to another repository.
#[derive(Debug)]
pub struct Remote {
    pub name: String,
    pub url: String,
}

/// A [`Remote`] with its strings as character sequences.
pub ghost struct RemoteView {
    pub name: Seq<char>,
    pub url: Seq<char>,
}

impl View for Remote {
    type V = RemoteView;

    open spec fn view(&self) -> RemoteView {
        RemoteView { name: self.name@, url: self.url@ }
    }
}

impl DeepView for Remote {
    type V = RemoteView;

    open spec fn deep_view(&self) -> RemoteView {
        self@
    }
}

/// A branch, the remote it tracks if it tracks one, and whether it is the
/// branch that is checked out.
#[derive(Debug)]
pub struct Branch {
    pub name: String,
    pub remote: Option<String>,
    pub current: bool,
}

/// A [`Branch`] with its strings as character sequences.
pub ghost struct BranchView {
    pub name: Seq<char>,
    pub remote: Option<Seq<char>>,
    pub current: bool,
}

impl View for Branch {
    type V = BranchView;

    open spec fn view(&self) -> BranchView {
        BranchView { name: self.name@, remote: self.remote.deep_view(), current: self.current }
    }
}

impl DeepView for Branch {
    type V = BranchView;

    open spec fn deep_view(&self) -> BranchView {
        self@
    }
}

/// The remotes and branches of a repository, each list in the order in which
/// the configuration text declares them.
#[derive(Debug)]
pub struct Config {
    remotes: Vec<Remote>,
    branches: Vec<Branch>,
}

/// A [`Config`] as two sequences.
pub ghost struct ConfigView {
    pub remotes: Seq<RemoteView>,
    pub branches: Seq<BranchView>,
}

impl View for Config {
    type V = ConfigView;

    closed spec fn view(&self) -> ConfigView {
        ConfigView { remotes: self.remotes.deep_view(), branches: self.branches.deep_view() }
    }
}

/// The section that the reader is inside of, with what it has read of it.
#[derive(Debug)]
pub enum Section {
    /// No section header has been seen yet.
    Outside,
    /// Inside the section of this remote.
    InRemote(Remote),
    /// Inside the section of this branch.
    InBranch(Branch),
}

/// A [`Section`] over views.
pub ghost enum SectionView {
    Outside,
    InRemote(RemoteView),
    InBranch(BranchView),
}

impl View for Section {
    type V = SectionView;

    open spec fn view(&self) -> SectionView {
        match self {
            Section::Outside => SectionView::Outside,
            Section::InRemote(remote) => SectionView::InRemote(remote@),
            Section::InBranch(branch) => SectionView::InBranch(branch@),
        }
    }
}

/// The reader between two lines: the sections that are complete, and the one
/// that is open.
#[derive(Debug)]
pub struct Reader {
    done: Config,
    open: Section,
}

/// A [`Reader`] over views.
pub ghost struct ReaderView {
    pub done: ConfigView,
    pub open: SectionView,
}

impl View for Reader {
    type V = ReaderView;

    closed spec fn view(&self) -> ReaderView {
        ReaderView { done: self.done@, open: self.open@ }
    }
}

/// The key that sets the URL of a remote.
pub const URL_KEY: &'static str = "url";

/// The key that sets the remote of a branch.
pub const REMOTE_KEY: &'static str = "remote";

/// The reader before the first line.
pub open spec fn start() -> ReaderView {
    ReaderView {
        done: ConfigView { remotes: Seq::empty(), branches: Seq::empty() },
        open: SectionView::Outside,
    }
}

/// The complete sections once the open one is closed: it goes to the end of
/// the list of its kind.
pub open spec fn flush(state: ReaderView) -> ConfigView {
    match state.open {
        SectionView::Outside => state.done,
        SectionView::InRemote(remote) => ConfigView {
            remotes: state.done.remotes.push(remote),
            branches: state.done.branches,
        },
        SectionView::InBranch(branch) => ConfigView {
            remotes: state.done.remotes,
            branches: state.done.branches.push(branch),
        },
    }
}

/// The reader after one more line. A header closes the open section and
/// opens a new one with empty fields; a branch is current when it has the
/// name `current`. The key [`URL_KEY`] sets the URL of the open remote and the
/// key [`REMOTE_KEY`] the remote of the open branch. Every other line, and a
/// key with no section of its kind open, changes nothing.
pub open spec fn step(state: ReaderView, line: LineView, current: Seq<char>) -> ReaderView {
    match line {
        LineView::RemoteHeader { name } => ReaderView {
            done: flush(state),
            open: SectionView::InRemote(RemoteView { name, url: Seq::empty() }),
        },
        LineView::BranchHeader { name } => ReaderView {
            done: flush(state),
            open: SectionView::InBranch(
                BranchView { name, remote: None, current: name == current },
            ),
        },
        LineView::KeyValue { key, value } => match state.open {
            SectionView::InRemote(remote) if key == URL_KEY@ => ReaderView {
                done: state.done,
                open: SectionView::InRemote(RemoteView { name: remote.name, url: value }),
            },
            SectionView::InBranch(branch) if key == REMOTE_KEY@ => ReaderView {
                done: state.done,
                open: SectionView::InBranch(
                    BranchView { name: branch.name, remote: Some(value), current: branch.current },
                ),
            },
            _ => state,
        },
        LineView::Other => state,
    }
}

/// Whether a string holds exactly the characters of `literal`.
fn is_text(s: &String, literal: &str) -> (same: bool)
    ensures
        same == (s@ == literal@),
{
    let other = String::from_str(literal);
    *s == other
}

impl Reader {
    /// The reader before the first line.
    pub fn new() -> (reader: Reader)
        ensures
            reader@ == start(),
    {
        let remotes: Vec<Remote> = Vec::new();
        let branches: Vec<Branch> = Vec::new();
        assert(remotes.deep_view() == Seq::<RemoteView>::empty());
        assert(branches.deep_view() == Seq::<BranchView>::empty());
        Reader { done: Config { remotes, branches }, open: Section::Outside }
    }

    /// Closes the open section and hands out the configuration.
    pub fn finish(self) -> (config: Config)
        ensures
            config@ == flush(self@),
    {
        let mut done = self.done;
        match self.open {
            Section::Outside => {},
            Section::InRemote(remote) => {
                let ghost before = done.remotes.deep_view();
                done.remotes.push(remote);
                assert(done.remotes.deep_view() == before.push(remote@));
            },
            Section::InBranch(branch) => {
                let ghost before = done.branches.deep_view();
                done.branches.push(branch);
                assert(done.branches.deep_view() == before.push(branch@));
            },
        }
        done
    }

    /// Takes in one trimmed line; `current_branch` is the name of the branch
    /// that is checked out.
    pub fn step(self, line: Line, current_branch: &str) -> (next: Reader)
        ensures
            next@ == step(self@, line@, current_branch@),
    {
        match line {
            Line::RemoteHeader { name } => {
                let done = self.finish();
                Reader { done, open: Section::InRemote(Remote { name, url: String::new() }) }
            },
            Line::BranchHeader { name } => {
                let done = self.finish();
                let current = is_text(&name, current_branch);
                Reader { done, open: Section::InBranch(Branch { name, remote: None, current }) }
            },
            Line::KeyValue { key, value } => {
                let Reader { done, open } = self;
                match open {
                    Section::InRemote(remote) => {
                        if is_text(&key, URL_KEY) {
                            Reader {
                                done,
                                open: Section::InRemote(Remote { name: remote.name, url: value }),
                            }
                        } else {
                            Reader { done, open: Section::InRemote(remote) }
                        }
                    },
                    Section::InBranch(branch) => {
                        if is_text(&key, REMOTE_KEY) {
                            Reader {
                                done,
                                open: Section::InBranch(
                                    Branch {
                                        name: branch.name,
                                        remote: Some(value),
                                        current: branch.current,
                                    },
                                ),
                            }
                        } else {
                            Reader { done, open: Section::InBranch(branch) }
                        }
                    },
                    Section::Outside => Reader { done, open: Section::Outside },
                }
            },
            Line::Other => self,
        }
    }
}

/// The lines of a configuration text, each trimmed and classified.
pub open spec fn kinds(text: Seq<char>) -> Seq<LineView> {
    lines(text).map_values(|line: Seq<char>| classify(trimmed(line)))
}

/// The reader after a run of lines, taken in from first to last.
pub open spec fn run(lines: Seq<LineView>, current: Seq<char>) -> ReaderView
    decreases lines.len(),
{
    if lines.len() == 0 {
        start()
    } else {
        step(run(lines.drop_last(), current), lines.last(), current)
    }
}

/// The configuration that a text describes when `current` is the branch that
/// is checked out: one scan over its lines, then the open section is closed.
pub open spec fn parsed(text: Seq<char>, current: Seq<char>) -> ConfigView {
    flush(run(kinds(text), current))
}

/// Whether a line opens a section.
pub open spec fn is_header(line: LineView) -> bool {
    line is RemoteHeader || line is BranchHeader
}

/// Whether some line of the text opens a branch section.
pub open spec fn names_branch(text: Seq<char>) -> bool {
    exists|i: int| 0 <= i < kinds(text).len() && #[trigger] kinds(text)[i] is BranchHeader
}

impl Config {
    /// Reads a configuration text. `current_branch` is the name of the branch
    /// that is checked out; it decides the `current` flag of every branch.
    /// No text is refused: lines that mean nothing to the reader are passed
    /// over.
    pub fn parse(config_str: &String, current_branch: &String) -> (config: Config)
        ensures
            config@ == parsed(config_str@, current_branch@),
            forall|i: int|
                0 <= i < config@.branches.len() ==> ((#[trigger] config@.branches[i]).current
                    <==> config@.branches[i].name == current_branch@),
    {
        let text_lines = split_lines(config_str.as_str());
        let mut reader = Reader::new();
        let mut i: usize = 0;
        while i < text_lines.len()
            invariant
                0 <= i <= text_lines.len(),
                text_lines.deep_view() == lines(config_str@),
                reader@ == run(kinds(config_str@).take(i as int), current_branch@),
            decreases text_lines.len() - i,
        {
            let line = trim(text_lines[i].as_str());
            let kind = Line::classify(line.as_str());
            proof {
                let all = kinds(config_str@);
                assert(text_lines.deep_view()[i as int] == text_lines[i as int]@);
                assert(all.take(i + 1).drop_last() == all.take(i as int));
                assert(all.take(i + 1).last() == kind@);
            }
            reader = reader.step(kind, current_branch.as_str());
            i += 1;
        }
        proof {
            assert(kinds(config_str@).take(i as int) == kinds(config_str@));
            crate::reader_laws::lemma_current_flag(kinds(config_str@), current_branch@);
        }
        reader.finish()
    }

    /// Whether the text opens a branch section anywhere. Only then does the
    /// name of the checked-out branch bear on what [`Config::parse`] returns.
    pub fn names_branch(config_str: &String) -> (found: bool)
        ensures
            found == names_branch(config_str@),
    {
        let text_lines = split_lines(config_str.as_str());
        let mut i: usize = 0;
        while i < text_lines.len()
            invariant
                0 <= i <= text_lines.len(),
                text_lines.deep_view() == lines(config_str@),
                forall|j: int| 0 <= j < i ==> !(#[trigger] kinds(config_str@)[j] is BranchHeader),
            decreases text_lines.len() - i,
        {
            let line = trim(text_lines[i].as_str());
            let kind = Line::classify(line.as_str());
            proof {
                assert(text_lines.deep_view()[i as int] == text_lines[i as int]@);
                assert(kinds(config_str@)[i as int] == kind@);
            }
            if let Line::BranchHeader { name: _ } = kind {
                return true;
            }
            i += 1;
        }
        false
    }

    /// The remotes, in the order of their sections.
    pub fn remotes(&self) -> (remotes: &Vec<Remote>)
        ensures
            remotes.deep_view() == self@.remotes,
    {
        &self.remotes
    }

    /// The branches, in the order of their sections.
    pub fn branches(&self) -> (branches: &Vec<Branch>)
        ensures
            branches.deep_view() == self@.branches,
    {
        &self.branches
    }
}

} // verus!
