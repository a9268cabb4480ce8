//! What holds of every run of the configuration reader.

use vstd::prelude::*;
use crate::config::{
    flush, is_header, run, step, BranchView, ConfigView, RemoteView, REMOTE_KEY, URL_KEY,
};
use crate::line::LineView;

verus! {

/// Taking in one more line is one step from where the reader stood.
pub proof fn lemma_run_push(lines: Seq<LineView>, line: LineView, current: Seq<char>)
    ensures
        run(lines.push(line), current) == step(run(lines, current), line, current),
{
    assert(lines.push(line).drop_last() == lines);
}

/// Lines that stand before the first section header leave no trace: a
/// key-value line there sets nothing and adds no entry.
pub proof fn lemma_lines_before_first_header(
    before: Seq<LineView>,
    rest: Seq<LineView>,
    current: Seq<char>,
)
    requires
        forall|i: int| 0 <= i < before.len() ==> !is_header(#[trigger] before[i]),
    ensures
        run(before + rest, current) == run(rest, current),
    decreases rest.len(), before.len(),
{
    if rest.len() > 0 {
        assert((before + rest).drop_last() == before + rest.drop_last());
        lemma_lines_before_first_header(before, rest.drop_last(), current);
    } else if before.len() > 0 {
        assert(before + rest == before);
        lemma_lines_before_first_header(before.drop_last(), rest, current);
        assert(before.drop_last() + rest == before.drop_last());
        assert(!is_header(before.last()));
    } else {
        assert(before + rest == rest);
    }
}

/// A text of one remote section that sets its URL describes exactly that
/// remote, and no branch.
pub proof fn lemma_single_remote_section(name: Seq<char>, url: Seq<char>, current: Seq<char>)
    ensures
        flush(
            run(
                seq![
                    LineView::RemoteHeader { name },
                    LineView::KeyValue { key: URL_KEY@, value: url },
                ],
                current,
            ),
        ) == (ConfigView { remotes: seq![RemoteView { name, url }], branches: Seq::empty() }),
{
    let header = LineView::RemoteHeader { name };
    let setting = LineView::KeyValue { key: URL_KEY@, value: url };
    let none = Seq::<LineView>::empty();
    assert(seq![header, setting] == none.push(header).push(setting));
    lemma_run_push(none, header, current);
    lemma_run_push(none.push(header), setting, current);
    let read = flush(run(seq![header, setting], current));
    assert(read.remotes == seq![RemoteView { name, url }]);
    assert(read.branches == Seq::<BranchView>::empty());
}

/// A text of one branch section that sets its remote describes exactly that
/// branch, tracking that remote, and no remote; the branch is current if and
/// only if it bears the name of the branch that is checked out.
pub proof fn lemma_single_branch_section(name: Seq<char>, remote: Seq<char>, current: Seq<char>)
    ensures
        flush(
            run(
                seq![
                    LineView::BranchHeader { name },
                    LineView::KeyValue { key: REMOTE_KEY@, value: remote },
                ],
                current,
            ),
        ) == (ConfigView {
            remotes: Seq::empty(),
            branches: seq![BranchView { name, remote: Some(remote), current: name == current }],
        }),
{
    let header = LineView::BranchHeader { name };
    let setting = LineView::KeyValue { key: REMOTE_KEY@, value: remote };
    let none = Seq::<LineView>::empty();
    assert(seq![header, setting] == none.push(header).push(setting));
    lemma_run_push(none, header, current);
    lemma_run_push(none.push(header), setting, current);
    let read = flush(run(seq![header, setting], current));
    assert(read.remotes == Seq::<RemoteView>::empty());
    assert(read.branches == seq![
        BranchView { name, remote: Some(remote), current: name == current },
    ]);
}

/// Two remote headers in a row give two remotes, the first with an empty
/// URL, after the entries of what came before.
pub proof fn lemma_consecutive_remote_headers(
    before: Seq<LineView>,
    first: Seq<char>,
    second: Seq<char>,
    current: Seq<char>,
)
    ensures
        flush(
            run(
                before.push(LineView::RemoteHeader { name: first }).push(
                    LineView::RemoteHeader { name: second },
                ),
                current,
            ),
        ) == (ConfigView {
            remotes: flush(run(before, current)).remotes.push(
                RemoteView { name: first, url: Seq::empty() },
            ).push(RemoteView { name: second, url: Seq::empty() }),
            branches: flush(run(before, current)).branches,
        }),
{
    lemma_run_push(before, LineView::RemoteHeader { name: first }, current);
    lemma_run_push(
        before.push(LineView::RemoteHeader { name: first }),
        LineView::RemoteHeader { name: second },
        current,
    );
}

/// Two branch headers in a row give two branches, the first tracking no
/// remote, after the entries of what came before.
pub proof fn lemma_consecutive_branch_headers(
    before: Seq<LineView>,
    first: Seq<char>,
    second: Seq<char>,
    current: Seq<char>,
)
    ensures
        flush(
            run(
                before.push(LineView::BranchHeader { name: first }).push(
                    LineView::BranchHeader { name: second },
                ),
                current,
            ),
        ) == (ConfigView {
            remotes: flush(run(before, current)).remotes,
            branches: flush(run(before, current)).branches.push(
                BranchView { name: first, remote: None, current: first == current },
            ).push(BranchView { name: second, remote: None, current: second == current }),
        }),
{
    lemma_run_push(before, LineView::BranchHeader { name: first }, current);
    lemma_run_push(
        before.push(LineView::BranchHeader { name: first }),
        LineView::BranchHeader { name: second },
        current,
    );
}

/// Every branch that the reader produces is current if and only if it bears
/// the name of the branch that is checked out.
pub proof fn lemma_current_flag(lines: Seq<LineView>, current: Seq<char>)
    ensures
        forall|i: int|
            0 <= i < flush(run(lines, current)).branches.len() ==> {
                let branch = #[trigger] flush(run(lines, current)).branches[i];
                branch.current <==> branch.name == current
            },
    decreases lines.len(),
{
    if lines.len() > 0 {
        lemma_current_flag(lines.drop_last(), current);
        let before = flush(run(lines.drop_last(), current)).branches;
        let after = flush(run(lines, current)).branches;
        assert forall|i: int| 0 <= i < after.len() implies ((#[trigger] after[i]).current
            <==> after[i].name == current) by {
            if i < before.len() {
                assert(before[i].current <==> before[i].name == current);
            }
        }
    }
}

/// Without a branch header among the lines, the name of the checked-out
/// branch has no bearing on what is read.
pub proof fn lemma_current_unused_without_branch(
    lines: Seq<LineView>,
    current: Seq<char>,
    other: Seq<char>,
)
    requires
        forall|i: int| 0 <= i < lines.len() ==> !(#[trigger] lines[i] is BranchHeader),
    ensures
        run(lines, current) == run(lines, other),
    decreases lines.len(),
{
    if lines.len() > 0 {
        lemma_current_unused_without_branch(lines.drop_last(), current, other);
        assert(!(lines.last() is BranchHeader));
    }
}

/// The names that the remote headers among the lines give, in order.
pub open spec fn remote_names(lines: Seq<LineView>) -> Seq<Seq<char>>
    decreases lines.len(),
{
    if lines.len() == 0 {
        Seq::empty()
    } else {
        match lines.last() {
            LineView::RemoteHeader { name } => remote_names(lines.drop_last()).push(name),
            _ => remote_names(lines.drop_last()),
        }
    }
}

/// The names that the branch headers among the lines give, in order.
pub open spec fn branch_names(lines: Seq<LineView>) -> Seq<Seq<char>>
    decreases lines.len(),
{
    if lines.len() == 0 {
        Seq::empty()
    } else {
        match lines.last() {
            LineView::BranchHeader { name } => branch_names(lines.drop_last()).push(name),
            _ => branch_names(lines.drop_last()),
        }
    }
}

/// Every header gives one entry and nothing else gives any: the remotes bear
/// the names of the remote headers, in their order, and the branches those of
/// the branch headers. A section that occurs twice gives two entries.
pub proof fn lemma_one_entry_per_header(lines: Seq<LineView>, current: Seq<char>)
    ensures
        flush(run(lines, current)).remotes.map_values(|remote: RemoteView| remote.name)
            == remote_names(lines),
        flush(run(lines, current)).branches.map_values(|branch: BranchView| branch.name)
            == branch_names(lines),
    decreases lines.len(),
{
    let remote_name = |remote: RemoteView| remote.name;
    let branch_name = |branch: BranchView| branch.name;
    let after = flush(run(lines, current));
    if lines.len() > 0 {
        lemma_one_entry_per_header(lines.drop_last(), current);
        let before = flush(run(lines.drop_last(), current));
        match lines.last() {
            LineView::RemoteHeader { name } => {
                assert(after.remotes == before.remotes.push(
                    RemoteView { name, url: Seq::empty() },
                ));
                assert(after.branches == before.branches);
                assert(after.remotes.map_values(remote_name) == before.remotes.map_values(
                    remote_name,
                ).push(name));
            },
            LineView::BranchHeader { name } => {
                assert(after.remotes == before.remotes);
                assert(after.branches == before.branches.push(
                    BranchView { name, remote: None, current: name == current },
                ));
                assert(after.branches.map_values(branch_name) == before.branches.map_values(
                    branch_name,
                ).push(name));
            },
            _ => {
                assert(after.remotes.map_values(remote_name) == before.remotes.map_values(
                    remote_name,
                ));
                assert(after.branches.map_values(branch_name) == before.branches.map_values(
                    branch_name,
                ));
            },
        }
    } else {
        assert(after.remotes.map_values(remote_name) == Seq::<Seq<char>>::empty());
        assert(after.branches.map_values(branch_name) == Seq::<Seq<char>>::empty());
    }
}

/// Two branches that are both current bear the same name: where no two
/// branch sections share a name, at most one branch is current.
pub proof fn lemma_at_most_one_current(lines: Seq<LineView>, current: Seq<char>, i: int, j: int)
    requires
        0 <= i < flush(run(lines, current)).branches.len(),
        0 <= j < flush(run(lines, current)).branches.len(),
        flush(run(lines, current)).branches[i].current,
        flush(run(lines, current)).branches[j].current,
    ensures
        flush(run(lines, current)).branches[i].name == flush(run(lines, current)).branches[j].name,
{
    lemma_current_flag(lines, current);
}

} // verus!
