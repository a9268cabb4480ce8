//! What holds of every command and of every task it sets up.

use vstd::prelude::*;
use crate::config::ConfigView;
use crate::git::{current_branch, has_upstream, push_task, remote_or_default, stage_task};
use crate::report::ReportView;
use crate::status::unstaged;
use crate::task::{add_args, command, resumed, status_args, TaskView};

verus! {

/// The most invocations of git that a task can still ask for.
pub open spec fn invocations_left(task: TaskView) -> nat {
    match task {
        TaskView::Relay { args } => 1,
        TaskView::ListUnstaged => 2,
        TaskView::Stage { files } => 1,
        TaskView::Push { args, target } => 1,
        TaskView::CreateBranch { name, checkout } => if checkout {
            2
        } else {
            1
        },
        TaskView::Done => 0,
    }
}

/// A task asks for an invocation exactly as long as some are left, and each
/// outcome leaves fewer: a command runs git twice at most, and then is done.
pub proof fn lemma_every_command_ends(task: TaskView, outcome: Result<Seq<char>, Seq<char>>)
    ensures
        command(task) is Some <==> invocations_left(task) > 0,
        invocations_left(task) <= 2,
        resumed(task, outcome) matches Ok((next, reports)) ==> (command(task) is Some
            ==> invocations_left(next) < invocations_left(task)),
{
}

/// A push ends in the upstream-tracking flag where the configuration records
/// no remote for the current branch, be it that the branch has a section
/// without one or that no branch is current; where it records one, the push
/// is the bare push of the branch to the remote.
pub proof fn lemma_push_upstream_flag(
    config: ConfigView,
    remote: Option<Seq<char>>,
    branch: Seq<char>,
)
    ensures
        command(push_task(config, remote, branch)) == Some(
            if has_upstream(config) {
                seq!["push"@, remote_or_default(remote), branch]
            } else {
                seq!["push"@, remote_or_default(remote), branch, "-u"@]
            },
        ),
        current_branch(config.branches) is None ==> !has_upstream(config),
        current_branch(config.branches) matches Some(current) ==> (has_upstream(config)
            <==> current.remote is Some),
{
    let args = command(push_task(config, remote, branch))->0;
    if has_upstream(config) {
        assert(args == seq!["push"@, remote_or_default(remote), branch]);
    } else {
        assert(args == seq!["push"@, remote_or_default(remote), branch, "-u"@]);
    }
}

/// A push from a configuration without any branch asks for upstream
/// tracking.
pub proof fn lemma_push_without_branches(
    config: ConfigView,
    remote: Option<Seq<char>>,
    branch: Seq<char>,
)
    requires
        config.branches.len() == 0,
    ensures
        command(push_task(config, remote, branch)) == Some(
            seq!["push"@, remote_or_default(remote), branch, "-u"@],
        ),
{
    lemma_push_upstream_flag(config, remote, branch);
}

/// Staging with no path first asks for the status listing, and then stages
/// every path that the listing reports, having printed nothing yet.
pub proof fn lemma_stage_without_paths(listing: Seq<char>)
    requires
        unstaged(listing) is Some,
    ensures
        command(stage_task(Seq::empty())) == Some(status_args()),
        resumed(stage_task(Seq::empty()), Ok(listing)) == Ok::<
            (TaskView, Seq<ReportView>),
            Seq<char>,
        >((TaskView::Stage { files: unstaged(listing)->0 }, Seq::empty())),
        command(TaskView::Stage { files: unstaged(listing)->0 }) == Some(
            add_args(unstaged(listing)->0),
        ),
{
}

/// Staging with paths given stages exactly those paths and is then done,
/// whatever comes of it: the status listing is never asked for.
pub proof fn lemma_stage_with_paths(paths: Seq<Seq<char>>, outcome: Result<Seq<char>, Seq<char>>)
    requires
        paths.len() > 0,
    ensures
        command(stage_task(paths)) == Some(add_args(paths)),
        add_args(paths) != status_args(),
        resumed(stage_task(paths), outcome) matches Ok((next, reports)) && next == TaskView::Done,
{
    reveal_strlit("add");
    reveal_strlit("status");
    assert(add_args(paths)[0].len() == 3);
    assert(status_args()[0].len() == 6);
}

} // verus!
