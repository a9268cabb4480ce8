//! A command as a sequence of git invocations: what to run next, and what
//! the outcome of each run leads to.

use vstd::prelude::*;
use vstd::string::StringExecFns;
use crate::report::{error_line, headline, relayed, staged_lines, Report, ReportView};
use crate::status::{unstaged, unstaged_files};
use crate::utils::outcome_view;

verus! {

/// The failure of a status listing that holds a line without a path.
pub const UNREADABLE_STATUS: &'static str = "Could not read the status listing";

/// What is left to do of a command.
#[derive(Debug)]
pub enum Task {
    /// Run git with `args` and pass on what it says.
    Relay { args: Vec<String> },
    /// Ask git for the short status listing, then stage the files it
    /// reports.
    ListUnstaged,
    /// Stage `files` and list them.
    Stage { files: Vec<String> },
    /// Run the push with `args` and name `target`, the remote branch that
    /// was pushed to.
    Push { args: Vec<String>, target: String },
    /// Create the branch `name`, then check it out if `checkout` is set.
    CreateBranch { name: String, checkout: bool },
    /// Nothing is left to run.
    Done,
}

/// A [`Task`] with its strings as character sequences.
pub ghost enum TaskView {
    Relay { args: Seq<Seq<char>> },
    ListUnstaged,
    Stage { files: Seq<Seq<char>> },
    Push { args: Seq<Seq<char>>, target: Seq<char> },
    CreateBranch { name: Seq<char>, checkout: bool },
    Done,
}

impl View for Task {
    type V = TaskView;

    open spec fn view(&self) -> TaskView {
        match self {
            Task::Relay { args } => TaskView::Relay { args: args.deep_view() },
            Task::ListUnstaged => TaskView::ListUnstaged,
            Task::Stage { files } => TaskView::Stage { files: files.deep_view() },
            Task::Push { args, target } => TaskView::Push {
                args: args.deep_view(),
                target: target@,
            },
            Task::CreateBranch { name, checkout } => TaskView::CreateBranch {
                name: name@,
                checkout: *checkout,
            },
            Task::Done => TaskView::Done,
        }
    }
}

/// The arguments of the query for the branch that is checked out.
pub open spec fn current_branch_args() -> Seq<Seq<char>> {
    seq!["branch"@, "--show-current"@]
}

/// The arguments of the status query.
pub open spec fn status_args() -> Seq<Seq<char>> {
    seq!["status"@, "--porcelain"@]
}

/// The arguments that stage `files`.
pub open spec fn add_args(files: Seq<Seq<char>>) -> Seq<Seq<char>> {
    seq!["add"@] + files
}

/// The arguments that create the branch `name`.
pub open spec fn branch_args(name: Seq<char>) -> Seq<Seq<char>> {
    seq!["branch"@, name, "-t"@]
}

/// The arguments that check out the branch `name`.
pub open spec fn checkout_args(name: Seq<char>) -> Seq<Seq<char>> {
    seq!["checkout"@, name]
}

/// The arguments of the git invocation that a task asks for next; `None`
/// where nothing is left to run.
pub open spec fn command(task: TaskView) -> Option<Seq<Seq<char>>> {
    match task {
        TaskView::Relay { args } => Some(args),
        TaskView::ListUnstaged => Some(status_args()),
        TaskView::Stage { files } => Some(add_args(files)),
        TaskView::Push { args, target } => Some(args),
        TaskView::CreateBranch { name, checkout } => Some(branch_args(name)),
        TaskView::Done => None,
    }
}

/// What the outcome of the invocation that a task asked for leads to: the
/// task that is left, and the lines to print. The one failure is a status
/// listing that cannot be read.
///
/// - What a relayed invocation says is passed on, and the command is done.
/// - A status listing gives the files to stage. Where the query failed its
///   error is printed and the staging goes on with no file.
/// - A staging that succeeded lists the files; a push names its target; a
///   new branch is named, and is checked out next where that was asked for.
/// - The error text of any other failed invocation is printed, and the
///   command is done.
pub open spec fn resumed(task: TaskView, outcome: Result<Seq<char>, Seq<char>>) -> Result<
    (TaskView, Seq<ReportView>),
    Seq<char>,
> {
    match task {
        TaskView::Relay { args } => Ok((TaskView::Done, seq![relayed(outcome)])),
        TaskView::ListUnstaged => match outcome {
            Ok(listing) => match unstaged(listing) {
                Some(files) => Ok((TaskView::Stage { files }, Seq::empty())),
                None => Err(UNREADABLE_STATUS@),
            },
            Err(text) => Ok((TaskView::Stage { files: Seq::empty() }, seq![error_line(text)])),
        },
        TaskView::Stage { files } => match outcome {
            Ok(_) => Ok((TaskView::Done, staged_lines(files))),
            Err(text) => Ok((TaskView::Done, seq![error_line(text)])),
        },
        TaskView::Push { args, target } => match outcome {
            Ok(_) => Ok((TaskView::Done, seq![headline("Pushed to"@, target)])),
            Err(text) => Ok((TaskView::Done, seq![error_line(text)])),
        },
        TaskView::CreateBranch { name, checkout } => match outcome {
            Ok(_) => Ok(
                (
                    if checkout {
                        TaskView::Relay { args: checkout_args(name) }
                    } else {
                        TaskView::Done
                    },
                    seq![headline("Created branch"@, name)],
                ),
            ),
            Err(text) => Ok((TaskView::Done, seq![error_line(text)])),
        },
        TaskView::Done => Ok((TaskView::Done, Seq::empty())),
    }
}

/// The view of what [`Task::resume`] returns.
pub open spec fn progress_view(progress: Result<(Task, Vec<Report>), String>) -> Result<
    (TaskView, Seq<ReportView>),
    Seq<char>,
> {
    match progress {
        Ok((task, reports)) => Ok((task@, reports.deep_view())),
        Err(reason) => Err(reason@),
    }
}

/// A copy of `more` behind the strings of `args`.
pub fn extended(args: Vec<String>, more: &Vec<String>) -> (all: Vec<String>)
    ensures
        all.deep_view() == args.deep_view() + more.deep_view(),
{
    let mut all = args;
    let mut i: usize = 0;
    while i < more.len()
        invariant
            0 <= i <= more.len(),
            all.deep_view() == args.deep_view() + more.deep_view().take(i as int),
        decreases more.len() - i,
    {
        let ghost before = all.deep_view();
        all.push(more[i].clone());
        proof {
            assert(all.deep_view() == before.push(more[i as int]@));
            assert(more.deep_view().take(i + 1) == more.deep_view().take(i as int).push(
                more[i as int]@,
            ));
        }
        i += 1;
    }
    assert(more.deep_view().take(i as int) == more.deep_view());
    all
}

/// The arguments with which git is asked for the name of the branch that is
/// checked out.
pub fn current_branch_query() -> (args: Vec<String>)
    ensures
        args.deep_view() == current_branch_args(),
{
    let mut args: Vec<String> = Vec::new();
    args.push(String::from_str("branch"));
    args.push(String::from_str("--show-current"));
    assert(args.deep_view() == current_branch_args());
    args
}

/// One report as a list.
fn single(report: Report) -> (reports: Vec<Report>)
    ensures
        reports.deep_view() == seq![report@],
{
    let mut reports: Vec<Report> = Vec::new();
    reports.push(report);
    assert(reports.deep_view() == seq![report@]);
    reports
}

/// No report.
fn silent() -> (reports: Vec<Report>)
    ensures
        reports.deep_view() == Seq::<ReportView>::empty(),
{
    let reports: Vec<Report> = Vec::new();
    assert(reports.deep_view() == Seq::<ReportView>::empty());
    reports
}

impl Task {
    /// The task that checks out the branch `name`.
    pub fn checkout(name: &String) -> (task: Task)
        ensures
            task@ == (TaskView::Relay { args: checkout_args(name@) }),
    {
        let mut args: Vec<String> = Vec::new();
        args.push(String::from_str("checkout"));
        args.push(name.clone());
        assert(args.deep_view() == checkout_args(name@));
        Task::Relay { args }
    }

    /// The arguments of the git invocation to run next; `None` where the
    /// command is done.
    pub fn command(&self) -> (args: Option<Vec<String>>)
        ensures
            args.deep_view() == command(self@),
    {
        match self {
            Task::Relay { args } => Some(extended(Vec::new(), args)),
            Task::ListUnstaged => {
                let mut args: Vec<String> = Vec::new();
                args.push(String::from_str("status"));
                args.push(String::from_str("--porcelain"));
                assert(args.deep_view() == status_args());
                Some(args)
            },
            Task::Stage { files } => {
                let mut args: Vec<String> = Vec::new();
                args.push(String::from_str("add"));
                assert(args.deep_view() == seq!["add"@]);
                Some(extended(args, files))
            },
            Task::Push { args, target } => Some(extended(Vec::new(), args)),
            Task::CreateBranch { name, checkout } => {
                let mut args: Vec<String> = Vec::new();
                args.push(String::from_str("branch"));
                args.push(name.clone());
                args.push(String::from_str("-t"));
                assert(args.deep_view() == branch_args(name@));
                Some(args)
            },
            Task::Done => None,
        }
    }

    /// Takes in the outcome of the invocation that [`Task::command`] asked
    /// for, and hands out the task that is left with the lines to print.
    pub fn resume(
        self,
        outcome: Result<String, String>,
    ) -> (progress: Result<(Task, Vec<Report>), String>)
        ensures
            progress_view(progress) == resumed(self@, outcome_view(outcome)),
    {
        match self {
            Task::Relay { args } => Ok((Task::Done, single(Report::relay(outcome)))),
            Task::ListUnstaged => match outcome {
                Ok(listing) => match unstaged_files(listing.as_str()) {
                    Some(files) => Ok((Task::Stage { files }, silent())),
                    None => Err(String::from_str(UNREADABLE_STATUS)),
                },
                Err(text) => {
                    let files: Vec<String> = Vec::new();
                    assert(files.deep_view() == Seq::<Seq<char>>::empty());
                    Ok((Task::Stage { files }, single(Report::error(text))))
                },
            },
            Task::Stage { files } => match outcome {
                Ok(_) => {
                    let listing = Report::staged(&files);
                    Ok((Task::Done, listing))
                },
                Err(text) => Ok((Task::Done, single(Report::error(text)))),
            },
            Task::Push { args, target } => match outcome {
                Ok(_) => Ok((Task::Done, single(Report::headline("Pushed to", target.as_str())))),
                Err(text) => Ok((Task::Done, single(Report::error(text)))),
            },
            Task::CreateBranch { name, checkout } => match outcome {
                Ok(_) => {
                    let next = if checkout {
                        Task::checkout(&name)
                    } else {
                        Task::Done
                    };
                    Ok((next, single(Report::headline("Created branch", name.as_str()))))
                },
                Err(text) => Ok((Task::Done, single(Report::error(text)))),
            },
            Task::Done => Ok((Task::Done, silent())),
        }
    }
}

} // verus!
