//! The commands of the front end, each as the task it sets up.

#![allow(non_snake_case)]

use vstd::prelude::*;
use vstd::string::StringExecFns;
use crate::config::{parsed, Branch, BranchView, Config, ConfigView};
use crate::task::{checkout_args, extended, Task, TaskView};
use crate::text::{join, joined};

verus! {

/// The remote that a command means where none is named.
pub const DEFAULT_REMOTE: &'static str = "origin";

/// The failure of [`Git::new`] without a configuration text.
pub const CONFIG_UNREADABLE: &'static str = "Could not read .git/config";

/// The failure of [`Git::getCurrentBranch`] where no branch is current.
pub const NO_CURRENT_BRANCH: &'static str = "Could not find current branch";

/// A repository as its configuration describes it.
#[derive(Debug)]
pub struct Git {
    config: Config,
}

impl View for Git {
    type V = ConfigView;

    closed spec fn view(&self) -> ConfigView {
        self.config@
    }
}

/// Whether `index` is the place of the first branch that is current.
pub open spec fn is_first_current(branches: Seq<BranchView>, index: int) -> bool {
    &&& 0 <= index < branches.len()
    &&& branches[index].current
    &&& forall|j: int| 0 <= j < index ==> !(#[trigger] branches[j]).current
}

/// The first branch that is current, if any is.
pub open spec fn current_branch(branches: Seq<BranchView>) -> Option<BranchView> {
    if exists|i: int| is_first_current(branches, i) {
        Some(branches[choose|i: int| is_first_current(branches, i)])
    } else {
        None
    }
}

/// The name of a remote, or the default where none is given.
pub open spec fn remote_or_default(name: Option<Seq<char>>) -> Seq<char> {
    match name {
        Some(name) => name,
        None => DEFAULT_REMOTE@,
    }
}

/// The arguments of a commit: the words of the message joined by blanks as
/// one argument, and the amend flag last where it is asked for.
pub open spec fn commit_args(message: Seq<Seq<char>>, ammend: bool) -> Seq<Seq<char>> {
    seq!["commit"@, "-m"@, joined(message, " "@)] + if ammend {
        seq!["--amend"@]
    } else {
        Seq::empty()
    }
}

/// The arguments that register the remote at `url` under `name`, or under
/// the default name.
pub open spec fn link_args(url: Seq<char>, name: Option<Seq<char>>) -> Seq<Seq<char>> {
    seq!["remote"@, "add"@, remote_or_default(name), url]
}

/// The arguments of a push of `branch` to `remote`; the upstream-tracking
/// flag `-u` comes last if and only if `has_upstream` is not set.
pub open spec fn push_args(remote: Seq<char>, branch: Seq<char>, has_upstream: bool) -> Seq<
    Seq<char>,
> {
    seq!["push"@, remote, branch] + if has_upstream {
        Seq::empty()
    } else {
        seq!["-u"@]
    }
}

/// Whether the configuration records a remote for its current branch. It
/// records none where that branch has a section without one, and where no
/// branch of the configuration is current.
pub open spec fn has_upstream(config: ConfigView) -> bool {
    match current_branch(config.branches) {
        Some(current) => current.remote is Some,
        None => false,
    }
}

/// The task of a push. It goes to the remote that is named, or to the
/// default, on the branch `branch`; it asks for upstream tracking exactly
/// where the configuration records no remote for its current branch.
pub open spec fn push_task(
    config: ConfigView,
    remote: Option<Seq<char>>,
    branch: Seq<char>,
) -> TaskView {
    TaskView::Push {
        args: push_args(remote_or_default(remote), branch, has_upstream(config)),
        target: remote_or_default(remote) + "/"@ + branch,
    }
}

/// The task of staging: with no path given the unstaged files are asked for
/// first, else exactly the given paths are staged.
pub open spec fn stage_task(paths: Seq<Seq<char>>) -> TaskView {
    if paths.len() == 0 {
        TaskView::ListUnstaged
    } else {
        TaskView::Stage { files: paths }
    }
}

/// The view of what [`Git::new`] returns.
pub open spec fn opened_view(opened: Result<Git, String>) -> Result<ConfigView, Seq<char>> {
    match opened {
        Ok(git) => Ok(git@),
        Err(reason) => Err(reason@),
    }
}

/// The name of a remote, or the default where none is given.
fn chosen_remote(name: &Option<String>) -> (remote: String)
    ensures
        remote@ == remote_or_default(name.deep_view()),
{
    match name {
        Some(name) => name.clone(),
        None => String::from_str(DEFAULT_REMOTE),
    }
}

impl Git {
    /// The repository whose configuration text is `config_str`, with
    /// `current_branch` the name of the branch that is checked out. Without a
    /// text, because the file could not be read, there is no repository.
    pub fn new(
        config_str: Option<&String>,
        current_branch: &String,
    ) -> (opened: Result<Git, String>)
        ensures
            opened_view(opened) == match config_str {
                Some(text) => Ok::<ConfigView, Seq<char>>(parsed(text@, current_branch@)),
                None => Err(CONFIG_UNREADABLE@),
            },
    {
        match config_str {
            Some(text) => Ok(Git { config: Config::parse(text, current_branch) }),
            None => Err(String::from_str(CONFIG_UNREADABLE)),
        }
    }

    /// The configuration of the repository.
    pub fn config(&self) -> (config: &Config)
        ensures
            config@ == self@,
    {
        &self.config
    }

    /// Sets up `git init`.
    pub fn init(&self) -> (task: Task)
        ensures
            task@ == (TaskView::Relay { args: seq!["init"@] }),
    {
        let mut args: Vec<String> = Vec::new();
        args.push(String::from_str("init"));
        assert(args.deep_view() == seq!["init"@]);
        Task::Relay { args }
    }

    /// Sets up the staging of `paths`, or of every unstaged file where
    /// `paths` is empty.
    pub fn stageFiles(&self, paths: &Vec<String>) -> (task: Task)
        ensures
            task@ == stage_task(paths.deep_view()),
    {
        if paths.len() == 0 {
            Task::ListUnstaged
        } else {
            Task::Stage { files: extended(Vec::new(), paths) }
        }
    }

    /// Sets up `git reset` on `paths`.
    pub fn unstageFiles(&self, paths: &Vec<String>) -> (task: Task)
        ensures
            task@ == (TaskView::Relay { args: seq!["reset"@] + paths.deep_view() }),
    {
        let mut args: Vec<String> = Vec::new();
        args.push(String::from_str("reset"));
        assert(args.deep_view() == seq!["reset"@]);
        Task::Relay { args: extended(args, paths) }
    }

    /// Sets up a commit whose message is the words of `message` joined by
    /// blanks; `ammend` asks to amend the last commit.
    pub fn commit(&self, message: &Vec<String>, ammend: &bool) -> (task: Task)
        ensures
            task@ == (TaskView::Relay { args: commit_args(message.deep_view(), *ammend) }),
    {
        let mut args: Vec<String> = Vec::new();
        args.push(String::from_str("commit"));
        args.push(String::from_str("-m"));
        args.push(join(message, " "));
        if *ammend {
            args.push(String::from_str("--amend"));
        }
        assert(args.deep_view() == commit_args(message.deep_view(), *ammend));
        Task::Relay { args }
    }

    /// Sets up the registration of the remote at `remote`, under `name` or
    /// under the default name.
    pub fn link(&self, remote: &String, name: &Option<String>) -> (task: Task)
        ensures
            task@ == (TaskView::Relay { args: link_args(remote@, name.deep_view()) }),
    {
        let mut args: Vec<String> = Vec::new();
        args.push(String::from_str("remote"));
        args.push(String::from_str("add"));
        args.push(chosen_remote(name));
        args.push(remote.clone());
        assert(args.deep_view() == link_args(remote@, name.deep_view()));
        Task::Relay { args }
    }

    /// Sets up a push of the branch `current_branch_name`, the branch that is
    /// checked out, to `remote_name` or to the default remote.
    pub fn push(
        &self,
        remote_name: &Option<String>,
        current_branch_name: &String,
    ) -> (task: Task)
        ensures
            task@ == push_task(self@, remote_name.deep_view(), current_branch_name@),
    {
        let has_upstream = match self.getCurrentBranch() {
            Ok(branch) => branch.remote.is_some(),
            Err(_) => false,
        };
        let remote = chosen_remote(remote_name);
        let mut target = remote.clone();
        target.append("/");
        target.append(current_branch_name.as_str());
        let mut args: Vec<String> = Vec::new();
        args.push(String::from_str("push"));
        args.push(remote);
        args.push(current_branch_name.clone());
        if !has_upstream {
            args.push(String::from_str("-u"));
        }
        assert(args.deep_view() == push_args(remote@, current_branch_name@, has_upstream));
        Task::Push { args, target }
    }

    /// Sets up the creation of the branch `name`; `checkout` asks to check it
    /// out once it exists.
    pub fn branch(&self, name: &String, checkout: &bool) -> (task: Task)
        ensures
            task@ == (TaskView::CreateBranch { name: name@, checkout: *checkout }),
    {
        Task::CreateBranch { name: name.clone(), checkout: *checkout }
    }

    /// Sets up the checkout of the branch `name`.
    pub fn checkout(&self, name: &String) -> (task: Task)
        ensures
            task@ == (TaskView::Relay { args: checkout_args(name@) }),
    {
        Task::checkout(name)
    }

    /// Sets up `git pull`.
    pub fn pull(&self) -> (task: Task)
        ensures
            task@ == (TaskView::Relay { args: seq!["pull"@] }),
    {
        let mut args: Vec<String> = Vec::new();
        args.push(String::from_str("pull"));
        assert(args.deep_view() == seq!["pull"@]);
        Task::Relay { args }
    }

    /// The first branch of the configuration that is current.
    pub fn getCurrentBranch(&self) -> (found: Result<&Branch, String>)
        ensures
            match found {
                Ok(branch) => current_branch(self@.branches) == Some(branch@),
                Err(reason) => current_branch(self@.branches) is None && reason@
                    == NO_CURRENT_BRANCH@,
            },
    {
        let branches = self.config.branches();
        let mut i: usize = 0;
        while i < branches.len()
            invariant
                0 <= i <= branches.len(),
                branches.deep_view() == self@.branches,
                forall|j: int| 0 <= j < i ==> !(#[trigger] self@.branches[j]).current,
            decreases branches.len() - i,
        {
            assert(branches.deep_view()[i as int] == branches[i as int]@);
            if branches[i].current {
                proof {
                    assert(is_first_current(self@.branches, i as int));
                    let chosen = choose|k: int| is_first_current(self@.branches, k);
                    assert(chosen == i);
                }
                return Ok(&branches[i]);
            }
            i += 1;
        }
        Err(String::from_str(NO_CURRENT_BRANCH))
    }
}

} // verus!
