//! Facts about a repository as a whole: what it is in the middle of, how it
//! stands to its upstream, and what a pull has to do.
//!
//! Nothing here opens a repository. The caller asks the version control
//! engine and hands over what it says.

use crate::text::chars_of;
use crate::text::split_chars;
use crate::text::split_on;
use crate::text::str_view;
use crate::text::text_of;
use vstd::prelude::*;

verus! {

/// What the engine says a repository is in the middle of.
#[derive(Debug, Clone, Copy, PartialEq, Eq, Structural)]
pub enum EngineState {
    Clean,
    Merge,
    Revert,
    RevertSequence,
    CherryPick,
    CherryPickSequence,
    Bisect,
    Rebase,
    RebaseInteractive,
    RebaseMerge,
    ApplyMailbox,
    ApplyMailboxOrRebase,
}

/// Repository state: the special operation in progress, if any.
#[derive(Debug, Clone, Copy, PartialEq, Eq, Structural)]
pub enum RepoState {
    Clean,
    Merging,
    Rebasing,
    CherryPicking,
    Reverting,
    Bisecting,
}

impl RepoState {
    /// The state that stands for what the engine says. Every kind of rebase
    /// is a rebase, a sequence of reverts or cherry picks counts as one, and
    /// applying a mailbox counts as nothing in progress.
    pub open spec fn of(state: EngineState) -> RepoState {
        match state {
            EngineState::Merge => RepoState::Merging,
            EngineState::Rebase | EngineState::RebaseInteractive | EngineState::RebaseMerge =>
                RepoState::Rebasing,
            EngineState::CherryPick | EngineState::CherryPickSequence => RepoState::CherryPicking,
            EngineState::Revert | EngineState::RevertSequence => RepoState::Reverting,
            EngineState::Bisect => RepoState::Bisecting,
            _ => RepoState::Clean,
        }
    }

    /// The integer under which the state is handed to other languages.
    pub open spec fn spec_code(self) -> int {
        match self {
            RepoState::Clean => 0,
            RepoState::Merging => 1,
            RepoState::Rebasing => 2,
            RepoState::CherryPicking => 3,
            RepoState::Reverting => 4,
            RepoState::Bisecting => 5,
        }
    }

    /// The state that stands for what the engine says.
    pub fn from_engine(state: EngineState) -> (r: RepoState)
        ensures
            r == RepoState::of(state),
    {
        match state {
            EngineState::Merge => RepoState::Merging,
            EngineState::Rebase | EngineState::RebaseInteractive | EngineState::RebaseMerge =>
                RepoState::Rebasing,
            EngineState::CherryPick | EngineState::CherryPickSequence => RepoState::CherryPicking,
            EngineState::Revert | EngineState::RevertSequence => RepoState::Reverting,
            EngineState::Bisect => RepoState::Bisecting,
            _ => RepoState::Clean,
        }
    }

    /// The integer code of the state.
    pub fn code(self) -> (code: i32)
        ensures
            code == self.spec_code(),
    {
        match self {
            RepoState::Clean => 0,
            RepoState::Merging => 1,
            RepoState::Rebasing => 2,
            RepoState::CherryPicking => 3,
            RepoState::Reverting => 4,
            RepoState::Bisecting => 5,
        }
    }
}

/// How a branch stands to its upstream.
#[derive(Debug, Clone)]
pub struct RemoteStatus {
    pub ahead: usize,
    pub behind: usize,
    pub remote_name: String,
    pub remote_branch: String,
}

/// The name of the remote in the name of an upstream branch: what stands
/// before the first slash.
pub open spec fn remote_of(upstream: Seq<char>) -> Seq<char> {
    split_on(upstream, '/')[0]
}

/// The name of the branch in the name of an upstream branch: what stands
/// between the first slash and the second, and `main` where there is no
/// slash.
pub open spec fn branch_of(upstream: Seq<char>) -> Seq<char> {
    if split_on(upstream, '/').len() > 1 {
        split_on(upstream, '/')[1]
    } else {
        "main"@
    }
}

/// The name of an upstream branch, or `origin` where it is no valid text.
pub open spec fn upstream_or_origin(upstream: Option<Seq<char>>) -> Seq<char> {
    match upstream {
        Some(name) => name,
        None => "origin"@,
    }
}

impl RemoteStatus {
    /// How a branch stands to the upstream branch of the given name, which
    /// is `origin` where the engine has no valid text for it.
    pub fn from_upstream(ahead: usize, behind: usize, upstream: Option<&str>) -> (r: RemoteStatus)
        ensures
            r.ahead == ahead,
            r.behind == behind,
            r.remote_name@ == remote_of(upstream_or_origin(str_view(upstream))),
            r.remote_branch@ == branch_of(upstream_or_origin(str_view(upstream))),
    {
        let name = match upstream {
            Some(name) => chars_of(name),
            None => chars_of("origin"),
        };
        let parts = split_chars(name.as_slice(), '/');
        let remote_name = text_of(parts[0].as_slice());
        let remote_branch = if parts.len() > 1 {
            text_of(parts[1].as_slice())
        } else {
            "main".to_owned()
        };
        RemoteStatus { ahead, behind, remote_name, remote_branch }
    }
}

/// The name of the current branch: the short name of the head where the
/// head is a branch with a valid name, and `HEAD` where the head is detached
/// or its name is no valid text.
pub open spec fn branch_label(is_branch: bool, shorthand: Option<Seq<char>>) -> Seq<char> {
    match shorthand {
        Some(name) => if is_branch {
            name
        } else {
            "HEAD"@
        },
        None => "HEAD"@,
    }
}

/// The name of the current branch, given what the engine says of the head.
pub fn current_branch(is_branch: bool, shorthand: Option<&str>) -> (name: String)
    ensures
        name@ == branch_label(is_branch, str_view(shorthand)),
{
    match shorthand {
        Some(short) => {
            if is_branch {
                short.to_owned()
            } else {
                "HEAD".to_owned()
            }
        },
        None => "HEAD".to_owned(),
    }
}

/// The reference of a local branch.
pub open spec fn branch_ref(branch: Seq<char>) -> Seq<char> {
    "refs/heads/"@ + branch
}

/// The reference of a local branch.
pub fn branch_reference(branch: &str) -> (name: String)
    ensures
        name@ == branch_ref(branch@),
{
    "refs/heads/".to_owned().concat(branch)
}

/// What is pushed: the given refspec, or, without one, the branch to the
/// branch of the same name.
pub open spec fn push_refspec(refspec: Option<Seq<char>>, branch: Seq<char>) -> Seq<char> {
    match refspec {
        Some(spec) => spec,
        None => branch_ref(branch) + ":"@ + branch_ref(branch),
    }
}

/// The refspec of a push.
pub fn refspec_for_push(refspec: Option<&str>, branch: &str) -> (spec: String)
    ensures
        spec@ == push_refspec(str_view(refspec), branch@),
{
    match refspec {
        Some(spec) => spec.to_owned(),
        None => {
            let name = branch_reference(branch);
            let head = branch_reference(branch).concat(":");
            let spec = head.concat(name.as_str());
            spec
        },
    }
}

/// What a pull does once the fetch is through.
#[derive(Debug, Clone, Copy, PartialEq, Eq, Structural)]
pub enum PullAction {
    /// The branch is up to date: nothing to do.
    Nothing,
    /// The branch is moved forward to what was fetched.
    FastForward,
    /// What was fetched is merged into the branch.
    Merge,
}

/// What a pull does, given what the analysis of the merge says: being up to
/// date counts before a fast forward, a fast forward before a merge.
pub open spec fn pull_action(up_to_date: bool, fast_forward: bool) -> PullAction {
    if up_to_date {
        PullAction::Nothing
    } else if fast_forward {
        PullAction::FastForward
    } else {
        PullAction::Merge
    }
}

/// What a pull does once the fetch is through.
pub fn plan_pull(up_to_date: bool, fast_forward: bool) -> (action: PullAction)
    ensures
        action == pull_action(up_to_date, fast_forward),
{
    if up_to_date {
        PullAction::Nothing
    } else if fast_forward {
        PullAction::FastForward
    } else {
        PullAction::Merge
    }
}

/// The message of the commit that concludes the merge of a pull.
pub open spec fn merge_message(branch: Seq<char>, remote: Seq<char>) -> Seq<char> {
    "Merge branch '"@ + branch + "' of "@ + remote
}

/// The message of the commit that concludes the merge of a pull.
pub fn pull_merge_message(branch: &str, remote: &str) -> (message: String)
    ensures
        message@ == merge_message(branch@, remote@),
{
    "Merge branch '".to_owned().concat(branch).concat("' of ").concat(remote)
}

} // verus!
