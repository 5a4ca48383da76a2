//! Commits, branches and the changes of a commit, as they are shown in a
//! history view, and the rules by which commits are paged and searched.
//!
//! Nothing here walks a repository. The caller asks the version control
//! engine and hands over what it says.

use crate::text::chars_of;
use crate::text::contains_chars;
use crate::text::occurs_at;
use crate::text::occurs_in;
use crate::text::starts_with_chars;
use crate::text::text_of;
use crate::text::text_view;
use vstd::prelude::*;

verus! {

/// A single commit in the history.
#[derive(Debug, Clone)]
pub struct Commit {
    pub oid: String,
    pub short_oid: String,
    pub message: String,
    pub summary: String,
    pub author_name: String,
    pub author_email: String,
    pub committer_name: String,
    pub committer_email: String,
    pub timestamp: i64,
    pub parent_oids: Vec<String>,
}

/// A Git branch.
#[derive(Debug, Clone)]
pub struct Branch {
    pub name: String,
    pub is_head: bool,
    pub is_remote: bool,
    pub upstream: Option<String>,
    pub target_oid: Option<String>,
}

/// Diff statistics of a commit.
#[derive(Debug, Clone)]
pub struct DiffStats {
    pub files_changed: usize,
    pub insertions: usize,
    pub deletions: usize,
}

/// A file change in a commit.
#[derive(Debug, Clone)]
pub struct FileChange {
    pub path: String,
    pub old_path: Option<String>,
    /// One of `added`, `modified`, `deleted`, `renamed`, `unknown`.
    pub status: String,
    pub insertions: usize,
    pub deletions: usize,
}

/// Who made or committed a commit, as the engine reports it. Name and
/// address are missing where they are no valid text.
#[derive(Debug, Clone)]
pub struct Signature {
    pub name: Option<String>,
    pub email: Option<String>,
    pub seconds: i64,
}

/// What the engine says happened to a file between two trees.
#[derive(Debug, Clone, Copy, PartialEq, Eq, Structural)]
pub enum Delta {
    Unmodified,
    Added,
    Deleted,
    Modified,
    Renamed,
    Copied,
    Ignored,
    Untracked,
    Typechange,
    Unreadable,
    Conflicted,
}

/// A text, or the empty text where it is missing.
pub open spec fn or_empty(text: Option<Seq<char>>) -> Seq<char> {
    match text {
        Some(t) => t,
        None => Seq::empty(),
    }
}

/// The first seven characters of an object identifier, or all of them where
/// there are fewer.
pub open spec fn short_form(oid: Seq<char>) -> Seq<char> {
    if oid.len() > 7 {
        oid.take(7)
    } else {
        oid
    }
}

/// The name under which a change is shown. Only additions, deletions,
/// modifications and renames have a name of their own.
pub open spec fn delta_label(delta: Delta) -> Seq<char> {
    match delta {
        Delta::Added => "added"@,
        Delta::Deleted => "deleted"@,
        Delta::Modified => "modified"@,
        Delta::Renamed => "renamed"@,
        _ => "unknown"@,
    }
}

/// A text, or the empty text where it is missing.
fn text_or_empty(text: Option<String>) -> (r: String)
    ensures
        r@ == or_empty(text_view(text)),
{
    match text {
        Some(t) => t,
        None => String::new(),
    }
}

impl Commit {
    /// The commit as it is shown, given what the engine reports of it. What
    /// is no valid text is shown as empty; the timestamp is that of the
    /// author.
    pub fn from_parts(
        oid: String,
        message: Option<String>,
        summary: Option<String>,
        author: Signature,
        committer: Signature,
        parent_oids: Vec<String>,
    ) -> (commit: Commit)
        ensures
            commit.oid == oid,
            commit.short_oid@ == short_form(oid@),
            commit.message@ == or_empty(text_view(message)),
            commit.summary@ == or_empty(text_view(summary)),
            commit.author_name@ == or_empty(text_view(author.name)),
            commit.author_email@ == or_empty(text_view(author.email)),
            commit.committer_name@ == or_empty(text_view(committer.name)),
            commit.committer_email@ == or_empty(text_view(committer.email)),
            commit.timestamp == author.seconds,
            commit.parent_oids == parent_oids,
    {
        let chars = chars_of(oid.as_str());
        let short_oid = if chars.len() > 7 {
            let mut first: Vec<char> = Vec::new();
            let mut i: usize = 0;
            while i < 7
                invariant
                    i <= 7,
                    chars.len() > 7,
                    first@ == chars@.take(i as int),
                decreases 7 - i,
            {
                first.push(chars[i]);
                i = i + 1;
            }
            text_of(first.as_slice())
        } else {
            text_of(chars.as_slice())
        };
        Commit {
            oid,
            short_oid,
            message: text_or_empty(message),
            summary: text_or_empty(summary),
            author_name: text_or_empty(author.name),
            author_email: text_or_empty(author.email),
            committer_name: text_or_empty(committer.name),
            committer_email: text_or_empty(committer.email),
            timestamp: author.seconds,
            parent_oids,
        }
    }
}

impl Branch {
    /// The branch as it is shown, given what the engine reports of it. Only
    /// a local branch is shown with an upstream.
    pub fn from_parts(
        name: String,
        is_head: bool,
        is_remote: bool,
        upstream: Option<String>,
        target_oid: Option<String>,
    ) -> (branch: Branch)
        ensures
            branch.name == name,
            branch.is_head == is_head,
            branch.is_remote == is_remote,
            branch.upstream == (if is_remote {
                None
            } else {
                upstream
            }),
            branch.target_oid == target_oid,
    {
        let upstream = if is_remote {
            None
        } else {
            upstream
        };
        Branch { name, is_head, is_remote, upstream, target_oid }
    }
}

impl FileChange {
    /// The change of a file as it is shown, given what the engine reports of
    /// it. A path that is no valid text is shown as empty; the old path is
    /// shown for a rename only; lines are not counted.
    pub fn of_delta(delta: Delta, new_path: Option<String>, old_path: Option<String>) -> (change:
        FileChange)
        ensures
            change.path@ == or_empty(text_view(new_path)),
            change.status@ == delta_label(delta),
            change.old_path == (if delta == Delta::Renamed {
                old_path
            } else {
                None
            }),
            change.insertions == 0,
            change.deletions == 0,
    {
        let status = match delta {
            Delta::Added => "added".to_owned(),
            Delta::Deleted => "deleted".to_owned(),
            Delta::Modified => "modified".to_owned(),
            Delta::Renamed => "renamed".to_owned(),
            _ => "unknown".to_owned(),
        };
        let old_path = match delta {
            Delta::Renamed => old_path,
            _ => None,
        };
        FileChange { path: text_or_empty(new_path), old_path, status, insertions: 0, deletions: 0 }
    }
}

/// What to do with the next commit of a walk when a page of commits is
/// collected.
#[derive(Debug, Clone, Copy, PartialEq, Eq, Structural)]
pub enum PageStep {
    /// The commit lies before the page: pass over it.
    Skip,
    /// The commit belongs to the page: load it.
    Take,
    /// The page is full: end the walk.
    Stop,
}

/// What to do with the commit at position `index` of a walk, when `taken`
/// commits have been collected for the page that leaves out the first
/// `skip` commits and holds `limit` at most.
pub open spec fn page_step(index: int, taken: int, skip: int, limit: int) -> PageStep {
    if index < skip {
        PageStep::Skip
    } else if taken >= limit {
        PageStep::Stop
    } else {
        PageStep::Take
    }
}

/// What to do with the next commit of a walk.
pub fn next_page_step(index: usize, taken: usize, skip: usize, limit: usize) -> (step: PageStep)
    ensures
        step == page_step(index as int, taken as int, skip as int, limit as int),
{
    if index < skip {
        PageStep::Skip
    } else if taken >= limit {
        PageStep::Stop
    } else {
        PageStep::Take
    }
}

/// The lower-case form of a text, as `str::to_lowercase` gives it.
pub uninterp spec fn lowercase(text: Seq<char>) -> Seq<char>;

/// `str::to_lowercase` gives the lower-case form of a text, by the rules of
/// Unicode, which depend on the text alone. The contract names the result
/// and claims nothing else of it.
#[verifier::external_body]
pub(crate) fn to_lowercase(text: &str) -> (lower: String)
    ensures
        lower@ == lowercase(text@),
{
    text.to_lowercase()
}

/// Whether a commit is found under a query that is in lower case already:
/// its identifier begins with the query, or the query occurs in the
/// lower-case form of its message or of the name of its author.
pub open spec fn matches_query(
    oid: Seq<char>,
    message_lower: Seq<char>,
    author_lower: Seq<char>,
    query_lower: Seq<char>,
) -> bool {
    occurs_at(query_lower, oid, 0) || occurs_in(query_lower, message_lower) || occurs_in(
        query_lower,
        author_lower,
    )
}

/// Whether a commit is found under a query, given the lower-case forms of
/// its message, of the name of its author and of the query.
pub fn commit_matches(oid: &str, message_lower: &str, author_lower: &str, query_lower: &str) -> (found:
    bool)
    ensures
        found == matches_query(oid@, message_lower@, author_lower@, query_lower@),
{
    let query = chars_of(query_lower);
    let id = chars_of(oid);
    if starts_with_chars(id.as_slice(), query.as_slice()) {
        return true;
    }
    let message = chars_of(message_lower);
    if contains_chars(message.as_slice(), query.as_slice()) {
        return true;
    }
    let author = chars_of(author_lower);
    contains_chars(author.as_slice(), query.as_slice())
}

/// Whether a commit is found under `query`, whatever the case of the query,
/// of the message and of the name of the author. The identifier is compared
/// as it stands.
pub fn found_by_query(oid: &str, message: &str, author: &str, query: &str) -> (found: bool)
    ensures
        found == matches_query(oid@, lowercase(message@), lowercase(author@), lowercase(query@)),
{
    let query_lower = to_lowercase(query);
    let message_lower = to_lowercase(message);
    let author_lower = to_lowercase(author);
    commit_matches(oid, message_lower.as_str(), author_lower.as_str(), query_lower.as_str())
}

/// The name of the current branch in a history view: the short name of the
/// head, or `HEAD` where it is no valid text.
pub fn head_label(shorthand: Option<String>) -> (name: String)
    ensures
        name@ == (match shorthand {
            Some(short) => short@,
            None => "HEAD"@,
        }),
{
    match shorthand {
        Some(short) => short,
        None => "HEAD".to_owned(),
    }
}

} // verus!
