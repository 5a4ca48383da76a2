//! The shapes in which status is handed to other languages: plain integers
//! and texts, with counts capped at what the integer type holds.

use crate::repository::RemoteStatus;
use crate::repository::RepoState;
use crate::status::EntryView;
use crate::status::FileStatusEntry;
use crate::status::entry_views;
use vstd::prelude::*;

verus! {

/// A count as a 32-bit signed integer, capped at the highest one.
pub open spec fn capped_i32(n: int) -> int {
    if n > 0x7fff_ffff {
        0x7fff_ffff
    } else {
        n
    }
}

/// A count as a 32-bit unsigned integer, capped at the highest one.
pub open spec fn capped_u32(n: int) -> int {
    if n > 0xffff_ffff {
        0xffff_ffff
    } else {
        n
    }
}

/// A count as a 32-bit signed integer, capped at the highest one.
pub fn count_i32(n: usize) -> (c: i32)
    ensures
        c == capped_i32(n as int),
{
    if n > 0x7fff_ffff {
        0x7fff_ffff
    } else {
        n as i32
    }
}

/// A count as a 32-bit unsigned integer, capped at the highest one.
pub fn count_u32(n: usize) -> (c: u32)
    ensures
        c == capped_u32(n as int),
{
    if n > 0xffff_ffff {
        0xffff_ffff
    } else {
        n as u32
    }
}

/// A count that could not be taken counts as zero.
pub open spec fn or_zero(n: Option<usize>) -> int {
    match n {
        Some(n) => n as int,
        None => 0,
    }
}

/// A file with its status code.
#[derive(Debug, Clone)]
pub struct FileStatusJS {
    pub path: String,
    /// 0 clean, 1 modified, 2 added, 3 deleted, 4 ignored, 5 conflicted,
    /// 6 untracked, 7 locked.
    pub status: i32,
}

/// How a branch stands to its upstream.
#[derive(Debug, Clone)]
pub struct RemoteStatusJS {
    pub ahead: i32,
    pub behind: i32,
    pub remote_name: String,
    pub remote_branch: String,
}

/// The status of a repository at a glance.
#[derive(Debug, Clone)]
pub struct RepoStatusJS {
    pub files: Vec<FileStatusJS>,
    pub current_branch: String,
    pub ahead_count: i32,
    pub behind_count: i32,
    /// 0 clean, 1 merging, 2 rebasing, 3 cherry-picking, 4 reverting,
    /// 5 bisecting.
    pub state: i32,
    pub modified_count: i32,
    pub conflicted_count: i32,
}

/// A file with its status code, as a value.
pub struct FileCodeView {
    pub path: Seq<char>,
    pub status: int,
}

impl View for FileStatusJS {
    type V = FileCodeView;

    open spec fn view(&self) -> FileCodeView {
        FileCodeView { path: self.path@, status: self.status as int }
    }
}

/// The entry with its status as a code.
pub open spec fn coded(e: EntryView) -> FileCodeView {
    FileCodeView { path: e.path, status: e.status.spec_code() }
}

/// The values of a list of files with status codes.
pub open spec fn file_code_views(files: Seq<FileStatusJS>) -> Seq<FileCodeView> {
    files.map_values(|f: FileStatusJS| f@)
}

impl FileStatusJS {
    /// The entry with its status as a code.
    pub fn from_entry(entry: FileStatusEntry) -> (file: FileStatusJS)
        ensures
            file@ == coded(entry@),
    {
        FileStatusJS { status: entry.status.code(), path: entry.path }
    }
}

impl RemoteStatusJS {
    /// The remote status with its counts as 32-bit integers.
    pub fn from_status(status: RemoteStatus) -> (r: RemoteStatusJS)
        ensures
            r.ahead == capped_i32(status.ahead as int),
            r.behind == capped_i32(status.behind as int),
            r.remote_name == status.remote_name,
            r.remote_branch == status.remote_branch,
    {
        RemoteStatusJS {
            ahead: count_i32(status.ahead),
            behind: count_i32(status.behind),
            remote_name: status.remote_name,
            remote_branch: status.remote_branch,
        }
    }
}

impl RepoStatusJS {
    /// The status of a repository at a glance, put together from what was
    /// found out of it. What could not be found out is shown as its
    /// default: the branch as `HEAD`, the distance to the upstream and the
    /// counts as zero.
    pub fn get_status(
        files: Vec<FileStatusEntry>,
        current_branch: Option<String>,
        remote: Option<RemoteStatus>,
        state: RepoState,
        modified_count: Option<usize>,
        conflicted_count: Option<usize>,
    ) -> (r: RepoStatusJS)
        ensures
            file_code_views(r.files@) == entry_views(files@).map_values(|e: EntryView| coded(e)),
            r.current_branch@ == (match current_branch {
                Some(name) => name@,
                None => "HEAD"@,
            }),
            r.ahead_count == (match remote {
                Some(status) => capped_i32(status.ahead as int),
                None => 0,
            }),
            r.behind_count == (match remote {
                Some(status) => capped_i32(status.behind as int),
                None => 0,
            }),
            r.state == state.spec_code(),
            r.modified_count == capped_i32(or_zero(modified_count)),
            r.conflicted_count == capped_i32(or_zero(conflicted_count)),
    {
        let ghost all = entry_views(files@);
        let mut coded_files: Vec<FileStatusJS> = Vec::new();
        for entry in it: files
            invariant
                all == entry_views(it.seq()),
                file_code_views(coded_files@) == all.take(it.index() as int).map_values(
                    |e: EntryView| coded(e),
                ),
        {
            let file = FileStatusJS::from_entry(entry);
            proof {
                assert(file_code_views(coded_files@.push(file)) =~= file_code_views(
                    coded_files@,
                ).push(file@));
            }
            coded_files.push(file);
        }
        let (ahead_count, behind_count) = match remote {
            Some(status) => (count_i32(status.ahead), count_i32(status.behind)),
            None => (0, 0),
        };
        RepoStatusJS {
            files: coded_files,
            current_branch: match current_branch {
                Some(name) => name,
                None => "HEAD".to_owned(),
            },
            ahead_count,
            behind_count,
            state: state.code(),
            modified_count: match modified_count {
                Some(n) => count_i32(n),
                None => 0,
            },
            conflicted_count: match conflicted_count {
                Some(n) => count_i32(n),
                None => 0,
            },
        }
    }
}

/// What a shell extension is told of a repository: plain integers.
#[derive(Debug, Clone, Copy, PartialEq, Eq, Structural)]
pub struct GSRepoInfo {
    /// The code of the repository state.
    pub state: i32,
    /// 1 where the working tree is clean, 0 where it is not.
    pub is_clean: i32,
    pub modified_count: u32,
    pub conflicted_count: u32,
    pub ahead_count: u32,
    pub behind_count: u32,
}

impl Default for GSRepoInfo {
    fn default() -> (info: GSRepoInfo)
        ensures
            info == GSRepoInfo::blank(),
    {
        GSRepoInfo {
            state: 0,
            is_clean: 1,
            modified_count: 0,
            conflicted_count: 0,
            ahead_count: 0,
            behind_count: 0,
        }
    }
}

impl GSRepoInfo {
    /// What is told of a repository of which nothing is known: clean, with
    /// nothing in progress.
    pub open spec fn blank() -> GSRepoInfo {
        GSRepoInfo {
            state: 0,
            is_clean: 1,
            modified_count: 0,
            conflicted_count: 0,
            ahead_count: 0,
            behind_count: 0,
        }
    }

    /// What a shell extension is told of a repository, put together from
    /// what was found out of it. A count that could not be taken is shown as
    /// zero, and a working tree of which it is not known whether it is clean
    /// as not clean.
    pub fn gs_repository_info(
        state: RepoState,
        modified_count: Option<usize>,
        conflicted_count: Option<usize>,
        is_clean: Option<bool>,
        remote: Option<RemoteStatus>,
    ) -> (info: GSRepoInfo)
        ensures
            info.state == state.spec_code(),
            info.modified_count == capped_u32(or_zero(modified_count)),
            info.conflicted_count == capped_u32(or_zero(conflicted_count)),
            info.is_clean == (if is_clean == Some(true) {
                1int
            } else {
                0int
            }),
            info.ahead_count == (match remote {
                Some(status) => capped_u32(status.ahead as int),
                None => 0,
            }),
            info.behind_count == (match remote {
                Some(status) => capped_u32(status.behind as int),
                None => 0,
            }),
    {
        let (ahead_count, behind_count) = match remote {
            Some(status) => (count_u32(status.ahead), count_u32(status.behind)),
            None => (0, 0),
        };
        GSRepoInfo {
            state: state.code(),
            is_clean: match is_clean {
                Some(true) => 1,
                _ => 0,
            },
            modified_count: match modified_count {
                Some(n) => count_u32(n),
                None => 0,
            },
            conflicted_count: match conflicted_count {
                Some(n) => count_u32(n),
                None => 0,
            },
            ahead_count,
            behind_count,
        }
    }
}

/// The text under which the library presents itself to a host.
pub fn init_gitscribe() -> (text: String)
    ensures
        text@ == "GitScribe Core v0.1.0"@,
{
    "GitScribe Core v0.1.0".to_owned()
}

} // verus!
