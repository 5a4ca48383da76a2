//! File status codes and the classification of what the engine reports.

use crate::text::char_views;
use crate::text::chars_of;
use crate::text::split_chars;
use crate::text::split_on;
use vstd::prelude::*;

verus! {

/// Status of a file in Git. The set is closed: these eight and no other.
#[derive(Debug, Clone, Copy, PartialEq, Eq, Hash, Structural)]
pub enum FileStatus {
    /// File is unmodified.
    Clean,
    /// File has been modified in the working tree or the index.
    Modified,
    /// File is newly added to the index.
    Added,
    /// File has been deleted.
    Deleted,
    /// File is ignored.
    Ignored,
    /// File has conflicts.
    Conflicted,
    /// File is not tracked.
    Untracked,
    /// Repository is locked: an operation is in progress.
    Locked,
}

impl FileStatus {
    /// The integer under which the status is persisted and handed to other
    /// languages.
    pub open spec fn spec_code(self) -> int {
        match self {
            FileStatus::Clean => 0,
            FileStatus::Modified => 1,
            FileStatus::Added => 2,
            FileStatus::Deleted => 3,
            FileStatus::Ignored => 4,
            FileStatus::Conflicted => 5,
            FileStatus::Untracked => 6,
            FileStatus::Locked => 7,
        }
    }

    /// The status that an integer stands for, if it stands for one.
    pub open spec fn decode(code: int) -> Option<FileStatus> {
        if code == 0 {
            Some(FileStatus::Clean)
        } else if code == 1 {
            Some(FileStatus::Modified)
        } else if code == 2 {
            Some(FileStatus::Added)
        } else if code == 3 {
            Some(FileStatus::Deleted)
        } else if code == 4 {
            Some(FileStatus::Ignored)
        } else if code == 5 {
            Some(FileStatus::Conflicted)
        } else if code == 6 {
            Some(FileStatus::Untracked)
        } else if code == 7 {
            Some(FileStatus::Locked)
        } else {
            None
        }
    }

    /// Whether the status counts as a change of the working tree: neither
    /// clean nor ignored.
    pub open spec fn is_change(self) -> bool {
        self != FileStatus::Clean && self != FileStatus::Ignored
    }

    /// The integer code of the status.
    pub fn code(self) -> (code: i32)
        ensures
            code == self.spec_code(),
    {
        match self {
            FileStatus::Clean => 0,
            FileStatus::Modified => 1,
            FileStatus::Added => 2,
            FileStatus::Deleted => 3,
            FileStatus::Ignored => 4,
            FileStatus::Conflicted => 5,
            FileStatus::Untracked => 6,
            FileStatus::Locked => 7,
        }
    }

    /// Decodes an integer code. Any integer outside `0..=7` is refused.
    pub fn from_code(code: i32) -> (status: Option<FileStatus>)
        ensures
            status == FileStatus::decode(code as int),
            status is Some <==> 0 <= code <= 7,
    {
        match code {
            0 => Some(FileStatus::Clean),
            1 => Some(FileStatus::Modified),
            2 => Some(FileStatus::Added),
            3 => Some(FileStatus::Deleted),
            4 => Some(FileStatus::Ignored),
            5 => Some(FileStatus::Conflicted),
            6 => Some(FileStatus::Untracked),
            7 => Some(FileStatus::Locked),
            _ => None,
        }
    }
}

/// Every status is decoded back from its own code, and only the codes of
/// the eight statuses decode.
pub proof fn law_status_code_round_trip(status: FileStatus, code: int)
    ensures
        FileStatus::decode(status.spec_code()) == Some(status),
        FileStatus::decode(code) matches Some(s) ==> s.spec_code() == code,
        FileStatus::decode(code) is Some <==> 0 <= code <= 7,
{
}

/// A file with its status.
#[derive(Debug, Clone)]
pub struct FileStatusEntry {
    pub path: String,
    pub status: FileStatus,
}

/// A file with its status, as a value.
pub struct EntryView {
    pub path: Seq<char>,
    pub status: FileStatus,
}

impl View for FileStatusEntry {
    type V = EntryView;

    open spec fn view(&self) -> EntryView {
        EntryView { path: self.path@, status: self.status }
    }
}

/// The values of a list of entries.
pub open spec fn entry_views(entries: Seq<FileStatusEntry>) -> Seq<EntryView> {
    entries.map_values(|e: FileStatusEntry| e@)
}

/// What the engine reports of one file: which of the conditions that count
/// here hold of it, in the index and in the working tree.
#[derive(Debug, Clone, Copy, PartialEq, Eq, Structural)]
pub struct StatusFlags {
    pub conflicted: bool,
    pub wt_modified: bool,
    pub index_modified: bool,
    pub wt_new: bool,
    pub index_new: bool,
    pub wt_deleted: bool,
    pub index_deleted: bool,
    pub ignored: bool,
}

impl StatusFlags {
    /// The one status that stands for the flags. A conflict counts before a
    /// modification, a modification before a new file, a new file before a
    /// deletion, a deletion before being ignored. A new file is added when
    /// the index holds it, untracked otherwise.
    pub open spec fn classify(self) -> FileStatus {
        if self.conflicted {
            FileStatus::Conflicted
        } else if self.wt_modified || self.index_modified {
            FileStatus::Modified
        } else if self.index_new {
            FileStatus::Added
        } else if self.wt_new {
            FileStatus::Untracked
        } else if self.wt_deleted || self.index_deleted {
            FileStatus::Deleted
        } else if self.ignored {
            FileStatus::Ignored
        } else {
            FileStatus::Clean
        }
    }
}

/// The status that stands for what the engine reports of a file.
pub fn convert_status(flags: StatusFlags) -> (status: FileStatus)
    ensures
        status == flags.classify(),
{
    if flags.conflicted {
        FileStatus::Conflicted
    } else if flags.wt_modified || flags.index_modified {
        FileStatus::Modified
    } else if flags.wt_new || flags.index_new {
        if flags.index_new {
            FileStatus::Added
        } else {
            FileStatus::Untracked
        }
    } else if flags.wt_deleted || flags.index_deleted {
        FileStatus::Deleted
    } else if flags.ignored {
        FileStatus::Ignored
    } else {
        FileStatus::Clean
    }
}

/// One file of a scan as the engine reports it. The path is missing where
/// it is no valid text.
#[derive(Debug, Clone)]
pub struct ScannedFile {
    pub path: Option<String>,
    pub flags: StatusFlags,
}

/// Selects the scanned files that have a path.
pub open spec fn has_path() -> spec_fn(ScannedFile) -> bool {
    |f: ScannedFile| f.path is Some
}

/// The entry of a scanned file that has a path.
pub open spec fn scanned_entry(f: ScannedFile) -> EntryView {
    EntryView { path: f.path->0@, status: f.flags.classify() }
}

/// The entries of a scan: one for each file that has a path, in the order of
/// the scan.
pub open spec fn scan_entries(scan: Seq<ScannedFile>) -> Seq<EntryView> {
    scan.filter(has_path()).map_values(|f: ScannedFile| scanned_entry(f))
}

/// The status of all files of a scan. Files without a valid path are left
/// out.
pub fn scanned_status(scan: Vec<ScannedFile>) -> (entries: Vec<FileStatusEntry>)
    ensures
        entry_views(entries@) == scan_entries(scan@),
{
    let ghost all = scan@;
    let ghost pred = has_path();
    let mut out: Vec<FileStatusEntry> = Vec::new();
    for file in it: scan
        invariant
            all == it.seq(),
            pred == has_path(),
            entry_views(out@) == scan_entries(all.take(it.index() as int)),
    {
        let ghost before = all.take(it.index() as int).filter(pred);
        proof {
            all.lemma_take_succ_push(it.index() as int);
            all.take(it.index() as int).lemma_filter_push(file, pred);
        }
        let status = convert_status(file.flags);
        match file.path {
            Some(path) => {
                let entry = FileStatusEntry { path, status };
                proof {
                    assert(before.push(file).map_values(|f: ScannedFile| scanned_entry(f))
                        =~= before.map_values(|f: ScannedFile| scanned_entry(f)).push(
                        scanned_entry(file),
                    ));
                }
                out.push(entry);
            },
            None => {},
        }
    }
    assert(all.take(all.len() as int) =~= all);
    out
}

/// Selects the pieces of a path that are not empty.
pub open spec fn named() -> spec_fn(Seq<char>) -> bool {
    |piece: Seq<char>| piece.len() > 0
}

/// The components of a path: what stands between its slashes, without the
/// empty pieces that a doubled, leading or trailing slash leaves.
pub open spec fn components(path: Seq<char>) -> Seq<Seq<char>> {
    split_on(path, '/').filter(named())
}

/// Whether `path` lies in the directory `dir`, or is `dir` itself: the
/// components of `dir` are the first components of `path`.
pub open spec fn lies_under(path: Seq<char>, dir: Seq<char>) -> bool {
    components(dir).is_prefix_of(components(path))
}

/// Whether some entry in the directory `dir` is a change.
pub open spec fn changed_under(entries: Seq<EntryView>, dir: Seq<char>) -> bool {
    exists|i: int|
        0 <= i < entries.len() && lies_under((#[trigger] entries[i]).path, dir)
            && entries[i].status.is_change()
}

/// The components of a path.
pub fn components_of(path: &str) -> (parts: Vec<Vec<char>>)
    ensures
        char_views(parts@) == components(path@),
{
    let chars = chars_of(path);
    let pieces = split_chars(chars.as_slice(), '/');
    let ghost all = char_views(pieces@);
    let ghost pred = named();
    let mut out: Vec<Vec<char>> = Vec::new();
    for piece in it: pieces
        invariant
            all == char_views(it.seq()),
            pred == named(),
            char_views(out@) == all.take(it.index() as int).filter(pred),
    {
        proof {
            all.lemma_take_succ_push(it.index() as int);
            all.take(it.index() as int).lemma_filter_push(piece@, pred);
        }
        if piece.len() > 0 {
            out.push(piece);
        }
    }
    assert(all.take(all.len() as int) =~= all);
    out
}

/// Whether two texts are the same.
pub fn same_chars(a: &[char], b: &[char]) -> (same: bool)
    ensures
        same == (a@ == b@),
{
    if a.len() != b.len() {
        return false;
    }
    let mut i: usize = 0;
    while i < a.len()
        invariant
            i <= a.len(),
            a.len() == b.len(),
            forall|k: int| 0 <= k < i ==> a@[k] == b@[k],
        decreases a.len() - i,
    {
        if a[i] != b[i] {
            return false;
        }
        i = i + 1;
    }
    assert(a@ =~= b@);
    true
}

/// Whether the components `dir` are the first of the components `path`.
fn is_prefix(dir: &Vec<Vec<char>>, path: &Vec<Vec<char>>) -> (yes: bool)
    ensures
        yes == char_views(dir@).is_prefix_of(char_views(path@)),
{
    if dir.len() > path.len() {
        return false;
    }
    let ghost d = char_views(dir@);
    let ghost p = char_views(path@);
    let mut i: usize = 0;
    while i < dir.len()
        invariant
            i <= dir.len(),
            dir.len() <= path.len(),
            d == char_views(dir@),
            p == char_views(path@),
            forall|k: int| 0 <= k < i ==> d[k] == p[k],
        decreases dir.len() - i,
    {
        if !same_chars(dir[i].as_slice(), path[i].as_slice()) {
            assert(p.subrange(0, d.len() as int)[i as int] != d[i as int]);
            return false;
        }
        i = i + 1;
    }
    true
}

/// The status of a directory, given the status of the files of the
/// repository: modified when a file in the directory is a change, that is,
/// neither clean nor ignored; clean otherwise.
pub fn directory_status(entries: &[FileStatusEntry], dir: &str) -> (status: FileStatus)
    ensures
        status == if changed_under(entry_views(entries@), dir@) {
            FileStatus::Modified
        } else {
            FileStatus::Clean
        },
{
    let ghost views = entry_views(entries@);
    let dir_parts = components_of(dir);
    let mut i: usize = 0;
    while i < entries.len()
        invariant
            i <= entries.len(),
            views == entry_views(entries@),
            char_views(dir_parts@) == components(dir@),
            forall|k: int|
                0 <= k < i ==> !(lies_under((#[trigger] views[k]).path, dir@)
                    && views[k].status.is_change()),
        decreases entries.len() - i,
    {
        let entry = &entries[i];
        assert(views[i as int] == entry@);
        let is_change = match entry.status {
            FileStatus::Clean | FileStatus::Ignored => false,
            _ => true,
        };
        if is_change {
            let parts = components_of(entry.path.as_str());
            if is_prefix(&dir_parts, &parts) {
                return FileStatus::Modified;
            }
        }
        i = i + 1;
    }
    FileStatus::Clean
}

/// Number of entries that count as modified: modified, added or deleted.
pub open spec fn counts_as_modified() -> spec_fn(EntryView) -> bool {
    |e: EntryView|
        e.status == FileStatus::Modified || e.status == FileStatus::Added || e.status
            == FileStatus::Deleted
}

/// Selects the entries with a conflict.
pub open spec fn is_conflicted() -> spec_fn(EntryView) -> bool {
    |e: EntryView| e.status == FileStatus::Conflicted
}

/// Number of files that are modified, added or deleted.
pub fn count_modified(entries: &[FileStatusEntry]) -> (n: usize)
    ensures
        n == entry_views(entries@).filter(counts_as_modified()).len(),
{
    let ghost views = entry_views(entries@);
    let ghost pred = counts_as_modified();
    let mut n: usize = 0;
    let mut i: usize = 0;
    while i < entries.len()
        invariant
            i <= entries.len(),
            n <= i,
            views == entry_views(entries@),
            pred == counts_as_modified(),
            n == views.take(i as int).filter(pred).len(),
        decreases entries.len() - i,
    {
        let selected = match entries[i].status {
            FileStatus::Modified | FileStatus::Added | FileStatus::Deleted => true,
            _ => false,
        };
        proof {
            views.lemma_take_succ_push(i as int);
            views.take(i as int).lemma_filter_push(views[i as int], pred);
        }
        if selected {
            n = n + 1;
        }
        i = i + 1;
    }
    assert(views.take(i as int) =~= views);
    n
}

/// Number of files with a conflict.
pub fn count_conflicted(entries: &[FileStatusEntry]) -> (n: usize)
    ensures
        n == entry_views(entries@).filter(is_conflicted()).len(),
{
    let ghost views = entry_views(entries@);
    let ghost pred = is_conflicted();
    let mut n: usize = 0;
    let mut i: usize = 0;
    while i < entries.len()
        invariant
            i <= entries.len(),
            n <= i,
            views == entry_views(entries@),
            pred == is_conflicted(),
            n == views.take(i as int).filter(pred).len(),
        decreases entries.len() - i,
    {
        let selected = match entries[i].status {
            FileStatus::Conflicted => true,
            _ => false,
        };
        proof {
            views.lemma_take_succ_push(i as int);
            views.take(i as int).lemma_filter_push(views[i as int], pred);
        }
        if selected {
            n = n + 1;
        }
        i = i + 1;
    }
    assert(views.take(i as int) =~= views);
    n
}

/// Whether the working tree is clean: no file is modified, added or
/// deleted.
pub fn is_clean(entries: &[FileStatusEntry]) -> (clean: bool)
    ensures
        clean == (entry_views(entries@).filter(counts_as_modified()).len() == 0),
{
    count_modified(entries) == 0
}

} // verus!
