//! Named stashes: sets of stashed files under a name, with colour, tags and,
//! for a stash of a whole branch, the context of that branch.
//!
//! The manager keeps the stashes in memory, one per identifier. Writing them
//! to a file and reading them back is left to the owner of the manager.

use crate::clock::unix_seconds;
use crate::error::CoreError;
use crate::ident::random_uuid;
use crate::seqs::first_index;
use crate::seqs::lemma_filter_none_out;
use crate::seqs::lemma_filter_removes_one;
use crate::seqs::lemma_first_index;
use crate::seqs::pairwise;
use crate::text::append_chars;
use crate::text::chars_of;
use crate::text::decimal;
use crate::text::decimal_chars;
use crate::text::has_text;
use crate::text::text_of;
use crate::text::text_view;
use crate::text::text_views;
use vstd::prelude::*;

verus! {

/// What happened to a stashed file.
#[derive(Debug, Clone)]
pub enum FileStatus {
    Modified,
    New,
    Deleted,
}

/// A single stashed file with its content.
#[derive(Debug, Clone)]
pub struct StashedFile {
    pub path: String,
    /// The diff of the file.
    pub patch: String,
    /// The full content of the file when it was stashed.
    pub original_content: String,
    pub status: FileStatus,
    pub size: u64,
    pub last_modified: u64,
}

/// A commit that has not been pushed.
#[derive(Debug, Clone)]
pub struct CommitInfo {
    pub sha: String,
    pub message: String,
    pub author: String,
    pub timestamp: u64,
}

/// The branch that a stash of a whole branch was taken from.
#[derive(Debug, Clone)]
pub struct BranchContext {
    pub branch_name: String,
    pub base_commit: String,
    pub head_commit: String,
    pub ahead_count: u32,
    pub behind_count: u32,
    pub upstream_branch: Option<String>,
    pub unpushed_commits: Vec<CommitInfo>,
    pub staged_files: Vec<String>,
    pub unstaged_files: Vec<String>,
}

/// A named stash.
#[derive(Debug, Clone)]
pub struct VisualStash {
    pub id: String,
    pub name: String,
    pub created: u64,
    pub modified: u64,
    pub files: Vec<StashedFile>,
    pub color: Option<String>,
    pub tags: Vec<String>,
    pub description: Option<String>,
    pub branch_context: Option<BranchContext>,
}

/// A named stash as a value.
pub struct StashView {
    pub id: Seq<char>,
    pub name: Seq<char>,
    pub created: int,
    pub modified: int,
    pub files: Seq<StashedFile>,
    pub color: Option<Seq<char>>,
    pub tags: Seq<Seq<char>>,
    pub description: Option<Seq<char>>,
    pub branch_context: Option<BranchContext>,
}

impl View for VisualStash {
    type V = StashView;

    open spec fn view(&self) -> StashView {
        StashView {
            id: self.id@,
            name: self.name@,
            created: self.created as int,
            modified: self.modified as int,
            files: self.files@,
            color: text_view(self.color),
            tags: text_views(self.tags@),
            description: text_view(self.description),
            branch_context: self.branch_context,
        }
    }
}

/// Selects the files stashed under `path`.
pub open spec fn file_at(path: Seq<char>) -> spec_fn(StashedFile) -> bool {
    |f: StashedFile| f.path@ == path
}

/// The path and the content of a stashed file: what restoring it takes.
pub open spec fn restored(f: StashedFile) -> (String, String) {
    (f.path, f.original_content)
}

impl StashView {
    /// A new, empty stash.
    pub open spec fn fresh(id: Seq<char>, name: Seq<char>, now: int) -> StashView {
        StashView {
            id,
            name,
            created: now,
            modified: now,
            files: Seq::empty(),
            color: None,
            tags: Seq::empty(),
            description: None,
            branch_context: None,
        }
    }

    /// A new, empty stash of a whole branch. It carries the tag `branch`.
    pub open spec fn fresh_branch(
        id: Seq<char>,
        name: Seq<char>,
        context: BranchContext,
        now: int,
    ) -> StashView {
        StashView {
            tags: seq!["branch"@],
            branch_context: Some(context),
            ..StashView::fresh(id, name, now)
        }
    }

    /// The stash, modified at `now`.
    pub open spec fn touched(self, now: int) -> StashView {
        StashView { modified: now, ..self }
    }

    /// The stash with one more file, added at `now`.
    pub open spec fn with_file(self, file: StashedFile, now: int) -> StashView {
        StashView { files: self.files.push(file), modified: now, ..self }
    }

    /// Position of the first file stashed under `path`.
    pub open spec fn position_of(self, path: Seq<char>) -> Option<int> {
        first_index(self.files, file_at(path))
    }

    /// The stash without the first file stashed under `path`, removed at
    /// `now`. Without such a file the stash is as it was.
    pub open spec fn without_file(self, path: Seq<char>, now: int) -> StashView {
        match self.position_of(path) {
            Some(i) => StashView { files: self.files.remove(i), modified: now, ..self },
            None => self,
        }
    }

    /// What restoring the whole stash takes: path and content of each file.
    pub open spec fn contents(self) -> Seq<(String, String)> {
        self.files.map_values(|f: StashedFile| restored(f))
    }
}

impl VisualStash {
    /// A new, empty stash under the given identifier, created at `now`.
    pub fn with_identity(id: String, name: String, now: u64) -> (stash: VisualStash)
        ensures
            stash@ == StashView::fresh(id@, name@, now as int),
            stash.id == id,
    {
        let stash = VisualStash {
            id,
            name,
            created: now,
            modified: now,
            files: Vec::new(),
            color: None,
            tags: Vec::new(),
            description: None,
            branch_context: None,
        };
        assert(stash@.tags =~= Seq::empty());
        stash
    }

    /// A new, empty stash, created now under a fresh random identifier.
    pub fn new(name: String) -> (stash: VisualStash)
        ensures
            stash@ == StashView::fresh(stash.id@, name@, stash.created as int),
            stash.id@.len() == 36,
    {
        let now = unix_seconds();
        let id = random_uuid();
        VisualStash::with_identity(id, name, now)
    }

    /// A new, empty stash of a whole branch under the given identifier,
    /// created at `now`.
    pub fn branch_stash_with_identity(
        id: String,
        name: String,
        branch_context: BranchContext,
        now: u64,
    ) -> (stash: VisualStash)
        ensures
            stash@ == StashView::fresh_branch(id@, name@, branch_context, now as int),
            stash.id == id,
    {
        let mut stash = VisualStash::with_identity(id, name, now);
        stash.branch_context = Some(branch_context);
        stash.tags.push("branch".to_owned());
        assert(stash@.tags =~= seq!["branch"@]);
        stash
    }

    /// A new, empty stash of a whole branch, created now under a fresh
    /// random identifier.
    pub fn new_branch_stash(name: String, branch_context: BranchContext) -> (stash: VisualStash)
        ensures
            stash@ == StashView::fresh_branch(
                stash.id@,
                name@,
                branch_context,
                stash.created as int,
            ),
            stash.id@.len() == 36,
    {
        let now = unix_seconds();
        let id = random_uuid();
        VisualStash::branch_stash_with_identity(id, name, branch_context, now)
    }

    /// Whether this is a stash of a whole branch.
    pub fn is_branch_stash(&self) -> (b: bool)
        ensures
            b == self@.branch_context is Some,
    {
        self.branch_context.is_some()
    }

    /// Marks the stash as modified at time `now`.
    pub fn update_modified_at(&mut self, now: u64)
        ensures
            final(self)@ == old(self)@.touched(now as int),
    {
        self.modified = now;
    }

    /// Marks the stash as modified now.
    pub fn update_modified(&mut self)
        ensures
            exists|now: int| 0 <= now <= u64::MAX && final(self)@ == #[trigger] old(self)@.touched(now),
    {
        let now = unix_seconds();
        self.update_modified_at(now);
        assert(self@ == old(self)@.touched(now as int));
    }

    /// Adds a file at time `now`.
    pub fn add_file_at(&mut self, file: StashedFile, now: u64)
        ensures
            final(self)@ == old(self)@.with_file(file, now as int),
    {
        self.files.push(file);
        self.update_modified_at(now);
    }

    /// Adds a file now.
    pub fn add_file(&mut self, file: StashedFile)
        ensures
            exists|now: int| 0 <= now <= u64::MAX && final(self)@ == #[trigger] old(self)@.with_file(file, now),
    {
        let now = unix_seconds();
        self.add_file_at(file, now);
    }

    /// Position of the first file stashed under `path`.
    fn find_file(&self, path: &String) -> (r: Option<usize>)
        ensures
            match r {
                Some(i) => self@.position_of(path@) == Some(i as int) && i < self.files.len(),
                None => self@.position_of(path@) is None,
            },
    {
        let mut i: usize = 0;
        while i < self.files.len()
            invariant
                i <= self.files.len(),
                forall|k: int| 0 <= k < i ==> !file_at(path@)(#[trigger] self.files@[k]),
            decreases self.files.len() - i,
        {
            if self.files[i].path == *path {
                proof {
                    lemma_first_index(self.files@, file_at(path@), i as int);
                }
                return Some(i);
            }
            i = i + 1;
        }
        None
    }

    /// Takes the first file stashed under `path` out of the stash, at time
    /// `now`. Without such a file nothing changes and nothing is returned.
    pub fn remove_file_at(&mut self, path: &str, now: u64) -> (r: Option<StashedFile>)
        ensures
            final(self)@ == old(self)@.without_file(path@, now as int),
            match r {
                Some(file) => old(self)@.position_of(path@) matches Some(i) && file == old(
                    self,
                )@.files[i],
                None => old(self)@.position_of(path@) is None,
            },
    {
        let wanted = path.to_owned();
        match self.find_file(&wanted) {
            Some(i) => {
                self.update_modified_at(now);
                Some(self.files.remove(i))
            },
            None => None,
        }
    }

    /// Takes the first file stashed under `path` out of the stash, now.
    pub fn remove_file(&mut self, path: &str) -> (r: Option<StashedFile>)
        ensures
            exists|now: int| 0 <= now <= u64::MAX && final(self)@ == #[trigger] old(self)@.without_file(path@, now),
            match r {
                Some(file) => old(self)@.position_of(path@) matches Some(i) && file == old(
                    self,
                )@.files[i],
                None => old(self)@.position_of(path@) is None,
            },
    {
        let now = unix_seconds();
        let r = self.remove_file_at(path, now);
        r
    }
}

/// Selects the stash with the identifier `id`.
pub open spec fn has_id(id: Seq<char>) -> spec_fn(StashView) -> bool {
    |s: StashView| s.id == id
}

/// Selects the stashes with another identifier than `id`.
pub open spec fn other_id(id: Seq<char>) -> spec_fn(StashView) -> bool {
    |s: StashView| s.id != id
}

/// Two stashes have different identifiers.
pub open spec fn ids_differ() -> spec_fn(StashView, StashView) -> bool {
    |a: StashView, b: StashView| a.id != b.id
}

/// Selects the stashes that carry `tag`.
pub open spec fn tagged(tag: Seq<char>) -> spec_fn(StashView) -> bool {
    |s: StashView| s.tags.contains(tag)
}

/// Selects the stashes of whole branches.
pub open spec fn of_branch() -> spec_fn(StashView) -> bool {
    |s: StashView| s.branch_context is Some
}

/// The values of a list of stashes.
pub open spec fn stash_views(stashes: Seq<VisualStash>) -> Seq<StashView> {
    stashes.map_values(|s: VisualStash| s@)
}

/// The values of the stashes that a list of references points at.
pub open spec fn stash_ref_views(stashes: Seq<&VisualStash>) -> Seq<StashView> {
    stashes.map_values(|s: &VisualStash| s@)
}

/// Position of the stash with the identifier `id`.
pub open spec fn position(stashes: Seq<StashView>, id: Seq<char>) -> Option<int> {
    first_index(stashes, has_id(id))
}

/// The stashes with `stash` put in: a stash that had the same identifier
/// gives way to it.
pub open spec fn put(stashes: Seq<StashView>, stash: StashView) -> Seq<StashView> {
    stashes.filter(other_id(stash.id)).push(stash)
}

/// The stashes with each of `new` put in, one after the other.
pub open spec fn put_all(stashes: Seq<StashView>, new: Seq<StashView>) -> Seq<StashView>
    decreases new.len(),
{
    if new.len() == 0 {
        stashes
    } else {
        put(put_all(stashes, new.drop_last()), new.last())
    }
}

/// Whether the stashes stand with the one modified last in front.
pub open spec fn latest_first(stashes: Seq<StashView>) -> bool {
    forall|i: int, j: int|
        #![trigger stashes[i], stashes[j]]
        0 <= i < j < stashes.len() ==> stashes[i].modified >= stashes[j].modified
}

/// The stash that a whole branch is stashed as: named after the branch,
/// shown in blue, with the files that were handed over.
pub open spec fn branch_stash_view(
    id: Seq<char>,
    branch_name: Seq<char>,
    context: BranchContext,
    files: Seq<StashedFile>,
    now: int,
) -> StashView {
    StashView {
        files,
        color: Some("#4A90E2"@),
        ..StashView::fresh_branch(id, "Branch: "@ + branch_name, context, now)
    }
}

/// The files of a stash as they stand in a patch file: for each file its
/// path, then its diff, then an empty line.
pub open spec fn file_patches(files: Seq<StashedFile>) -> Seq<char>
    decreases files.len(),
{
    if files.len() == 0 {
        Seq::empty()
    } else {
        file_patches(files.drop_last()) + "# File: "@ + files.last().path@ + "\n"@
            + files.last().patch@ + "\n\n"@
    }
}

/// The header of a stash in a patch file: name, time of creation and number
/// of files, then an empty line.
pub open spec fn patch_header(stash: StashView) -> Seq<char> {
    "# GitScribe Stash: "@ + stash.name + "\n"@ + "# Created: "@ + decimal(stash.created as nat)
        + "\n"@ + "# Files: "@ + decimal(stash.files.len()) + "\n\n"@
}

/// A stash as a patch file.
pub open spec fn patch_text(stash: StashView) -> Seq<char> {
    patch_header(stash) + file_patches(stash.files)
}

/// All named stashes of a repository, one per identifier.
#[derive(Debug)]
pub struct VisualStashManager {
    stashes: Vec<VisualStash>,
}

impl View for VisualStashManager {
    type V = Seq<StashView>;

    closed spec fn view(&self) -> Seq<StashView> {
        stash_views(self.stashes@)
    }
}

impl VisualStashManager {
    /// The invariant of the manager: no identifier occurs twice.
    pub open spec fn wf(&self) -> bool {
        pairwise(self@, ids_differ())
    }

    /// A manager over stashes that were persisted earlier. Of two stashes
    /// with one identifier the later one counts.
    pub fn from_stashes(stashes: Vec<VisualStash>) -> (manager: VisualStashManager)
        ensures
            manager.wf(),
            manager@ == put_all(Seq::empty(), stash_views(stashes@)),
    {
        let mut manager = VisualStashManager { stashes: Vec::new() };
        let ghost all = stash_views(stashes@);
        for stash in it: stashes
            invariant
                all == stash_views(it.seq()),
                manager.wf(),
                manager@ == put_all(Seq::empty(), all.take(it.index() as int)),
        {
            proof {
                assert(all.take(it.index() + 1).drop_last() =~= all.take(it.index() as int));
            }
            manager.insert(stash);
        }
        assert(all.take(all.len() as int) =~= all);
        manager
    }

    /// The stashes, for persisting them.
    pub fn stashes(&self) -> (stashes: &[VisualStash])
        ensures
            stash_views(stashes@) == self@,
    {
        self.stashes.as_slice()
    }

    /// Position of the stash with the identifier `id`.
    fn find(&self, id: &String) -> (r: Option<usize>)
        ensures
            match r {
                Some(i) => position(self@, id@) == Some(i as int) && i < self.stashes.len()
                    && self.stashes[i as int].id@ == id@,
                None => position(self@, id@) is None && forall|k: int|
                    0 <= k < self@.len() ==> (#[trigger] self@[k]).id != id@,
            },
    {
        let mut i: usize = 0;
        while i < self.stashes.len()
            invariant
                i <= self.stashes.len(),
                forall|k: int| 0 <= k < i ==> !has_id(id@)(#[trigger] self@[k]),
            decreases self.stashes.len() - i,
        {
            if self.stashes[i].id == *id {
                proof {
                    lemma_first_index(self@, has_id(id@), i as int);
                }
                return Some(i);
            }
            i = i + 1;
        }
        None
    }

    /// Puts a stash in. A stash that had the same identifier gives way.
    pub fn insert(&mut self, stash: VisualStash)
        requires
            old(self).wf(),
        ensures
            final(self).wf(),
            final(self)@ == put(old(self)@, stash@),
    {
        let ghost before = self@;
        let ghost keep = other_id(stash.id@);
        match self.find(&stash.id) {
            Some(i) => {
                proof {
                    lemma_filter_removes_one(before, keep, i as int);
                }
                self.stashes.remove(i);
                assert(self@ =~= before.remove(i as int));
            },
            None => {
                proof {
                    lemma_filter_none_out(before, keep);
                }
            },
        }
        let ghost kept = self@;
        proof {
            assert(stash_views(self.stashes@.push(stash)) =~= kept.push(stash@));
        }
        self.stashes.push(stash);
    }

    /// Creates an empty stash under the given identifier at time `now`, and
    /// gives the identifier back.
    pub fn create_stash_with(
        &mut self,
        id: String,
        name: String,
        color: Option<String>,
        tags: Vec<String>,
        now: u64,
    ) -> (r: String)
        requires
            old(self).wf(),
        ensures
            final(self).wf(),
            r == id,
            final(self)@ == put(
                old(self)@,
                StashView {
                    color: text_view(color),
                    tags: text_views(tags@),
                    ..StashView::fresh(id@, name@, now as int)
                },
            ),
    {
        let mut stash = VisualStash::with_identity(id, name, now);
        stash.color = color;
        stash.tags = tags;
        let id = stash.id.clone();
        self.insert(stash);
        id
    }

    /// Creates an empty stash now, under a fresh random identifier, and
    /// gives the identifier.
    pub fn create_stash(&mut self, name: String, color: Option<String>, tags: Vec<String>) -> (r:
        String)
        requires
            old(self).wf(),
        ensures
            final(self).wf(),
            r@.len() == 36,
            exists|now: int| 0 <= now <= u64::MAX &&
                final(self)@ == put(
                    old(self)@,
                    StashView {
                        color: text_view(color),
                        tags: text_views(tags@),
                        ..#[trigger] StashView::fresh(r@, name@, now)
                    },
                ),
    {
        let now = unix_seconds();
        let id = random_uuid();
        let r = self.create_stash_with(id, name, color, tags, now);
        r
    }

    /// The stash with the identifier `stash_id`.
    pub fn get_stash(&self, stash_id: &str) -> (r: Option<&VisualStash>)
        ensures
            match r {
                Some(stash) => position(self@, stash_id@) matches Some(i) && stash@ == self@[i],
                None => position(self@, stash_id@) is None,
            },
    {
        let wanted = stash_id.to_owned();
        match self.find(&wanted) {
            Some(i) => Some(&self.stashes[i]),
            None => None,
        }
    }

    /// Takes the stash with the identifier `stash_id` out and returns it.
    /// Fails, and changes nothing, when there is no such stash.
    pub fn delete_stash(&mut self, stash_id: &str) -> (r: Result<VisualStash, CoreError>)
        requires
            old(self).wf(),
        ensures
            final(self).wf(),
            match r {
                Ok(stash) => position(old(self)@, stash_id@) matches Some(i) && stash@ == old(
                    self,
                )@[i] && final(self)@ == old(self)@.remove(i),
                Err(e) => position(old(self)@, stash_id@) is None && e == CoreError::NotFound
                    && final(self)@ == old(self)@,
            },
    {
        let wanted = stash_id.to_owned();
        match self.find(&wanted) {
            Some(i) => {
                let stash = self.stashes.remove(i);
                assert(self@ =~= old(self)@.remove(i as int));
                Ok(stash)
            },
            None => Err(CoreError::NotFound),
        }
    }

    /// Renames the stash with the identifier `stash_id` at time `now`.
    /// Fails, and changes nothing, when there is no such stash.
    pub fn rename_stash_at(&mut self, stash_id: &str, new_name: String, now: u64) -> (r: Result<
        (),
        CoreError,
    >)
        requires
            old(self).wf(),
        ensures
            final(self).wf(),
            match r {
                Ok(_) => position(old(self)@, stash_id@) matches Some(i) && final(self)@ == old(
                    self,
                )@.update(i, StashView { name: new_name@, modified: now as int, ..old(self)@[i] }),
                Err(e) => position(old(self)@, stash_id@) is None && e == CoreError::NotFound
                    && final(self)@ == old(self)@,
            },
    {
        let wanted = stash_id.to_owned();
        match self.find(&wanted) {
            Some(i) => {
                self.stashes[i].name = new_name;
                self.stashes[i].update_modified_at(now);
                assert(self@ =~= old(self)@.update(
                    i as int,
                    StashView { name: new_name@, modified: now as int, ..old(self)@[i as int] },
                ));
                Ok(())
            },
            None => Err(CoreError::NotFound),
        }
    }

    /// Renames the stash with the identifier `stash_id` now.
    pub fn rename_stash(&mut self, stash_id: &str, new_name: String) -> (r: Result<(), CoreError>)
        requires
            old(self).wf(),
        ensures
            final(self).wf(),
            match r {
                Ok(_) => position(old(self)@, stash_id@) matches Some(i) && exists|now: int| 0 <= now <= u64::MAX &&
                    final(self)@ == old(self)@.update(
                        i,
                        StashView { name: new_name@, ..#[trigger] old(self)@[i].touched(now) },
                    ),
                Err(e) => position(old(self)@, stash_id@) is None && e == CoreError::NotFound
                    && final(self)@ == old(self)@,
            },
    {
        let now = unix_seconds();
        let r = self.rename_stash_at(stash_id, new_name, now);
        proof {
            if r is Ok {
                let i = position(old(self)@, stash_id@)->0;
                assert(StashView { name: new_name@, modified: now as int, ..old(self)@[i] }
                    == StashView { name: new_name@, ..old(self)@[i].touched(now as int) });
            }
        }
        r
    }

    /// Adds a file to the stash with the identifier `stash_id` at time
    /// `now`. Fails, and changes nothing, when there is no such stash.
    pub fn add_file_to_stash_at(&mut self, stash_id: &str, file: StashedFile, now: u64) -> (r:
        Result<(), CoreError>)
        requires
            old(self).wf(),
        ensures
            final(self).wf(),
            match r {
                Ok(_) => position(old(self)@, stash_id@) matches Some(i) && final(self)@ == old(
                    self,
                )@.update(i, old(self)@[i].with_file(file, now as int)),
                Err(e) => position(old(self)@, stash_id@) is None && e == CoreError::NotFound
                    && final(self)@ == old(self)@,
            },
    {
        let wanted = stash_id.to_owned();
        match self.find(&wanted) {
            Some(i) => {
                self.stashes[i].files.push(file);
                self.stashes[i].update_modified_at(now);
                assert(self@ =~= old(self)@.update(
                    i as int,
                    old(self)@[i as int].with_file(file, now as int),
                ));
                Ok(())
            },
            None => Err(CoreError::NotFound),
        }
    }

    /// Adds a file to the stash with the identifier `stash_id` now.
    pub fn add_file_to_stash(&mut self, stash_id: &str, file: StashedFile) -> (r: Result<
        (),
        CoreError,
    >)
        requires
            old(self).wf(),
        ensures
            final(self).wf(),
            match r {
                Ok(_) => position(old(self)@, stash_id@) matches Some(i) && exists|now: int| 0 <= now <= u64::MAX &&
                    final(self)@ == old(self)@.update(
                        i,
                        #[trigger] old(self)@[i].with_file(file, now),
                    ),
                Err(e) => position(old(self)@, stash_id@) is None && e == CoreError::NotFound
                    && final(self)@ == old(self)@,
            },
    {
        let now = unix_seconds();
        let r = self.add_file_to_stash_at(stash_id, file, now);
        r
    }

    /// Takes the first file stashed under `file_path` out of the stash with
    /// the identifier `stash_id`, at time `now`, and returns it. Fails, and
    /// changes nothing, when there is no such stash or no such file in it.
    pub fn remove_file_from_stash_at(&mut self, stash_id: &str, file_path: &str, now: u64) -> (r:
        Result<StashedFile, CoreError>)
        requires
            old(self).wf(),
        ensures
            final(self).wf(),
            match r {
                Ok(file) => position(old(self)@, stash_id@) matches Some(i) && old(
                    self,
                )@[i].position_of(file_path@) matches Some(j) && file == old(self)@[i].files[j]
                    && final(self)@ == old(self)@.update(
                    i,
                    old(self)@[i].without_file(file_path@, now as int),
                ),
                Err(e) => e == CoreError::NotFound && final(self)@ == old(self)@ && (position(
                    old(self)@,
                    stash_id@,
                ) matches Some(i) ==> old(self)@[i].position_of(file_path@) is None),
            },
    {
        let wanted = stash_id.to_owned();
        let path = file_path.to_owned();
        match self.find(&wanted) {
            Some(i) => {
                match self.stashes[i].find_file(&path) {
                    Some(j) => {
                        self.stashes[i].update_modified_at(now);
                        let file = self.stashes[i].files.remove(j);
                        assert(self@ =~= old(self)@.update(
                            i as int,
                            old(self)@[i as int].without_file(file_path@, now as int),
                        ));
                        Ok(file)
                    },
                    None => Err(CoreError::NotFound),
                }
            },
            None => Err(CoreError::NotFound),
        }
    }

    /// Takes a file out of a stash now. See
    /// [`VisualStashManager::remove_file_from_stash_at`].
    pub fn remove_file_from_stash(&mut self, stash_id: &str, file_path: &str) -> (r: Result<
        StashedFile,
        CoreError,
    >)
        requires
            old(self).wf(),
        ensures
            final(self).wf(),
            match r {
                Ok(file) => position(old(self)@, stash_id@) matches Some(i) && old(
                    self,
                )@[i].position_of(file_path@) matches Some(j) && file == old(self)@[i].files[j]
                    && exists|now: int| 0 <= now <= u64::MAX &&
                    final(self)@ == old(self)@.update(
                        i,
                        #[trigger] old(self)@[i].without_file(file_path@, now),
                    ),
                Err(e) => e == CoreError::NotFound && final(self)@ == old(self)@ && (position(
                    old(self)@,
                    stash_id@,
                ) matches Some(i) ==> old(self)@[i].position_of(file_path@) is None),
            },
    {
        let now = unix_seconds();
        let r = self.remove_file_from_stash_at(stash_id, file_path, now);
        r
    }

    /// All stashes, the one modified last in front.
    pub fn all_stashes(&self) -> (r: Vec<&VisualStash>)
        ensures
            latest_first(stash_ref_views(r@)),
            stash_ref_views(r@).to_multiset() == self@.to_multiset(),
    {
        let ghost all = self@;
        let mut out: Vec<&VisualStash> = Vec::new();
        let mut i: usize = 0;
        assert(stash_ref_views(out@) =~= all.take(0));
        while i < self.stashes.len()
            invariant
                i <= self.stashes.len(),
                all == self@,
                latest_first(stash_ref_views(out@)),
                stash_ref_views(out@).to_multiset() == all.take(i as int).to_multiset(),
            decreases self.stashes.len() - i,
        {
            let stash = &self.stashes[i];
            let ghost sorted = stash_ref_views(out@);
            let mut at: usize = 0;
            while at < out.len() && out[at].modified >= stash.modified
                invariant
                    at <= out.len(),
                    sorted == stash_ref_views(out@),
                    forall|k: int| 0 <= k < at ==> (#[trigger] sorted[k]).modified >= stash.modified,
                decreases out.len() - at,
            {
                at = at + 1;
            }
            proof {
                all.lemma_take_succ_push(i as int);
                vstd::seq_lib::to_multiset_build(all.take(i as int), stash@);
                vstd::seq_lib::to_multiset_insert(sorted, at as int, stash@);
                assert(stash_ref_views(out@.insert(at as int, stash)) =~= sorted.insert(
                    at as int,
                    stash@,
                ));
            }
            out.insert(at, stash);
            i = i + 1;
        }
        assert(all.take(i as int) =~= all);
        out
    }

    /// The content of the first file stashed under `file_path` in the stash
    /// with the identifier `stash_id`, for the caller to write back. Fails
    /// when there is no such stash or no such file in it.
    pub fn apply_file(&self, stash_id: &str, file_path: &str) -> (r: Result<String, CoreError>)
        ensures
            match r {
                Ok(content) => position(self@, stash_id@) matches Some(i)
                    && self@[i].position_of(file_path@) matches Some(j) && content
                    == self@[i].files[j].original_content,
                Err(e) => e == CoreError::NotFound && (position(self@, stash_id@) matches Some(i)
                    ==> self@[i].position_of(file_path@) is None),
            },
    {
        let wanted = stash_id.to_owned();
        let path = file_path.to_owned();
        match self.find(&wanted) {
            Some(i) => {
                match self.stashes[i].find_file(&path) {
                    Some(j) => Ok(self.stashes[i].files[j].original_content.clone()),
                    None => Err(CoreError::NotFound),
                }
            },
            None => Err(CoreError::NotFound),
        }
    }

    /// Path and content of every file of the stash with the identifier
    /// `stash_id`, for the caller to write back. Fails when there is no such
    /// stash.
    pub fn apply_stash(&self, stash_id: &str) -> (r: Result<Vec<(String, String)>, CoreError>)
        ensures
            match r {
                Ok(files) => position(self@, stash_id@) matches Some(i) && files@
                    == self@[i].contents(),
                Err(e) => position(self@, stash_id@) is None && e == CoreError::NotFound,
            },
    {
        let wanted = stash_id.to_owned();
        match self.find(&wanted) {
            Some(i) => {
                let stash = &self.stashes[i];
                let mut out: Vec<(String, String)> = Vec::new();
                let mut k: usize = 0;
                while k < stash.files.len()
                    invariant
                        k <= stash.files.len(),
                        out@ == stash.files@.take(k as int).map_values(
                            |f: StashedFile| restored(f),
                        ),
                    decreases stash.files.len() - k,
                {
                    let file = &stash.files[k];
                    let pair = (file.path.clone(), file.original_content.clone());
                    out.push(pair);
                    k = k + 1;
                }
                Ok(out)
            },
            None => Err(CoreError::NotFound),
        }
    }

    /// Applies the stash with the identifier `stash_id` and takes it out.
    /// Fails, and changes nothing, when there is no such stash.
    pub fn pop_stash(&mut self, stash_id: &str) -> (r: Result<Vec<(String, String)>, CoreError>)
        requires
            old(self).wf(),
        ensures
            final(self).wf(),
            match r {
                Ok(files) => position(old(self)@, stash_id@) matches Some(i) && files@ == old(
                    self,
                )@[i].contents() && final(self)@ == old(self)@.remove(i),
                Err(e) => position(old(self)@, stash_id@) is None && e == CoreError::NotFound
                    && final(self)@ == old(self)@,
            },
    {
        let files = self.apply_stash(stash_id)?;
        match self.delete_stash(stash_id) {
            Ok(_) => Ok(files),
            Err(e) => Err(e),
        }
    }

    /// The stashes that carry `tag`.
    pub fn get_stashes_by_tag(&self, tag: &str) -> (r: Vec<&VisualStash>)
        ensures
            stash_ref_views(r@) == self@.filter(tagged(tag@)),
    {
        let wanted = tag.to_owned();
        let ghost all = self@;
        let ghost pred = tagged(tag@);
        let mut out: Vec<&VisualStash> = Vec::new();
        let mut i: usize = 0;
        while i < self.stashes.len()
            invariant
                i <= self.stashes.len(),
                all == self@,
                wanted@ == tag@,
                pred == tagged(tag@),
                stash_ref_views(out@) == all.take(i as int).filter(pred),
            decreases self.stashes.len() - i,
        {
            let stash = &self.stashes[i];
            let selected = has_text(&stash.tags, &wanted);
            proof {
                all.lemma_take_succ_push(i as int);
                all.take(i as int).lemma_filter_push(stash@, pred);
            }
            if selected {
                out.push(stash);
            }
            i = i + 1;
        }
        assert(all.take(i as int) =~= all);
        out
    }

    /// The stashes of whole branches.
    pub fn get_branch_stashes(&self) -> (r: Vec<&VisualStash>)
        ensures
            stash_ref_views(r@) == self@.filter(of_branch()),
    {
        let ghost all = self@;
        let ghost pred = of_branch();
        let mut out: Vec<&VisualStash> = Vec::new();
        let mut i: usize = 0;
        while i < self.stashes.len()
            invariant
                i <= self.stashes.len(),
                all == self@,
                pred == of_branch(),
                stash_ref_views(out@) == all.take(i as int).filter(pred),
            decreases self.stashes.len() - i,
        {
            let stash = &self.stashes[i];
            let selected = stash.is_branch_stash();
            proof {
                all.lemma_take_succ_push(i as int);
                all.take(i as int).lemma_filter_push(stash@, pred);
            }
            if selected {
                out.push(stash);
            }
            i = i + 1;
        }
        assert(all.take(i as int) =~= all);
        out
    }

    /// Stashes a whole branch with all its uncommitted work under the given
    /// identifier at time `now`, and gives the identifier back. The stash is
    /// named after the branch and shown in blue.
    pub fn stash_current_branch_with(
        &mut self,
        id: String,
        branch_name: String,
        branch_context: BranchContext,
        files: Vec<StashedFile>,
        now: u64,
    ) -> (r: String)
        requires
            old(self).wf(),
        ensures
            final(self).wf(),
            r == id,
            final(self)@ == put(
                old(self)@,
                branch_stash_view(id@, branch_name@, branch_context, files@, now as int),
            ),
    {
        let name = "Branch: ".to_owned().concat(branch_name.as_str());
        let mut stash = VisualStash::branch_stash_with_identity(id, name, branch_context, now);
        stash.files = files;
        stash.color = Some("#4A90E2".to_owned());
        let id = stash.id.clone();
        self.insert(stash);
        id
    }

    /// Stashes a whole branch now, under a fresh random identifier, and
    /// gives the identifier.
    pub fn stash_current_branch(
        &mut self,
        branch_name: String,
        branch_context: BranchContext,
        files: Vec<StashedFile>,
    ) -> (r: String)
        requires
            old(self).wf(),
        ensures
            final(self).wf(),
            r@.len() == 36,
            exists|now: int| 0 <= now <= u64::MAX &&
                final(self)@ == put(
                    old(self)@,
                    #[trigger] branch_stash_view(r@, branch_name@, branch_context, files@, now),
                ),
    {
        let now = unix_seconds();
        let id = random_uuid();
        let r = self.stash_current_branch_with(id, branch_name, branch_context, files, now);
        r
    }

    /// What restoring the branch stash with the identifier `stash_id` takes:
    /// path and content of each file, and the context of the branch. Fails
    /// when there is no such stash, or when it is no stash of a branch.
    pub fn restore_branch_stash(&self, stash_id: &str) -> (r: Result<
        (Vec<(String, String)>, &BranchContext),
        String,
    >)
        ensures
            match r {
                Ok((files, context)) => position(self@, stash_id@) matches Some(i) && files@
                    == self@[i].contents() && self@[i].branch_context == Some(*context),
                Err(e) => match position(self@, stash_id@) {
                    Some(i) => self@[i].branch_context is None && e@ == "Not a branch stash"@,
                    None => e@ == "Stash not found"@,
                },
            },
    {
        let wanted = stash_id.to_owned();
        match self.find(&wanted) {
            Some(i) => {
                match &self.stashes[i].branch_context {
                    Some(context) => {
                        match self.apply_stash(stash_id) {
                            Ok(files) => Ok((files, context)),
                            Err(_) => Err("Stash not found".to_owned()),
                        }
                    },
                    None => Err("Not a branch stash".to_owned()),
                }
            },
            None => Err("Stash not found".to_owned()),
        }
    }

    /// Stashes the current branch under the given identifier at time `now`
    /// and names the branch to switch to: the identifier of the stash and
    /// `target_branch` come back. The switch itself is the caller's.
    pub fn stash_and_switch_with(
        &mut self,
        id: String,
        current_branch: String,
        target_branch: String,
        branch_context: BranchContext,
        files: Vec<StashedFile>,
        now: u64,
    ) -> (r: Result<(String, String), String>)
        requires
            old(self).wf(),
        ensures
            final(self).wf(),
            r matches Ok((stash_id, target)) && stash_id == id && target == target_branch,
            final(self)@ == put(
                old(self)@,
                branch_stash_view(id@, current_branch@, branch_context, files@, now as int),
            ),
    {
        let stash_id = self.stash_current_branch_with(id, current_branch, branch_context, files, now);
        Ok((stash_id, target_branch))
    }

    /// Stashes the current branch now and names the branch to switch to.
    pub fn stash_and_switch(
        &mut self,
        current_branch: String,
        target_branch: String,
        branch_context: BranchContext,
        files: Vec<StashedFile>,
    ) -> (r: Result<(String, String), String>)
        requires
            old(self).wf(),
        ensures
            final(self).wf(),
            r matches Ok((stash_id, target)) && target == target_branch && stash_id@.len() == 36
                && exists|now: int| 0 <= now <= u64::MAX &&
                final(self)@ == put(
                    old(self)@,
                    #[trigger] branch_stash_view(
                        stash_id@,
                        current_branch@,
                        branch_context,
                        files@,
                        now,
                    ),
                ),
    {
        let stash_id = self.stash_current_branch(current_branch, branch_context, files);
        Ok((stash_id, target_branch))
    }

    /// The stash with the identifier `stash_id` as a patch file: a header
    /// with name, time of creation and number of files, then each file with
    /// its path and its diff. Fails when there is no such stash.
    pub fn export_stash(&self, stash_id: &str) -> (r: Result<String, CoreError>)
        ensures
            match r {
                Ok(text) => position(self@, stash_id@) matches Some(i) && text@ == patch_text(
                    self@[i],
                ),
                Err(e) => position(self@, stash_id@) is None && e == CoreError::NotFound,
            },
    {
        let wanted = stash_id.to_owned();
        match self.find(&wanted) {
            Some(i) => {
                let stash = &self.stashes[i];
                let newline = chars_of("\n");
                let mut out = chars_of("# GitScribe Stash: ");
                append_chars(&mut out, chars_of(stash.name.as_str()).as_slice());
                append_chars(&mut out, newline.as_slice());
                append_chars(&mut out, chars_of("# Created: ").as_slice());
                append_chars(&mut out, decimal_chars(stash.created).as_slice());
                append_chars(&mut out, newline.as_slice());
                append_chars(&mut out, chars_of("# Files: ").as_slice());
                append_chars(&mut out, decimal_chars(stash.files.len() as u64).as_slice());
                append_chars(&mut out, chars_of("\n\n").as_slice());
                let ghost header = out@;
                let mut k: usize = 0;
                while k < stash.files.len()
                    invariant
                        k <= stash.files.len(),
                        out@ == header + file_patches(stash.files@.take(k as int)),
                    decreases stash.files.len() - k,
                {
                    let file = &stash.files[k];
                    proof {
                        assert(stash.files@.take(k + 1).drop_last() =~= stash.files@.take(
                            k as int,
                        ));
                    }
                    append_chars(&mut out, chars_of("# File: ").as_slice());
                    append_chars(&mut out, chars_of(file.path.as_str()).as_slice());
                    append_chars(&mut out, chars_of("\n").as_slice());
                    append_chars(&mut out, chars_of(file.patch.as_str()).as_slice());
                    append_chars(&mut out, chars_of("\n\n").as_slice());
                    k = k + 1;
                }
                assert(stash.files@.take(k as int) =~= stash.files@);
                Ok(text_of(out.as_slice()))
            },
            None => Err(CoreError::NotFound),
        }
    }
}

} // verus!
