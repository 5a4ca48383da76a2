//! Temporary ignores: files that are kept out of Git for now, with the
//! intention to include them later, by hand, after a date, or when a
//! condition is met.
//!
//! The manager keeps the ignores in memory, one per path. Writing them to a
//! file and to the exclude file of the repository is left to the owner of
//! the manager.

use crate::clock::unix_seconds;
use crate::error::CoreError;
use crate::seqs::first_index;
use crate::seqs::lemma_filter_none_out;
use crate::seqs::lemma_filter_pairwise;
use crate::seqs::lemma_filter_removes_one;
use crate::seqs::lemma_first_index;
use crate::seqs::pairwise;
use crate::text::append_chars;
use crate::text::char_views;
use crate::text::chars_of;
use crate::text::contains_chars;
use crate::text::decimal;
use crate::text::decimal_chars;
use crate::text::has_text;
use crate::text::join_chars;
use crate::text::joined;
use crate::text::lines_of;
use crate::text::lines_of_chars;
use crate::text::occurs_in;
use crate::text::text_of;
use crate::text::text_views;
use vstd::prelude::*;

verus! {

/// When a temporarily ignored file is to be included.
#[derive(Debug, Clone)]
pub enum IncludeCondition {
    /// Only by hand.
    Manual,
    /// From this time on, in seconds since the Unix epoch.
    AfterDate(u64),
    /// When this condition, in free text, is met.
    Condition(String),
}

/// A file that is temporarily ignored.
#[derive(Debug, Clone)]
pub struct TemporaryIgnore {
    pub path: String,
    pub reason: Option<String>,
    pub include_when: IncludeCondition,
    pub added_by: String,
    pub added_date: u64,
    pub tags: Vec<String>,
}

/// Settings of the temporary ignores of a repository.
#[derive(Debug, Clone, Copy, PartialEq, Eq, Structural)]
pub struct TempIgnoreSettings {
    pub auto_expire: bool,
    pub warn_before_expire_days: u32,
    pub suggest_review_after_days: u32,
}

impl Default for TempIgnoreSettings {
    fn default() -> (settings: TempIgnoreSettings)
        ensures
            settings == TempIgnoreSettings::standard(),
    {
        TempIgnoreSettings {
            auto_expire: true,
            warn_before_expire_days: 3,
            suggest_review_after_days: 30,
        }
    }
}

impl TempIgnoreSettings {
    /// The settings of a repository that has none of its own.
    pub open spec fn standard() -> TempIgnoreSettings {
        TempIgnoreSettings {
            auto_expire: true,
            warn_before_expire_days: 3,
            suggest_review_after_days: 30,
        }
    }
}

/// The persisted form of the temporary ignores of a repository.
#[derive(Debug)]
pub struct TempIgnoreConfig {
    pub version: String,
    pub ignores: Vec<TemporaryIgnore>,
    pub settings: TempIgnoreSettings,
}

/// Seconds in a day.
pub open spec fn seconds_per_day() -> int {
    86400
}

/// Selects the ignore of `path`.
pub open spec fn ignore_of(path: Seq<char>) -> spec_fn(TemporaryIgnore) -> bool {
    |g: TemporaryIgnore| g.path@ == path
}

/// Selects the ignores of other paths than `path`.
pub open spec fn ignore_not_of(path: Seq<char>) -> spec_fn(TemporaryIgnore) -> bool {
    |g: TemporaryIgnore| g.path@ != path
}

/// Two ignores are of different paths.
pub open spec fn ignores_differ() -> spec_fn(TemporaryIgnore, TemporaryIgnore) -> bool {
    |a: TemporaryIgnore, b: TemporaryIgnore| a.path@ != b.path@
}

/// Selects the ignores that carry `tag`.
pub open spec fn ignore_tagged(tag: Seq<char>) -> spec_fn(TemporaryIgnore) -> bool {
    |g: TemporaryIgnore| text_views(g.tags@).contains(tag)
}

/// Whether the ignore has run out at `now`: it has a date, and the date has
/// come.
pub open spec fn has_expired(g: TemporaryIgnore, now: int) -> bool {
    g.include_when matches IncludeCondition::AfterDate(date) && date <= now
}

/// Selects the ignores that have run out at `now`.
pub open spec fn expired_at(now: int) -> spec_fn(TemporaryIgnore) -> bool {
    |g: TemporaryIgnore| has_expired(g, now)
}

/// Selects the ignores that have not run out at `now`.
pub open spec fn live_at(now: int) -> spec_fn(TemporaryIgnore) -> bool {
    |g: TemporaryIgnore| !has_expired(g, now)
}

/// Selects the ignores that run out within `warn_days` days from `now`, and
/// have not run out yet.
pub open spec fn expiring_at(now: int, warn_days: int) -> spec_fn(TemporaryIgnore) -> bool {
    |g: TemporaryIgnore|
        g.include_when matches IncludeCondition::AfterDate(date) && now < date <= now + warn_days
            * seconds_per_day()
}

/// Selects the ignores that were added more than `review_days` days before
/// `now`.
pub open spec fn due_for_review_at(now: int, review_days: int) -> spec_fn(TemporaryIgnore) -> bool {
    |g: TemporaryIgnore| now - g.added_date > review_days * seconds_per_day()
}

/// The ignores that a list of references points at.
pub open spec fn ignore_referents(refs: Seq<&TemporaryIgnore>) -> Seq<TemporaryIgnore> {
    refs.map_values(|g: &TemporaryIgnore| *g)
}

/// The paths of a list of ignores.
pub open spec fn ignore_paths(ignores: Seq<TemporaryIgnore>) -> Seq<Seq<char>> {
    ignores.map_values(|g: TemporaryIgnore| g.path@)
}

/// The ignores with `ignore` put in: an ignore of the same path gives way
/// to it.
pub open spec fn put_ignore(ignores: Seq<TemporaryIgnore>, ignore: TemporaryIgnore) -> Seq<
    TemporaryIgnore,
> {
    ignores.filter(ignore_not_of(ignore.path@)).push(ignore)
}

/// The ignores with each of `new` put in, one after the other.
pub open spec fn put_ignores(ignores: Seq<TemporaryIgnore>, new: Seq<TemporaryIgnore>) -> Seq<
    TemporaryIgnore,
>
    decreases new.len(),
{
    if new.len() == 0 {
        ignores
    } else {
        put_ignore(put_ignores(ignores, new.drop_last()), new.last())
    }
}

impl TemporaryIgnore {
    /// The ignore of `path` that was added at `now` on behalf of `added_by`.
    pub open spec fn added(
        path: String,
        reason: Option<String>,
        include_when: IncludeCondition,
        tags: Vec<String>,
        added_by: String,
        now: u64,
    ) -> TemporaryIgnore {
        TemporaryIgnore { path, reason, include_when, added_by, added_date: now, tags }
    }
}

/// The line that opens the section of temporary ignores in an exclude file.
pub open spec fn marker_start() -> Seq<char> {
    "# === GITSCRIBE TEMPORARY IGNORES ==="@
}

/// The line that closes the section of temporary ignores in an exclude file.
pub open spec fn marker_end() -> Seq<char> {
    "# === END GITSCRIBE TEMPORARY IGNORES ==="@
}

/// Selects the lines that hold `marker`.
pub open spec fn holds(marker: Seq<char>) -> spec_fn(Seq<char>) -> bool {
    |line: Seq<char>| occurs_in(marker, line)
}

/// The lines of an exclude file without the section of temporary ignores:
/// without the lines from the first one with the start marker to the first
/// one with the end marker. Where the end marker comes first, or one of the
/// two is missing, the lines are as they were.
pub open spec fn without_section(lines: Seq<Seq<char>>) -> Seq<Seq<char>> {
    match (first_index(lines, holds(marker_start())), first_index(lines, holds(marker_end()))) {
        (Some(start), Some(end)) => if start <= end {
            lines.take(start) + lines.skip(end + 1)
        } else {
            lines
        },
        _ => lines,
    }
}

/// What the comment behind an ignored path says: that the ignore is
/// temporary, the reason if there is one, and when the file is to be
/// included, unless that is by hand.
pub open spec fn comment_parts(g: TemporaryIgnore) -> Seq<Seq<char>> {
    let head = seq!["Temp:"@];
    let reasoned = match g.reason {
        Some(reason) => head.push(reason@),
        None => head,
    };
    match g.include_when {
        IncludeCondition::AfterDate(date) => reasoned.push("Expires: "@ + decimal(date as nat)),
        IncludeCondition::Condition(condition) => reasoned.push("When: "@ + condition@),
        IncludeCondition::Manual => reasoned,
    }
}

/// The line of an ignore in the exclude file.
pub open spec fn entry_line(g: TemporaryIgnore) -> Seq<char> {
    g.path@ + "  # "@ + joined(comment_parts(g), " | "@)
}

/// The section of temporary ignores of an exclude file: nothing where there
/// are no ignores, else an empty line, the start marker, a line per ignore
/// and the end marker.
pub open spec fn section(ignores: Seq<TemporaryIgnore>) -> Seq<Seq<char>> {
    if ignores.len() == 0 {
        Seq::empty()
    } else {
        seq![Seq::empty(), marker_start()] + ignores.map_values(|g: TemporaryIgnore| entry_line(g))
            + seq![marker_end()]
    }
}

/// What the exclude file is to hold, given what it holds and the ignores.
pub open spec fn exclude_text(existing: Seq<char>, ignores: Seq<TemporaryIgnore>) -> Seq<char> {
    joined(without_section(lines_of(existing)) + section(ignores), "\n"@)
}

/// Position of the first line that holds `marker`.
fn find_line(lines: &Vec<Vec<char>>, marker: &[char]) -> (r: Option<usize>)
    ensures
        match r {
            Some(i) => first_index(char_views(lines@), holds(marker@)) == Some(i as int) && i
                < lines.len(),
            None => first_index(char_views(lines@), holds(marker@)) is None,
        },
{
    let ghost views = char_views(lines@);
    let mut i: usize = 0;
    while i < lines.len()
        invariant
            i <= lines.len(),
            views == char_views(lines@),
            forall|k: int| 0 <= k < i ==> !holds(marker@)(#[trigger] views[k]),
        decreases lines.len() - i,
    {
        if contains_chars(lines[i].as_slice(), marker) {
            proof {
                lemma_first_index(views, holds(marker@), i as int);
            }
            return Some(i);
        }
        i = i + 1;
    }
    None
}

/// The line of an ignore in the exclude file.
fn entry_line_chars(g: &TemporaryIgnore) -> (line: Vec<char>)
    ensures
        line@ == entry_line(*g),
{
    let mut parts: Vec<Vec<char>> = Vec::new();
    parts.push(chars_of("Temp:"));
    match &g.reason {
        Some(reason) => {
            let part = chars_of(reason.as_str());
            parts.push(part);
        },
        None => {},
    }
    match &g.include_when {
        IncludeCondition::AfterDate(date) => {
            let mut part = chars_of("Expires: ");
            let number = decimal_chars(*date);
            append_chars(&mut part, number.as_slice());
            parts.push(part);
        },
        IncludeCondition::Condition(condition) => {
            let mut part = chars_of("When: ");
            let said = chars_of(condition.as_str());
            append_chars(&mut part, said.as_slice());
            parts.push(part);
        },
        IncludeCondition::Manual => {},
    }
    assert(char_views(parts@) == comment_parts(*g));
    let bar = chars_of(" | ");
    let comment = join_chars(&parts, bar.as_slice());
    let mut line = chars_of(g.path.as_str());
    let gap = chars_of("  # ");
    append_chars(&mut line, gap.as_slice());
    append_chars(&mut line, comment.as_slice());
    line
}

/// The temporary ignores of a repository as a value.
pub struct IgnoreListView {
    pub ignores: Seq<TemporaryIgnore>,
    pub settings: TempIgnoreSettings,
}

impl IgnoreListView {
    /// No path is ignored twice.
    pub open spec fn wf(self) -> bool {
        pairwise(self.ignores, ignores_differ())
    }

    /// Whether `path` is ignored.
    pub open spec fn ignored(self, path: Seq<char>) -> bool {
        first_index(self.ignores, ignore_of(path)) is Some
    }

    /// The ignores that run out soon, as seen at `now`.
    pub open spec fn expiring(self, now: int) -> Seq<TemporaryIgnore> {
        self.ignores.filter(expiring_at(now, self.settings.warn_before_expire_days as int))
    }

    /// The ignores that are due for a review, as seen at `now`.
    pub open spec fn review_candidates(self, now: int) -> Seq<TemporaryIgnore> {
        self.ignores.filter(due_for_review_at(now, self.settings.suggest_review_after_days as int))
    }

    /// The ignores that processing at `now` removes: those that have run
    /// out, where ignores run out by themselves at all.
    pub open spec fn removed_at(self, now: int) -> Seq<TemporaryIgnore> {
        if self.settings.auto_expire {
            self.ignores.filter(expired_at(now))
        } else {
            Seq::empty()
        }
    }

    /// The list after processing at `now`.
    pub open spec fn processed_at(self, now: int) -> IgnoreListView {
        if self.settings.auto_expire {
            IgnoreListView { ignores: self.ignores.filter(live_at(now)), ..self }
        } else {
            self
        }
    }
}

/// The temporary ignores of a repository.
#[derive(Debug)]
pub struct TempIgnoreManager {
    ignores: Vec<TemporaryIgnore>,
    settings: TempIgnoreSettings,
}

impl View for TempIgnoreManager {
    type V = IgnoreListView;

    closed spec fn view(&self) -> IgnoreListView {
        IgnoreListView { ignores: self.ignores@, settings: self.settings }
    }
}

impl TempIgnoreManager {
    /// The invariant of the manager, which every method keeps.
    pub open spec fn wf(&self) -> bool {
        self@.wf()
    }

    /// A manager over what was persisted earlier. Of two ignores of one path
    /// the later one counts.
    pub fn from_config(config: TempIgnoreConfig) -> (manager: TempIgnoreManager)
        ensures
            manager.wf(),
            manager@.settings == config.settings,
            manager@.ignores == put_ignores(Seq::empty(), config.ignores@),
    {
        let mut manager = TempIgnoreManager { ignores: Vec::new(), settings: config.settings };
        let ghost all = config.ignores@;
        for ignore in it: config.ignores
            invariant
                all == it.seq(),
                manager.wf(),
                manager@.settings == config.settings,
                manager@.ignores == put_ignores(Seq::empty(), all.take(it.index() as int)),
        {
            proof {
                assert(all.take(it.index() + 1).drop_last() =~= all.take(it.index() as int));
            }
            manager.insert(ignore);
        }
        assert(all.take(all.len() as int) =~= all);
        manager
    }

    /// A manager without ignores, with the standard settings.
    pub fn empty() -> (manager: TempIgnoreManager)
        ensures
            manager.wf(),
            manager@.ignores == Seq::<TemporaryIgnore>::empty(),
            manager@.settings == TempIgnoreSettings::standard(),
    {
        TempIgnoreManager { ignores: Vec::new(), settings: TempIgnoreSettings::default() }
    }

    /// The ignores, for persisting them.
    pub fn ignores(&self) -> (ignores: &[TemporaryIgnore])
        ensures
            ignores@ == self@.ignores,
    {
        self.ignores.as_slice()
    }

    /// The settings.
    pub fn settings(&self) -> (settings: TempIgnoreSettings)
        ensures
            settings == self@.settings,
    {
        self.settings
    }

    /// Position of the ignore of `path`.
    fn find(&self, path: &String) -> (r: Option<usize>)
        ensures
            match r {
                Some(i) => first_index(self@.ignores, ignore_of(path@)) == Some(i as int) && i
                    < self.ignores.len(),
                None => first_index(self@.ignores, ignore_of(path@)) is None,
            },
    {
        let mut i: usize = 0;
        while i < self.ignores.len()
            invariant
                i <= self.ignores.len(),
                forall|k: int| 0 <= k < i ==> !ignore_of(path@)(#[trigger] self.ignores@[k]),
            decreases self.ignores.len() - i,
        {
            if self.ignores[i].path == *path {
                proof {
                    lemma_first_index(self.ignores@, ignore_of(path@), i as int);
                }
                return Some(i);
            }
            i = i + 1;
        }
        None
    }

    /// Takes the ignore of `path` out, if there is one.
    fn drop_path(&mut self, path: &String)
        requires
            old(self).wf(),
        ensures
            final(self).wf(),
            final(self)@.settings == old(self)@.settings,
            final(self)@.ignores == old(self)@.ignores.filter(ignore_not_of(path@)),
    {
        let ghost before = self@.ignores;
        let ghost keep = ignore_not_of(path@);
        match self.find(path) {
            Some(i) => {
                proof {
                    lemma_filter_removes_one(before, keep, i as int);
                }
                self.ignores.remove(i);
            },
            None => {
                proof {
                    assert forall|k: int| 0 <= k < before.len() implies keep(
                        #[trigger] before[k],
                    ) by {
                        if !keep(before[k]) {
                            crate::seqs::lemma_first_index_is_first(before, ignore_of(path@));
                        }
                    }
                    lemma_filter_none_out(before, keep);
                }
            },
        }
    }

    /// Puts an ignore in. An ignore of the same path gives way.
    pub fn insert(&mut self, ignore: TemporaryIgnore)
        requires
            old(self).wf(),
        ensures
            final(self).wf(),
            final(self)@.settings == old(self)@.settings,
            final(self)@.ignores == put_ignore(old(self)@.ignores, ignore),
    {
        self.drop_path(&ignore.path);
        self.ignores.push(ignore);
    }

    /// Ignores the file at `path` from `now` on, on behalf of `added_by`.
    pub fn add_temp_ignore_at(
        &mut self,
        path: String,
        reason: Option<String>,
        include_when: IncludeCondition,
        tags: Vec<String>,
        added_by: String,
        now: u64,
    ) -> (r: Result<(), CoreError>)
        requires
            old(self).wf(),
        ensures
            final(self).wf(),
            r is Ok,
            final(self)@.settings == old(self)@.settings,
            final(self)@.ignores == put_ignore(
                old(self)@.ignores,
                TemporaryIgnore { path, reason, include_when, added_by, added_date: now, tags },
            ),
    {
        self.insert(TemporaryIgnore { path, reason, include_when, added_by, added_date: now, tags });
        Ok(())
    }

    /// Ignores the file at `path` from now on, on behalf of `added_by`.
    pub fn add_temp_ignore(
        &mut self,
        path: String,
        reason: Option<String>,
        include_when: IncludeCondition,
        tags: Vec<String>,
        added_by: String,
    ) -> (r: Result<(), CoreError>)
        requires
            old(self).wf(),
        ensures
            final(self).wf(),
            r is Ok,
            final(self)@.settings == old(self)@.settings,
            exists|now: u64|
                final(self)@.ignores == put_ignore(
                    old(self)@.ignores,
                    #[trigger] TemporaryIgnore::added(
                        path,
                        reason,
                        include_when,
                        tags,
                        added_by,
                        now,
                    ),
                ),
    {
        let now = unix_seconds();
        let r = self.add_temp_ignore_at(path, reason, include_when, tags, added_by, now);
        assert(self@.ignores == put_ignore(
            old(self)@.ignores,
            TemporaryIgnore::added(path, reason, include_when, tags, added_by, now),
        ));
        r
    }

    /// Includes the file at `path` again: its ignore, if there is one, is
    /// taken out.
    pub fn include_file(&mut self, path: &str) -> (r: Result<(), CoreError>)
        requires
            old(self).wf(),
        ensures
            final(self).wf(),
            r is Ok,
            final(self)@.settings == old(self)@.settings,
            final(self)@.ignores == old(self)@.ignores.filter(ignore_not_of(path@)),
    {
        let wanted = path.to_owned();
        self.drop_path(&wanted);
        Ok(())
    }

    /// Whether the file at `path` is temporarily ignored.
    pub fn is_temp_ignored(&self, path: &str) -> (b: bool)
        ensures
            b == self@.ignored(path@),
    {
        let wanted = path.to_owned();
        self.find(&wanted).is_some()
    }

    /// All temporary ignores.
    pub fn all_ignores(&self) -> (r: Vec<&TemporaryIgnore>)
        ensures
            ignore_referents(r@) == self@.ignores,
    {
        let mut out: Vec<&TemporaryIgnore> = Vec::new();
        let mut i: usize = 0;
        while i < self.ignores.len()
            invariant
                i <= self.ignores.len(),
                ignore_referents(out@) == self.ignores@.take(i as int),
            decreases self.ignores.len() - i,
        {
            let ignore = &self.ignores[i];
            proof {
                assert(ignore_referents(out@.push(ignore)) =~= ignore_referents(out@).push(*ignore));
            }
            out.push(ignore);
            i = i + 1;
        }
        out
    }

    /// The ignores that run out within the warning period from `now`, and
    /// have not run out yet.
    pub fn get_expiring_ignores_at(&self, now: u64) -> (r: Vec<&TemporaryIgnore>)
        ensures
            ignore_referents(r@) == self@.expiring(now as int),
    {
        let warn_days = self.settings.warn_before_expire_days;
        let limit: u128 = now as u128 + (warn_days as u128) * 86400;
        let ghost pred = expiring_at(now as int, warn_days as int);
        let mut out: Vec<&TemporaryIgnore> = Vec::new();
        let mut i: usize = 0;
        while i < self.ignores.len()
            invariant
                i <= self.ignores.len(),
                limit == now + warn_days * seconds_per_day(),
                pred == expiring_at(now as int, warn_days as int),
                ignore_referents(out@) == self.ignores@.take(i as int).filter(pred),
            decreases self.ignores.len() - i,
        {
            let ignore = &self.ignores[i];
            let selected = match ignore.include_when {
                IncludeCondition::AfterDate(date) => date as u128 <= limit && date > now,
                _ => false,
            };
            proof {
                self.ignores@.lemma_take_succ_push(i as int);
                self.ignores@.take(i as int).lemma_filter_push(*ignore, pred);
            }
            if selected {
                out.push(ignore);
            }
            i = i + 1;
        }
        assert(self.ignores@.take(i as int) =~= self.ignores@);
        out
    }

    /// The ignores that run out soon, as seen now.
    pub fn get_expiring_ignores(&self) -> (r: Vec<&TemporaryIgnore>)
        ensures
            exists|now: int| 0 <= now <= u64::MAX && ignore_referents(r@) == #[trigger] self@.expiring(now),
    {
        let now = unix_seconds();
        let r = self.get_expiring_ignores_at(now);
        r
    }

    /// The ignores that were added longer before `now` than the review
    /// period.
    pub fn get_review_candidates_at(&self, now: u64) -> (r: Vec<&TemporaryIgnore>)
        ensures
            ignore_referents(r@) == self@.review_candidates(now as int),
    {
        let review_days = self.settings.suggest_review_after_days;
        let threshold: u64 = (review_days as u64) * 86400;
        let ghost pred = due_for_review_at(now as int, review_days as int);
        let mut out: Vec<&TemporaryIgnore> = Vec::new();
        let mut i: usize = 0;
        while i < self.ignores.len()
            invariant
                i <= self.ignores.len(),
                threshold == review_days * seconds_per_day(),
                pred == due_for_review_at(now as int, review_days as int),
                ignore_referents(out@) == self.ignores@.take(i as int).filter(pred),
            decreases self.ignores.len() - i,
        {
            let ignore = &self.ignores[i];
            let selected = ignore.added_date <= now && now - ignore.added_date > threshold;
            proof {
                self.ignores@.lemma_take_succ_push(i as int);
                self.ignores@.take(i as int).lemma_filter_push(*ignore, pred);
            }
            if selected {
                out.push(ignore);
            }
            i = i + 1;
        }
        assert(self.ignores@.take(i as int) =~= self.ignores@);
        out
    }

    /// The ignores that are due for a review, as seen now.
    pub fn get_review_candidates(&self) -> (r: Vec<&TemporaryIgnore>)
        ensures
            exists|now: int| 0 <= now <= u64::MAX && ignore_referents(r@) == #[trigger] self@.review_candidates(now),
    {
        let now = unix_seconds();
        let r = self.get_review_candidates_at(now);
        r
    }

    /// The ignores that carry `tag`.
    pub fn get_by_tag(&self, tag: &str) -> (r: Vec<&TemporaryIgnore>)
        ensures
            ignore_referents(r@) == self@.ignores.filter(ignore_tagged(tag@)),
    {
        let wanted = tag.to_owned();
        let ghost pred = ignore_tagged(tag@);
        let mut out: Vec<&TemporaryIgnore> = Vec::new();
        let mut i: usize = 0;
        while i < self.ignores.len()
            invariant
                i <= self.ignores.len(),
                wanted@ == tag@,
                pred == ignore_tagged(tag@),
                ignore_referents(out@) == self.ignores@.take(i as int).filter(pred),
            decreases self.ignores.len() - i,
        {
            let ignore = &self.ignores[i];
            let selected = has_text(&ignore.tags, &wanted);
            proof {
                self.ignores@.lemma_take_succ_push(i as int);
                self.ignores@.take(i as int).lemma_filter_push(*ignore, pred);
            }
            if selected {
                out.push(ignore);
            }
            i = i + 1;
        }
        assert(self.ignores@.take(i as int) =~= self.ignores@);
        out
    }

    /// Takes out the ignores that have run out at `now`, and gives their
    /// paths. Where ignores do not run out by themselves, nothing happens.
    pub fn process_expired_at(&mut self, now: u64) -> (r: Result<Vec<String>, CoreError>)
        requires
            old(self).wf(),
        ensures
            final(self).wf(),
            final(self)@ == old(self)@.processed_at(now as int),
            r matches Ok(paths) && text_views(paths@) == ignore_paths(
                old(self)@.removed_at(now as int),
            ),
    {
        let mut expired: Vec<String> = Vec::new();
        if !self.settings.auto_expire {
            return Ok(expired);
        }
        let mut all: Vec<TemporaryIgnore> = Vec::new();
        core::mem::swap(&mut self.ignores, &mut all);
        let ghost before = all@;
        let ghost gone = expired_at(now as int);
        let ghost live = live_at(now as int);
        for ignore in it: all
            invariant
                before == it.seq(),
                gone == expired_at(now as int),
                live == live_at(now as int),
                self.settings == old(self).settings,
                self.ignores@ == before.take(it.index() as int).filter(live),
                text_views(expired@) == ignore_paths(before.take(it.index() as int).filter(gone)),
        {
            let over = match ignore.include_when {
                IncludeCondition::AfterDate(date) => date <= now,
                _ => false,
            };
            proof {
                before.lemma_take_succ_push(it.index() as int);
                before.take(it.index() as int).lemma_filter_push(ignore, gone);
                before.take(it.index() as int).lemma_filter_push(ignore, live);
            }
            if over {
                let path = ignore.path.clone();
                proof {
                    assert(ignore_paths(
                        before.take(it.index() as int).filter(gone).push(ignore),
                    ) =~= ignore_paths(before.take(it.index() as int).filter(gone)).push(
                        ignore.path@,
                    ));
                }
                expired.push(path);
            } else {
                self.ignores.push(ignore);
            }
        }
        proof {
            assert(before.take(before.len() as int) =~= before);
            lemma_filter_pairwise(before, live, ignores_differ());
        }
        Ok(expired)
    }

    /// Takes out the ignores that have run out now, and gives their paths.
    pub fn process_expired(&mut self) -> (r: Result<Vec<String>, CoreError>)
        requires
            old(self).wf(),
        ensures
            final(self).wf(),
            r is Ok,
            exists|now: int| 0 <= now <= u64::MAX &&
                final(self)@ == #[trigger] old(self)@.processed_at(now) && text_views(r->Ok_0@)
                    == ignore_paths(old(self)@.removed_at(now)),
    {
        let now = unix_seconds();
        let r = self.process_expired_at(now);
        r
    }

    /// Replaces the settings.
    pub fn update_settings(&mut self, settings: TempIgnoreSettings) -> (r: Result<(), CoreError>)
        requires
            old(self).wf(),
        ensures
            final(self).wf(),
            r is Ok,
            final(self)@ == (IgnoreListView { settings, ..old(self)@ }),
    {
        self.settings = settings;
        Ok(())
    }

    /// The exclude file of the repository, brought up to date: given what
    /// the file holds, what it is to hold. The section of temporary ignores
    /// is taken out, from the first line with the start marker to the first
    /// line with the end marker; where the end marker comes first, or one of
    /// the two is missing, nothing is taken out. Where there are ignores, a
    /// new section is added at the end, after an empty line: one line per
    /// ignore, with the path, the reason and the condition.
    pub fn update_exclude_file(&self, existing: &str) -> (text: String)
        ensures
            text@ == exclude_text(existing@, self@.ignores),
    {
        let chars = chars_of(existing);
        let mut lines = lines_of_chars(chars.as_slice());
        let start_marker = chars_of("# === GITSCRIBE TEMPORARY IGNORES ===");
        let end_marker = chars_of("# === END GITSCRIBE TEMPORARY IGNORES ===");
        let ghost read = char_views(lines@);
        let start = find_line(&lines, start_marker.as_slice());
        let end = find_line(&lines, end_marker.as_slice());
        match (start, end) {
            (Some(s), Some(e)) => {
                if s <= e {
                    let mut tail = lines.split_off(e + 1);
                    lines.truncate(s);
                    lines.append(&mut tail);
                }
            },
            _ => {},
        }
        assert(char_views(lines@) == without_section(read));
        let ghost kept = char_views(lines@);
        if self.ignores.len() > 0 {
            lines.push(Vec::new());
            lines.push(start_marker);
            let ghost head = char_views(lines@);
            let mut i: usize = 0;
            while i < self.ignores.len()
                invariant
                    i <= self.ignores.len(),
                    char_views(lines@) == head + self.ignores@.take(i as int).map_values(
                        |g: TemporaryIgnore| entry_line(g),
                    ),
                decreases self.ignores.len() - i,
            {
                let line = entry_line_chars(&self.ignores[i]);
                proof {
                    let mapped = self.ignores@.take(i as int).map_values(
                        |g: TemporaryIgnore| entry_line(g),
                    );
                    let next = self.ignores@.take(i + 1).map_values(
                        |g: TemporaryIgnore| entry_line(g),
                    );
                    assert((head + mapped).push(line@) =~= head + next);
                }
                lines.push(line);
                i = i + 1;
            }
            let ghost body = char_views(lines@);
            let ghost mapped = self.ignores@.map_values(|g: TemporaryIgnore| entry_line(g));
            assert(char_views(lines@.push(end_marker)) =~= body.push(marker_end()));
            lines.push(end_marker);
            assert(body.push(marker_end()) =~= kept + (seq![Seq::<char>::empty(), marker_start()]
                + mapped + seq![marker_end()]));
        }
        let newline = chars_of("\n");
        let text = join_chars(&lines, newline.as_slice());
        text_of(text.as_slice())
    }
}

} // verus!
