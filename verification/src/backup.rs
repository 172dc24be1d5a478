//! One backup, from the cleanup before it to the note that it was made.
//!
//! A [`BackupRun`] decides what comes next; the program around it does it and says how it went.

use vstd::prelude::*;

use crate::clock;
use crate::clock::{format_local, format_rfc3339, read_clock, LocalTime, NAME_PATTERN};
use crate::retention;
use crate::retention::{cleanup_old_backups, Backup, DirEntry, BACKUP_PREFIX};

verus! {

/// The name of a backup that is made at the given time.
pub open spec fn backup_name(w: clock::WallTime) -> Seq<char> {
    BACKUP_PREFIX@ + clock::name_stamp(w)
}

/// Names a backup that is made at `t`.
///
/// The name is that of a backup, made at that second, to every later cleanup. Years that need a
/// sign, after 9999 or before 0, are left out: their names do not read back.
pub fn backup_name_at(t: &LocalTime) -> (r: String)
    requires
        t.valid(),
    ensures
        r@ == backup_name(t.wall),
        0 <= t.wall.year <= 9999 ==> retention::name_time(r@) == Some(t.wall.whole_second()),
{
    let stamp = format_local(t, NAME_PATTERN);
    let mut r = BACKUP_PREFIX.to_string();
    r.append(stamp.as_str());
    proof {
        assert(r@.take(BACKUP_PREFIX@.len() as int) =~= BACKUP_PREFIX@);
        assert(r@.skip(BACKUP_PREFIX@.len() as int) =~= stamp@);
    }
    r
}

/// What a backup waits for.
#[derive(Debug)]
pub enum BackupRun {
    /// The entries of the directory that holds the backups, to keep so many of them.
    Listing { limit: u32 },
    /// The removal of the first of these old backups.
    Removing { pending: Vec<Backup> },
    /// The copy into the backup of this name.
    Copying { name: String },
    /// The removal of what a copy that failed has left.
    Discarding,
    /// The note that the backup was made.
    Stamping,
    /// Nothing more.
    Ended,
}

/// How something went that a backup waited for.
#[derive(Debug)]
pub enum BackupEvent {
    Listed(Vec<DirEntry>),
    ListingFailed,
    Removed,
    RemovalFailed,
    Copied,
    /// The directory to copy into could not be made.
    TargetFailed,
    CopyFailed,
    /// The copy did not come to an end.
    CopyAborted,
    /// What a failed copy has left is gone, or could not be removed.
    Discarded,
    StampWritten,
    StampFailed,
}

/// What is to be done for a backup.
#[derive(Debug)]
pub enum BackupAction {
    /// List the directory that holds the backups.
    List,
    /// Remove the backup of this name.
    Remove(String),
    /// Make the backup of this name and copy the source into it.
    Copy(String),
    /// Remove the backup of this name, which is incomplete.
    Discard(String),
    /// Write this text to the file that notes the last backup.
    WriteStamp(String),
    /// The backup was made.
    Finish,
    /// The backup failed, with the error that came last. That a failed copy could not be removed
    /// is no such error: it is only told.
    Fail,
}

impl BackupRun {
    /// Whether the event is one that the backup waits for.
    pub open spec fn expects(self, event: BackupEvent) -> bool {
        match self {
            BackupRun::Listing { .. } => event is Listed || event is ListingFailed,
            BackupRun::Removing { pending } => pending@.len() > 0 && (event is Removed
                || event is RemovalFailed),
            BackupRun::Copying { .. } => event is Copied || event is TargetFailed
                || event is CopyFailed || event is CopyAborted,
            BackupRun::Discarding => event is Discarded,
            BackupRun::Stamping => event is StampWritten || event is StampFailed,
            BackupRun::Ended => false,
        }
    }
}

/// Whether the backup goes on with a copy, into a backup with the name of the current time.
pub open spec fn copies_next(run: BackupRun, action: BackupAction) -> bool {
    exists|t: LocalTime|
        clock::is_reading(t) && t.at.can_be_now() && #[trigger] copies_at(t, run, action)
}

/// Whether the backup goes on with a copy, into a backup with the name of the time `t`. The name
/// reads back to the second, save for years that need a sign.
pub open spec fn copies_at(t: LocalTime, run: BackupRun, action: BackupAction) -> bool {
    &&& t.valid()
    &&& run matches BackupRun::Copying { name } && name@ == backup_name(t.wall)
    &&& action matches BackupAction::Copy(name) && name@ == backup_name(t.wall)
    &&& 0 <= t.wall.year <= 9999 ==> retention::name_time(backup_name(t.wall)) == Some(
        t.wall.whole_second(),
    )
}

/// Whether the backup goes on with the removal of the pending backups, or with a copy if there
/// are none.
pub open spec fn goes_on_with(
    pending: Seq<retention::BackupView>,
    run: BackupRun,
    action: BackupAction,
) -> bool {
    if pending.len() == 0 {
        copies_next(run, action)
    } else {
        &&& run matches BackupRun::Removing { pending: left } && retention::views(left@) == pending
        &&& action matches BackupAction::Remove(name) && name@ == pending[0].name
    }
}

/// Whether the backup goes on by noting the time `t`.
pub open spec fn stamps_at(t: LocalTime, run: BackupRun, action: BackupAction) -> bool {
    &&& t.valid()
    &&& run is Stamping
    &&& action matches BackupAction::WriteStamp(text) && text@ == clock::rfc3339_text(t)
}

/// Whether a cleanup of these entries precedes the copy.
pub open spec fn cleans_up(
    entries: Seq<DirEntry>,
    limit: nat,
    run: BackupRun,
    action: BackupAction,
) -> bool {
    exists|removed: Seq<retention::BackupView>, kept: vstd::multiset::Multiset<
        retention::BackupView,
    >|
        #[trigger] retention::is_cleanup(
            retention::backups(entries).to_multiset(),
            limit,
            removed,
            kept,
        ) && goes_on_with(removed, run, action)
}

/// Whether a backup that waits in `before` goes on to `after` by doing `action` when it learns
/// of `event`.
pub open spec fn is_step(
    before: BackupRun,
    event: BackupEvent,
    after: BackupRun,
    action: BackupAction,
) -> bool {
    match (before, event) {
        (BackupRun::Listing { limit }, BackupEvent::Listed(entries)) => cleans_up(
            entries@,
            limit as nat,
            after,
            action,
        ),
        (BackupRun::Removing { pending }, BackupEvent::Removed) => goes_on_with(
            retention::views(pending@).drop_first(),
            after,
            action,
        ),
        (BackupRun::Copying { .. }, BackupEvent::Copied) => exists|t: LocalTime|
            clock::is_reading(t) && t.at.can_be_now() && #[trigger] stamps_at(t, after, action),
        (BackupRun::Copying { name }, BackupEvent::CopyFailed) => {
            after is Discarding && (action matches BackupAction::Discard(incomplete)
                && incomplete@ == name@)
        },
        (BackupRun::Stamping, BackupEvent::StampWritten) => after is Ended && action is Finish,
        _ => after is Ended && action is Fail,
    }
}

/// Goes on with a copy at the time `t`.
pub fn start_copy_at(t: &LocalTime) -> (r: (BackupRun, BackupAction))
    requires
        t.valid(),
    ensures
        copies_at(*t, r.0, r.1),
{
    let name = backup_name_at(t);
    (BackupRun::Copying { name: name.clone() }, BackupAction::Copy(name))
}

fn start_copy() -> (r: (BackupRun, BackupAction))
    ensures
        copies_next(r.0, r.1),
{
    let now = read_clock();
    start_copy_at(&now)
}

/// Goes on by noting the time `t` as that of the last backup.
pub fn start_stamp_at(t: &LocalTime) -> (r: (BackupRun, BackupAction))
    requires
        t.valid(),
    ensures
        stamps_at(*t, r.0, r.1),
{
    (BackupRun::Stamping, BackupAction::WriteStamp(format_rfc3339(t)))
}

fn go_on(pending: Vec<Backup>) -> (r: (BackupRun, BackupAction))
    ensures
        goes_on_with(retention::views(pending@), r.0, r.1),
{
    if pending.len() == 0 {
        start_copy()
    } else {
        let name = pending[0].name.clone();
        (BackupRun::Removing { pending }, BackupAction::Remove(name))
    }
}

/// Starts a backup. Old backups are removed first where a limit is set that is not zero.
pub fn begin_backup(max_backups: Option<u32>) -> (r: (BackupRun, BackupAction))
    ensures
        match max_backups {
            Some(limit) if limit > 0 => r.0 == (BackupRun::Listing { limit }) && r.1 is List,
            _ => copies_next(r.0, r.1),
        },
{
    match max_backups {
        Some(limit) if limit > 0 => (BackupRun::Listing { limit }, BackupAction::List),
        _ => start_copy(),
    }
}

impl BackupRun {
    /// Tells whether the event is one that the backup waits for.
    pub fn accepts(&self, event: &BackupEvent) -> (r: bool)
        ensures
            r == self.expects(*event),
    {
        match self {
            BackupRun::Listing { .. } => matches!(
                event,
                BackupEvent::Listed(_) | BackupEvent::ListingFailed
            ),
            BackupRun::Removing { pending } => pending.len() > 0 && matches!(
                event,
                BackupEvent::Removed | BackupEvent::RemovalFailed
            ),
            BackupRun::Copying { .. } => matches!(
                event,
                BackupEvent::Copied | BackupEvent::TargetFailed | BackupEvent::CopyFailed
                    | BackupEvent::CopyAborted
            ),
            BackupRun::Discarding => matches!(event, BackupEvent::Discarded),
            BackupRun::Stamping => matches!(
                event,
                BackupEvent::StampWritten | BackupEvent::StampFailed
            ),
            BackupRun::Ended => false,
        }
    }

    /// Goes on when something is known that the backup waited for.
    pub fn step(self, event: BackupEvent) -> (r: (BackupRun, BackupAction))
        requires
            self.expects(event),
        ensures
            is_step(self, event, r.0, r.1),
    {
        match (self, event) {
            (BackupRun::Listing { limit }, BackupEvent::Listed(entries)) => {
                let cleanup = cleanup_old_backups(&entries, limit);
                go_on(cleanup.remove)
            },
            (BackupRun::Removing { pending }, BackupEvent::Removed) => {
                let mut rest = pending;
                let _removed = rest.remove(0);
                proof {
                    assert(retention::views(rest@) =~= retention::views(pending@).drop_first());
                }
                go_on(rest)
            },
            (BackupRun::Copying { .. }, BackupEvent::Copied) => {
                let now = read_clock();
                start_stamp_at(&now)
            },
            (BackupRun::Copying { name }, BackupEvent::CopyFailed) => {
                (BackupRun::Discarding, BackupAction::Discard(name))
            },
            (BackupRun::Stamping, BackupEvent::StampWritten) => {
                (BackupRun::Ended, BackupAction::Finish)
            },
            _ => (BackupRun::Ended, BackupAction::Fail),
        }
    }
}

proof fn lemma_clock_shows_no_year_before_zero(t: LocalTime)
    requires
        t.valid(),
        t.at.can_be_now(),
    ensures
        t.wall.year >= 0,
{
    let w = t.wall;
    if w.year < 0 {
        assert(w.seconds() >= -86400);
        assert(clock::day_number(w.year as int, w.month as int, w.day as int) < -365);
    }
}

/// A backup that is made by the clock up to the year 9999 is one to every later cleanup, made at
/// the second that the clock showed.
pub proof fn law_new_backup_is_recognised(t: LocalTime, run: BackupRun, action: BackupAction)
    requires
        t.at.can_be_now(),
        copies_at(t, run, action),
        t.wall.year <= 9999,
    ensures
        action matches BackupAction::Copy(name) && retention::name_time(name@) == Some(
            t.wall.whole_second(),
        ),
        forall|entry: DirEntry|
            #![trigger retention::entry_backup(entry)]
            entry.is_dir && entry.name is Some && entry.name->0@ == action->Copy_0@
                ==> retention::entry_backup(entry) == Some(
                (retention::BackupView { time: t.wall.whole_second(), name: action->Copy_0@ }),
            ),
{
    lemma_clock_shows_no_year_before_zero(t);
}

/// Whether a copy starts into a backup with the name of a time that the clock has shown, the name
/// being the prefix of backups and the stamp of that time.
pub open spec fn bears_the_time_of_the_clock(run: BackupRun, action: BackupAction) -> bool {
    exists|t: LocalTime|
        #[trigger] clock::is_reading(t) && t.valid() && (action matches BackupAction::Copy(name)
            && name@ == "backup_"@ + clock::name_stamp(t.wall) && (run matches BackupRun::Copying {
            name: kept,
        } && kept@ == name@) && (t.wall.year <= 9999 ==> retention::name_time(name@) == Some(
            t.wall.whole_second(),
        )))
}

proof fn lemma_copy_bears_the_time(run: BackupRun, action: BackupAction)
    requires
        copies_next(run, action),
    ensures
        bears_the_time_of_the_clock(run, action),
{
    let t = choose|t: LocalTime|
        clock::is_reading(t) && t.at.can_be_now() && #[trigger] copies_at(t, run, action);
    lemma_clock_shows_no_year_before_zero(t);
    assert(clock::is_reading(t));
}

/// Wherever a copy starts, at once or after a cleanup, it goes into a backup with the name of the
/// time that the clock shows then. Up to the year 9999 a later cleanup reads that time, to the
/// second.
pub proof fn law_backups_are_named_by_the_clock(
    before: BackupRun,
    event: BackupEvent,
    after: BackupRun,
    action: BackupAction,
)
    ensures
        copies_next(after, action) ==> bears_the_time_of_the_clock(after, action),
        is_step(before, event, after, action) && action is Copy ==> bears_the_time_of_the_clock(
            after,
            action,
        ),
{
    if copies_next(after, action) {
        lemma_copy_bears_the_time(after, action);
    }
}

/// A good copy is noted with the time that the clock shows then, by RFC 3339, and when that is
/// written the backup has been made.
pub proof fn law_good_copy_is_noted(
    before: BackupRun,
    event: BackupEvent,
    after: BackupRun,
    action: BackupAction,
)
    requires
        is_step(before, event, after, action),
    ensures
        before is Copying && event is Copied ==> after is Stamping && exists|t: LocalTime|
            #[trigger] clock::is_reading(t) && t.valid() && (action matches BackupAction::WriteStamp(
                text,
            ) && text@ == clock::rfc3339_text(t)),
        before is Stamping && event is StampWritten ==> after is Ended && action is Finish,
{
    if before is Copying && event is Copied {
        let t = choose|t: LocalTime|
            clock::is_reading(t) && t.at.can_be_now() && #[trigger] stamps_at(t, after, action);
        assert(clock::is_reading(t));
    }
}

/// Whether `pending` are as many of the backups as are too many, earliest first, and none of them
/// later than one that stays.
pub open spec fn are_removals(
    found: Seq<retention::BackupView>,
    limit: nat,
    pending: Seq<Backup>,
) -> bool {
    &&& pending.len() == found.len() - limit
    &&& forall|i: int| 0 <= i < pending.len() ==> found.contains((#[trigger] pending[i])@)
    &&& forall|i: int, j: int|
        0 <= i < j < pending.len() ==> (#[trigger] pending[i]).time.seconds() <= (
        #[trigger] pending[j]).time.seconds()
    &&& forall|i: int, b: retention::BackupView|
        0 <= i < pending.len() && #[trigger] found.contains(b) && !retention::views(
            pending,
        ).contains(b) ==> (#[trigger] pending[i]).time.seconds() <= b.time.seconds()
}

/// A listing with no more backups than the limit leads to a copy. Otherwise as many backups as are
/// too many are to be removed, earliest first, and the removals start with the first of them.
pub proof fn law_listing_leads_to_removals(
    limit: u32,
    entries: Vec<DirEntry>,
    after: BackupRun,
    action: BackupAction,
)
    requires
        is_step(BackupRun::Listing { limit }, BackupEvent::Listed(entries), after, action),
        forall|k: int|
            0 <= k < retention::backups(entries@).len() ==> (#[trigger] retention::backups(
                entries@,
            )[k]).time.valid(),
    ensures
        retention::backups(entries@).len() <= limit ==> action is Copy,
        retention::backups(entries@).len() > limit ==> (after matches BackupRun::Removing { pending }
            && (action matches BackupAction::Remove(name) && name@ == pending[0].name@)
            && are_removals(retention::backups(entries@), limit as nat, pending@)),
{
    broadcast use vstd::seq_lib::group_to_multiset_ensures;

    let found = retention::backups(entries@);
    let all = found.to_multiset();
    let (removed, kept) = choose|
        removed: Seq<retention::BackupView>,
        kept: vstd::multiset::Multiset<retention::BackupView>,
    |
        #[trigger] retention::is_cleanup(all, limit as nat, removed, kept) && goes_on_with(
            removed,
            after,
            action,
        );
    retention::law_cleanup_meets_limit(all, limit as nat, removed, kept);
    if found.len() > limit {
        let pending = after->pending;
        assert(retention::views(pending@).len() == pending@.len());
        assert forall|i: int| 0 <= i < pending.len() implies (#[trigger] pending[i])@ == removed[i]
            && found.contains(removed[i]) by {
            assert(retention::views(pending@)[i] == pending[i]@);
            assert(removed.contains(removed[i]));
            assert(all.count(removed[i]) > 0);
        }
        assert forall|i: int, b: retention::BackupView|
            0 <= i < removed.len() && #[trigger] found.contains(b) && !removed.contains(
                b,
            ) implies (#[trigger] removed[i]).time.seconds() <= b.time.seconds() by {
            assert(all.count(b) > 0);
            assert(removed.to_multiset().count(b) == 0);
            assert(kept.contains(b));
            assert(pending[i]@ == removed[i]);
            retention::law_cleanup_removes_the_earliest(all, limit as nat, removed, kept, i, b);
        }
        assert forall|i: int, j: int| 0 <= i < j < pending.len() implies (
        #[trigger] pending[i]).time.seconds() <= (#[trigger] pending[j]).time.seconds() by {
            assert(pending[i]@ == removed[i] && pending[j]@ == removed[j]);
            assert(removed.skip(i)[j - i] == removed[j]);
            retention::law_cleanup_removes_the_earliest(
                all,
                limit as nat,
                removed,
                kept,
                i,
                removed[j],
            );
        }
        assert forall|i: int, b: retention::BackupView|
            0 <= i < pending.len() && #[trigger] found.contains(b) && !retention::views(
                pending@,
            ).contains(b) implies (#[trigger] pending[i]).time.seconds() <= b.time.seconds() by {
            assert(pending[i]@ == removed[i]);
        }
        assert(pending[0]@ == removed[0]);
    }
}

/// When an old backup has been removed, the next one is, and after the last one the copy starts.
pub proof fn law_removals_go_on(
    pending: Vec<Backup>,
    after: BackupRun,
    action: BackupAction,
)
    requires
        pending.len() > 0,
        is_step(BackupRun::Removing { pending }, BackupEvent::Removed, after, action),
    ensures
        pending.len() == 1 ==> action is Copy && after is Copying,
        pending.len() > 1 ==> (action matches BackupAction::Remove(name) && name@
            == pending[1].name@) && (after matches BackupRun::Removing { pending: left }
            && retention::views(left@) == retention::views(pending@).skip(1)),
{
    assert(retention::views(pending@).len() == pending.len());
    assert(retention::views(pending@).drop_first() =~= retention::views(pending@).skip(1));
    if pending.len() > 1 {
        assert(retention::views(pending@)[1] == pending[1]@);
    }
}

/// A backup refuses nothing that it may learn of what it waits for.
pub proof fn law_backup_refuses_no_outcome(
    limit: u32,
    entries: Vec<DirEntry>,
    pending: Vec<Backup>,
    name: String,
)
    ensures
        (BackupRun::Listing { limit }).expects(BackupEvent::Listed(entries)),
        (BackupRun::Listing { limit }).expects(BackupEvent::ListingFailed),
        pending.len() > 0 ==> (BackupRun::Removing { pending }).expects(BackupEvent::Removed),
        pending.len() > 0 ==> (BackupRun::Removing { pending }).expects(
            BackupEvent::RemovalFailed,
        ),
        (BackupRun::Copying { name }).expects(BackupEvent::Copied),
        (BackupRun::Copying { name }).expects(BackupEvent::TargetFailed),
        (BackupRun::Copying { name }).expects(BackupEvent::CopyFailed),
        (BackupRun::Copying { name }).expects(BackupEvent::CopyAborted),
        BackupRun::Discarding.expects(BackupEvent::Discarded),
        BackupRun::Stamping.expects(BackupEvent::StampWritten),
        BackupRun::Stamping.expects(BackupEvent::StampFailed),
{
}

/// The last backup is noted only when a copy has come to a good end.
pub proof fn law_stamp_follows_good_copy(
    before: BackupRun,
    event: BackupEvent,
    after: BackupRun,
    action: BackupAction,
)
    requires
        before.expects(event),
        is_step(before, event, after, action),
        action is WriteStamp,
    ensures
        before is Copying,
        event is Copied,
{
}

/// A backup counts as made only when it has been noted.
pub proof fn law_finish_follows_stamp(
    before: BackupRun,
    event: BackupEvent,
    after: BackupRun,
    action: BackupAction,
)
    requires
        before.expects(event),
        is_step(before, event, after, action),
        action is Finish,
    ensures
        before is Stamping,
        event is StampWritten,
{
}

/// Whatever goes wrong ends the backup with a failure, at once or, after a copy that failed, when
/// its remains have been discarded.
pub proof fn law_failures_end_the_backup(
    before: BackupRun,
    event: BackupEvent,
    after: BackupRun,
    action: BackupAction,
)
    requires
        before.expects(event),
        is_step(before, event, after, action),
    ensures
        event is ListingFailed || event is RemovalFailed || event is TargetFailed
            || event is CopyAborted || event is Discarded || event is StampFailed ==> after is Ended
            && action is Fail,
        event is CopyFailed ==> after is Discarding && action is Discard,
{
}

/// Only a copy that failed is discarded, and it is the backup that was being made.
pub proof fn law_only_the_failed_copy_is_discarded(
    before: BackupRun,
    event: BackupEvent,
    after: BackupRun,
    action: BackupAction,
)
    requires
        before.expects(event),
        is_step(before, event, after, action),
        action is Discard,
    ensures
        event is CopyFailed,
        before matches BackupRun::Copying { name } && action->Discard_0@ == name@,
{
}

/// A backup that has not ended waits for something.
pub proof fn law_backup_never_stalls(
    before: BackupRun,
    event: BackupEvent,
    after: BackupRun,
    action: BackupAction,
)
    requires
        before.expects(event),
        is_step(before, event, after, action),
    ensures
        after is Ended || exists|next: BackupEvent| #[trigger] after.expects(next),
        after is Ended <==> action is Finish || action is Fail,
{
    if after is Removing {
        assert(retention::views(after->pending@).len() == after->pending@.len());
        assert(after.expects(BackupEvent::Removed));
    }
    assert(after is Copying ==> after.expects(BackupEvent::Copied));
    assert(after is Discarding ==> after.expects(BackupEvent::Discarded));
    assert(after is Stamping ==> after.expects(BackupEvent::StampWritten));
}

/// How many kinds of things a backup may still wait for.
pub open spec fn phases_left(run: BackupRun) -> nat {
    match run {
        BackupRun::Listing { .. } => 4,
        BackupRun::Removing { .. } => 3,
        BackupRun::Copying { .. } => 2,
        BackupRun::Discarding | BackupRun::Stamping => 1,
        BackupRun::Ended => 0,
    }
}

/// How many old backups are still to be removed, as far as they are known.
pub open spec fn removals_left(run: BackupRun) -> nat {
    match run {
        BackupRun::Removing { pending } => pending@.len(),
        _ => 0,
    }
}

/// Every step brings a backup nearer to its end.
pub proof fn law_backup_comes_to_an_end(
    before: BackupRun,
    event: BackupEvent,
    after: BackupRun,
    action: BackupAction,
)
    requires
        before.expects(event),
        is_step(before, event, after, action),
    ensures
        phases_left(after) < phases_left(before) || phases_left(after) == phases_left(before)
            && removals_left(after) < removals_left(before),
{
    if before is Removing && after is Removing {
        assert(retention::views(after->pending@).len() == after->pending@.len());
        assert(retention::views(before->pending@).len() == before->pending@.len());
    }
}

/// Whether a backup that waits in `runs[k]` goes on to the next of `runs`, by doing the next of
/// `actions`, when a removal has succeeded.
pub open spec fn removal_succeeds(
    runs: Seq<BackupRun>,
    actions: Seq<BackupAction>,
    k: int,
) -> bool {
    is_step(runs[k], BackupEvent::Removed, runs[k + 1], actions[k + 1])
}

/// Where every removal succeeds, a backup removes exactly what the cleanup says, in its order,
/// one after the other, and then copies.
pub proof fn law_cleanup_is_carried_out(
    removed: Seq<retention::BackupView>,
    runs: Seq<BackupRun>,
    actions: Seq<BackupAction>,
    i: int,
)
    requires
        runs.len() == removed.len() + 1,
        actions.len() == removed.len() + 1,
        goes_on_with(removed, runs[0], actions[0]),
        forall|k: int| 0 <= k < removed.len() ==> #[trigger] removal_succeeds(runs, actions, k),
        0 <= i <= removed.len(),
    ensures
        goes_on_with(removed.skip(i), runs[i], actions[i]),
        i < removed.len() ==> (actions[i] matches BackupAction::Remove(name) && name@
            == removed[i].name),
        i == removed.len() ==> actions[i] is Copy,
    decreases i,
{
    if i == 0 {
        assert(removed.skip(0) =~= removed);
    } else {
        law_cleanup_is_carried_out(removed, runs, actions, i - 1);
        assert(removal_succeeds(runs, actions, i - 1));
        assert(removed.skip(i - 1).drop_first() =~= removed.skip(i));
    }
}

} // verus!
