//! When a backup is due.

use vstd::prelude::*;

use crate::clock;
use crate::clock::{
    elapsed_seconds, format_local, read_clock, read_clock_after, LocalTime, Timestamp,
    ESTIMATE_PATTERN, LAST_SECOND,
};
use crate::duration;
use crate::duration::format_duration_for_display;

verus! {

/// What is known of the file that is written at the end of each backup.
#[derive(Debug, Clone, Copy, PartialEq, Eq, Structural)]
pub enum LastRun {
    /// There is no such file.
    Missing,
    /// The file is there, but nothing is to be learnt of it.
    Unreadable,
    /// The file system does not say when the file was written.
    Undated,
    /// The file was last written at this moment.
    WrittenAt(Timestamp),
}

impl LastRun {
    pub open spec fn valid(self) -> bool {
        self matches LastRun::WrittenAt(t) ==> t.valid()
    }

    /// Tells whether the moment, where there is one, is one of the calendar.
    pub fn is_valid(&self) -> (r: bool)
        ensures
            r == self.valid(),
    {
        match self {
            LastRun::WrittenAt(t) => Timestamp::new(t.secs, t.nanos).is_some(),
            _ => true,
        }
    }
}

/// Whether a backup is to be made now, and if not, what to tell about the wait.
#[derive(Debug)]
pub struct ShouldRunResult {
    pub should_run: bool,
    pub time_remaining: String,
    /// Nothing was to be learnt of the last backup, which is worth a warning.
    pub unreadable: bool,
}

/// Whether a backup is to be made when the service starts.
#[derive(Debug, Clone, Copy, PartialEq, Eq, Structural)]
pub struct InitialRun {
    pub should_run: bool,
    /// Nothing was to be learnt of the last backup, which is worth a warning.
    pub unreadable: bool,
}

/// The wait between backups may not be negative to people, but it is compared as a signed
/// number: from 2^63 seconds on it counts as negative.
pub open spec fn signed_interval(interval: u64) -> int {
    if interval <= i64::MAX {
        interval as int
    } else {
        interval - 0x1_0000_0000_0000_0000
    }
}

/// The whole seconds since the last backup.
pub open spec fn elapsed(now: Timestamp, written: Timestamp) -> int {
    clock::whole_seconds(now.total_nanos() - written.total_nanos())
}

/// Whether the wait since the last backup is over.
pub open spec fn is_due(now: Timestamp, written: Timestamp, interval: u64) -> bool {
    elapsed(now, written) >= signed_interval(interval)
}

/// The seconds until the wait since the last backup is over.
pub open spec fn remaining(now: Timestamp, written: Timestamp, interval: u64) -> int {
    signed_interval(interval) - elapsed(now, written)
}

/// Whether the moment at which the wait is over can be told.
pub open spec fn estimate_in_range(now: Timestamp, written: Timestamp, interval: u64) -> bool {
    now.secs + remaining(now, written, interval) <= LAST_SECOND
}

fn to_signed(interval: u64) -> (r: i64)
    ensures
        r == signed_interval(interval),
{
    proof {
        assert(interval <= 0x7fff_ffff_ffff_ffffu64 ==> interval as i64 == interval) by (bit_vector);
        assert(interval > 0x7fff_ffff_ffff_ffffu64 ==> interval as i64 == interval
            - 0x1_0000_0000_0000_0000) by (bit_vector);
    }
    #[verifier::truncate]
    (interval as i64)
}

/// What is decided when the service starts at the moment `now`.
pub open spec fn initial_run(
    now: Timestamp,
    last_run: LastRun,
    interval: u64,
    on_startup: bool,
) -> InitialRun {
    if on_startup {
        InitialRun { should_run: true, unreadable: false }
    } else {
        match last_run {
            LastRun::Missing => InitialRun { should_run: true, unreadable: false },
            LastRun::Unreadable => InitialRun { should_run: true, unreadable: true },
            LastRun::Undated => InitialRun { should_run: false, unreadable: false },
            LastRun::WrittenAt(written) => InitialRun {
                should_run: is_due(now, written, interval),
                unreadable: false,
            },
        }
    }
}

/// Decides whether a backup is to be made when the service starts at the moment `now`.
pub fn initial_run_at(
    now: Timestamp,
    last_run: LastRun,
    min_interval: u64,
    is_on_startup: bool,
) -> (r: InitialRun)
    requires
        now.valid(),
        last_run.valid(),
    ensures
        r == initial_run(now, last_run, min_interval, is_on_startup),
{
    if is_on_startup {
        return InitialRun { should_run: true, unreadable: false };
    }
    match last_run {
        LastRun::Missing => InitialRun { should_run: true, unreadable: false },
        LastRun::Unreadable => InitialRun { should_run: true, unreadable: true },
        LastRun::Undated => InitialRun { should_run: false, unreadable: false },
        LastRun::WrittenAt(written) => {
            let due = elapsed_seconds(now, written) >= to_signed(min_interval);
            InitialRun { should_run: due, unreadable: false }
        },
    }
}

/// Decides whether a backup is to be made when the service starts, by the clock.
pub fn should_run_initially(
    last_run: LastRun,
    min_interval: u64,
    is_on_startup: bool,
) -> (r: InitialRun)
    requires
        last_run.valid(),
    ensures
        exists|now: LocalTime|
            #![trigger clock::is_reading(now)]
            clock::is_reading(now) && now.at.can_be_now() && r == initial_run(
                now.at,
                last_run,
                min_interval,
                is_on_startup,
            ),
{
    let now = read_clock();
    initial_run_at(now.at, last_run, min_interval, is_on_startup)
}

/// What is told about a wait: how long it is, and when it is expected to end.
pub open spec fn wait_text(seconds: nat, estimate: clock::WallTime) -> Seq<char> {
    duration::duration_text(seconds) + " (estimado para "@ + clock::readable_stamp(estimate)
        + ") "@
}

/// Tells about a wait of so many seconds that is expected to end at `estimate`.
pub fn describe_wait(seconds: u64, estimate: &LocalTime) -> (r: String)
    requires
        estimate.valid(),
    ensures
        r@ == wait_text(seconds as nat, estimate.wall),
{
    let mut r = format_duration_for_display(seconds);
    r.append(" (estimado para ");
    r.append(format_local(estimate, ESTIMATE_PATTERN).as_str());
    r.append(") ");
    r
}

/// Whether `e` is the time so many seconds after `now`, as clocks there show it.
pub open spec fn is_moment_after(e: LocalTime, now: LocalTime, seconds: int) -> bool {
    &&& e.valid()
    &&& e.at.secs == now.at.secs + seconds
    &&& e.at.nanos == now.at.nanos
    &&& clock::is_local_time_after(now, seconds, e)
}

/// Whether the check at the time `now` may come to `r`. What clocks will show at the end of a wait
/// is left to the machine.
pub open spec fn is_check_result(
    now: LocalTime,
    last_run: LastRun,
    interval: u64,
    r: ShouldRunResult,
) -> bool {
    match last_run {
        LastRun::Missing => r.should_run && !r.unreadable && r.time_remaining@.len() == 0,
        LastRun::Unreadable | LastRun::Undated => {
            r.should_run && r.unreadable && r.time_remaining@.len() == 0
        },
        LastRun::WrittenAt(written) => {
            &&& !r.unreadable
            &&& r.should_run == is_due(now.at, written, interval)
            &&& is_due(now.at, written, interval) ==> r.time_remaining@.len() == 0
            &&& !is_due(now.at, written, interval) ==> {
                let left = remaining(now.at, written, interval);
                exists|e: LocalTime|
                    #[trigger] is_moment_after(e, now, left) && r.time_remaining@ == wait_text(
                        left as nat,
                        e.wall,
                    )
            }
        },
    }
}

/// Whether the check at the moment `now` can tell when the wait ends, where there is one.
pub open spec fn check_in_range(now: Timestamp, last_run: LastRun, interval: u64) -> bool {
    last_run matches LastRun::WrittenAt(written) ==> is_due(now, written, interval)
        || estimate_in_range(now, written, interval)
}

/// Decides whether a backup is to be made at the moment `now`.
pub fn check_at(now: &LocalTime, last_run: LastRun, min_interval: u64) -> (r: ShouldRunResult)
    requires
        now.valid(),
        last_run.valid(),
        check_in_range(now.at, last_run, min_interval),
    ensures
        is_check_result(*now, last_run, min_interval, r),
{
    match last_run {
        LastRun::Missing => ShouldRunResult {
            should_run: true,
            time_remaining: String::new(),
            unreadable: false,
        },
        LastRun::Unreadable | LastRun::Undated => ShouldRunResult {
            should_run: true,
            time_remaining: String::new(),
            unreadable: true,
        },
        LastRun::WrittenAt(written) => {
            let interval: i64 = to_signed(min_interval);
            let passed: i64 = elapsed_seconds(now.at, written);
            if passed >= interval {
                ShouldRunResult {
                    should_run: true,
                    time_remaining: String::new(),
                    unreadable: false,
                }
            } else {
                let left: i64 = interval - passed;
                let estimate = read_clock_after(now, left);
                let time_remaining = describe_wait(left as u64, &estimate);
                proof {
                    assert(is_moment_after(estimate, *now, left as int));
                }
                ShouldRunResult { should_run: false, time_remaining, unreadable: false }
            }
        },
    }
}

/// The wait ends at a moment that no calendar here reaches.
#[derive(Debug, Clone, Copy, PartialEq, Eq, Structural)]
pub struct EstimateOutOfRange;

fn in_range(now: Timestamp, last_run: LastRun, min_interval: u64) -> (r: bool)
    requires
        now.valid(),
        last_run.valid(),
    ensures
        r == check_in_range(now, last_run, min_interval),
{
    match last_run {
        LastRun::WrittenAt(written) => {
            let interval: i64 = to_signed(min_interval);
            let passed: i64 = elapsed_seconds(now, written);
            let end: i128 = now.secs as i128 + interval as i128 - passed as i128;
            passed >= interval || end <= LAST_SECOND as i128
        },
        _ => true,
    }
}

/// Whether `r` is what the check at the time `now` may come to, or says that the end of the
/// wait cannot be told.
pub open spec fn is_checked(
    now: LocalTime,
    last_run: LastRun,
    interval: u64,
    r: Result<ShouldRunResult, EstimateOutOfRange>,
) -> bool {
    match r {
        Ok(result) => check_in_range(now.at, last_run, interval) && is_check_result(
            now,
            last_run,
            interval,
            result,
        ),
        Err(_) => !check_in_range(now.at, last_run, interval),
    }
}

/// Decides whether a backup is to be made now, by the clock.
pub fn should_run_check_file(last_run: LastRun, min_interval: u64) -> (r: Result<
    ShouldRunResult,
    EstimateOutOfRange,
>)
    requires
        last_run.valid(),
    ensures
        exists|now: LocalTime|
            clock::is_reading(now) && now.at.can_be_now() && #[trigger] is_checked(
                now,
                last_run,
                min_interval,
                r,
            ),
{
    let now = read_clock();
    let r = if in_range(now.at, last_run, min_interval) {
        Ok(check_at(&now, last_run, min_interval))
    } else {
        Err(EstimateOutOfRange)
    };
    proof {
        assert(is_checked(now, last_run, min_interval, r));
    }
    r
}

/// The decision at the start and the later checks agree on everything but an undated file, after
/// which the service does not start with a backup but makes one at the next check.
pub proof fn law_start_and_check_agree(
    now: LocalTime,
    last_run: LastRun,
    interval: u64,
    r: ShouldRunResult,
)
    requires
        is_check_result(now, last_run, interval, r),
    ensures
        last_run !is Undated ==> initial_run(now.at, last_run, interval, false).should_run
            == r.should_run,
        last_run is Undated ==> r.should_run && !initial_run(
            now.at,
            last_run,
            interval,
            false,
        ).should_run,
{
}

/// A service that is set to run on start-up starts with a backup, whatever came before.
pub proof fn law_on_startup_always_runs(now: Timestamp, last_run: LastRun, interval: u64)
    ensures
        initial_run(now, last_run, interval, true).should_run,
{
}

/// A check either lets a backup be made or tells about a wait, never both, and a wait that is
/// told is at least a second long.
pub proof fn law_wait_told_exactly_when_skipped(
    now: LocalTime,
    last_run: LastRun,
    interval: u64,
    r: ShouldRunResult,
)
    requires
        is_check_result(now, last_run, interval, r),
    ensures
        r.should_run <==> r.time_remaining@.len() == 0,
        !r.should_run ==> (last_run matches LastRun::WrittenAt(written) && remaining(
            now.at,
            written,
            interval,
        ) >= 1),
{
    if !r.should_run {
        reveal_strlit(") ");
    }
}

/// A backup is due exactly when the wait has passed since the last one, to the nanosecond.
///
/// A wait of no time, and one that counts as negative, is left out: seconds are rounded towards
/// zero, so that a backup is then due up to a second before the last one too.
pub proof fn law_due_exactly_when_interval_has_passed(
    now: Timestamp,
    written: Timestamp,
    interval: u64,
)
    requires
        1 <= interval <= i64::MAX,
    ensures
        is_due(now, written, interval) <==> now.total_nanos() >= written.total_nanos() + interval
            * 1_000_000_000,
{
}

/// Without a wait a backup is due unless the last one lies a second or more ahead. A wait from
/// 2^63 seconds on counts as negative: a backup is then due even where the last one lies ahead, by
/// as much as the wait lacks to 2^64 seconds.
pub proof fn law_due_without_a_wait(now: Timestamp, written: Timestamp, interval: u64)
    ensures
        interval == 0 ==> (is_due(now, written, interval) <==> written.total_nanos()
            < now.total_nanos() + 1_000_000_000),
        interval > i64::MAX ==> (is_due(now, written, interval) <==> written.total_nanos()
            < now.total_nanos() + (0x1_0000_0000_0000_0000 - interval + 1) * 1_000_000_000),
{
}

/// The service starts with a backup on start-up, where there is no last one, where nothing is to
/// be learnt of it (and it warns), and where the wait since it is over; it starts without one
/// where the last one is undated or the wait goes on.
pub proof fn law_start_is_decided(
    now: Timestamp,
    last_run: LastRun,
    interval: u64,
    on_startup: bool,
)
    ensures
        on_startup || last_run is Missing || last_run is Unreadable ==> initial_run(
            now,
            last_run,
            interval,
            on_startup,
        ).should_run,
        !on_startup && last_run is Undated ==> !initial_run(
            now,
            last_run,
            interval,
            on_startup,
        ).should_run,
        !on_startup && 1 <= interval <= i64::MAX ==> (last_run matches LastRun::WrittenAt(written)
            ==> (initial_run(now, last_run, interval, on_startup).should_run <==> now.total_nanos()
            >= written.total_nanos() + interval * 1_000_000_000)),
        !on_startup ==> (last_run matches LastRun::WrittenAt(written) ==> (initial_run(
            now,
            last_run,
            interval,
            on_startup,
        ).should_run <==> is_due(now, written, interval))),
        initial_run(now, last_run, interval, on_startup).unreadable <==> !on_startup
            && last_run is Unreadable,
{
}

/// A check lets a backup be made exactly where nothing is known of when the last one was made, or
/// the wait has passed since then, to the nanosecond; it warns where there is a last one that is
/// unreadable or undated.
pub proof fn law_check_is_decided(
    now: LocalTime,
    last_run: LastRun,
    interval: u64,
    r: ShouldRunResult,
)
    requires
        is_check_result(now, last_run, interval, r),
    ensures
        last_run !is WrittenAt ==> r.should_run,
        1 <= interval <= i64::MAX ==> (last_run matches LastRun::WrittenAt(written) ==> (
        r.should_run <==> now.at.total_nanos() >= written.total_nanos() + interval
            * 1_000_000_000)),
        r.unreadable <==> last_run is Unreadable || last_run is Undated,
{
}

/// Whether `n` is the number of whole seconds that a wait of `gap` nanoseconds is told as: rounded
/// up, but down where the last backup lies ahead of the clock.
pub open spec fn is_told_as(n: nat, gap: int, ahead: bool) -> bool {
    if ahead {
        n * 1_000_000_000 <= gap < (n + 1) * 1_000_000_000
    } else {
        (n - 1) * 1_000_000_000 < gap <= n * 1_000_000_000
    }
}

/// Where a backup is skipped, what is told is the time from now until the wait since the last one
/// is over, in whole seconds, and what clocks show when that time has passed.
///
/// A wait from 2^63 seconds on counts as negative.
pub proof fn law_wait_is_told_as_it_is(
    now: LocalTime,
    written: Timestamp,
    interval: u64,
    wait: int,
    r: ShouldRunResult,
    n: nat,
)
    requires
        interval <= i64::MAX ==> wait == interval,
        interval > i64::MAX ==> wait == interval - 0x1_0000_0000_0000_0000,
        is_check_result(now, LastRun::WrittenAt(written), interval, r),
        !r.should_run,
        is_told_as(
            n,
            written.total_nanos() + wait * 1_000_000_000 - now.at.total_nanos(),
            written.total_nanos() > now.at.total_nanos(),
        ),
    ensures
        exists|e: LocalTime|
            #![trigger clock::is_local_time_after(now, n as int, e)]
            clock::is_local_time_after(now, n as int, e) && e.valid() && e.at.secs == now.at.secs
                + n && r.time_remaining@ == duration::duration_text(n) + " (estimado para "@
                + clock::readable_stamp(e.wall) + ") "@,
{
    let left = remaining(now.at, written, interval);
    assert(left == n);
    let e = choose|e: LocalTime|
        #[trigger] is_moment_after(e, now, left) && r.time_remaining@ == wait_text(
            left as nat,
            e.wall,
        );
    assert(clock::is_local_time_after(now, n as int, e));
}

/// Where the wait goes on for a second or more, told in whole seconds, a backup is not due, and
/// the end of the wait cannot be told exactly where it comes after the last second of the calendar.
///
/// A wait from 2^63 seconds on counts as negative.
pub proof fn law_wait_beyond_the_calendar_is_not_told(
    now: LocalTime,
    written: Timestamp,
    interval: u64,
    wait: int,
    r: Result<ShouldRunResult, EstimateOutOfRange>,
    n: nat,
)
    requires
        interval <= i64::MAX ==> wait == interval,
        interval > i64::MAX ==> wait == interval - 0x1_0000_0000_0000_0000,
        is_checked(now, LastRun::WrittenAt(written), interval, r),
        n >= 1,
        is_told_as(
            n,
            written.total_nanos() + wait * 1_000_000_000 - now.at.total_nanos(),
            written.total_nanos() > now.at.total_nanos(),
        ),
    ensures
        r is Err <==> now.at.secs + n > LAST_SECOND,
        r matches Ok(result) ==> !result.should_run,
{
    assert(remaining(now.at, written, interval) == n);
}

/// A check never fails where a backup is due or nothing is known of when the last one was made.
pub proof fn law_due_check_succeeds(
    now: LocalTime,
    last_run: LastRun,
    interval: u64,
    r: Result<ShouldRunResult, EstimateOutOfRange>,
)
    requires
        is_checked(now, last_run, interval, r),
        last_run matches LastRun::WrittenAt(written) ==> now.at.total_nanos()
            >= written.total_nanos() + interval * 1_000_000_000,
    ensures
        r matches Ok(result) && result.should_run,
{
}

/// Once a backup is due it stays due until the next one is made.
pub proof fn law_due_stays_due(
    now: Timestamp,
    later: Timestamp,
    written: Timestamp,
    interval: u64,
)
    requires
        now.total_nanos() <= later.total_nanos(),
        is_due(now, written, interval),
    ensures
        is_due(later, written, interval),
{
}

/// When the wait that a check tells about is over, a backup is due.
///
/// A last backup that lies ahead of the clock by a fraction of a second is left out: seconds are
/// rounded towards zero, so that such a wait is told one second too short.
pub proof fn law_due_when_wait_is_over(
    now: Timestamp,
    later: Timestamp,
    written: Timestamp,
    interval: u64,
)
    requires
        !is_due(now, written, interval),
        later.total_nanos() >= now.total_nanos() + remaining(now, written, interval)
            * 1_000_000_000,
        written.total_nanos() <= now.total_nanos() || (written.total_nanos() - now.total_nanos())
            % 1_000_000_000 == 0 || signed_interval(interval) <= 0,
    ensures
        is_due(later, written, interval),
{
}

/// Before the wait that a check tells about is over, by whole seconds, no backup is due.
pub proof fn law_not_due_before_wait_is_over(
    now: Timestamp,
    later: Timestamp,
    written: Timestamp,
    interval: u64,
    waited: int,
)
    requires
        !is_due(now, written, interval),
        0 <= waited < remaining(now, written, interval),
        later.total_nanos() == now.total_nanos() + waited * 1_000_000_000,
    ensures
        !is_due(later, written, interval),
{
}

} // verus!
