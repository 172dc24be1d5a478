//! Which backups there are, and which of them go when there are too many.

use vstd::multiset::Multiset;
use vstd::prelude::*;

use crate::clock;
use crate::clock::{parse_wall_time, WallTime, NAME_PATTERN};

verus! {

/// What the name of every backup starts with.
pub const BACKUP_PREFIX: &'static str = "backup_";

/// An entry of the directory that holds the backups.
#[derive(Debug)]
pub struct DirEntry {
    /// The entry's name, where it is Unicode.
    pub name: Option<String>,
    pub is_dir: bool,
}

/// A backup: the time in its name, and the name.
#[derive(Debug)]
pub struct Backup {
    pub time: WallTime,
    pub name: String,
}

/// What a [`Backup`] stands for.
pub struct BackupView {
    pub time: WallTime,
    pub name: Seq<char>,
}

impl View for Backup {
    type V = BackupView;

    open spec fn view(&self) -> BackupView {
        BackupView { time: self.time, name: self.name@ }
    }
}

/// The time in a backup's name, or nothing if no backup has that name.
pub open spec fn name_time(name: Seq<char>) -> Option<WallTime> {
    if BACKUP_PREFIX@.is_prefix_of(name) {
        clock::parsed_time(name.skip(BACKUP_PREFIX@.len() as int), NAME_PATTERN@)
    } else {
        None
    }
}

/// The backup that an entry is, if it is one.
pub open spec fn entry_backup(entry: DirEntry) -> Option<BackupView> {
    match entry.name {
        Some(name) => if entry.is_dir && name_time(name@) is Some {
            Some(BackupView { time: name_time(name@)->0, name: name@ })
        } else {
            None
        },
        None => None,
    }
}

/// The backups among the entries, in their order.
pub open spec fn backups(entries: Seq<DirEntry>) -> Seq<BackupView>
    decreases entries.len(),
{
    if entries.len() == 0 {
        Seq::empty()
    } else {
        let others = backups(entries.drop_last());
        match entry_backup(entries.last()) {
            Some(backup) => others.push(backup),
            None => others,
        }
    }
}

/// Whether a backup with a name that backups are given has the time, to the second, that it was
/// named by. Years that need a sign are left out.
pub open spec fn is_dated_by_name(b: BackupView) -> bool {
    forall|w: WallTime|
        w.valid() && 0 <= w.year <= 9999 && b.name == BACKUP_PREFIX@ + #[trigger] clock::name_stamp(
            w,
        ) ==> b.time == w.whole_second()
}

/// A name is that of a backup exactly where the prefix is followed by a stamp that reads as a
/// time, and the time is the one that the stamp reads as.
pub proof fn law_backup_names_hold_their_time(name: Seq<char>, stamp: Seq<char>)
    ensures
        name == "backup_"@ + stamp ==> name_time(name) == clock::parsed_time(
            stamp,
            "%Y%m%d_%H%M%S"@,
        ),
        name_time(name) is Some ==> name == "backup_"@ + name.skip("backup_"@.len() as int),
{
    if name == "backup_"@ + stamp {
        assert(name.take("backup_"@.len() as int) =~= "backup_"@);
        assert(name.skip("backup_"@.len() as int) =~= stamp);
    }
    if name_time(name) is Some {
        assert(name =~= "backup_"@ + name.skip("backup_"@.len() as int));
    }
}

/// The backups of a listing are the directories in it whose names hold a time, each with its name
/// and that time, in the order of the listing.
pub proof fn law_backups_are_the_dated_directories(
    before: Seq<DirEntry>,
    entry: DirEntry,
    after: Seq<DirEntry>,
)
    ensures
        backups(before + after) == backups(before) + backups(after),
        backups(before + seq![entry] + after) == backups(before) + backups(seq![entry]) + backups(
            after,
        ),
        entry.name matches Some(name) ==> {
            &&& entry.is_dir && name_time(name@) is Some ==> backups(seq![entry]) == seq![
                BackupView { time: name_time(name@)->0, name: name@ },
            ]
            &&& !entry.is_dir || name_time(name@) is None ==> backups(seq![entry]).len() == 0
        },
        entry.name is None ==> backups(seq![entry]).len() == 0,
{
    lemma_backups_of_two_listings(before, after);
    lemma_backups_of_two_listings(before + seq![entry], after);
    lemma_backups_of_two_listings(before, seq![entry]);
    let one = seq![entry];
    assert(one.drop_last() =~= Seq::empty());
    assert(one.last() == entry);
    assert(backups(one.drop_last()) =~= Seq::empty());
    if entry_backup(entry) is Some {
        assert(backups(one) =~= seq![entry_backup(entry)->0]);
    }
}

proof fn lemma_backups_of_two_listings(a: Seq<DirEntry>, b: Seq<DirEntry>)
    ensures
        backups(a + b) == backups(a) + backups(b),
    decreases b.len(),
{
    if b.len() == 0 {
        assert(a + b =~= a);
        assert(backups(a) + backups(b) =~= backups(a));
    } else {
        lemma_backups_of_two_listings(a, b.drop_last());
        assert((a + b).drop_last() =~= a + b.drop_last());
        assert((a + b).last() == b.last());
        assert(backups(a + b) =~= backups(a) + backups(b));
    }
}

/// What follows the prefix of backups in a name.
fn strip_backup_prefix(name: &str) -> (r: Option<&str>)
    ensures
        BACKUP_PREFIX@.is_prefix_of(name@) ==> r is Some && r->0@ == name@.skip(
            BACKUP_PREFIX@.len() as int,
        ),
        !BACKUP_PREFIX@.is_prefix_of(name@) ==> r is None,
{
    let prefix_len: usize = BACKUP_PREFIX.unicode_len();
    let name_len: usize = name.unicode_len();
    if name_len < prefix_len {
        return None;
    }
    for i in 0..prefix_len
        invariant
            prefix_len == BACKUP_PREFIX@.len(),
            prefix_len <= name@.len(),
            forall|j: int| 0 <= j < i ==> BACKUP_PREFIX@[j] == name@[j],
    {
        if BACKUP_PREFIX.get_char(i) != name.get_char(i) {
            return None;
        }
    }
    proof {
        assert(BACKUP_PREFIX@ =~= name@.take(prefix_len as int));
        assert(name@.skip(prefix_len as int) =~= name@.subrange(
            prefix_len as int,
            name_len as int,
        ));
    }
    Some(name.substring_char(prefix_len, name_len))
}

/// Reads the time in a backup's name.
pub fn backup_time(name: &str) -> (r: Option<WallTime>)
    ensures
        r == name_time(name@),
        // The names that backups are given read back to the second.
        forall|w: WallTime|
            w.valid() && 0 <= w.year <= 9999 && name@ == BACKUP_PREFIX@ + #[trigger] clock::name_stamp(
                w,
            ) ==> r == Some(w.whole_second()),
{
    proof {
        assert forall|w: WallTime|
            name@ == BACKUP_PREFIX@ + #[trigger] clock::name_stamp(w) implies name@.skip(
            BACKUP_PREFIX@.len() as int,
        ) == clock::name_stamp(w) && BACKUP_PREFIX@.is_prefix_of(name@) by {
            assert(name@.take(BACKUP_PREFIX@.len() as int) =~= BACKUP_PREFIX@);
            assert(name@.skip(BACKUP_PREFIX@.len() as int) =~= clock::name_stamp(w));
        }
    }
    match strip_backup_prefix(name) {
        Some(stamp) => parse_wall_time(stamp, NAME_PATTERN),
        None => None,
    }
}

/// The backup that an entry is, if it is one.
pub fn as_backup(entry: &DirEntry) -> (r: Option<Backup>)
    ensures
        r is Some <==> entry_backup(*entry) is Some,
        r is Some ==> r->0@ == entry_backup(*entry)->0,
        r is Some ==> is_dated_by_name(r->0@),
{
    if !entry.is_dir {
        return None;
    }
    match &entry.name {
        Some(name) => match backup_time(name.as_str()) {
            Some(time) => Some(Backup { time, name: name.clone() }),
            None => None,
        },
        None => None,
    }
}

/// Whether one time comes before another: by date, then by time of day.
pub open spec fn time_before(a: WallTime, b: WallTime) -> bool {
    a.year < b.year || a.year == b.year && (a.month < b.month || a.month == b.month && (a.day
        < b.day || a.day == b.day && (a.hour < b.hour || a.hour == b.hour && (a.minute < b.minute
        || a.minute == b.minute && (a.second < b.second || a.second == b.second && a.nanos
        < b.nanos)))))
}

/// Whether one text comes before another, character by character.
pub open spec fn text_before(a: Seq<char>, b: Seq<char>) -> bool
    decreases a.len(),
{
    b.len() > 0 && (a.len() == 0 || a[0] < b[0] || a[0] == b[0] && text_before(
        a.drop_first(),
        b.drop_first(),
    ))
}

/// Whether one backup goes before another: the older one, and of two with the same time the one
/// whose name comes last.
pub open spec fn goes_before(a: BackupView, b: BackupView) -> bool {
    time_before(a.time, b.time) || a.time == b.time && text_before(b.name, a.name)
}

proof fn lemma_text_before_irreflexive(a: Seq<char>)
    ensures
        !text_before(a, a),
    decreases a.len(),
{
    if a.len() > 0 {
        lemma_text_before_irreflexive(a.drop_first());
    }
}

proof fn lemma_text_before_transitive(a: Seq<char>, b: Seq<char>, c: Seq<char>)
    requires
        text_before(a, b),
        text_before(b, c),
    ensures
        text_before(a, c),
    decreases a.len(),
{
    if a.len() > 0 && a[0] == b[0] && b[0] == c[0] {
        lemma_text_before_transitive(a.drop_first(), b.drop_first(), c.drop_first());
    }
}

proof fn lemma_text_before_total(a: Seq<char>, b: Seq<char>)
    ensures
        a == b || text_before(a, b) || text_before(b, a),
    decreases a.len(),
{
    if a.len() == 0 || b.len() == 0 {
        if a.len() == b.len() {
            assert(a =~= b);
        }
    } else if a[0] == b[0] {
        lemma_text_before_total(a.drop_first(), b.drop_first());
        if a.drop_first() == b.drop_first() {
            assert(a =~= seq![a[0]] + a.drop_first());
            assert(b =~= seq![b[0]] + b.drop_first());
        }
    }
}

/// Times are ordered by the calendar and the clock: one comes before another exactly when fewer
/// seconds lie between a fixed moment and it, or as many and fewer nanoseconds.
pub proof fn law_times_are_in_the_order_of_the_calendar(a: WallTime, b: WallTime)
    requires
        a.valid(),
        b.valid(),
    ensures
        time_before(a, b) <==> a.seconds() < b.seconds() || a.seconds() == b.seconds() && a.nanos
            < b.nanos,
        a == b <==> a.seconds() == b.seconds() && a.nanos == b.nanos,
{
    clock::law_dates_are_numbered_in_order(
        a.year as int,
        a.month as int,
        a.day as int,
        b.year as int,
        b.month as int,
        b.day as int,
    );
}

/// Names are ordered as in a dictionary: one comes before another exactly when it is its beginning,
/// or has the lower character at the first place where they differ.
pub proof fn law_names_are_in_the_order_of_a_dictionary(a: Seq<char>, b: Seq<char>)
    ensures
        text_before(a, b) <==> exists|i: int|
            0 <= i <= a.len() && i < b.len() && #[trigger] a.take(i) == b.take(i) && (i == a.len()
                || a[i] < b[i]),
    decreases a.len(),
{
    if a.len() == 0 || b.len() == 0 || a[0] != b[0] {
        assert(a.take(0) =~= b.take(0));
        assert forall|i: int|
            0 < i <= a.len() && i < b.len() implies #[trigger] a.take(i) != b.take(i) by {
            assert(a.take(i)[0] != b.take(i)[0]);
        }
    } else {
        let (x, y) = (a.drop_first(), b.drop_first());
        law_names_are_in_the_order_of_a_dictionary(x, y);
        if text_before(a, b) {
            let i = choose|i: int|
                0 <= i <= x.len() && i < y.len() && #[trigger] x.take(i) == y.take(i) && (i
                    == x.len() || x[i] < y[i]);
            assert(a.take(i + 1) =~= seq![a[0]] + x.take(i));
            assert(b.take(i + 1) =~= seq![b[0]] + y.take(i));
        }
        assert forall|i: int|
            0 <= i <= a.len() && i < b.len() && #[trigger] a.take(i) == b.take(i) && (i == a.len()
                || a[i] < b[i]) implies text_before(a, b) by {
            assert(i > 0);
            assert(x.take(i - 1) =~= a.take(i).drop_first());
            assert(y.take(i - 1) =~= b.take(i).drop_first());
            assert(x.take(i - 1) == y.take(i - 1));
        }
    }
}

/// The earlier of two backups goes before the other, and of two of the same time the one whose
/// name is later in the dictionary.
pub proof fn law_oldest_backups_go_first(a: BackupView, b: BackupView)
    requires
        a.time.valid(),
        b.time.valid(),
    ensures
        a.time.seconds() < b.time.seconds() ==> goes_before(a, b),
        goes_before(a, b) ==> a.time.seconds() <= b.time.seconds(),
        a.time == b.time ==> (goes_before(a, b) <==> text_before(b.name, a.name)),
{
    law_times_are_in_the_order_of_the_calendar(a.time, b.time);
}

/// Backups go in one order: none goes before itself, and of two different ones one goes before
/// the other, and what goes before it goes before the other too.
pub proof fn law_removal_order_is_total(a: BackupView, b: BackupView, c: BackupView)
    ensures
        !goes_before(a, a),
        a == b || goes_before(a, b) || goes_before(b, a),
        goes_before(a, b) && goes_before(b, c) ==> goes_before(a, c),
{
    lemma_text_before_irreflexive(a.name);
    lemma_text_before_total(a.name, b.name);
    if goes_before(a, b) && goes_before(b, c) && a.time == b.time && b.time == c.time {
        lemma_text_before_transitive(c.name, b.name, a.name);
    }
}

fn time_precedes(a: &WallTime, b: &WallTime) -> (r: bool)
    ensures
        r == time_before(*a, *b),
{
    if a.year != b.year {
        a.year < b.year
    } else if a.month != b.month {
        a.month < b.month
    } else if a.day != b.day {
        a.day < b.day
    } else if a.hour != b.hour {
        a.hour < b.hour
    } else if a.minute != b.minute {
        a.minute < b.minute
    } else if a.second != b.second {
        a.second < b.second
    } else {
        a.nanos < b.nanos
    }
}

fn text_precedes(a: &str, b: &str) -> (r: bool)
    ensures
        r == text_before(a@, b@),
{
    let a_len: usize = a.unicode_len();
    let b_len: usize = b.unicode_len();
    let mut i: usize = 0;
    proof {
        assert(a@.skip(0) =~= a@);
        assert(b@.skip(0) =~= b@);
    }
    while i < a_len && i < b_len
        invariant
            i <= a_len == a@.len(),
            i <= b_len == b@.len(),
            text_before(a@, b@) == text_before(a@.skip(i as int), b@.skip(i as int)),
        decreases a_len - i,
    {
        let x = a.get_char(i);
        let y = b.get_char(i);
        if x != y {
            return x < y;
        }
        proof {
            assert(a@.skip(i as int).drop_first() =~= a@.skip(i + 1));
            assert(b@.skip(i as int).drop_first() =~= b@.skip(i + 1));
        }
        i += 1;
    }
    i < b_len
}

fn precedes(a: &Backup, b: &Backup) -> (r: bool)
    ensures
        r == goes_before(a@, b@),
{
    time_precedes(&a.time, &b.time) || a.time == b.time && text_precedes(
        b.name.as_str(),
        a.name.as_str(),
    )
}

/// What the backups in a list stand for, in their order.
pub open spec fn views(list: Seq<Backup>) -> Seq<BackupView> {
    list.map_values(|b: Backup| b@)
}

/// Backups that wait to be taken out in the order in which they go.
pub struct BackupQueue {
    items: Vec<Backup>,
}

impl View for BackupQueue {
    type V = Multiset<BackupView>;

    closed spec fn view(&self) -> Multiset<BackupView> {
        views(self.items@).to_multiset()
    }
}

impl BackupQueue {
    pub fn new() -> (r: BackupQueue)
        ensures
            r@ == Multiset::<BackupView>::empty(),
    {
        broadcast use vstd::seq_lib::group_to_multiset_ensures;

        let r = BackupQueue { items: Vec::new() };
        proof {
            assert(r@.len() == 0);
            assert(r@ =~= Multiset::<BackupView>::empty());
        }
        r
    }

    pub fn len(&self) -> (r: usize)
        ensures
            r == self@.len(),
    {
        broadcast use vstd::seq_lib::group_to_multiset_ensures;

        self.items.len()
    }

    /// Adds a backup.
    pub fn push(&mut self, backup: Backup)
        ensures
            final(self)@ == old(self)@.insert(backup@),
    {
        broadcast use vstd::seq_lib::group_to_multiset_ensures;

        self.items.push(backup);
        proof {
            assert(views(self.items@) =~= views(old(self).items@).push(backup@));
        }
    }

    /// Takes out the backup that goes first.
    pub fn pop(&mut self) -> (r: Option<Backup>)
        ensures
            old(self)@.len() == 0 ==> r is None && final(self)@ == old(self)@,
            old(self)@.len() > 0 ==> {
                &&& r is Some
                &&& old(self)@.contains(r->0@)
                &&& final(self)@ == old(self)@.remove(r->0@)
                &&& forall|b: BackupView| #[trigger]
                    old(self)@.contains(b) ==> !goes_before(b, r->0@)
            },
    {
        broadcast use vstd::seq_lib::group_to_multiset_ensures;

        let n: usize = self.items.len();
        if n == 0 {
            return None;
        }
        let ghost all = views(self.items@);
        let mut first: usize = 0;
        let mut i: usize = 1;
        proof {
            law_removal_order_is_total(all[0], all[0], all[0]);
        }
        while i < n
            invariant
                n == self.items.len(),
                all == views(self.items@),
                first < i <= n,
                forall|j: int| 0 <= j < i ==> !goes_before(#[trigger] all[j], all[first as int]),
            decreases n - i,
        {
            if precedes(&self.items[i], &self.items[first]) {
                proof {
                    assert forall|j: int| 0 <= j < i + 1 implies !goes_before(
                        #[trigger] all[j],
                        all[i as int],
                    ) by {
                        law_removal_order_is_total(all[j], all[i as int], all[first as int]);
                    }
                }
                first = i;
            }
            i += 1;
        }
        let r = self.items.remove(first);
        proof {
            assert(views(self.items@) =~= all.remove(first as int));
            assert forall|b: BackupView| #[trigger] old(self)@.contains(b) implies !goes_before(
                b,
                r@,
            ) by {
                assert(all.contains(b));
            }
        }
        Some(r)
    }

    /// Hands out the backups that are left.
    pub fn into_vec(self) -> (r: Vec<Backup>)
        ensures
            views(r@).to_multiset() == self@,
    {
        self.items
    }
}

/// Whether a cleanup down to `limit` backups is to remove `removed`, in this order, and to keep
/// `kept`.
pub open spec fn is_cleanup(
    all: Multiset<BackupView>,
    limit: nat,
    removed: Seq<BackupView>,
    kept: Multiset<BackupView>,
) -> bool {
    // Every backup is either removed or kept, and as many are kept as the limit allows.
    &&& removed.to_multiset().add(kept) == all
    &&& kept.len() == if all.len() <= limit {
        all.len()
    } else {
        limit
    }
    // The removed ones go in order, and before the kept ones.
    &&& forall|i: int, j: int|
        0 <= i < j < removed.len() ==> !goes_before(#[trigger] removed[j], #[trigger] removed[i])
    &&& forall|i: int, b: BackupView|
        0 <= i < removed.len() && #[trigger] kept.contains(b) ==> !goes_before(
            b,
            #[trigger] removed[i],
        )
}

/// What a cleanup does.
#[derive(Debug)]
pub struct Cleanup {
    /// The backups to remove, first to last.
    pub remove: Vec<Backup>,
    /// The backups that stay.
    pub keep: Vec<Backup>,
}

/// Decides which backups go so that no more than `max_backups` stay.
pub fn trim_backups(queue: BackupQueue, max_backups: u32) -> (r: Cleanup)
    ensures
        is_cleanup(
            queue@,
            max_backups as nat,
            views(r.remove@),
            views(r.keep@).to_multiset(),
        ),
{
    broadcast use vstd::seq_lib::group_to_multiset_ensures;

    let mut queue = queue;
    let ghost all = queue@;
    let limit: usize = max_backups as usize;
    let mut remove: Vec<Backup> = Vec::new();
    proof {
        assert(views(remove@).to_multiset().add(queue@) =~= all);
    }
    while queue.len() > limit
        invariant
            limit == max_backups,
            views(remove@).to_multiset().add(queue@) == all,
            queue@.len() >= limit || queue@ == all,
            queue@.len() <= all.len(),
            forall|i: int, j: int|
                0 <= i < j < remove.len() ==> !goes_before(
                    (#[trigger] remove[j])@,
                    (#[trigger] remove[i])@,
                ),
            forall|i: int, b: BackupView|
                0 <= i < remove.len() && #[trigger] queue@.contains(b) ==> !goes_before(
                    b,
                    (#[trigger] remove[i])@,
                ),
        decreases queue@.len(),
    {
        broadcast use vstd::seq_lib::group_to_multiset_ensures;

        let ghost before = queue@;
        let ghost removed = views(remove@);
        if let Some(backup) = queue.pop() {
            let ghost b = backup@;
            remove.push(backup);
            proof {
                assert(views(remove@) =~= removed.push(b));
                assert(views(remove@).to_multiset().add(queue@) =~= removed.to_multiset().add(
                    before,
                ));
                assert forall|x: BackupView| #[trigger] queue@.contains(x) implies before.contains(
                    x,
                ) by {}
            }
        }
    }
    proof {
        assert(views(remove@).len() == remove.len());
    }
    Cleanup { remove, keep: queue.into_vec() }
}

/// Decides which of the entries a cleanup down to `max_backups` backups removes.
pub fn cleanup_old_backups(entries: &Vec<DirEntry>, max_backups: u32) -> (r: Cleanup)
    ensures
        is_cleanup(
            backups(entries@).to_multiset(),
            max_backups as nat,
            views(r.remove@),
            views(r.keep@).to_multiset(),
        ),
        // By their names: no backup goes that was made after one that stays.
        forall|i: int, j: int, gone: WallTime, left: WallTime|
            #![trigger r.remove[i], r.keep[j], clock::name_stamp(gone), clock::name_stamp(left)]
            0 <= i < r.remove.len() && 0 <= j < r.keep.len() && gone.valid() && left.valid() && 0
                <= gone.year <= 9999 && 0 <= left.year <= 9999 && r.remove[i].name@ == BACKUP_PREFIX@
                + clock::name_stamp(gone) && r.keep[j].name@ == BACKUP_PREFIX@ + clock::name_stamp(
                left,
            ) ==> gone.seconds() <= left.seconds(),
{
    broadcast use vstd::seq_lib::group_to_multiset_ensures;

    let mut queue = BackupQueue::new();
    proof {
        assert(backups(entries@.take(0)).to_multiset() =~= queue@);
    }
    for i in 0..entries.len()
        invariant
            queue@ == backups(entries@.take(i as int)).to_multiset(),
            forall|b: BackupView| #[trigger] queue@.contains(b) ==> is_dated_by_name(b),
    {
        broadcast use vstd::seq_lib::group_to_multiset_ensures;

        proof {
            assert(entries@.take(i + 1).drop_last() =~= entries@.take(i as int));
        }
        let ghost before = queue@;
        match as_backup(&entries[i]) {
            Some(backup) => {
                queue.push(backup);
                proof {
                    assert forall|b: BackupView| #[trigger] queue@.contains(b) implies is_dated_by_name(
                        b,
                    ) by {
                        assert(b == backup@ || before.contains(b));
                    }
                }
            },
            None => {},
        }
    }
    proof {
        assert(entries@.take(entries.len() as int) =~= entries@);
    }

    let ghost all = queue@;
    let r = trim_backups(queue, max_backups);
    proof {
        lemma_removed_are_no_newer_by_name(
            all,
            max_backups as nat,
            views(r.remove@),
            views(r.keep@).to_multiset(),
        );
        assert forall|i: int| 0 <= i < r.remove.len() implies views(r.remove@).contains(
            (#[trigger] r.remove[i])@,
        ) by {
            assert(views(r.remove@)[i] == r.remove[i]@);
        }
        assert forall|j: int| 0 <= j < r.keep.len() implies views(r.keep@).to_multiset().contains(
            (#[trigger] r.keep[j])@,
        ) by {
            assert(views(r.keep@)[j] == r.keep[j]@);
            assert(views(r.keep@).contains(r.keep[j]@));
        }
    }
    r
}

proof fn lemma_removed_are_no_newer_by_name(
    all: Multiset<BackupView>,
    limit: nat,
    removed: Seq<BackupView>,
    kept: Multiset<BackupView>,
)
    requires
        is_cleanup(all, limit, removed, kept),
        forall|b: BackupView| #[trigger] all.contains(b) ==> is_dated_by_name(b),
    ensures
        forall|a: BackupView, b: BackupView, gone: WallTime, left: WallTime|
            #![trigger removed.contains(a), kept.contains(b), clock::name_stamp(gone), clock::name_stamp(left)]
            removed.contains(a) && kept.contains(b) && gone.valid() && left.valid() && 0
                <= gone.year <= 9999 && 0 <= left.year <= 9999 && a.name == BACKUP_PREFIX@
                + clock::name_stamp(gone) && b.name == BACKUP_PREFIX@ + clock::name_stamp(left)
                ==> gone.seconds() <= left.seconds(),
{
    broadcast use vstd::seq_lib::group_to_multiset_ensures;

    assert forall|a: BackupView, b: BackupView, gone: WallTime, left: WallTime|
        #![trigger removed.contains(a), kept.contains(b), clock::name_stamp(gone), clock::name_stamp(left)]
        removed.contains(a) && kept.contains(b) && gone.valid() && left.valid() && 0 <= gone.year
            <= 9999 && 0 <= left.year <= 9999 && a.name == BACKUP_PREFIX@ + clock::name_stamp(gone)
            && b.name == BACKUP_PREFIX@ + clock::name_stamp(left) implies gone.seconds()
        <= left.seconds() by {
        assert(removed.to_multiset().count(a) + kept.count(a) == all.count(a));
        assert(removed.to_multiset().count(b) + kept.count(b) == all.count(b));
        assert(removed.to_multiset().count(a) > 0);
        assert(all.contains(a) && all.contains(b));
        assert(a.time == gone.whole_second());
        assert(b.time == left.whole_second());
        law_cleanup_keeps_newest(all, limit, removed, kept, a, b);
        law_times_are_in_the_order_of_the_calendar(b.time, a.time);
    }
}

proof fn lemma_first_removed_goes_first(
    all: Multiset<BackupView>,
    limit: nat,
    removed: Seq<BackupView>,
    kept: Multiset<BackupView>,
    other: BackupView,
)
    requires
        is_cleanup(all, limit, removed, kept),
        removed.len() > 0,
        all.contains(other),
    ensures
        all.contains(removed[0]),
        !goes_before(other, removed[0]),
{
    broadcast use vstd::seq_lib::group_to_multiset_ensures;

    assert(removed.contains(removed[0]));
    assert(removed.to_multiset().count(other) + kept.count(other) == all.count(other));
    if removed.to_multiset().count(other) > 0 {
        let j = choose|j: int| 0 <= j < removed.len() && removed[j] == other;
        law_removal_order_is_total(other, other, other);
        assert(!goes_before(removed[j], removed[0]));
    } else {
        assert(kept.contains(other));
    }
}

/// The backups and the limit alone determine what a cleanup removes, in which order, and what it
/// keeps.
pub proof fn law_cleanup_is_determined(
    all: Multiset<BackupView>,
    limit: nat,
    removed1: Seq<BackupView>,
    kept1: Multiset<BackupView>,
    removed2: Seq<BackupView>,
    kept2: Multiset<BackupView>,
)
    requires
        is_cleanup(all, limit, removed1, kept1),
        is_cleanup(all, limit, removed2, kept2),
    ensures
        removed1 == removed2,
        kept1 == kept2,
    decreases removed1.len(),
{
    broadcast use vstd::seq_lib::group_to_multiset_ensures;

    assert(removed1.to_multiset().len() + kept1.len() == all.len());
    assert(removed2.to_multiset().len() + kept2.len() == all.len());
    assert(removed1.len() == removed2.len());
    if removed1.len() == 0 {
        assert(removed1 =~= removed2);
        assert(kept1 =~= all) by {
            assert(removed1.to_multiset().add(kept1) =~= kept1);
        }
        assert(kept2 =~= all) by {
            assert(removed2.to_multiset().add(kept2) =~= kept2);
        }
    } else {
        let first = removed1[0];
        lemma_first_removed_goes_first(all, limit, removed1, kept1, removed1[0]);
        lemma_first_removed_goes_first(all, limit, removed2, kept2, removed1[0]);
        lemma_first_removed_goes_first(all, limit, removed1, kept1, removed2[0]);
        law_removal_order_is_total(removed1[0], removed2[0], removed1[0]);
        assert(removed2[0] == first);
        let rest = all.remove(first);
        lemma_cleanup_of_rest(all, limit, removed1, kept1);
        lemma_cleanup_of_rest(all, limit, removed2, kept2);
        law_cleanup_is_determined(
            rest,
            limit,
            removed1.drop_first(),
            kept1,
            removed2.drop_first(),
            kept2,
        );
        assert(removed1 =~= seq![first] + removed1.drop_first());
        assert(removed2 =~= seq![first] + removed2.drop_first());
    }
}

proof fn lemma_cleanup_of_rest(
    all: Multiset<BackupView>,
    limit: nat,
    removed: Seq<BackupView>,
    kept: Multiset<BackupView>,
)
    requires
        is_cleanup(all, limit, removed, kept),
        removed.len() > 0,
    ensures
        is_cleanup(all.remove(removed[0]), limit, removed.drop_first(), kept),
{
    broadcast use vstd::seq_lib::group_to_multiset_ensures;

    let rest = removed.drop_first();
    assert(rest =~= removed.remove(0));
    assert(removed.contains(removed[0]));
    assert(removed.to_multiset().count(removed[0]) > 0);
    assert(rest.to_multiset().add(kept) =~= all.remove(removed[0]));
    assert(removed.to_multiset().len() + kept.len() == all.len());
    assert(all.contains(removed[0]));
    assert(all.remove(removed[0]).len() == all.len() - 1);
    assert forall|i: int, j: int| 0 <= i < j < rest.len() implies !goes_before(
        #[trigger] rest[j],
        #[trigger] rest[i],
    ) by {
        assert(rest[j] == removed[j + 1]);
        assert(rest[i] == removed[i + 1]);
    }
    assert forall|i: int, b: BackupView|
        0 <= i < rest.len() && #[trigger] kept.contains(b) implies !goes_before(
        b,
        #[trigger] rest[i],
    ) by {
        assert(rest[i] == removed[i + 1]);
    }
}

/// A cleanup leaves no more backups than the limit, and removes none where there are no more.
pub proof fn law_cleanup_meets_limit(
    all: Multiset<BackupView>,
    limit: nat,
    removed: Seq<BackupView>,
    kept: Multiset<BackupView>,
)
    requires
        is_cleanup(all, limit, removed, kept),
    ensures
        kept.len() <= limit,
        removed.len() + kept.len() == all.len(),
        all.len() <= limit <==> removed.len() == 0,
        all.len() >= limit ==> kept.len() == limit,
        forall|b: BackupView|
            #![trigger all.count(b)]
            removed.to_multiset().count(b) + kept.count(b) == all.count(b),
{
    broadcast use vstd::seq_lib::group_to_multiset_ensures;

    assert(removed.to_multiset().len() + kept.len() == all.len());
}

/// A cleanup keeps the newest backups: none that it removes is newer than one that it keeps.
pub proof fn law_cleanup_keeps_newest(
    all: Multiset<BackupView>,
    limit: nat,
    removed: Seq<BackupView>,
    kept: Multiset<BackupView>,
    gone: BackupView,
    left: BackupView,
)
    requires
        is_cleanup(all, limit, removed, kept),
        removed.contains(gone),
        kept.contains(left),
    ensures
        !time_before(left.time, gone.time),
{
    let i = choose|i: int| 0 <= i < removed.len() && removed[i] == gone;
    assert(!goes_before(left, removed[i]));
}

/// What a cleanup removes is no later, by the calendar and the clock, than what it keeps, and what
/// it removes first is no later than what it removes next.
pub proof fn law_cleanup_removes_the_earliest(
    all: Multiset<BackupView>,
    limit: nat,
    removed: Seq<BackupView>,
    kept: Multiset<BackupView>,
    i: int,
    other: BackupView,
)
    requires
        is_cleanup(all, limit, removed, kept),
        0 <= i < removed.len(),
        removed.skip(i).contains(other) || kept.contains(other),
        removed[i].time.valid(),
        other.time.valid(),
    ensures
        removed[i].time.seconds() <= other.time.seconds(),
        removed[i].time == other.time ==> !text_before(removed[i].name, other.name),
{
    law_oldest_backups_go_first(other, removed[i]);
    law_removal_order_is_total(removed[i], removed[i], removed[i]);
    if removed.skip(i).contains(other) {
        let j = choose|j: int| 0 <= j < removed.skip(i).len() && removed.skip(i)[j] == other;
        assert(removed[i + j] == other);
        assert(!goes_before(other, removed[i]));
    } else {
        assert(!goes_before(other, removed[i]));
    }
    if removed[i].time.seconds() > other.time.seconds() {
        assert(goes_before(other, removed[i]));
    }
}

/// A cleanup of what a cleanup has left, down to the same limit, removes nothing.
pub proof fn law_second_cleanup_removes_nothing(
    all: Multiset<BackupView>,
    limit: nat,
    removed: Seq<BackupView>,
    kept: Multiset<BackupView>,
    removed_again: Seq<BackupView>,
    kept_again: Multiset<BackupView>,
)
    requires
        is_cleanup(all, limit, removed, kept),
        is_cleanup(kept, limit, removed_again, kept_again),
    ensures
        removed_again.len() == 0,
        kept_again == kept,
{
    broadcast use vstd::seq_lib::group_to_multiset_ensures;

    law_cleanup_meets_limit(all, limit, removed, kept);
    law_cleanup_meets_limit(kept, limit, removed_again, kept_again);
    assert(kept_again =~= kept);
}

/// A cleanup down to one limit and then to a lower one does what a cleanup down to the lower one
/// does at once.
pub proof fn law_cleanups_add_up(
    all: Multiset<BackupView>,
    limit: nat,
    removed: Seq<BackupView>,
    kept: Multiset<BackupView>,
    lower: nat,
    removed_next: Seq<BackupView>,
    kept_next: Multiset<BackupView>,
)
    requires
        lower <= limit,
        is_cleanup(all, limit, removed, kept),
        is_cleanup(kept, lower, removed_next, kept_next),
    ensures
        is_cleanup(all, lower, removed + removed_next, kept_next),
{
    broadcast use vstd::seq_lib::group_to_multiset_ensures;

    let both = removed + removed_next;
    vstd::seq_lib::lemma_multiset_commutative(removed, removed_next);
    assert(both.to_multiset().add(kept_next) =~= all);
    assert forall|b: BackupView| #[trigger] kept_next.contains(b) implies kept.contains(b) by {
        assert(removed_next.to_multiset().count(b) + kept_next.count(b) == kept.count(b));
    }
    assert forall|i: int| 0 <= i < removed_next.len() implies kept.contains(
        #[trigger] removed_next[i],
    ) by {
        let b = removed_next[i];
        assert(removed_next.contains(b));
        assert(removed_next.to_multiset().count(b) + kept_next.count(b) == kept.count(b));
    }
    assert forall|i: int, j: int| 0 <= i < j < both.len() implies !goes_before(
        #[trigger] both[j],
        #[trigger] both[i],
    ) by {
        if i < removed.len() <= j {
            assert(kept.contains(removed_next[j - removed.len()]));
        }
    }
}

/// The backup that an entry is, if it is one, as a collection.
spec fn backup_bag(entry: DirEntry) -> Multiset<BackupView> {
    match entry_backup(entry) {
        Some(backup) => Multiset::singleton(backup),
        None => Multiset::empty(),
    }
}

proof fn lemma_backups_without_an_entry(entries: Seq<DirEntry>, i: int)
    requires
        0 <= i < entries.len(),
    ensures
        backups(entries).to_multiset() == backups(entries.remove(i)).to_multiset().add(
            backup_bag(entries[i]),
        ),
    decreases entries.len(),
{
    broadcast use vstd::seq_lib::group_to_multiset_ensures;

    let front = entries.drop_last();
    let others = backups(front).to_multiset();
    let last = backup_bag(entries.last());
    assert(backups(entries).to_multiset() =~= others.add(last));
    if i == entries.len() - 1 {
        assert(entries.remove(i) =~= front);
    } else {
        lemma_backups_without_an_entry(front, i);
        let rest = entries.remove(i);
        assert(rest.drop_last() =~= front.remove(i));
        assert(rest.last() == entries.last());
        assert(backups(rest).to_multiset() =~= backups(front.remove(i)).to_multiset().add(last));
        assert(backups(entries).to_multiset() =~= backups(rest).to_multiset().add(
            backup_bag(entries[i]),
        ));
    }
}

/// The order in which a directory is listed plays no part: the same entries hold the same backups.
pub proof fn law_listing_order_plays_no_part(a: Seq<DirEntry>, b: Seq<DirEntry>)
    requires
        a.to_multiset() == b.to_multiset(),
    ensures
        backups(a).to_multiset() == backups(b).to_multiset(),
    decreases a.len(),
{
    broadcast use vstd::seq_lib::group_to_multiset_ensures;

    assert(a.to_multiset().len() == a.len());
    assert(b.to_multiset().len() == b.len());
    if a.len() > 0 {
        let entry = a.last();
        assert(a.contains(entry));
        assert(b.to_multiset().count(entry) > 0);
        assert(b.contains(entry));
        let i = choose|i: int| 0 <= i < b.len() && b[i] == entry;
        let n = a.len() - 1;
        assert(a.remove(n).to_multiset() =~= b.remove(i).to_multiset());
        law_listing_order_plays_no_part(a.remove(n), b.remove(i));
        lemma_backups_without_an_entry(a, n);
        lemma_backups_without_an_entry(b, i);
    } else {
        assert(a =~= b);
    }
}

proof fn lemma_backups_are_entries(entries: Seq<DirEntry>, b: BackupView)
    requires
        backups(entries).contains(b),
    ensures
        exists|k: int| 0 <= k < entries.len() && entry_backup(#[trigger] entries[k]) == Some(b),
    decreases entries.len(),
{
    let i = choose|i: int| 0 <= i < backups(entries).len() && backups(entries)[i] == b;
    let others = backups(entries.drop_last());
    if i < others.len() {
        assert(others[i] == b);
        lemma_backups_are_entries(entries.drop_last(), b);
        let k = choose|k: int|
            0 <= k < entries.drop_last().len() && entry_backup(
                #[trigger] entries.drop_last()[k],
            ) == Some(b);
        assert(entries[k] == entries.drop_last()[k]);
    } else {
        assert(entries[entries.len() - 1] == entries.last());
    }
}

/// A cleanup touches only backups: whatever it removes is a directory of the listing whose name
/// is that of a backup.
pub proof fn law_cleanup_spares_everything_else(
    entries: Seq<DirEntry>,
    limit: nat,
    removed: Seq<BackupView>,
    kept: Multiset<BackupView>,
    gone: BackupView,
)
    requires
        is_cleanup(backups(entries).to_multiset(), limit, removed, kept),
        removed.contains(gone),
    ensures
        exists|k: int|
            0 <= k < entries.len() && (#[trigger] entries[k]).is_dir && entries[k].name is Some
                && entries[k].name->0@ == gone.name && name_time(gone.name) == Some(gone.time),
{
    broadcast use vstd::seq_lib::group_to_multiset_ensures;

    let all = backups(entries).to_multiset();
    assert(removed.to_multiset().count(gone) > 0);
    assert(removed.to_multiset().count(gone) + kept.count(gone) == all.count(gone));
    assert(backups(entries).contains(gone));
    lemma_backups_are_entries(entries, gone);
    let k = choose|k: int|
        0 <= k < entries.len() && entry_backup(#[trigger] entries[k]) == Some(gone);
    assert(entries[k].is_dir);
}

} // verus!
