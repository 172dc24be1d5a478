//! Lengths of time as people read them.

use vstd::prelude::*;

use crate::text;
use crate::text::{decimal_string, join};

verus! {

pub const SECONDS_PER_DAY: u64 = 86400;

pub const SECONDS_PER_HOUR: u64 = 3600;

pub const SECONDS_PER_MINUTE: u64 = 60;

/// A unit's part of a duration: the amount and the unit's letter, or nothing for an amount
/// of zero.
pub open spec fn unit_part(amount: nat, unit: char) -> Seq<Seq<char>> {
    if amount > 0 {
        seq![text::decimal(amount).push(unit)]
    } else {
        Seq::empty()
    }
}

/// The days, hours and minutes of a duration that are not zero.
pub open spec fn coarse_parts(seconds: nat) -> Seq<Seq<char>> {
    unit_part(seconds / 86400, 'd') + unit_part(seconds % 86400 / 3600, 'h') + unit_part(
        seconds % 3600 / 60,
        'm',
    )
}

/// The parts of a duration that are shown. The seconds are shown where they are not zero, or
/// where there is nothing else to show.
pub open spec fn duration_parts(seconds: nat) -> Seq<Seq<char>> {
    if seconds % 60 > 0 || coarse_parts(seconds).len() == 0 {
        coarse_parts(seconds).push(text::decimal(seconds % 60).push('s'))
    } else {
        coarse_parts(seconds)
    }
}

/// A duration as it is shown, such as `1d 2h 3m 4s`.
pub open spec fn duration_text(seconds: nat) -> Seq<char> {
    text::joined(duration_parts(seconds), seq![' '])
}

/// How many seconds a letter stands for, where it is the letter of a unit.
pub open spec fn unit_seconds(unit: char) -> nat {
    if unit == 'd' {
        86400
    } else if unit == 'h' {
        3600
    } else if unit == 'm' {
        60
    } else if unit == 's' {
        1
    } else {
        0
    }
}

/// Reads a shown duration from left to right: a digit extends the amount, a letter or a space
/// counts the amount and starts the next one.
pub open spec fn tally(shown: Seq<char>, amount: nat) -> nat
    decreases shown.len(),
{
    if shown.len() == 0 {
        0
    } else if '0' <= shown[0] <= '9' {
        tally(shown.drop_first(), amount * 10 + (shown[0] as nat - '0' as nat) as nat)
    } else {
        amount * unit_seconds(shown[0]) + tally(shown.drop_first(), 0)
    }
}

proof fn lemma_tally_decimal(n: nat, rest: Seq<char>)
    ensures
        tally(text::decimal(n) + rest, 0) == tally(rest, n),
    decreases n,
{
    let last = text::digit((n % 10) as int);
    if n < 10 {
        assert((text::decimal(n) + rest).drop_first() =~= rest);
    } else {
        let tail = seq![last] + rest;
        assert(text::decimal(n) + rest =~= text::decimal(n / 10) + tail);
        lemma_tally_decimal(n / 10, tail);
        assert(tail.drop_first() =~= rest);
        assert(n / 10 * 10 + n % 10 == n);
    }
}

proof fn lemma_tally_part(n: nat, unit: char, rest: Seq<char>)
    requires
        !('0' <= unit <= '9'),
    ensures
        tally(text::decimal(n).push(unit) + rest, 0) == n * unit_seconds(unit) + tally(rest, 0),
{
    let tail = seq![unit] + rest;
    assert(text::decimal(n).push(unit) + rest =~= text::decimal(n) + tail);
    lemma_tally_decimal(n, tail);
    assert(tail.drop_first() =~= rest);
}

spec fn amount_text(amount: (nat, char)) -> Seq<char> {
    text::decimal(amount.0).push(amount.1)
}

spec fn amounts_worth(amounts: Seq<(nat, char)>) -> nat
    decreases amounts.len(),
{
    if amounts.len() == 0 {
        0
    } else {
        amounts_worth(amounts.drop_last()) + amounts.last().0 * unit_seconds(amounts.last().1)
    }
}

proof fn lemma_tally_joined(amounts: Seq<(nat, char)>, rest: Seq<char>)
    requires
        forall|i: int| 0 <= i < amounts.len() ==> !('0' <= (#[trigger] amounts[i]).1 <= '9'),
    ensures
        tally(
            text::joined(amounts.map_values(|a: (nat, char)| amount_text(a)), seq![' ']) + rest,
            0,
        ) == amounts_worth(amounts) + tally(rest, 0),
    decreases amounts.len(),
{
    let texts = amounts.map_values(|a: (nat, char)| amount_text(a));
    let shown = text::joined(texts, seq![' ']);
    if amounts.len() == 0 {
        assert(shown + rest =~= rest);
    } else {
        let last = amounts.last();
        lemma_tally_part(last.0, last.1, rest);
        if amounts.len() == 1 {
            assert(shown == amount_text(last));
            assert(amounts.drop_last().len() == 0);
            assert(amounts_worth(amounts.drop_last()) == 0);
        } else {
            let spaced = seq![' '] + (amount_text(last) + rest);
            assert(texts.drop_last() =~= amounts.drop_last().map_values(
                |a: (nat, char)| amount_text(a),
            ));
            assert(shown + rest =~= text::joined(texts.drop_last(), seq![' ']) + spaced);
            lemma_tally_joined(amounts.drop_last(), spaced);
            assert(spaced.drop_first() =~= amount_text(last) + rest);
            assert(tally(spaced, 0) == tally(amount_text(last) + rest, 0));
        }
    }
}

spec fn unit_amount(amount: nat, unit: char) -> Seq<(nat, char)> {
    if amount > 0 {
        seq![(amount, unit)]
    } else {
        Seq::empty()
    }
}

proof fn lemma_worth_append(amounts: Seq<(nat, char)>, amount: nat, unit: char)
    ensures
        amounts_worth(amounts + unit_amount(amount, unit)) == amounts_worth(amounts) + amount
            * unit_seconds(unit),
{
    if amount > 0 {
        assert((amounts + unit_amount(amount, unit)).drop_last() =~= amounts);
    } else {
        assert(amounts + unit_amount(amount, unit) =~= amounts);
        assert(amount * unit_seconds(unit) == 0) by (nonlinear_arith)
            requires
                amount == 0,
        ;
    }
}

/// What is shown of a duration, read back, is the duration: no part is lost or counted twice.
pub proof fn law_shown_duration_reads_back(seconds: nat)
    ensures
        tally(duration_text(seconds), 0) == seconds,
{
    let none = Seq::<(nat, char)>::empty();
    let days = seconds / 86400;
    let hours = seconds % 86400 / 3600;
    let minutes = seconds % 3600 / 60;
    let secs = seconds % 60;
    let coarse = none + unit_amount(days, 'd') + unit_amount(hours, 'h') + unit_amount(
        minutes,
        'm',
    );
    lemma_worth_append(none, days, 'd');
    lemma_worth_append(none + unit_amount(days, 'd'), hours, 'h');
    lemma_worth_append(none + unit_amount(days, 'd') + unit_amount(hours, 'h'), minutes, 'm');
    assert(days * 86400 + hours * 3600 + minutes * 60 + secs == seconds);
    assert(coarse.map_values(|a: (nat, char)| amount_text(a)) =~= coarse_parts(seconds));
    let all = if secs > 0 || coarse.len() == 0 {
        coarse.push((secs, 's'))
    } else {
        coarse
    };
    assert(all.map_values(|a: (nat, char)| amount_text(a)) =~= duration_parts(seconds));
    assert(coarse.push((secs, 's')).drop_last() =~= coarse);
    lemma_tally_joined(all, Seq::empty());
    assert(duration_text(seconds) + Seq::<char>::empty() =~= duration_text(seconds));
}

/// What is shown of a duration after the amount and the letter of its largest unit: nothing, or a
/// space and the rest of the duration.
pub open spec fn shown_rest(rest: nat) -> Seq<char> {
    if rest == 0 {
        Seq::empty()
    } else {
        seq![' '] + duration_text(rest)
    }
}

/// A duration is shown by its units, largest first: so many days, hours below 24, minutes below 60
/// and seconds below 60, each with its letter, without the units of which there are none and with
/// a space between the others. Nothing at all is shown as no seconds.
pub proof fn law_durations_are_shown_by_their_units(amount: nat, rest: nat)
    ensures
        amount < 60 ==> duration_text(amount) == text::decimal(amount) + seq!['s'],
        0 < amount < 60 && rest < 60 ==> duration_text(amount * 60 + rest) == text::decimal(amount)
            + seq!['m'] + shown_rest(rest),
        0 < amount < 24 && rest < 3600 ==> duration_text(amount * 3600 + rest) == text::decimal(
            amount,
        ) + seq!['h'] + shown_rest(rest),
        0 < amount && rest < 86400 ==> duration_text(amount * 86400 + rest) == text::decimal(amount)
            + seq!['d'] + shown_rest(rest),
{
    if amount < 60 {
        assert(coarse_parts(amount) =~= Seq::empty());
        assert(duration_parts(amount) =~= seq![text::decimal(amount).push('s')]);
        assert(duration_text(amount) =~= text::decimal(amount) + seq!['s']);
    }
    if 0 < amount < 60 && rest < 60 {
        lemma_shown_from_minutes(amount, rest);
    }
    if 0 < amount < 24 && rest < 3600 {
        lemma_shown_from_hours(amount, rest);
    }
    if 0 < amount && rest < 86400 {
        lemma_shown_from_days(amount, rest);
    }
}

proof fn lemma_shown_from_minutes(amount: nat, rest: nat)
    requires
        0 < amount < 60,
        rest < 60,
    ensures
        duration_text(amount * 60 + rest) == text::decimal(amount) + seq!['m'] + shown_rest(rest),
{
    let seconds = amount * 60 + rest;
    assert(seconds % 60 == rest);
    assert(coarse_parts(rest) =~= Seq::empty());
    lemma_shown_after(seconds, amount, 'm', rest);
}

proof fn lemma_shown_from_hours(amount: nat, rest: nat)
    requires
        0 < amount < 24,
        rest < 3600,
    ensures
        duration_text(amount * 3600 + rest) == text::decimal(amount) + seq!['h'] + shown_rest(rest),
{
    let seconds = amount * 3600 + rest;
    assert(seconds % 86400 == seconds);
    assert(seconds / 3600 == amount);
    assert(seconds % 3600 == rest);
    assert(seconds % 60 == rest % 60) by {
        assert(seconds == 60 * (60 * amount) + rest);
    }
    lemma_shown_after(seconds, amount, 'h', rest);
}

proof fn lemma_shown_from_days(amount: nat, rest: nat)
    requires
        0 < amount,
        rest < 86400,
    ensures
        duration_text(amount * 86400 + rest) == text::decimal(amount) + seq!['d'] + shown_rest(
            rest,
        ),
{
    let seconds = amount * 86400 + rest;
    assert(seconds / 86400 == amount);
    assert(seconds % 86400 == rest);
    assert(seconds % 3600 == rest % 3600) by {
        assert(seconds == 3600 * (24 * amount) + rest);
    }
    assert(seconds % 60 == rest % 60) by {
        assert(seconds == 60 * (1440 * amount) + rest);
    }
    lemma_shown_after(seconds, amount, 'd', rest);
}

proof fn lemma_shown_after(seconds: nat, amount: nat, unit: char, rest: nat)
    requires
        coarse_parts(seconds) =~= seq![text::decimal(amount).push(unit)] + coarse_parts(rest),
        seconds % 60 == rest % 60,
    ensures
        duration_text(seconds) == text::decimal(amount) + seq![unit] + shown_rest(rest),
{
    let first = seq![text::decimal(amount).push(unit)];
    if rest == 0 {
        assert(coarse_parts(rest) =~= Seq::empty());
        assert(duration_parts(seconds) =~= first);
        text::law_parts_are_joined_with_the_separator(first, first, first[0], seq![' ']);
        assert(duration_text(seconds) =~= text::decimal(amount) + seq![unit] + shown_rest(rest));
    } else {
        lemma_some_part_is_shown(rest);
        assert(duration_parts(seconds) =~= first + duration_parts(rest));
        text::law_parts_are_joined_with_the_separator(
            first,
            duration_parts(rest),
            first[0],
            seq![' '],
        );
        assert(duration_text(seconds) =~= text::decimal(amount) + seq![unit] + shown_rest(rest));
    }
}

proof fn lemma_some_part_is_shown(seconds: nat)
    requires
        seconds > 0,
    ensures
        duration_parts(seconds).len() > 0,
        seconds % 60 == 0 ==> coarse_parts(seconds).len() > 0,
{
    if seconds % 60 == 0 && seconds / 86400 == 0 && seconds % 86400 / 3600 == 0 {
        assert(seconds % 3600 / 60 > 0);
    }
}

/// Two durations that look the same are the same.
pub proof fn law_shown_durations_differ(a: nat, b: nat)
    requires
        duration_text(a) == duration_text(b),
    ensures
        a == b,
{
    law_shown_duration_reads_back(a);
    law_shown_duration_reads_back(b);
}

fn push_part(parts: &mut Vec<String>, amount: u64, unit: &str)
    ensures
        final(parts).deep_view() == old(parts).deep_view().push(
            text::decimal(amount as nat) + unit@,
        ),
{
    let mut part = decimal_string(amount);
    part.append(unit);
    parts.push(part);
    proof {
        assert(parts.deep_view() =~= old(parts).deep_view().push(
            text::decimal(amount as nat) + unit@,
        ));
    }
}

/// Shows a number of seconds as days, hours, minutes and seconds.
pub fn format_duration_for_display(seconds: u64) -> (r: String)
    ensures
        r@ == duration_text(seconds as nat),
{
    let days: u64 = seconds / SECONDS_PER_DAY;
    let hours: u64 = (seconds % SECONDS_PER_DAY) / SECONDS_PER_HOUR;
    let minutes: u64 = (seconds % SECONDS_PER_HOUR) / SECONDS_PER_MINUTE;
    let secs: u64 = seconds % SECONDS_PER_MINUTE;

    proof {
        reveal_strlit("d");
        reveal_strlit("h");
        reveal_strlit("m");
        reveal_strlit("s");
        reveal_strlit(" ");
        assert("d"@ =~= seq!['d']);
        assert("h"@ =~= seq!['h']);
        assert("m"@ =~= seq!['m']);
        assert("s"@ =~= seq!['s']);
        assert(" "@ =~= seq![' ']);
        assert forall|n: nat, c: char|
            #![trigger text::decimal(n).push(c)]
            text::decimal(n) + seq![c] == text::decimal(n).push(c) by {
            assert(text::decimal(n) + seq![c] =~= text::decimal(n).push(c));
        }
    }

    let mut parts: Vec<String> = Vec::new();
    let ghost none = Seq::<Seq<char>>::empty();
    proof {
        assert(parts.deep_view() =~= none);
    }
    if days > 0 {
        push_part(&mut parts, days, "d");
    }
    proof {
        assert(parts.deep_view() =~= unit_part(days as nat, 'd'));
    }
    if hours > 0 {
        push_part(&mut parts, hours, "h");
    }
    proof {
        assert(parts.deep_view() =~= unit_part(days as nat, 'd') + unit_part(hours as nat, 'h'));
    }
    if minutes > 0 {
        push_part(&mut parts, minutes, "m");
    }
    proof {
        assert(parts.deep_view() =~= coarse_parts(seconds as nat));
    }
    if secs > 0 || parts.len() == 0 {
        push_part(&mut parts, secs, "s");
    }
    proof {
        assert(parts.deep_view() =~= duration_parts(seconds as nat));
    }
    join(&parts, " ")
}

} // verus!
