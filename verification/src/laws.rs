//! Properties of the counter that hold across its operations.

use vstd::prelude::*;
use vstd::arithmetic::div_mod::{
    lemma_add_mod_noop, lemma_mod_add_multiples_vanish, lemma_mod_bound, lemma_mod_self_0,
    lemma_small_mod, lemma_sub_mod_noop,
};
use crate::counter::{
    as_signed, count_down, count_up, decs, diff_fits, incs, no_report, report_text, signed_diff,
    Change, CounterView, DebugCounter, Report,
};
use crate::decimal::{
    int_text, is_numeral, lemma_int_text_value, lemma_nat_text_value, nat_text, numeral_value,
    signed_numeral_value,
};

verus! {

/// The number of values a `usize` can hold.
pub open spec fn word() -> int {
    usize::MAX as int + 1
}

/// Closing a connection just opened leaves the active count where it was, and
/// counts the connection once as opened and once as closed.
pub proof fn lemma_dec_undoes_inc(v: CounterView)
    ensures
        v.after_inc().after_dec().active == v.active,
        v.after_inc().after_dec().open == count_up(v.open),
        v.after_inc().after_dec().close == count_up(v.close),
{
}

/// Opening a connection just after one closed leaves the active count where it was.
pub proof fn lemma_inc_undoes_dec(v: CounterView)
    ensures
        v.after_dec().after_inc().active == v.active,
        v.after_dec().after_inc().open == count_up(v.open),
        v.after_dec().after_inc().close == count_up(v.close),
{
}

/// A report taken right after another one finds nothing opened or closed, and
/// changes nothing.
pub proof fn lemma_report_twice(v: CounterView)
    ensures
        v.after_report().after_report() == v.after_report(),
        v.after_report().open == 0,
        v.after_report().close == 0,
        diff_fits(v.after_report().open, v.after_report().close),
        signed_diff(v.after_report().open, v.after_report().close) == 0,
{
}

/// Every change that is not a report counts as an opening or as a closing.
pub proof fn lemma_incs_plus_decs(changes: Seq<Change>)
    ensures
        incs(changes) + decs(changes) <= changes.len(),
        no_report(changes) ==> incs(changes) + decs(changes) == changes.len(),
    decreases changes.len(),
{
    if changes.len() > 0 {
        let rest = changes.drop_last();
        lemma_incs_plus_decs(rest);
        if no_report(changes) {
            assert forall|i: int| 0 <= i < rest.len() implies !(#[trigger] rest[i] is Report) by {
                assert(rest[i] == changes[i]);
            }
            assert(!(changes[changes.len() - 1] is Report));
        }
    }
}

/// Counting up a value that stands for `x` modulo the word size gives `x + 1` modulo it.
pub proof fn lemma_count_up_mod(y: usize, x: int)
    requires
        y as int == x % word(),
    ensures
        count_up(y) as int == (x + 1) % word(),
{
    lemma_add_mod_noop(x, 1, word());
    lemma_small_mod(1, word() as nat);
    lemma_mod_bound(x, word());
    if y == usize::MAX {
        lemma_mod_self_0(word());
    } else {
        lemma_small_mod((y + 1) as nat, word() as nat);
    }
}

/// Counting down a value that stands for `x` modulo the word size gives `x - 1` modulo it.
pub proof fn lemma_count_down_mod(y: usize, x: int)
    requires
        y as int == x % word(),
    ensures
        count_down(y) as int == (x - 1) % word(),
{
    lemma_sub_mod_noop(x, 1, word());
    lemma_small_mod(1, word() as nat);
    lemma_mod_bound(x, word());
    if y == 0 {
        lemma_mod_add_multiples_vanish(-1, word());
        lemma_small_mod((word() - 1) as nat, word() as nat);
    } else {
        lemma_small_mod((y - 1) as nat, word() as nat);
    }
}

/// After any changes, reports among them or not and however many: the active
/// count has moved by the openings minus the closings, modulo the word size.
/// From a new counter, it is the openings minus the closings.
pub proof fn lemma_active_tracks_net(v: CounterView, changes: Seq<Change>)
    ensures
        v.after_all(changes).active as int == (v.active as int + incs(changes) - decs(changes))
            % word(),
    decreases changes.len(),
{
    if changes.len() == 0 {
        lemma_small_mod(v.active as nat, word() as nat);
    } else {
        let rest = changes.drop_last();
        lemma_active_tracks_net(v, rest);
        let t = v.after_all(rest);
        let x = v.active as int + incs(rest) - decs(rest);
        match changes.last() {
            Change::Inc => lemma_count_up_mod(t.active, x),
            Change::Dec => lemma_count_down_mod(t.active, x),
            Change::Report => {},
        }
    }
}

/// From a state with nothing opened or closed (a new counter, or one just
/// reported), after any changes without a report: the opened and closed counts
/// are the numbers of openings and closings, modulo the word size.
pub proof fn lemma_open_close_count(v: CounterView, changes: Seq<Change>)
    requires
        v.open == 0,
        v.close == 0,
        no_report(changes),
    ensures
        v.after_all(changes).open as int == incs(changes) as int % word(),
        v.after_all(changes).close as int == decs(changes) as int % word(),
    decreases changes.len(),
{
    if changes.len() == 0 {
        lemma_small_mod(0, word() as nat);
    } else {
        let rest = changes.drop_last();
        assert forall|i: int| 0 <= i < rest.len() implies !(#[trigger] rest[i] is Report) by {
            assert(rest[i] == changes[i]);
        }
        lemma_open_close_count(v, rest);
        let t = v.after_all(rest);
        assert(!(changes[changes.len() - 1] is Report));
        match changes.last() {
            Change::Inc => lemma_count_up_mod(t.open, incs(rest) as int),
            Change::Dec => lemma_count_up_mod(t.close, decs(rest) as int),
            Change::Report => {},
        }
    }
}

/// Between two reports, however many changes come: the active count the second
/// report reads is the active count the first one read, plus what the second
/// reads as opened, minus what it reads as closed, each wrapping on overflow.
pub proof fn lemma_report_accounts_for_active(v: CounterView, changes: Seq<Change>)
    requires
        v.open == 0,
        v.close == 0,
        no_report(changes),
    ensures
        v.after_all(changes).active as int == (v.active as int + v.after_all(changes).open
            - v.after_all(changes).close) % word(),
{
    lemma_active_tracks_net(v, changes);
    lemma_open_close_count(v, changes);
    let i = incs(changes) as int;
    let d = decs(changes) as int;
    let a = v.active as int;
    lemma_small_mod(v.active as nat, word() as nat);
    // (a + i - d) % w == ((a + i) % w - d % w) % w == ((a % w + i % w) % w - d % w) % w
    lemma_sub_mod_noop(a + i, d, word());
    lemma_add_mod_noop(a, i, word());
    lemma_mod_bound(a + i % word(), word());
    lemma_sub_mod_noop(a + i % word(), d, word());
    lemma_add_mod_noop(a, i % word(), word());
    lemma_mod_bound(i, word());
    lemma_small_mod((i % word()) as nat, word() as nat);
    lemma_mod_bound(d, word());
    lemma_small_mod((d % word()) as nat, word() as nat);
    lemma_sub_mod_noop(a + i % word(), d % word(), word());
}

/// From a state with nothing opened or closed, after fewer than `isize::MAX`
/// changes without a report: the opened and closed counts are exactly the
/// numbers of openings and closings, and the difference the next report gives
/// is the net number of connections opened.
pub proof fn lemma_counts_since_report(v: CounterView, changes: Seq<Change>)
    requires
        v.open == 0,
        v.close == 0,
        no_report(changes),
        changes.len() <= isize::MAX,
    ensures
        v.after_all(changes).open == incs(changes),
        v.after_all(changes).close == decs(changes),
        diff_fits(v.after_all(changes).open, v.after_all(changes).close),
        signed_diff(v.after_all(changes).open, v.after_all(changes).close) == incs(changes) - decs(
            changes,
        ),
{
    lemma_incs_plus_decs(changes);
    lemma_open_close_count(v, changes);
    lemma_small_mod(incs(changes), word() as nat);
    lemma_small_mod(decs(changes), word() as nat);
}

/// The report the next tick takes carries the counts the counter holds, and
/// the difference of opened and closed read as `isize` values.
pub proof fn lemma_next_report_counts(c: DebugCounter)
    ensures
        c.next_report().active == c@.active,
        c.next_report().open == c@.open,
        c.next_report().close == c@.close,
        diff_fits(c@.open, c@.close) ==> c.next_report().diff == signed_diff(c@.open, c@.close),
{
}

/// Reading a `usize` as an `isize` keeps its bits: the value lies in the `isize`
/// range and differs from the `usize` by a multiple of the word size. Values up
/// to `isize::MAX` read unchanged, so the difference of two such counts is their
/// plain difference.
pub proof fn lemma_as_signed(x: usize, y: usize)
    ensures
        isize::MIN <= as_signed(x) <= isize::MAX,
        as_signed(x) == x || as_signed(x) == x - word(),
        x <= isize::MAX ==> as_signed(x) == x,
        x <= isize::MAX && y <= isize::MAX ==> signed_diff(x, y) == x - y && diff_fits(x, y),
{
}

/// The report line is the prefix, a space, the time, then `diff: `, `active: `,
/// `open: ` and `close: ` each followed by the decimal numeral of that value:
/// it starts with the whole prefix, and its last field read in base 10 gives
/// back the closed count, as the other fields give back theirs.
pub proof fn lemma_report_line_fields(p: Seq<char>, t: Seq<char>, r: Report)
    ensures
        report_text(p, t, r) == p + seq![' '] + t + seq![' ', 'd', 'i', 'f', 'f', ':', ' ']
            + int_text(r.diff as int) + seq![' ', 'a', 'c', 't', 'i', 'v', 'e', ':', ' '] + nat_text(
            r.active as nat,
        ) + seq![' ', 'o', 'p', 'e', 'n', ':', ' '] + nat_text(r.open as nat) + seq![
            ' ',
            'c',
            'l',
            'o',
            's',
            'e',
            ':',
            ' ',
        ] + nat_text(r.close as nat),
        report_text(p, t, r).subrange(0, p.len() + 1int) == p + seq![' '],
        report_text(p, t, r).subrange(
            report_text(p, t, r).len() - nat_text(r.close as nat).len(),
            report_text(p, t, r).len() as int,
        ) == nat_text(r.close as nat),
        signed_numeral_value(int_text(r.diff as int)) == r.diff,
        is_numeral(nat_text(r.active as nat)) && numeral_value(nat_text(r.active as nat)) == r.active,
        is_numeral(nat_text(r.open as nat)) && numeral_value(nat_text(r.open as nat)) == r.open,
        is_numeral(nat_text(r.close as nat)) && numeral_value(nat_text(r.close as nat)) == r.close,
{
    lemma_int_text_value(r.diff as int);
    lemma_nat_text_value(r.active as nat);
    lemma_nat_text_value(r.open as nat);
    lemma_nat_text_value(r.close as nat);
    let s = report_text(p, t, r);
    let head = p + seq![' '];
    assert(s.subrange(0, p.len() + 1int) =~= head);
    let c = nat_text(r.close as nat);
    assert(s.subrange(s.len() - c.len(), s.len() as int) =~= c);
}

} // verus!
