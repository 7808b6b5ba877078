//! The debug counter: how many connections are active, and how many were
//! opened and closed since the last report.

use vstd::prelude::*;
use crate::clock::{clock_text, label_pattern, label_text, time_label, valid_clock};
use crate::decimal::{int_text, nat_text, push_decimal, push_signed};

verus! {

/// The counts that a `DebugCounter` holds.
pub struct CounterView {
    pub active: usize,
    pub open: usize,
    pub close: usize,
}

/// One report of a counter: the counts it read and the signed difference
/// between the connections opened and closed since the previous report.
pub struct Report {
    pub active: usize,
    pub open: usize,
    pub close: usize,
    pub diff: isize,
}

/// Why a tick gave no report line: the clock reading could not be rendered,
/// or the difference of opened and closed connections does not fit in an `isize`.
#[derive(Debug, PartialEq, Eq, Structural)]
pub enum TickError {
    Clock,
    Overflow,
}

/// A change of the counter: a connection opened (`Inc`) or closed (`Dec`), or
/// a report taken (`Report`).
pub enum Change {
    Inc,
    Dec,
    Report,
}

/// `x + 1`, wrapping around to 0 past `usize::MAX`.
pub open spec fn count_up(x: usize) -> usize {
    if x == usize::MAX {
        0
    } else {
        (x + 1) as usize
    }
}

/// `x - 1`, wrapping around to `usize::MAX` below 0.
pub open spec fn count_down(x: usize) -> usize {
    if x == 0 {
        usize::MAX
    } else {
        (x - 1) as usize
    }
}

/// The value of a `usize` read as an `isize` with the same bits.
pub open spec fn as_signed(x: usize) -> int {
    if x <= isize::MAX {
        x as int
    } else {
        x - (usize::MAX + 1)
    }
}

/// The difference that a report computes: opened minus closed, each read as an `isize`.
pub open spec fn signed_diff(open: usize, close: usize) -> int {
    as_signed(open) - as_signed(close)
}

/// Whether that difference fits in an `isize`.
pub open spec fn diff_fits(open: usize, close: usize) -> bool {
    isize::MIN <= signed_diff(open, close) <= isize::MAX
}

impl CounterView {
    pub open spec fn after_inc(self) -> CounterView {
        CounterView { active: count_up(self.active), open: count_up(self.open), close: self.close }
    }

    pub open spec fn after_dec(self) -> CounterView {
        CounterView { active: count_down(self.active), open: self.open, close: count_up(self.close) }
    }

    /// The state after a report: the opened and closed counts start again from 0.
    pub open spec fn after_report(self) -> CounterView {
        CounterView { active: self.active, open: 0, close: 0 }
    }

    pub open spec fn after(self, c: Change) -> CounterView {
        match c {
            Change::Inc => self.after_inc(),
            Change::Dec => self.after_dec(),
            Change::Report => self.after_report(),
        }
    }

    /// The state after a sequence of changes, the first one first.
    pub open spec fn after_all(self, changes: Seq<Change>) -> CounterView
        decreases changes.len(),
    {
        if changes.len() == 0 {
            self
        } else {
            self.after_all(changes.drop_last()).after(changes.last())
        }
    }
}

/// Whether a sequence of changes holds no report.
pub open spec fn no_report(changes: Seq<Change>) -> bool {
    forall|i: int| 0 <= i < changes.len() ==> !(#[trigger] changes[i] is Report)
}

/// How many changes of a sequence open a connection.
pub open spec fn incs(changes: Seq<Change>) -> nat
    decreases changes.len(),
{
    if changes.len() == 0 {
        0
    } else {
        incs(changes.drop_last()) + if changes.last() is Inc { 1nat } else { 0nat }
    }
}

/// How many changes of a sequence close a connection.
pub open spec fn decs(changes: Seq<Change>) -> nat
    decreases changes.len(),
{
    if changes.len() == 0 {
        0
    } else {
        decs(changes.drop_last()) + if changes.last() is Dec { 1nat } else { 0nat }
    }
}

/// The text of a report line: prefix, time, then the difference and the three counts.
pub open spec fn report_text(prefix: Seq<char>, time: Seq<char>, r: Report) -> Seq<char> {
    prefix + seq![' '] + time + seq![' ', 'd', 'i', 'f', 'f', ':', ' '] + int_text(r.diff as int)
        + seq![' ', 'a', 'c', 't', 'i', 'v', 'e', ':', ' '] + nat_text(r.active as nat)
        + seq![' ', 'o', 'p', 'e', 'n', ':', ' '] + nat_text(r.open as nat)
        + seq![' ', 'c', 'l', 'o', 's', 'e', ':', ' '] + nat_text(r.close as nat)
}

/// Counts connections for debugging: how many are active, and how many were
/// opened and closed since the last report.
pub struct DebugCounter {
    prefix: &'static str,
    active: usize,
    open: usize,
    close: usize,
    sleep_ms: u64,
}

impl View for DebugCounter {
    type V = CounterView;

    closed spec fn view(&self) -> CounterView {
        CounterView { active: self.active, open: self.open, close: self.close }
    }
}

impl DebugCounter {
    /// The prefix that starts each report line.
    pub closed spec fn label(&self) -> Seq<char> {
        self.prefix@
    }

    /// The pause between two reports, in milliseconds.
    pub closed spec fn period_ms(&self) -> u64 {
        self.sleep_ms
    }

    /// The report that the next tick takes.
    pub open spec fn next_report(&self) -> Report {
        Report {
            active: self@.active,
            open: self@.open,
            close: self@.close,
            diff: signed_diff(self@.open, self@.close) as isize,
        }
    }

    /// A counter with all counts at 0.
    pub fn new(prefix: &'static str, sleep_ms: u64) -> (this: Self)
        ensures
            this@ == (CounterView { active: 0, open: 0, close: 0 }),
            this.label() == prefix@,
            this.period_ms() == sleep_ms,
    {
        DebugCounter { prefix, active: 0, open: 0, close: 0, sleep_ms }
    }

    /// A connection opened: one more active and one more opened, each wrapping on overflow.
    pub fn inc(&mut self)
        ensures
            final(self)@ == old(self)@.after_inc(),
            final(self).label() == old(self).label(),
            final(self).period_ms() == old(self).period_ms(),
    {
        self.active = self.active.wrapping_add(1);
        self.open = self.open.wrapping_add(1);
    }

    /// A connection closed: one fewer active and one more closed, each wrapping on overflow.
    pub fn dec(&mut self)
        ensures
            final(self)@ == old(self)@.after_dec(),
            final(self).label() == old(self).label(),
            final(self).period_ms() == old(self).period_ms(),
    {
        self.active = self.active.wrapping_sub(1);
        self.close = self.close.wrapping_add(1);
    }

    /// The pause between two reports, in milliseconds.
    pub fn sleep_ms(&self) -> (ms: u64)
        ensures
            ms == self.period_ms(),
    {
        self.sleep_ms
    }

    /// Whether the next report's difference fits in an `isize`.
    pub fn report_fits(&self) -> (b: bool)
        ensures
            b == diff_fits(self@.open, self@.close),
    {
        let a = signed_of(self.open);
        let b = signed_of(self.close);
        if (a >= 0) == (b >= 0) {
            true
        } else if a >= 0 {
            // b < 0: a - b overflows exactly when a > isize::MAX + b
            a <= isize::MAX + b
        } else {
            // a < 0 <= b: a - b underflows exactly when a < isize::MIN + b
            a >= isize::MIN + b
        }
    }

    /// Reads the counts, starts the opened and closed counts again from 0, and
    /// returns the counts read with their difference.
    pub fn take_report(&mut self) -> (r: Report)
        requires
            diff_fits(old(self)@.open, old(self)@.close),
        ensures
            r == old(self).next_report(),
            r.active == old(self)@.active,
            r.open == old(self)@.open,
            r.close == old(self)@.close,
            r.diff == signed_diff(old(self)@.open, old(self)@.close),
            final(self)@ == old(self)@.after_report(),
            final(self).label() == old(self).label(),
            final(self).period_ms() == old(self).period_ms(),
    {
        let active = self.active;
        let open = self.open;
        self.open = 0;
        let close = self.close;
        self.close = 0;
        let diff = signed_of(open) - signed_of(close);
        Report { active, open, close, diff }
    }

    /// One tick of the reporter: takes a report and renders its line.
    pub fn report_line(&mut self, time: &str) -> (line: String)
        requires
            diff_fits(old(self)@.open, old(self)@.close),
        ensures
            line@ == report_text(old(self).label(), time@, old(self).next_report()),
            final(self)@ == old(self)@.after_report(),
            final(self).label() == old(self).label(),
            final(self).period_ms() == old(self).period_ms(),
    {
        let r = self.take_report();
        r.line(self.prefix, time)
    }

    /// One tick of the reporter for the local time of day
    /// `hour:minute:second.nano`: renders the time label, takes a report and
    /// renders its line. Where the clock cannot be rendered, nothing is read
    /// and the counter is unchanged; where the difference does not fit, the
    /// opened and closed counts have already been taken, and no line comes out.
    pub fn tick(&mut self, hour: u32, minute: u32, second: u32, nano: u32) -> (line: Result<String, TickError>)
        ensures
            clock_text(hour, minute, second, nano, label_pattern()) is None ==> {
                &&& line == Err::<String, TickError>(TickError::Clock)
                &&& final(self)@ == old(self)@
            },
            clock_text(hour, minute, second, nano, label_pattern()) is Some && diff_fits(
                old(self)@.open,
                old(self)@.close,
            ) ==> {
                &&& line is Ok
                &&& line->Ok_0@ == report_text(
                    old(self).label(),
                    clock_text(hour, minute, second, nano, label_pattern())->0,
                    old(self).next_report(),
                )
                &&& final(self)@ == old(self)@.after_report()
            },
            valid_clock(hour, minute, second, nano) && diff_fits(old(self)@.open, old(self)@.close)
                ==> {
                &&& line is Ok
                &&& line->Ok_0@ == report_text(
                    old(self).label(),
                    label_text(minute, second, nano),
                    old(self).next_report(),
                )
            },
            valid_clock(hour, minute, second, nano) ==> line != Err::<String, TickError>(
                TickError::Clock,
            ),
            clock_text(hour, minute, second, nano, label_pattern()) is Some && !diff_fits(
                old(self)@.open,
                old(self)@.close,
            ) ==> {
                &&& line == Err::<String, TickError>(TickError::Overflow)
                &&& final(self)@ == old(self)@.after_report()
            },
            final(self).label() == old(self).label(),
            final(self).period_ms() == old(self).period_ms(),
    {
        match time_label(hour, minute, second, nano) {
            None => Err(TickError::Clock),
            Some(time) => {
                if self.report_fits() {
                    Ok(self.report_line(time.as_str()))
                } else {
                    self.open = 0;
                    self.close = 0;
                    Err(TickError::Overflow)
                }
            },
        }
    }
}

/// A `usize` read as an `isize` with the same bits.
fn signed_of(x: usize) -> (i: isize)
    ensures
        i == as_signed(x),
{
    if x <= isize::MAX as usize {
        x as isize
    } else {
        let rest: usize = x - (isize::MAX as usize) - 1;
        (rest as isize) + isize::MIN
    }
}

impl Report {
    /// The report's line: `"{prefix} {time} diff: {diff} active: {active} open: {open} close: {close}"`.
    pub fn line(&self, prefix: &str, time: &str) -> (s: String)
        ensures
            s@ == report_text(prefix@, time@, *self),
    {
        let mut s = prefix.to_owned();
        proof {
            reveal_strlit(" ");
            reveal_strlit(" diff: ");
            reveal_strlit(" active: ");
            reveal_strlit(" open: ");
            reveal_strlit(" close: ");
        }
        s.append(" ");
        s.append(time);
        s.append(" diff: ");
        push_signed(&mut s, self.diff as i64);
        s.append(" active: ");
        push_decimal(&mut s, self.active as u128);
        s.append(" open: ");
        push_decimal(&mut s, self.open as u128);
        s.append(" close: ");
        push_decimal(&mut s, self.close as u128);
        assert(s@ =~= report_text(prefix@, time@, *self));
        s
    }
}

} // verus!
