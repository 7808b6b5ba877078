use debug_counter::counter::{DebugCounter, TickError};

#[test]
fn new_counter_reports_zeros() {
    let mut c = DebugCounter::new("conn", 1000);
    assert_eq!(c.sleep_ms(), 1000);
    let r = c.take_report();
    assert_eq!((r.active, r.open, r.close, r.diff), (0, 0, 0, 0));
}

#[test]
fn inc_and_dec_are_counted() {
    let mut c = DebugCounter::new("conn", 10);
    c.inc();
    c.inc();
    c.inc();
    c.dec();
    let r = c.take_report();
    assert_eq!((r.active, r.open, r.close, r.diff), (2, 3, 1, 2));
}

#[test]
fn report_resets_open_and_close_but_keeps_active() {
    let mut c = DebugCounter::new("conn", 10);
    c.inc();
    c.inc();
    let _ = c.take_report();
    c.dec();
    let r = c.take_report();
    assert_eq!((r.active, r.open, r.close, r.diff), (1, 0, 1, -1));
    let r = c.take_report();
    assert_eq!((r.active, r.open, r.close, r.diff), (1, 0, 0, 0));
}

#[test]
fn dec_below_zero_wraps() {
    let mut c = DebugCounter::new("conn", 10);
    c.dec();
    let r = c.take_report();
    assert_eq!(r.active, usize::MAX);
    assert_eq!(r.close, 1);
    assert_eq!(r.diff, -1);
    let mut c = DebugCounter::new("conn", 10);
    c.dec();
    c.inc();
    let r = c.take_report();
    assert_eq!(r.active, 0);
}

#[test]
fn dec_undoes_inc_on_active() {
    let mut c = DebugCounter::new("conn", 10);
    c.inc();
    let _ = c.take_report();
    c.inc();
    c.dec();
    let r = c.take_report();
    assert_eq!((r.active, r.open, r.close, r.diff), (1, 1, 1, 0));
}

#[test]
fn report_line_text() {
    let mut c = DebugCounter::new("conn", 10);
    c.inc();
    c.inc();
    c.dec();
    assert!(c.report_fits());
    let line = c.report_line("%H:12:34");
    assert_eq!(line, "conn %H:12:34 diff: 1 active: 1 open: 2 close: 1");
}

#[test]
fn tick_renders_the_clock_label() {
    let mut c = DebugCounter::new("conn", 10);
    c.inc();
    c.inc();
    c.dec();
    assert_eq!(c.tick(12, 5, 9, 0), Ok("conn %H:05:09 diff: 1 active: 1 open: 2 close: 1".to_string()));
    c.dec();
    c.dec();
    assert_eq!(
        c.tick(0, 0, 0, 999_999_999),
        Ok(format!("conn %H:00:00 diff: -2 active: {} open: 0 close: 2", usize::MAX))
    );
    assert_eq!(
        c.tick(23, 59, 59, 1_500_000_000),
        Ok(format!("conn %H:59:60 diff: 0 active: {} open: 0 close: 0", usize::MAX))
    );
}

#[test]
fn tick_on_an_invalid_clock_reads_nothing() {
    let mut c = DebugCounter::new("conn", 10);
    c.inc();
    assert_eq!(c.tick(24, 0, 0, 0), Err(TickError::Clock));
    assert_eq!(c.tick(10, 60, 0, 0), Err(TickError::Clock));
    assert_eq!(c.tick(10, 0, 30, 1_000_000_000), Err(TickError::Clock));
    let r = c.take_report();
    assert_eq!((r.active, r.open, r.close, r.diff), (1, 1, 0, 1));
}

#[test]
fn counters_share_no_state() {
    let mut a = DebugCounter::new("a", 10);
    let mut b = DebugCounter::new("b", 10);
    b.inc();
    a.inc();
    a.inc();
    a.dec();
    let r = b.take_report();
    assert_eq!((r.active, r.open, r.close, r.diff), (1, 1, 0, 1));
}

#[test]
fn active_counts_across_reports() {
    let mut c = DebugCounter::new("conn", 10);
    let mut reported_diff: isize = 0;
    for i in 0..100 {
        if i % 3 == 0 {
            c.dec();
        } else {
            c.inc();
        }
        if i % 7 == 0 {
            reported_diff += c.take_report().diff;
        }
    }
    let r = c.take_report();
    reported_diff += r.diff;
    assert_eq!(r.active, 32);
    assert_eq!(reported_diff, 32);
}

#[test]
fn report_line_of_a_report() {
    let r = debug_counter::counter::Report { active: 7, open: 10, close: 3, diff: 7 };
    assert_eq!(r.line("p", "t"), "p t diff: 7 active: 7 open: 10 close: 3");
    let r = debug_counter::counter::Report { active: 0, open: 0, close: 0, diff: isize::MIN };
    assert_eq!(r.line("", ""), format!("  diff: {} active: 0 open: 0 close: 0", isize::MIN));
}
