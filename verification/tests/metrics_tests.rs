use cursor_brain::metrics::Metrics;

#[test]
fn counters_count_independently() {
    let mut m = Metrics::default();
    assert_eq!(m.snapshot(), (0, 0, 0, 0));
    m.inc_requests();
    m.inc_requests();
    m.inc_cursor_ok();
    m.inc_cursor_fail();
    m.inc_cursor_timeout();
    m.inc_cursor_timeout();
    assert_eq!(m.snapshot(), (2, 1, 1, 2));
}

#[test]
fn counters_wrap_like_atomics() {
    let mut m = Metrics::default();
    m.requests_total = u64::MAX;
    m.inc_requests();
    assert_eq!(m.requests_total, 0);
}

#[test]
fn each_counter_counts_its_own_calls() {
    let mut m = Metrics::default();
    for _ in 0..5 {
        m.inc_requests();
    }
    for _ in 0..3 {
        m.inc_cursor_ok();
        m.inc_requests();
    }
    m.inc_cursor_fail();
    m.inc_cursor_timeout();
    m.inc_cursor_timeout();
    assert_eq!(m.snapshot(), (8, 3, 1, 2));
}
