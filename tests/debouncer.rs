use cairo_lang_language_server::debouncer::Debouncer;

#[test]
fn first_call_runs() {
    let mut d = Debouncer::new(10);
    let mut runs = 0;
    assert!(d.run_debounced(0, || runs += 1));
    assert_eq!(runs, 1);
}

#[test]
fn first_call_runs_long_after_construction() {
    let mut d = Debouncer::new(u64::MAX);
    let mut runs = 0;
    assert!(d.run_debounced(5, || runs += 1));
    assert_eq!(runs, 1);
}

#[test]
fn second_call_within_interval_is_skipped() {
    let mut d = Debouncer::new(10);
    let mut runs = 0;
    d.run_debounced(100, || runs += 1);
    assert!(!d.run_debounced(109, || runs += 1));
    assert_eq!(runs, 1);
}

#[test]
fn second_call_after_interval_runs() {
    let mut d = Debouncer::new(10);
    let mut runs = 0;
    d.run_debounced(100, || runs += 1);
    assert!(d.run_debounced(110, || runs += 1));
    assert_eq!(runs, 2);
    assert!(!d.run_debounced(115, || runs += 1));
    assert!(d.run_debounced(125, || runs += 1));
    assert_eq!(runs, 3);
}

#[test]
fn clock_going_back_skips() {
    let mut d = Debouncer::new(10);
    let mut runs = 0;
    d.run_debounced(100, || runs += 1);
    assert!(!d.run_debounced(50, || runs += 1));
    assert_eq!(runs, 1);
}
