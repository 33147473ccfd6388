use pt::text::push_decimal;
use pt::Metrics;

fn with(outcomes: &[bool]) -> Metrics {
    let mut m = Metrics::default();
    for &o in outcomes {
        m.record(o);
    }
    m
}

#[test]
fn counts_stay_balanced_after_every_record() {
    let outcomes = [true, false, false, true, true, false, true];
    let mut m = Metrics::default();
    assert_eq!(m.attempts, m.success + m.failure);
    for (k, &o) in outcomes.iter().enumerate() {
        m.record(o);
        assert_eq!(m.attempts, m.success + m.failure);
        assert_eq!(m.attempts as usize, k + 1);
    }
    assert_eq!(m.success, 4);
    assert_eq!(m.failure, 3);
}

#[test]
fn record_attempt_counts_like_record() {
    let mut m = Metrics::default();
    m.record_attempt(true);
    m.record_attempt(false);
    m.record_attempt(false);
    assert_eq!((m.attempts, m.success, m.failure), (3, 1, 2));
}

#[test]
fn report_is_repeatable() {
    let m = with(&[true, false, true]);
    let first = m.report();
    let second = m.report();
    assert_eq!(first, second);
    assert_eq!(m.attempts, 3);
}

#[test]
fn report_with_nothing_attempted() {
    let m = Metrics::default();
    assert_eq!(m.report(), "0 attempts, success: 0, fail: 0, failure rate: 0.00%");
}

#[test]
fn report_one_failure_in_three() {
    let m = with(&[true, false, true]);
    assert_eq!(m.report(), "3 attempts, success: 2, fail: 1, failure rate: 33.33%");
}

#[test]
fn failure_rate_rounding() {
    assert_eq!(with(&[false, false, true]).failure_rate_hundredths(), 6667);
    assert_eq!(with(&[false; 4]).report(), "4 attempts, success: 0, fail: 4, failure rate: 100.00%");
    assert_eq!(with(&[true; 4]).report(), "4 attempts, success: 4, fail: 0, failure rate: 0.00%");
    let mut eighth = vec![true; 7];
    eighth.push(false);
    assert!(with(&eighth).report().ends_with("failure rate: 12.50%"));
    let mut one_in_160 = vec![true; 159];
    one_in_160.push(false);
    assert!(with(&one_in_160).report().ends_with("failure rate: 0.62%"));
    let mut three_in_160 = vec![true; 157];
    three_in_160.extend([false, false, false]);
    assert!(with(&three_in_160).report().ends_with("failure rate: 1.88%"));
}

fn decimal(n: u64) -> String {
    let mut s = String::new();
    push_decimal(&mut s, n);
    s
}

#[test]
fn decimal_rendering() {
    assert_eq!(decimal(0), "0");
    assert_eq!(decimal(7), "7");
    assert_eq!(decimal(10), "10");
    assert_eq!(decimal(1234567890), "1234567890");
    assert_eq!(decimal(u64::MAX), "18446744073709551615");
    let mut s = String::from("n=");
    push_decimal(&mut s, 305);
    assert_eq!(s, "n=305");
}
