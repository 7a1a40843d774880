use recent_messages2::time::{checked_after, saturating_after, saturating_before, TimeSpan};

#[test]
fn spans_are_counted_in_milliseconds() {
    assert_eq!(TimeSpan::from_secs(2).as_millis(), 2000);
    assert_eq!(TimeSpan::from_millis(2999).as_secs(), 2);
    assert_eq!(TimeSpan::from_secs(0), TimeSpan::from_millis(0));
    assert_eq!(TimeSpan::from_secs(18_446_744_073_709_551).as_millis(), 18_446_744_073_709_551_000);
}

#[test]
fn instants_before_and_after() {
    assert_eq!(saturating_before(1000, TimeSpan::from_millis(400)), 600);
    assert_eq!(saturating_before(100, TimeSpan::from_millis(400)), -300);
    assert_eq!(saturating_before(i64::MIN + 3, TimeSpan::from_millis(4)), i64::MIN);
    assert_eq!(saturating_before(i64::MAX, TimeSpan::from_millis(u64::MAX)), i64::MIN);
    assert_eq!(saturating_before(-1, TimeSpan::from_millis(i64::MAX as u64)), i64::MIN);
    assert_eq!(saturating_before(0, TimeSpan::from_millis(i64::MAX as u64)), i64::MIN + 1);
    assert_eq!(checked_after(1000, TimeSpan::from_millis(400)), Some(1400));
    assert_eq!(checked_after(i64::MAX - 4, TimeSpan::from_millis(4)), Some(i64::MAX));
    assert_eq!(checked_after(i64::MAX - 4, TimeSpan::from_millis(5)), None);
    assert_eq!(checked_after(i64::MIN, TimeSpan::from_millis(u64::MAX)), Some(i64::MAX));
    assert_eq!(checked_after(i64::MIN + 1, TimeSpan::from_millis(u64::MAX)), None);
    assert_eq!(saturating_after(i64::MAX - 4, TimeSpan::from_millis(5)), i64::MAX);
    assert_eq!(saturating_after(-7, TimeSpan::from_millis(5)), -2);
}
