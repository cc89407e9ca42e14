use kyrie::guard::TimeSpan;

#[test]
fn span_rejects_a_full_second_of_nanos() {
    assert_eq!(TimeSpan::new(1, 1_000_000_000), None);
    assert_eq!(TimeSpan::new(0, u32::MAX), None);
    assert!(TimeSpan::new(1, 999_999_999).is_some());
    assert!(TimeSpan::new(0, 0).is_some());
}

#[test]
fn span_keeps_its_parts() {
    let span = TimeSpan::new(3, 250_000_000).unwrap();
    assert_eq!(span.secs(), 3);
    assert_eq!(span.subsec_nanos(), 250_000_000);
    let whole = TimeSpan::from_secs(90);
    assert_eq!(whole.secs(), 90);
    assert_eq!(whole.subsec_nanos(), 0);
}

#[test]
fn span_millis_round_down() {
    assert_eq!(TimeSpan::new(3, 250_000_000).unwrap().as_millis(), 3_250);
    assert_eq!(TimeSpan::new(0, 999_999).unwrap().as_millis(), 0);
    assert_eq!(TimeSpan::new(0, 1_000_000).unwrap().as_millis(), 1);
    assert_eq!(TimeSpan::new(2, 1_999_999).unwrap().as_millis(), 2_001);
    assert_eq!(TimeSpan::from_secs(0).as_millis(), 0);
    assert_eq!(
        TimeSpan::new(u64::MAX, 999_999_999).unwrap().as_millis(),
        18_446_744_073_709_551_615u128 * 1_000 + 999
    );
}

#[test]
fn span_from_millis_is_exact() {
    for millis in [0u64, 1, 999, 1_000, 1_001, 86_400_000, u64::MAX] {
        assert_eq!(TimeSpan::from_millis(millis).as_millis(), millis as u128);
    }
    let span = TimeSpan::from_millis(1_500);
    assert_eq!(span.secs(), 1);
    assert_eq!(span.subsec_nanos(), 500_000_000);
    assert_eq!(span, TimeSpan::new(1, 500_000_000).unwrap());
}
