use relay_dispatch::timing::wait_timeout;
use relay_dispatch::timing::Moment;
use relay_dispatch::timing::Span;

#[test]
fn no_deadline_means_no_timeout() {
    assert_eq!(wait_timeout(None, Moment::from_millis(10)), None);
    assert_eq!(wait_timeout(None, Moment { nanos: 0 }), None);
}

#[test]
fn future_deadline_gives_the_difference() {
    let now = Moment::from_millis(1_000);
    let at = Moment::from_millis(1_050);
    assert_eq!(wait_timeout(Some(at), now), Some(Span::from_millis(50)));
    assert_eq!(wait_timeout(Some(at), now), Some(Span { nanos: 50_000_000 }));
}

#[test]
fn past_deadline_gives_zero() {
    let now = Moment::from_millis(2_000);
    let at = Moment::from_millis(1_999);
    assert_eq!(wait_timeout(Some(at), now), Some(Span::zero()));
    assert_eq!(wait_timeout(Some(at), now), Some(Span { nanos: 0 }));
}

#[test]
fn deadline_equal_to_now_gives_zero() {
    let now = Moment::new(5, 17);
    assert_eq!(wait_timeout(Some(now), now), Some(Span { nanos: 0 }));
}

#[test]
fn one_nanosecond_ahead_gives_one_nanosecond() {
    let now = Moment::new(5, 999_999_999);
    let at = Moment::new(6, 0);
    assert_eq!(wait_timeout(Some(at), now), Some(Span { nanos: 1 }));
}

#[test]
fn wait_ends_at_the_deadline() {
    let now = Moment::new(1_700_000_000, 123_456_789);
    let at = Moment::new(1_700_000_003, 5);
    let span = wait_timeout(Some(at), now).unwrap();
    assert_eq!(now.nanos + span.nanos, at.nanos);
    assert_eq!(span.nanos, 2_876_543_216);
}

#[test]
fn moment_new_counts_nanoseconds() {
    assert_eq!(Moment::new(0, 0).nanos, 0);
    assert_eq!(Moment::new(2, 5).nanos, 2_000_000_005);
    assert_eq!(
        Moment::new(u64::MAX, u32::MAX).nanos,
        u64::MAX as u128 * 1_000_000_000 + u32::MAX as u128
    );
    assert_eq!(Moment::from_millis(3).nanos, 3_000_000);
}

#[test]
fn span_splits_into_seconds_and_rest() {
    let span = Span { nanos: 2_876_543_216 };
    assert_eq!(span.whole_secs(), 2);
    assert_eq!(span.subsec_nanos(), 876_543_216);
    assert_eq!(Span::zero().whole_secs(), 0);
    assert_eq!(Span::zero().subsec_nanos(), 0);
    assert_eq!(Span::from_millis(50).whole_secs(), 0);
    assert_eq!(Span::from_millis(50).subsec_nanos(), 50_000_000);
}
