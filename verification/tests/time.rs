use palimpsest_sim::time::{SimClock, SimClockError, SimDuration, SimInstant};

#[test]
fn negative_duration_is_rejected() {
    assert_eq!(SimDuration::from_seconds(-1), None);
    assert_eq!(SimDuration::from_seconds(0), Some(SimDuration::zero()));
}

#[test]
fn clock_advances_monotonically() {
    let mut clock = SimClock::default();
    let duration = SimDuration::from_seconds(60).expect("non-negative duration");
    assert_eq!(clock.advance_by(duration), Ok(SimInstant::from_seconds(60)));
    assert_eq!(
        clock.advance_to(SimInstant::from_seconds(120)),
        Ok(SimInstant::from_seconds(120))
    );
    assert_eq!(clock.now(), SimInstant::from_seconds(120));
}

#[test]
fn advancing_to_the_same_instant_is_allowed() {
    let instant = SimInstant::from_seconds(7);
    let mut clock = SimClock::at(instant);
    assert_eq!(clock.advance_to(instant), Ok(instant));
}

#[test]
fn time_reversal_is_explicitly_rejected() {
    let current = SimInstant::from_seconds(10);
    let requested = SimInstant::from_seconds(9);
    let mut clock = SimClock::at(current);
    assert_eq!(
        clock.advance_to(requested),
        Err(SimClockError::TimeReversal { current, requested })
    );
    assert_eq!(clock.now(), current);
}

#[test]
fn overflow_is_explicit_and_does_not_mutate_clock() {
    let mut clock = SimClock::at(SimInstant::latest());
    let one = SimDuration::from_seconds(1).expect("non-negative duration");
    assert_eq!(clock.advance_by(one), Err(SimClockError::Overflow));
    assert_eq!(clock.now(), SimInstant::latest());
}

#[test]
fn duration_since_handles_order_and_boundaries() {
    let later = SimInstant::from_seconds(100);
    let earlier = SimInstant::from_seconds(40);
    assert_eq!(later.duration_since(earlier), SimDuration::from_seconds(60));
    assert_eq!(earlier.duration_since(later), None);
    assert_eq!(SimInstant::latest().duration_since(SimInstant::earliest()), None);
}

#[test]
fn instant_constants_and_arithmetic_are_exact() {
    assert_eq!(SimInstant::epoch().as_seconds(), 0);
    assert_eq!(SimInstant::earliest().as_seconds(), i64::MIN);
    assert_eq!(SimInstant::latest().as_seconds(), i64::MAX);
    assert_eq!(SimInstant::default(), SimInstant::epoch());
    let ten = SimDuration::from_seconds(10).expect("valid");
    assert_eq!(
        SimInstant::from_seconds(5).checked_add(ten),
        Some(SimInstant::from_seconds(15))
    );
    assert_eq!(
        SimInstant::from_seconds(5).checked_sub(ten),
        Some(SimInstant::from_seconds(-5))
    );
    assert_eq!(SimInstant::earliest().checked_sub(ten), None);
    assert_eq!(SimInstant::latest().checked_add(ten), None);
}

#[test]
fn duration_bounds_and_rejection_are_exact() {
    assert_eq!(SimDuration::zero().as_seconds(), 0);
    assert_eq!(SimDuration::longest().as_seconds(), i64::MAX);
    assert_eq!(SimDuration::default(), SimDuration::zero());
    let rejected = SimDuration::try_from_seconds(-7).expect_err("negative");
    assert_eq!(rejected.seconds(), -7);
    assert_eq!(
        SimDuration::try_from_seconds(7).map(SimDuration::as_seconds),
        Ok(7)
    );
}

#[test]
fn a_clock_read_after_a_successful_advance_gives_the_result() {
    let mut clock = SimClock::at(SimInstant::from_seconds(-3));
    let step = SimDuration::from_seconds(4).expect("valid");
    let reached = clock.advance_by(step).expect("no overflow");
    assert_eq!(reached, SimInstant::from_seconds(1));
    assert_eq!(clock.now(), reached);
}
