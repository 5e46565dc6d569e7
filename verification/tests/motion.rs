use aura_anim_core::timing::{Delay, Direction, Duration, Easing, IterationCount, Timing};
use iced_component::motion::{
    MotionPreferences, MotionSpeed, MotionTokens, MotionTransition, reduce_timing,
};

#[test]
fn reduce_timing_preserves_regular_timing_when_disabled() {
    let timing = Timing::ease_out(160.0);

    assert_eq!(reduce_timing(timing, false), timing);
}

#[test]
fn reduce_timing_zeroes_duration_when_enabled() {
    let timing = Timing::ease_out(160.0);
    let reduced = reduce_timing(timing, true);

    assert!(reduced.duration().is_zero());
    assert_eq!(reduced.easing(), timing.easing());
}

#[test]
fn reduced_timing_completes_immediately_and_keeps_its_curve() {
    let timing = Timing::linear(240.0)
        .with_delay(Delay::from(40_u32))
        .with_direction(Direction::Reverse)
        .with_iterations(3_u32);
    let reduced = reduce_timing(timing, true);

    assert!(reduced.duration().is_zero());
    assert_eq!(reduced.delay(), Delay::ZERO);
    assert_eq!(reduced.direction(), Direction::Reverse);
    assert_eq!(reduced.easing(), timing.easing());
    assert_eq!(reduced.iterations(), IterationCount::count(3));
}

#[test]
fn tokens_resolve_to_aura_timing_when_motion_is_allowed() {
    let preferences = MotionPreferences::default();
    let transition = MotionTransition::new(MotionSpeed::Fast, Easing::EaseOut);

    let timing = MotionTokens::default().timing(transition, &preferences);

    assert_eq!(timing.duration(), Duration::from_millis(120.0));
    assert_eq!(timing.easing(), Easing::EaseOut);
}

#[test]
fn default_interaction_transition_uses_normal_feedback_timing() {
    let preferences = MotionPreferences::default();
    let timing =
        MotionTokens::default().timing(MotionTokens::default().interaction, &preferences);

    assert_eq!(timing.duration(), Duration::from_millis(200.0));
    assert_eq!(timing.easing(), Easing::EaseOut);
}

#[test]
fn tokens_resolve_full_timed_transition_surface() {
    let preferences = MotionPreferences::default();
    let transition = MotionTransition::new(MotionSpeed::Slower, Easing::EaseInOut)
        .with_delay(Delay::from_millis(30.0))
        .with_direction(Direction::Alternate)
        .with_iterations(3);

    let timing = MotionTokens::default().timing(transition, &preferences);

    assert_eq!(timing.duration(), Duration::from_millis(320.0));
    assert_eq!(timing.delay(), Delay::from_millis(30.0));
    assert_eq!(timing.direction(), Direction::Alternate);
    assert_eq!(timing.iterations(), IterationCount::count(3));
}

#[test]
fn tokens_resolve_to_zero_duration_when_motion_is_reduced() {
    let preferences = MotionPreferences::new(true);
    let transition = MotionTransition::new(MotionSpeed::Slow, Easing::EaseInOut)
        .with_delay(Delay::from_millis(50.0));

    let timing = MotionTokens::default().timing(transition, &preferences);

    assert_eq!(timing.duration(), Duration::ZERO);
    assert_eq!(timing.delay(), Delay::ZERO);
    assert_eq!(timing.easing(), Easing::EaseInOut);
}

#[test]
fn transitions_can_opt_out_of_reduce_motion_skipping() {
    let preferences = MotionPreferences::new(true);
    let transition =
        MotionTransition::new(MotionSpeed::Micro, Easing::Linear).follow_reduce_motion(false);

    let timing = MotionTokens::default().timing(transition, &preferences);

    assert_eq!(timing.duration(), Duration::from_millis(80.0));
}

#[test]
fn each_speed_bucket_has_its_duration() {
    let tokens = MotionTokens::default();

    assert_eq!(tokens.duration(MotionSpeed::Instant), Duration::ZERO);
    assert_eq!(tokens.duration(MotionSpeed::Micro), Duration::from(80_u32));
    assert_eq!(tokens.duration(MotionSpeed::Fast), Duration::from(120_u32));
    assert_eq!(tokens.duration(MotionSpeed::Normal), Duration::from(200_u32));
    assert_eq!(tokens.duration(MotionSpeed::Slow), Duration::from(260_u32));
    assert_eq!(tokens.duration(MotionSpeed::Slower), Duration::from(320_u32));
    assert!(MotionPreferences::new(true).reduce_motion());
    assert!(!MotionPreferences::default().reduce_motion());
}

#[test]
fn instant_transitions_have_no_duration_and_keep_their_delay() {
    let preferences = MotionPreferences::default();
    let transition = MotionTransition::new(MotionSpeed::Instant, Easing::Linear)
        .with_delay(Delay::from(10_u32));

    let timing = MotionTokens::default().timing(transition, &preferences);

    assert!(timing.duration().is_zero());
    assert_eq!(timing.delay(), Delay::from(10_u32));
    assert_eq!(timing.iterations(), IterationCount::count(1));
    assert_eq!(timing.direction(), Direction::Normal);
}
