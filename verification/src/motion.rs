//! Motion timing shared by animated components: named duration buckets,
//! transitions, and their resolution into animation timing with respect to
//! the reduced-motion preference.

use vstd::prelude::*;

use aura_anim_core::timing::{Delay, Direction, Duration, Easing, IterationCount, Timing};

verus! {

/// Animation timing: duration, delay, direction, easing and iterations.
#[verifier::external_type_specification]
#[verifier::external_body]
pub struct ExTiming(Timing);

/// A non-negative animation duration.
#[verifier::external_type_specification]
#[verifier::external_body]
pub struct ExDuration(Duration);

/// A non-negative animation start delay.
#[verifier::external_type_specification]
#[verifier::external_body]
pub struct ExDelay(Delay);

/// Playback direction of repeated iterations.
#[verifier::external_type_specification]
#[verifier::external_body]
pub struct ExDirection(Direction);

/// Easing curve.
#[verifier::external_type_specification]
#[verifier::external_body]
pub struct ExEasing(Easing);

/// Number of animation iterations.
#[verifier::external_type_specification]
#[verifier::external_body]
pub struct ExIterationCount(IterationCount);

/// The duration of `millis` whole milliseconds.
pub uninterp spec fn duration_of_millis(millis: u64) -> Duration;

/// The start delay of `millis` whole milliseconds.
pub uninterp spec fn delay_of_millis(millis: u64) -> Delay;

/// The finite iteration count `count`, at least one.
pub uninterp spec fn iteration_count(count: u32) -> IterationCount;

/// The timing that `Timing::new` builds from a duration's milliseconds.
pub uninterp spec fn timing_of_duration(duration: Duration) -> Timing;

/// `timing` with its duration replaced.
pub uninterp spec fn timing_with_duration(timing: Timing, duration: Duration) -> Timing;

/// `timing` with its start delay replaced.
pub uninterp spec fn timing_with_delay(timing: Timing, delay: Delay) -> Timing;

/// `timing` with its direction replaced.
pub uninterp spec fn timing_with_direction(timing: Timing, direction: Direction) -> Timing;

/// `timing` with its easing replaced.
pub uninterp spec fn timing_with_easing(timing: Timing, easing: Easing) -> Timing;

/// `timing` with its iteration count replaced.
pub uninterp spec fn timing_with_iterations(timing: Timing, iterations: IterationCount) -> Timing;

/// The duration of a timing (`Timing::duration`).
pub uninterp spec fn timing_duration(timing: Timing) -> Duration;

/// The start delay of a timing (`Timing::delay`).
pub uninterp spec fn timing_delay(timing: Timing) -> Delay;

/// The direction of a timing (`Timing::direction`).
pub uninterp spec fn timing_direction(timing: Timing) -> Direction;

/// The easing of a timing (`Timing::easing`).
pub uninterp spec fn timing_easing(timing: Timing) -> Easing;

/// The iteration count of a timing (`Timing::iterations`).
pub uninterp spec fn timing_iterations(timing: Timing) -> IterationCount;

/// Builds a duration of whole milliseconds.
///
/// Trusted: calls `Duration::from::<u64>`, an exact conversion of the
/// milliseconds; the result is named as a function of them.
#[verifier::external_body]
fn millis_duration(millis: u64) -> (r: Duration)
    ensures
        r == duration_of_millis(millis),
{
    Duration::from(millis)
}

/// Builds a start delay of whole milliseconds.
///
/// Trusted: calls `Delay::from::<u64>`, an exact conversion of the
/// milliseconds; the result is named as a function of them.
#[verifier::external_body]
fn millis_delay(millis: u64) -> (r: Delay)
    ensures
        r == delay_of_millis(millis),
{
    Delay::from(millis)
}

/// Builds a finite iteration count.
///
/// Trusted: calls `IterationCount::count`, which clamps to at least one;
/// the result is named as a function of the count.
#[verifier::external_body]
fn iterations_of(count: u32) -> (r: IterationCount)
    ensures
        r == iteration_count(count),
{
    IterationCount::count(count)
}

/// The forward playback direction.
///
/// Trusted: returns `Direction::Normal`; nothing is claimed of it.
#[verifier::external_body]
fn forward_direction() -> Direction {
    Direction::Normal
}

/// The ease-out easing curve.
///
/// Trusted: returns `Easing::EaseOut`; nothing is claimed of it.
#[verifier::external_body]
fn ease_out_easing() -> Easing {
    Easing::EaseOut
}

/// Builds a timing from a duration.
///
/// Trusted: calls `Timing::new` with the duration in milliseconds, which
/// keeps the default delay, direction, easing and iterations; the result is
/// named as a function of the duration. A zero duration stays zero through
/// the millisecond round trip.
#[verifier::external_body]
fn timing_from_duration(duration: Duration) -> (r: Timing)
    ensures
        r == timing_of_duration(duration),
        duration == duration_of_millis(0) ==> timing_duration(r) == duration_of_millis(0),
{
    Timing::new(duration.as_millis())
}

/// Replaces a timing's duration.
///
/// Trusted: calls `Timing::with_duration`, which sets the duration and
/// keeps every other field.
#[verifier::external_body]
fn with_duration(timing: Timing, duration: Duration) -> (r: Timing)
    ensures
        r == timing_with_duration(timing, duration),
        timing_duration(r) == duration,
        timing_delay(r) == timing_delay(timing),
        timing_direction(r) == timing_direction(timing),
        timing_easing(r) == timing_easing(timing),
        timing_iterations(r) == timing_iterations(timing),
{
    timing.with_duration(duration)
}

/// Replaces a timing's start delay.
///
/// Trusted: calls `Timing::with_delay`, which sets the delay and keeps every
/// other field.
#[verifier::external_body]
fn with_delay(timing: Timing, delay: Delay) -> (r: Timing)
    ensures
        r == timing_with_delay(timing, delay),
        timing_delay(r) == delay,
        timing_duration(r) == timing_duration(timing),
        timing_direction(r) == timing_direction(timing),
        timing_easing(r) == timing_easing(timing),
        timing_iterations(r) == timing_iterations(timing),
{
    timing.with_delay(delay)
}

/// Replaces a timing's direction.
///
/// Trusted: calls `Timing::with_direction`, which sets the direction and
/// keeps every other field.
#[verifier::external_body]
fn with_direction(timing: Timing, direction: Direction) -> (r: Timing)
    ensures
        r == timing_with_direction(timing, direction),
        timing_direction(r) == direction,
        timing_duration(r) == timing_duration(timing),
        timing_delay(r) == timing_delay(timing),
        timing_easing(r) == timing_easing(timing),
        timing_iterations(r) == timing_iterations(timing),
{
    timing.with_direction(direction)
}

/// Replaces a timing's easing.
///
/// Trusted: calls `Timing::with_easing`, which sets the easing and keeps
/// every other field.
#[verifier::external_body]
fn with_easing(timing: Timing, easing: Easing) -> (r: Timing)
    ensures
        r == timing_with_easing(timing, easing),
        timing_easing(r) == easing,
        timing_duration(r) == timing_duration(timing),
        timing_delay(r) == timing_delay(timing),
        timing_direction(r) == timing_direction(timing),
        timing_iterations(r) == timing_iterations(timing),
{
    timing.with_easing(easing)
}

/// Replaces a timing's iteration count.
///
/// Trusted: calls `Timing::with_iterations`, which sets the iteration count
/// and keeps every other field.
#[verifier::external_body]
fn with_iterations(timing: Timing, iterations: IterationCount) -> (r: Timing)
    ensures
        r == timing_with_iterations(timing, iterations),
        timing_iterations(r) == iterations,
        timing_duration(r) == timing_duration(timing),
        timing_delay(r) == timing_delay(timing),
        timing_direction(r) == timing_direction(timing),
        timing_easing(r) == timing_easing(timing),
{
    timing.with_iterations(iterations)
}

/// `timing` as reduced motion plays it: no duration and no delay, so it
/// completes immediately; direction, easing and iterations are kept.
pub open spec fn spec_reduced_timing(timing: Timing) -> Timing {
    timing_with_delay(timing_with_duration(timing, duration_of_millis(0)), delay_of_millis(0))
}

/// Returns `timing` unchanged unless reduced motion is enabled.
///
/// Reduced timings preserve the easing curve (and direction and iterations)
/// for callers that inspect timing metadata, but complete immediately: both
/// the duration and the start delay are zero.
pub fn reduce_timing(timing: Timing, reduce_motion: bool) -> (r: Timing)
    ensures
        r == (if reduce_motion {
            spec_reduced_timing(timing)
        } else {
            timing
        }),
        reduce_motion ==> timing_duration(r) == duration_of_millis(0) && timing_delay(r)
            == delay_of_millis(0) && timing_easing(r) == timing_easing(timing)
            && timing_direction(r) == timing_direction(timing) && timing_iterations(r)
            == timing_iterations(timing),
{
    if reduce_motion {
        with_delay(with_duration(timing, millis_duration(0)), millis_delay(0))
    } else {
        timing
    }
}

/// Named duration buckets shared by component interactions.
#[derive(Clone, Copy, Debug, Eq, PartialEq)]
pub enum MotionSpeed {
    /// No animation.
    Instant,
    /// Tiny feedback changes such as pressed-state settling.
    Micro,
    /// Small state changes such as hover and press feedback.
    Fast,
    /// Default component state transitions.
    Normal,
    /// Larger transitions such as panel enter or exit.
    Slow,
    /// Long transitions for large layout or presence changes.
    Slower,
}

/// A timed transition expressed in motion tokens.
#[derive(Clone, Copy, Debug, PartialEq)]
pub struct MotionTransition {
    /// Duration bucket.
    pub speed: MotionSpeed,
    /// Start delay.
    pub delay: Delay,
    /// Playback direction.
    pub direction: Direction,
    /// Easing curve.
    pub easing: Easing,
    /// Iteration count.
    pub iterations: IterationCount,
    /// Whether the reduced-motion preference skips this transition.
    pub follow_reduce_motion: bool,
}

impl MotionTransition {
    /// Creates a transition that starts at once, plays forward once, and is
    /// skipped under reduced motion.
    pub fn new(speed: MotionSpeed, easing: Easing) -> (r: Self)
        ensures
            r.speed == speed,
            r.easing == easing,
            r.delay == delay_of_millis(0),
            r.iterations == iteration_count(1),
            r.follow_reduce_motion,
    {
        Self {
            speed,
            delay: millis_delay(0),
            direction: forward_direction(),
            easing,
            iterations: iterations_of(1),
            follow_reduce_motion: true,
        }
    }

    /// The default transition for direct interaction feedback: normal speed
    /// with ease-out easing.
    pub fn standard() -> (r: Self)
        ensures
            r.speed == MotionSpeed::Normal,
            r.delay == delay_of_millis(0),
            r.iterations == iteration_count(1),
            r.follow_reduce_motion,
    {
        Self::new(MotionSpeed::Normal, ease_out_easing())
    }

    /// Returns this transition with a start delay.
    pub fn with_delay(self, delay: Delay) -> (r: Self)
        ensures
            r == (MotionTransition { delay, ..self }),
    {
        Self { delay, ..self }
    }

    /// Returns this transition with a playback direction.
    pub fn with_direction(self, direction: Direction) -> (r: Self)
        ensures
            r == (MotionTransition { direction, ..self }),
    {
        Self { direction, ..self }
    }

    /// Returns this transition with a finite iteration count (at least one).
    pub fn with_iterations(self, count: u32) -> (r: Self)
        ensures
            r == (MotionTransition { iterations: iteration_count(count), ..self }),
    {
        Self { iterations: iterations_of(count), ..self }
    }

    /// Returns this transition with the reduced-motion preference followed
    /// or ignored.
    pub fn follow_reduce_motion(self, follow: bool) -> (r: Self)
        ensures
            r == (MotionTransition { follow_reduce_motion: follow, ..self }),
    {
        Self { follow_reduce_motion: follow, ..self }
    }
}

/// The application's motion preferences.
#[derive(Clone, Copy, Debug, Default, Eq, PartialEq)]
pub struct MotionPreferences {
    reduce_motion: bool,
}

impl MotionPreferences {
    /// Whether non-essential motion is reduced.
    pub closed spec fn spec_reduce_motion(self) -> bool {
        self.reduce_motion
    }

    /// Creates preferences with a reduced-motion choice.
    pub fn new(reduce_motion: bool) -> (r: Self)
        ensures
            r.spec_reduce_motion() == reduce_motion,
    {
        Self { reduce_motion }
    }

    /// Returns whether non-essential motion is reduced.
    pub fn reduce_motion(&self) -> (r: bool)
        ensures
            r == self.spec_reduce_motion(),
    {
        self.reduce_motion
    }
}

/// Motion token values shared by animated components.
#[derive(Clone, Copy, Debug, PartialEq)]
pub struct MotionTokens {
    /// Duration for tiny direct feedback.
    pub micro: Duration,
    /// Duration for fast interactions.
    pub fast: Duration,
    /// Duration for normal interactions.
    pub normal: Duration,
    /// Duration for slow interactions.
    pub slow: Duration,
    /// Duration for larger presence or layout transitions.
    pub slower: Duration,
    /// Default transition for direct component interaction feedback.
    pub interaction: MotionTransition,
}

impl MotionTokens {
    /// The duration of a speed bucket: none for instant transitions.
    pub open spec fn spec_duration(self, speed: MotionSpeed) -> Duration {
        match speed {
            MotionSpeed::Instant => duration_of_millis(0),
            MotionSpeed::Micro => self.micro,
            MotionSpeed::Fast => self.fast,
            MotionSpeed::Normal => self.normal,
            MotionSpeed::Slow => self.slow,
            MotionSpeed::Slower => self.slower,
        }
    }

    /// The timing a transition resolves to: when reduced motion applies
    /// (the preference is set and the transition follows it) the duration
    /// and the delay are zero, otherwise the speed bucket's duration and the
    /// transition's delay are used; direction, easing and iterations always
    /// come from the transition.
    pub open spec fn spec_timing(self, transition: MotionTransition, reduce_motion: bool) -> Timing {
        let reduce = reduce_motion && transition.follow_reduce_motion;
        let duration = if reduce {
            duration_of_millis(0)
        } else {
            self.spec_duration(transition.speed)
        };
        let delay = if reduce {
            delay_of_millis(0)
        } else {
            transition.delay
        };
        timing_with_iterations(
            timing_with_easing(
                timing_with_direction(
                    timing_with_delay(timing_of_duration(duration), delay),
                    transition.direction,
                ),
                transition.easing,
            ),
            transition.iterations,
        )
    }

    /// Returns the duration for a speed bucket.
    pub fn duration(self, speed: MotionSpeed) -> (r: Duration)
        ensures
            r == self.spec_duration(speed),
            speed == MotionSpeed::Instant ==> r == duration_of_millis(0),
            speed == MotionSpeed::Micro ==> r == self.micro,
            speed == MotionSpeed::Fast ==> r == self.fast,
            speed == MotionSpeed::Normal ==> r == self.normal,
            speed == MotionSpeed::Slow ==> r == self.slow,
            speed == MotionSpeed::Slower ==> r == self.slower,
    {
        match speed {
            MotionSpeed::Instant => millis_duration(0),
            MotionSpeed::Micro => self.micro,
            MotionSpeed::Fast => self.fast,
            MotionSpeed::Normal => self.normal,
            MotionSpeed::Slow => self.slow,
            MotionSpeed::Slower => self.slower,
        }
    }

    /// Resolves a transition into animation timing.
    pub fn timing(self, transition: MotionTransition, preferences: &MotionPreferences) -> (r: Timing)
        ensures
            r == self.spec_timing(transition, preferences.spec_reduce_motion()),
            timing_direction(r) == transition.direction,
            timing_easing(r) == transition.easing,
            timing_iterations(r) == transition.iterations,
            timing_delay(r) == (if preferences.spec_reduce_motion() && transition.follow_reduce_motion {
                delay_of_millis(0)
            } else {
                transition.delay
            }),
            preferences.spec_reduce_motion() && transition.follow_reduce_motion ==> timing_duration(r)
                == duration_of_millis(0),
            !(preferences.spec_reduce_motion() && transition.follow_reduce_motion) ==> timing_duration(r)
                == timing_duration(timing_of_duration(match transition.speed {
                MotionSpeed::Instant => duration_of_millis(0),
                MotionSpeed::Micro => self.micro,
                MotionSpeed::Fast => self.fast,
                MotionSpeed::Normal => self.normal,
                MotionSpeed::Slow => self.slow,
                MotionSpeed::Slower => self.slower,
            })),
    {
        let reduce = preferences.reduce_motion() && transition.follow_reduce_motion;
        let duration = if reduce {
            millis_duration(0)
        } else {
            self.duration(transition.speed)
        };
        let delay = if reduce {
            millis_delay(0)
        } else {
            transition.delay
        };
        let timing = with_delay(timing_from_duration(duration), delay);
        let timing = with_direction(timing, transition.direction);
        let timing = with_easing(timing, transition.easing);
        with_iterations(timing, transition.iterations)
    }
}

impl Default for MotionTokens {
    /// Micro 80 ms, fast 120 ms, normal 200 ms, slow 260 ms, slower 320 ms,
    /// and the standard interaction transition.
    fn default() -> (r: Self)
        ensures
            r.micro == duration_of_millis(80),
            r.fast == duration_of_millis(120),
            r.normal == duration_of_millis(200),
            r.slow == duration_of_millis(260),
            r.slower == duration_of_millis(320),
            r.interaction.speed == MotionSpeed::Normal,
            r.interaction.delay == delay_of_millis(0),
            r.interaction.iterations == iteration_count(1),
            r.interaction.follow_reduce_motion,
    {
        Self {
            micro: millis_duration(80),
            fast: millis_duration(120),
            normal: millis_duration(200),
            slow: millis_duration(260),
            slower: millis_duration(320),
            interaction: MotionTransition::standard(),
        }
    }
}

/// A transition resolves to the timing built from its own speed bucket's
/// duration (none for instant transitions) and its own delay, direction,
/// easing and iterations; when reduced motion applies (the preference is set
/// and the transition follows it) the duration and delay are zero instead.
pub proof fn lemma_timing_uses_the_transition_bucket(
    tokens: MotionTokens,
    transition: MotionTransition,
    reduce_motion: bool,
    timing: Timing,
)
    requires
        timing == tokens.spec_timing(transition, reduce_motion),
    ensures
        !(reduce_motion && transition.follow_reduce_motion) ==> timing == timing_with_iterations(
            timing_with_easing(
                timing_with_direction(
                    timing_with_delay(
                        timing_of_duration(match transition.speed {
            MotionSpeed::Instant => duration_of_millis(0),
            MotionSpeed::Micro => tokens.micro,
            MotionSpeed::Fast => tokens.fast,
            MotionSpeed::Normal => tokens.normal,
            MotionSpeed::Slow => tokens.slow,
            MotionSpeed::Slower => tokens.slower,
        }),
                        transition.delay,
                    ),
                    transition.direction,
                ),
                transition.easing,
            ),
            transition.iterations,
        ),
        reduce_motion && transition.follow_reduce_motion ==> timing == timing_with_iterations(
            timing_with_easing(
                timing_with_direction(
                    timing_with_delay(timing_of_duration(duration_of_millis(0)), delay_of_millis(0)),
                    transition.direction,
                ),
                transition.easing,
            ),
            transition.iterations,
        ),
{
}

} // verus!
