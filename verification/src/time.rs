//! Deterministic integer time primitives for the headless simulation.

use vstd::prelude::*;
use vstd::string::StringExecFns;

use crate::text::{i64_to_decimal, signed_decimal_text};

verus! {

/// A point on the simulation timeline, represented as integer seconds.
#[derive(Clone, Copy, Debug, PartialEq, Eq, Structural, PartialOrd, Ord, Hash)]
pub struct SimInstant(i64);

impl View for SimInstant {
    type V = i64;

    closed spec fn view(&self) -> i64 {
        self.0
    }
}

/// Two instants with the same signed second are the same instant.
pub broadcast proof fn lemma_instant_view_injective(a: SimInstant, b: SimInstant)
    ensures
        #[trigger] a@ == #[trigger] b@ ==> a == b,
{
}

impl SimInstant {
    /// The instant at `seconds`, for use in specifications.
    pub open spec fn at_second(seconds: i64) -> SimInstant {
        choose|instant: SimInstant| instant@ == seconds
    }

    /// The default simulation epoch.
    pub fn epoch() -> (instant: SimInstant)
        ensures
            instant@ == 0,
    {
        SimInstant(0)
    }

    /// Lowest representable instant.
    pub fn earliest() -> (instant: SimInstant)
        ensures
            instant@ == i64::MIN,
    {
        SimInstant(i64::MIN)
    }

    /// Highest representable instant.
    pub fn latest() -> (instant: SimInstant)
        ensures
            instant@ == i64::MAX,
    {
        SimInstant(i64::MAX)
    }

    /// Creates an instant from signed simulation seconds.
    pub fn from_seconds(seconds: i64) -> (instant: SimInstant)
        ensures
            instant@ == seconds,
            instant == SimInstant::at_second(seconds),
    {
        let instant = SimInstant(seconds);
        assert(SimInstant::at_second(seconds)@ == seconds) by {
            assert(instant@ == seconds);
        }
        instant
    }

    /// Returns signed simulation seconds from the epoch.
    pub fn as_seconds(self) -> (seconds: i64)
        ensures
            seconds == self@,
    {
        self.0
    }

    /// Adds a non-negative simulation duration, returning `None` on overflow.
    pub fn checked_add(self, duration: SimDuration) -> (sum: Option<SimInstant>)
        ensures
            match sum {
                Some(t) => t@ == self@ + duration@,
                None => self@ + duration@ > i64::MAX,
            },
            duration@ >= 0,
    {
        proof {
            use_type_invariant(&duration);
        }
        match self.0.checked_add(duration.as_seconds()) {
            Some(seconds) => Some(SimInstant(seconds)),
            None => None,
        }
    }

    /// Subtracts a non-negative simulation duration, returning `None` on overflow.
    pub fn checked_sub(self, duration: SimDuration) -> (difference: Option<SimInstant>)
        ensures
            match difference {
                Some(t) => t@ == self@ - duration@,
                None => self@ - duration@ < i64::MIN,
            },
            duration@ >= 0,
    {
        proof {
            use_type_invariant(&duration);
        }
        match self.0.checked_sub(duration.as_seconds()) {
            Some(seconds) => Some(SimInstant(seconds)),
            None => None,
        }
    }

    /// Returns elapsed non-negative time since `earlier`.
    pub fn duration_since(self, earlier: SimInstant) -> (elapsed: Option<SimDuration>)
        ensures
            match elapsed {
                Some(d) => d@ == self@ - earlier@ && d@ >= 0 && earlier@ <= self@,
                None => self@ < earlier@ || self@ - earlier@ > i64::MAX,
            },
    {
        match self.0.checked_sub(earlier.0) {
            Some(seconds) => SimDuration::from_seconds(seconds),
            None => None,
        }
    }
}

/// A non-negative span of simulation time in integer seconds.
#[derive(Clone, Copy, Debug, PartialEq, Eq, Structural, PartialOrd, Ord, Hash)]
pub struct SimDuration(i64);

impl SimDuration {
    /// A duration is never negative.
    #[verifier::type_invariant]
    closed spec fn non_negative(self) -> bool {
        self.0 >= 0
    }
}

impl View for SimDuration {
    type V = i64;

    closed spec fn view(&self) -> i64 {
        self.0
    }
}

/// Two durations of the same length are the same duration.
pub broadcast proof fn lemma_duration_view_injective(a: SimDuration, b: SimDuration)
    ensures
        #[trigger] a@ == #[trigger] b@ ==> a == b,
{
}

impl SimDuration {
    /// Zero elapsed simulation time.
    pub fn zero() -> (duration: SimDuration)
        ensures
            duration@ == 0,
    {
        SimDuration(0)
    }

    /// Largest representable duration.
    pub fn longest() -> (duration: SimDuration)
        ensures
            duration@ == i64::MAX,
    {
        SimDuration(i64::MAX)
    }

    /// Creates a duration when `seconds` is non-negative.
    pub fn from_seconds(seconds: i64) -> (duration: Option<SimDuration>)
        ensures
            match duration {
                Some(d) => seconds >= 0 && d@ == seconds,
                None => seconds < 0,
            },
    {
        if seconds >= 0 {
            Some(SimDuration(seconds))
        } else {
            None
        }
    }

    /// Returns the duration in integer simulation seconds.
    pub fn as_seconds(self) -> (seconds: i64)
        ensures
            seconds == self@,
            seconds >= 0,
    {
        proof {
            use_type_invariant(&self);
        }
        self.0
    }

    /// Converts signed seconds into a duration, rejecting negative values.
    pub fn try_from_seconds(seconds: i64) -> (duration: Result<SimDuration, InvalidSimDuration>)
        ensures
            match duration {
                Ok(d) => seconds >= 0 && d@ == seconds,
                Err(e) => seconds < 0 && e@ == seconds,
            },
    {
        match SimDuration::from_seconds(seconds) {
            Some(d) => Ok(d),
            None => Err(InvalidSimDuration { seconds }),
        }
    }
}

/// Error returned when constructing a duration from negative seconds.
#[derive(Clone, Copy, Debug, PartialEq, Eq, Structural)]
pub struct InvalidSimDuration {
    seconds: i64,
}

impl View for InvalidSimDuration {
    type V = i64;

    closed spec fn view(&self) -> i64 {
        self.seconds
    }
}

impl InvalidSimDuration {
    /// The rejected negative number of seconds.
    pub fn seconds(&self) -> (seconds: i64)
        ensures
            seconds == self@,
    {
        self.seconds
    }
}

impl Default for SimInstant {
    /// The epoch.
    fn default() -> (instant: SimInstant)
        ensures
            instant@ == 0,
    {
        SimInstant(0)
    }
}

impl Default for SimDuration {
    /// Zero elapsed time.
    fn default() -> (duration: SimDuration)
        ensures
            duration@ == 0,
    {
        SimDuration(0)
    }
}

/// Monotonic owner of the current simulation instant.
#[derive(Clone, Copy, Debug, PartialEq, Eq, Structural)]
pub struct SimClock {
    now: SimInstant,
}

impl View for SimClock {
    type V = SimInstant;

    closed spec fn view(&self) -> SimInstant {
        self.now
    }
}

/// Two clocks showing the same instant are the same clock.
pub broadcast proof fn lemma_clock_view_injective(a: SimClock, b: SimClock)
    ensures
        #[trigger] a@ == #[trigger] b@ ==> a == b,
{
}

impl Default for SimClock {
    /// A clock at the epoch.
    fn default() -> (clock: SimClock)
        ensures
            clock@@ == 0,
    {
        SimClock { now: SimInstant(0) }
    }
}

impl SimClock {
    /// Creates a clock at an explicitly restored instant.
    pub fn at(now: SimInstant) -> (clock: SimClock)
        ensures
            clock@ == now,
    {
        SimClock { now }
    }

    /// Returns the current simulation instant.
    pub fn now(self) -> (now: SimInstant)
        ensures
            now == self@,
    {
        self.now
    }

    /// Advances by a non-negative duration.
    ///
    /// Fails with [`SimClockError::Overflow`], leaving the clock unchanged,
    /// when the resulting instant cannot be represented by `i64` seconds.
    pub fn advance_by(&mut self, duration: SimDuration) -> (result: Result<SimInstant, SimClockError>)
        ensures
            duration@ >= 0,
            match result {
                Ok(target) => {
                    &&& old(self)@@ + duration@ <= i64::MAX
                    &&& target@ == old(self)@@ + duration@
                    &&& final(self)@ == target
                },
                Err(error) => {
                    &&& old(self)@@ + duration@ > i64::MAX
                    &&& error == SimClockError::Overflow
                    &&& final(self)@ == old(self)@
                },
            },
    {
        match self.now.checked_add(duration) {
            Some(target) => {
                self.now = target;
                Ok(target)
            },
            None => Err(SimClockError::Overflow),
        }
    }

    /// Advances to an absolute instant without allowing time reversal.
    ///
    /// Fails with [`SimClockError::TimeReversal`], leaving the clock
    /// unchanged, when `target` is earlier than the current instant.
    pub fn advance_to(&mut self, target: SimInstant) -> (result: Result<SimInstant, SimClockError>)
        ensures
            match result {
                Ok(reached) => {
                    &&& target@ >= old(self)@@
                    &&& reached == target
                    &&& final(self)@ == target
                },
                Err(error) => {
                    &&& target@ < old(self)@@
                    &&& error == (SimClockError::TimeReversal { current: old(self)@, requested: target })
                    &&& final(self)@ == old(self)@
                },
            },
    {
        if target.as_seconds() < self.now.as_seconds() {
            return Err(SimClockError::TimeReversal { current: self.now, requested: target });
        }
        self.now = target;
        Ok(target)
    }
}

/// Failure to advance a monotonic [`SimClock`].
#[derive(Clone, Copy, Debug, PartialEq, Eq, Structural)]
pub enum SimClockError {
    /// Adding a duration exceeded the representable timeline.
    Overflow,
    /// An absolute advancement requested an earlier instant.
    TimeReversal {
        /// Current clock value.
        current: SimInstant,
        /// Rejected earlier value.
        requested: SimInstant,
    },
}

/// The text of an instant or a duration: its signed seconds followed by `s`.
pub open spec fn seconds_text(seconds: i64) -> Seq<char> {
    signed_decimal_text(seconds as int) + "s"@
}

/// Writes `seconds` followed by `s`.
fn write_seconds(seconds: i64) -> (text: String)
    ensures
        text@ == seconds_text(seconds),
{
    i64_to_decimal(seconds).concat("s")
}

impl SimInstant {
    /// The instant as text, e.g. `-42s`.
    pub fn to_string(&self) -> (text: String)
        ensures
            text@ == seconds_text(self@),
    {
        write_seconds(self.as_seconds())
    }
}

impl SimDuration {
    /// The duration as text, e.g. `60s`.
    pub fn to_string(&self) -> (text: String)
        ensures
            text@ == seconds_text(self@),
    {
        write_seconds(self.as_seconds())
    }
}

impl InvalidSimDuration {
    /// The message of this failure.
    pub fn to_string(&self) -> (text: String)
        ensures
            text@ == "simulation duration cannot be negative: "@ + seconds_text(self@),
    {
        "simulation duration cannot be negative: ".to_owned().concat(
            write_seconds(self.seconds()).as_str(),
        )
    }
}

/// The message of a clock failure.
pub open spec fn clock_error_text(error: SimClockError) -> Seq<char> {
    match error {
        SimClockError::Overflow => "simulation clock overflow"@,
        SimClockError::TimeReversal { current, requested } => "simulation time cannot move backward from "@
            + seconds_text(current@) + " to "@ + seconds_text(requested@),
    }
}

impl SimClockError {
    /// The message of this failure.
    pub fn to_string(&self) -> (text: String)
        ensures
            text@ == clock_error_text(*self),
    {
        match self {
            SimClockError::Overflow => "simulation clock overflow".to_owned(),
            SimClockError::TimeReversal { current, requested } => {
                "simulation time cannot move backward from ".to_owned().concat(
                    current.to_string().as_str(),
                ).concat(" to ").concat(requested.to_string().as_str())
            },
        }
    }
}

} // verus!
