//! Spans of time and the timers that measure them.

use vstd::prelude::*;

verus! {

/// The longest span that a standard duration can hold, in nanoseconds.
pub const MAX_NANOSECONDS: u128 = 18_446_744_073_709_551_615_999_999_999;

/// A span of time, or the time since startup.
#[derive(Clone, Copy, Debug, PartialEq, Eq, Structural)]
pub struct TimeSpan {
    nanoseconds: u128,
}

impl View for TimeSpan {
    type V = int;

    closed spec fn view(&self) -> int {
        self.nanoseconds as int
    }
}

/// The sum of two spans, at most the longest one.
pub open spec fn saturating_sum(a: int, b: int) -> int {
    if a + b > MAX_NANOSECONDS {
        MAX_NANOSECONDS as int
    } else {
        a + b
    }
}

impl TimeSpan {
    #[verifier::type_invariant]
    spec fn is_representable(&self) -> bool {
        self.nanoseconds <= MAX_NANOSECONDS
    }

    /// The span of this many nanoseconds, at most the longest one.
    pub fn from_nanoseconds(nanoseconds: u128) -> (result: Self)
        ensures
            result@ == if nanoseconds > MAX_NANOSECONDS {
                MAX_NANOSECONDS as int
            } else {
                nanoseconds as int
            },
    {
        if nanoseconds > MAX_NANOSECONDS {
            TimeSpan { nanoseconds: MAX_NANOSECONDS }
        } else {
            TimeSpan { nanoseconds }
        }
    }

    /// The span of this many milliseconds.
    pub fn from_milliseconds(milliseconds: u64) -> (result: Self)
        ensures
            result@ == milliseconds * 1_000_000,
    {
        TimeSpan { nanoseconds: milliseconds as u128 * 1_000_000 }
    }

    /// The span in nanoseconds.
    pub fn nanoseconds(self) -> (result: u128)
        ensures
            result == self@,
            result <= MAX_NANOSECONDS,
    {
        proof {
            use_type_invariant(self);
        }
        self.nanoseconds
    }

    /// This span and then `other`, at most the longest span.
    pub fn saturating_add(self, other: TimeSpan) -> (result: Self)
        ensures
            result@ == saturating_sum(self@, other@),
    {
        proof {
            use_type_invariant(self);
            use_type_invariant(other);
        }
        Self::from_nanoseconds(self.nanoseconds + other.nanoseconds)
    }

    /// Half of this span.
    pub fn half(self) -> (result: Self)
        ensures
            result@ == self@ / 2,
    {
        proof {
            use_type_invariant(self);
        }
        TimeSpan { nanoseconds: self.nanoseconds / 2 }
    }

    /// Whether this span is at least as long as `other`.
    pub fn reaches(self, other: TimeSpan) -> (result: bool)
        ensures
            result == (self@ >= other@),
    {
        self.nanoseconds >= other.nanoseconds
    }
}

/// Whether the operating system still has time to finish some work.
#[derive(Clone, Copy, Debug, PartialEq, Eq, Structural)]
pub enum OperatingSystemWorkDeadlineStatus {
    Pending,
    Expired,
}

/// Hard bound on waiting for the operating system.
#[derive(Clone, Copy, Debug, PartialEq, Eq, Structural)]
pub struct OperatingSystemWorkDeadline {
    limit: TimeSpan,
    elapsed: TimeSpan,
}

impl OperatingSystemWorkDeadline {
    /// How long the operating system may take.
    pub closed spec fn limit(self) -> int {
        self.limit@
    }

    /// How long it has taken so far.
    pub closed spec fn elapsed(self) -> int {
        self.elapsed@
    }

    /// A deadline that starts now.
    pub fn new(limit: TimeSpan) -> (result: Self)
        ensures
            result.limit() == limit@,
            result.elapsed() == 0,
    {
        OperatingSystemWorkDeadline { limit, elapsed: TimeSpan::from_nanoseconds(0) }
    }

    /// Let time pass and say whether the deadline has been reached.
    pub fn advance(&mut self, delta: TimeSpan) -> (status: OperatingSystemWorkDeadlineStatus)
        ensures
            final(self).limit() == old(self).limit(),
            final(self).elapsed() == saturating_sum(old(self).elapsed(), delta@),
            status is Expired <==> final(self).elapsed() >= final(self).limit(),
    {
        self.elapsed = self.elapsed.saturating_add(delta);
        if self.elapsed.reaches(self.limit) {
            OperatingSystemWorkDeadlineStatus::Expired
        } else {
            OperatingSystemWorkDeadlineStatus::Pending
        }
    }
}

/// Whether a window has stayed as it is for long enough.
#[derive(Clone, Copy, Debug, PartialEq, Eq, Structural)]
pub enum WindowStabilityIntervalStatus {
    Settling,
    Stable,
}

/// How long a window has stayed as it is.
#[derive(Clone, Copy, Debug, PartialEq, Eq, Structural)]
pub struct WindowStabilityInterval {
    limit: TimeSpan,
    elapsed: TimeSpan,
}

impl WindowStabilityInterval {
    /// How long the window must stay as it is.
    pub closed spec fn limit(self) -> int {
        self.limit@
    }

    /// How long it has stayed as it is.
    pub closed spec fn elapsed(self) -> int {
        self.elapsed@
    }

    /// An interval that starts now.
    pub fn new(limit: TimeSpan) -> (result: Self)
        ensures
            result.limit() == limit@,
            result.elapsed() == 0,
    {
        WindowStabilityInterval { limit, elapsed: TimeSpan::from_nanoseconds(0) }
    }

    /// Let time pass and say whether the window has been stable for long enough.
    pub fn advance(&mut self, delta: TimeSpan) -> (status: WindowStabilityIntervalStatus)
        ensures
            final(self).limit() == old(self).limit(),
            final(self).elapsed() == saturating_sum(old(self).elapsed(), delta@),
            status is Stable <==> final(self).elapsed() >= final(self).limit(),
    {
        self.elapsed = self.elapsed.saturating_add(delta);
        if self.elapsed.reaches(self.limit) {
            WindowStabilityIntervalStatus::Stable
        } else {
            WindowStabilityIntervalStatus::Settling
        }
    }

    /// Start over, because the window changed.
    pub fn reset(&mut self)
        ensures
            final(self).limit() == old(self).limit(),
            final(self).elapsed() == 0,
    {
        self.elapsed = TimeSpan::from_nanoseconds(0);
    }
}

/// The longest span is as many seconds as 64 bits can count, and one nanosecond short of another. Up to
/// it spans add up, and beyond it they stay there.
pub proof fn spans_add_up_to_the_longest_one(a: int, b: int)
    requires
        0 <= a,
        0 <= b,
    ensures
        MAX_NANOSECONDS == 0xffff_ffff_ffff_ffff * 1_000_000_000 + 999_999_999,
        a + b <= MAX_NANOSECONDS ==> saturating_sum(a, b) == a + b,
        a + b >= MAX_NANOSECONDS ==> saturating_sum(a, b) == MAX_NANOSECONDS,
{
}

} // verus!
