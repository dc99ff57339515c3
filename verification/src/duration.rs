//! An elapsed-time value with decisecond resolution.
//!
//! The clock never shows more than 99 hours, 59 minutes and 59 seconds, so
//! every value of [`DurationEx`] stays within that bound: the arithmetic
//! saturates at zero on the way down and at the maximum on the way up.

use vstd::prelude::*;

verus! {

/// Deciseconds in one second.
pub const DECIS_PER_SECOND: u64 = 10;

/// Deciseconds in one minute.
pub const DECIS_PER_MINUTE: u64 = 600;

/// Deciseconds in one hour.
pub const DECIS_PER_HOUR: u64 = 36000;

/// The largest displayable value, 99:59:59, in deciseconds.
pub const MAX_DECIS: u64 = 100 * 36000 - 10;

/// An elapsed time, counted in deciseconds, at most [`MAX_DECIS`].
#[derive(Debug, Clone, Copy, PartialEq, Eq, Structural)]
pub struct DurationEx {
    decis: u64,
}

impl View for DurationEx {
    type V = int;

    closed spec fn view(&self) -> int {
        self.decis as int
    }
}

impl DurationEx {
    #[verifier::type_invariant]
    spec fn bounded(self) -> bool {
        self.decis <= MAX_DECIS
    }

    /// A value of `d` deciseconds, clamped to the displayable maximum.
    pub fn from_decis(d: u64) -> (r: Self)
        ensures
            r@ == if d <= MAX_DECIS { d as int } else { MAX_DECIS as int },
    {
        Self { decis: if d <= MAX_DECIS { d } else { MAX_DECIS } }
    }

    /// A value of `s` whole seconds, clamped to the displayable maximum.
    pub fn from_secs(s: u64) -> (r: Self)
        ensures
            r@ == if s * 10 <= MAX_DECIS { s * 10 } else { MAX_DECIS as int },
    {
        if s <= MAX_DECIS / 10 {
            Self { decis: s * 10 }
        } else {
            Self { decis: MAX_DECIS }
        }
    }

    /// A value of `ms` milliseconds, rounded down to whole deciseconds and
    /// clamped to the displayable maximum.
    pub fn from_millis(ms: u64) -> (r: Self)
        ensures
            r@ == if ms / 100 <= MAX_DECIS { (ms / 100) as int } else { MAX_DECIS as int },
    {
        let d = ms / 100;
        Self { decis: if d <= MAX_DECIS { d } else { MAX_DECIS } }
    }

    /// The whole value in deciseconds.
    pub fn total_decis(&self) -> (r: u64)
        ensures
            r == self@,
    {
        self.decis
    }

    /// The whole value in milliseconds.
    pub fn millis(&self) -> (r: u64)
        ensures
            r == self@ * 100,
            0 <= self@ <= MAX_DECIS,
    {
        proof {
            use_type_invariant(self);
        }
        self.decis * 100
    }

    /// Whole hours; at most 99.
    pub fn hours(&self) -> (r: u64)
        ensures
            r == self@ / (DECIS_PER_HOUR as int),
            r <= 99,
    {
        proof {
            use_type_invariant(self);
        }
        self.decis / DECIS_PER_HOUR
    }

    /// Whole minutes (not reduced modulo an hour).
    pub fn minutes(&self) -> (r: u64)
        ensures
            r == self@ / (DECIS_PER_MINUTE as int),
    {
        self.decis / DECIS_PER_MINUTE
    }

    /// Minutes within the hour; at most 59.
    pub fn minutes_mod(&self) -> (r: u64)
        ensures
            r == (self@ / (DECIS_PER_MINUTE as int)) % 60,
            r <= 59,
    {
        (self.decis / DECIS_PER_MINUTE) % 60
    }

    /// Whole seconds (not reduced modulo a minute).
    pub fn seconds(&self) -> (r: u64)
        ensures
            r == self@ / (DECIS_PER_SECOND as int),
    {
        self.decis / DECIS_PER_SECOND
    }

    /// Seconds within the minute; at most 59.
    pub fn seconds_mod(&self) -> (r: u64)
        ensures
            r == (self@ / (DECIS_PER_SECOND as int)) % 60,
            r <= 59,
    {
        (self.decis / DECIS_PER_SECOND) % 60
    }

    /// Deciseconds within the second; at most 9.
    pub fn decis(&self) -> (r: u64)
        ensures
            r == self@ % 10,
            r <= 9,
    {
        self.decis % 10
    }

    /// True exactly when the two values are the same duration.
    pub fn eq(&self, other: &Self) -> (r: bool)
        ensures
            r == (self@ == other@),
    {
        self.decis == other.decis
    }

    /// True on the zero value.
    pub fn is_zero(&self) -> (r: bool)
        ensures
            r == (self@ == 0),
            0 <= self@ <= MAX_DECIS,
    {
        proof {
            use_type_invariant(self);
        }
        self.decis == 0
    }

    /// Addition, saturating at the displayable maximum.
    pub fn saturating_add(self, other: Self) -> (r: Self)
        ensures
            r@ == if self@ + other@ <= MAX_DECIS { self@ + other@ } else { MAX_DECIS as int },
            0 <= self@ <= MAX_DECIS && 0 <= other@ <= MAX_DECIS,
    {
        proof {
            use_type_invariant(&self);
            use_type_invariant(&other);
        }
        let sum = self.decis + other.decis;
        Self { decis: if sum <= MAX_DECIS { sum } else { MAX_DECIS } }
    }

    /// Subtraction, saturating at zero.
    pub fn saturating_sub(self, other: Self) -> (r: Self)
        ensures
            r@ == if self@ >= other@ { self@ - other@ } else { 0 },
            0 <= self@ <= MAX_DECIS && 0 <= other@ <= MAX_DECIS,
    {
        proof {
            use_type_invariant(&self);
            use_type_invariant(&other);
        }
        Self { decis: if self.decis >= other.decis { self.decis - other.decis } else { 0 } }
    }

    /// True when `self` is at most `other`.
    pub fn le(&self, other: &Self) -> (r: bool)
        ensures
            r == (self@ <= other@),
    {
        self.decis <= other.decis
    }

    /// True when `self` is strictly below `other`.
    pub fn lt(&self, other: &Self) -> (r: bool)
        ensures
            r == (self@ < other@),
    {
        self.decis < other.decis
    }

    /// True when `self` is at least `other`.
    pub fn ge(&self, other: &Self) -> (r: bool)
        ensures
            r == (self@ >= other@),
    {
        self.decis >= other.decis
    }

    /// True when `self` is strictly above `other`.
    pub fn gt(&self, other: &Self) -> (r: bool)
        ensures
            r == (self@ > other@),
    {
        self.decis > other.decis
    }
}

} // verus!
