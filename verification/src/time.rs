//! Spans of time.

use vstd::prelude::*;

verus! {

/// A span of time in whole seconds.
#[derive(Copy, Clone, Debug, PartialEq, Eq, Structural)]
pub struct Seconds(pub u16);

impl Seconds {
    /// Whether the span is empty.
    pub fn is_zero(self) -> (r: bool)
        ensures
            r == (self.0 == 0),
    {
        self.0 == 0
    }

    /// Sum of two spans, at most the longest one.
    pub fn plus(self, other: Seconds) -> (r: Seconds)
        ensures
            r == saturating_seconds(self.0 + other.0),
    {
        Seconds(self.0.saturating_add(other.0))
    }
}

/// A span of whole seconds, cut off at the longest one.
pub open spec fn saturating_seconds(n: int) -> Seconds {
    if n > u16::MAX {
        Seconds(u16::MAX)
    } else {
        Seconds(n as u16)
    }
}

/// A span of time in milliseconds.
#[derive(Copy, Clone, Debug, PartialEq, Eq, Structural)]
pub struct Millis(pub u32);

impl Millis {
    /// Whether the span is empty.
    pub fn is_zero(self) -> (r: bool)
        ensures
            r == (self.0 == 0),
    {
        self.0 == 0
    }

    /// The same span in milliseconds.
    pub fn from_seconds(s: Seconds) -> (r: Millis)
        ensures
            r.0 == s.0 * 1000,
    {
        Millis(s.0 as u32 * 1000)
    }
}

} // verus!
