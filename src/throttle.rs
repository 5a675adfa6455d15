//! The mouse-move throttle: the time of the last accepted move.
use vstd::prelude::*;

verus! {

/// The minimum spacing between two accepted moves, in nanoseconds
/// (16 ms, about sixty moves a second).
pub const THROTTLE_INTERVAL_NS: u64 = 16_000_000;

/// When the last mouse move was accepted, in nanoseconds on the caller's
/// monotonic clock; `None` before any.
#[derive(Clone, Copy, Debug, PartialEq, Eq, Structural)]
pub struct Throttle {
    pub last_accepted: Option<u64>,
}

impl Throttle {
    /// Whether a move at `now` is far enough from the last accepted one.
    /// Time before the last accepted move counts as no time at all.
    pub open spec fn admits(self, now: u64) -> bool {
        match self.last_accepted {
            None => true,
            Some(last) => now as int - last as int >= THROTTLE_INTERVAL_NS as int,
        }
    }

    /// The state after a move at `now` was offered.
    pub open spec fn after(self, now: u64) -> Throttle {
        if self.admits(now) {
            Throttle { last_accepted: Some(now) }
        } else {
            self
        }
    }

    /// A throttle that has accepted nothing yet.
    pub fn new() -> (r: Throttle)
        ensures
            r.last_accepted is None,
    {
        Throttle { last_accepted: None }
    }

    /// A throttle that counts `now` as its last accepted move, as at startup.
    pub fn started_at(now: u64) -> (r: Throttle)
        ensures
            r.last_accepted == Some(now),
    {
        Throttle { last_accepted: Some(now) }
    }

    /// Offers a move at `now`: accepts it and records `now` when the interval
    /// has elapsed since the last accepted move, else leaves the state alone.
    pub fn offer(&mut self, now: u64) -> (r: bool)
        ensures
            r == old(self).admits(now),
            *final(self) == old(self).after(now),
    {
        let ok = match self.last_accepted {
            None => true,
            Some(last) => now.saturating_sub(last) >= THROTTLE_INTERVAL_NS,
        };
        if ok {
            self.last_accepted = Some(now);
        }
        ok
    }
}

} // verus!
