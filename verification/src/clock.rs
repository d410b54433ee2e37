//! Moments of a monotonic clock and the delays that a server asks for.

use vstd::prelude::*;

verus! {

/// The last second that a moment can name.
pub const LAST_SECOND: u64 = 0x7fff_ffff_ffff_ffff;

/// A moment of a monotonic clock, counted from some fixed start.
#[derive(Clone, Copy, Debug, PartialEq, Eq, Structural)]
pub struct Moment {
    pub secs: u64,
    pub nanos: u32,
}

impl Moment {
    pub open spec fn before(self, other: Moment) -> bool {
        self.secs < other.secs || (self.secs == other.secs && self.nanos < other.nanos)
    }

    pub fn is_before(&self, other: &Moment) -> (r: bool)
        ensures
            r == self.before(*other),
    {
        self.secs < other.secs || (self.secs == other.secs && self.nanos < other.nanos)
    }

    /// The moment some whole seconds later, where the clock can name it.
    pub open spec fn later(self, seconds: u64) -> Option<Moment> {
        if self.secs + seconds <= LAST_SECOND {
            Some(Moment { secs: (self.secs + seconds) as u64, nanos: self.nanos })
        } else {
            None
        }
    }

    pub fn plus(&self, seconds: u64) -> (r: Option<Moment>)
        ensures
            r == self.later(seconds),
    {
        if self.secs <= LAST_SECOND && seconds <= LAST_SECOND - self.secs {
            Some(Moment { secs: self.secs + seconds, nanos: self.nanos })
        } else {
            None
        }
    }
}

/// How long a server asks to be left alone.
#[derive(Clone, Copy, Debug, PartialEq, Eq, Structural)]
pub enum ServerDelay {
    Seconds(u64),
    UntilUnixSeconds(u64),
    Suspend,
}

/// The moment at which a delay ends, where there is one that the clock can name. `wall` is
/// the wall clock in whole seconds since the Unix epoch, where it is not before the epoch.
pub open spec fn deadline_of(delay: ServerDelay, now: Moment, wall: Option<u64>) -> Option<Moment> {
    match delay {
        ServerDelay::Seconds(seconds) => now.later(seconds),
        ServerDelay::UntilUnixSeconds(unix) => match wall {
            Some(w) => now.later(if unix >= w { (unix - w) as u64 } else { 0 }),
            None => None,
        },
        ServerDelay::Suspend => None,
    }
}

pub fn deadline(delay: &ServerDelay, now: Moment, wall: Option<u64>) -> (r: Option<Moment>)
    ensures
        r == deadline_of(*delay, now, wall),
{
    match *delay {
        ServerDelay::Seconds(seconds) => now.plus(seconds),
        ServerDelay::UntilUnixSeconds(unix) => match wall {
            Some(w) => now.plus(unix.saturating_sub(w)),
            None => None,
        },
        ServerDelay::Suspend => None,
    }
}

/// A delay never ends before it begins.
pub proof fn law_deadline_is_not_past(delay: ServerDelay, now: Moment, wall: Option<u64>)
    ensures
        deadline_of(delay, now, wall) matches Some(end) ==> !end.before(now),
{
}

} // verus!
