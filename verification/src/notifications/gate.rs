//! The delays that the server imposes on the polls of one account.

use vstd::prelude::*;

use crate::clock;
use crate::clock::{Moment, ServerDelay};

verus! {

#[derive(Clone, Copy, Debug, PartialEq, Eq, Structural)]
pub enum ServerGateReason {
    PollInterval,
    RateLimit,
}

#[derive(Clone, Copy, Debug, PartialEq, Eq, Structural)]
pub struct NotificationServerGate {
    pub not_before: Option<Moment>,
    pub suspended: bool,
    pub reason: Option<ServerGateReason>,
}

/// A gate that lets every poll through.
pub open spec fn open_gate() -> NotificationServerGate {
    NotificationServerGate { not_before: None, suspended: false, reason: None }
}

impl NotificationServerGate {
    pub fn new() -> (r: Self)
        ensures
            r == open_gate(),
    {
        NotificationServerGate { not_before: None, suspended: false, reason: None }
    }

    pub open spec fn lets_through(self, now: Moment) -> bool {
        !self.suspended && (self.not_before matches Some(end) ==> !now.before(end))
    }

    pub fn allows(&self, now: Moment) -> (r: bool)
        ensures
            r == self.lets_through(now),
    {
        !self.suspended && (match self.not_before {
            Some(end) => !now.is_before(&end),
            None => true,
        })
    }

    /// What a delay leaves: a delay whose end the clock cannot name suspends, another
    /// moves the end of the present one only to a later moment.
    pub open spec fn delayed(
        self,
        delay: ServerDelay,
        reason: ServerGateReason,
        now: Moment,
        wall: Option<u64>,
    ) -> NotificationServerGate {
        match clock::deadline_of(delay, now, wall) {
            None => NotificationServerGate { suspended: true, reason: Some(reason), ..self },
            Some(end) => if self.not_before matches Some(current) && !current.before(end) {
                self
            } else {
                NotificationServerGate { not_before: Some(end), reason: Some(reason), ..self }
            },
        }
    }

    pub fn apply(
        &mut self,
        delay: &ServerDelay,
        reason: ServerGateReason,
        now: Moment,
        wall: Option<u64>,
    )
        ensures
            *final(self) == old(self).delayed(*delay, reason, now, wall),
    {
        match clock::deadline(delay, now, wall) {
            None => {
                self.suspended = true;
                self.reason = Some(reason);
            },
            Some(end) => {
                let later: bool = match self.not_before {
                    Some(current) => current.is_before(&end),
                    None => true,
                };
                if later {
                    self.not_before = Some(end);
                    self.reason = Some(reason);
                }
            },
        }
    }

    pub open spec fn notice_of(self, now: Moment) -> Option<Seq<char>> {
        if self.lets_through(now) {
            None
        } else {
            match (self.suspended, self.reason) {
                (true, Some(ServerGateReason::PollInterval)) => Some(
                    "Notification polling is paused because GitHub returned an unrepresentable polling interval."@,
                ),
                (true, Some(ServerGateReason::RateLimit)) => Some(
                    "Notification polling is paused because GitHub returned an unrepresentable rate-limit delay."@,
                ),
                (false, Some(ServerGateReason::PollInterval)) => Some(
                    "Notification refresh is deferred by GitHub's polling interval."@,
                ),
                (false, Some(ServerGateReason::RateLimit)) => Some(
                    "Notification refresh is deferred by GitHub rate limiting."@,
                ),
                _ => None,
            }
        }
    }

    pub fn notice(&self, now: Moment) -> (r: Option<&'static str>)
        ensures
            match r {
                Some(s) => self.notice_of(now) == Some(s@),
                None => self.notice_of(now) is None,
            },
    {
        if self.allows(now) {
            return None;
        }
        match (self.suspended, self.reason) {
            (true, Some(ServerGateReason::PollInterval)) => Some(
                "Notification polling is paused because GitHub returned an unrepresentable polling interval.",
            ),
            (true, Some(ServerGateReason::RateLimit)) => Some(
                "Notification polling is paused because GitHub returned an unrepresentable rate-limit delay.",
            ),
            (false, Some(ServerGateReason::PollInterval)) => Some(
                "Notification refresh is deferred by GitHub's polling interval.",
            ),
            (false, Some(ServerGateReason::RateLimit)) => Some(
                "Notification refresh is deferred by GitHub rate limiting.",
            ),
            _ => None,
        }
    }
}

/// A delay never lets a poll through that was held back before.
pub proof fn law_delay_never_shortens(
    gate: NotificationServerGate,
    delay: ServerDelay,
    reason: ServerGateReason,
    now: Moment,
    wall: Option<u64>,
    at: Moment,
)
    requires
        gate.delayed(delay, reason, now, wall).lets_through(at),
    ensures
        gate.lets_through(at),
{
}

/// A gate that was suspended stays suspended.
pub proof fn law_suspension_stays(
    gate: NotificationServerGate,
    delay: ServerDelay,
    reason: ServerGateReason,
    now: Moment,
    wall: Option<u64>,
)
    requires
        gate.suspended,
    ensures
        gate.delayed(delay, reason, now, wall).suspended,
{
}

} // verus!
