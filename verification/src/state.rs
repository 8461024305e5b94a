use vstd::prelude::*;
use crate::constants::ROUND_TIME_IN_SECONDS;

verus! {

/// A caller identity: the 32 bytes of a public key, packed into four 64-bit
/// words. The game only ever compares identities for equality; proving who
/// holds an identity is the surrounding environment's concern.
#[derive(Clone, Copy, Debug, PartialEq, Eq, Structural)]
pub struct Identity {
    pub w0: u64,
    pub w1: u64,
    pub w2: u64,
    pub w3: u64,
}

/// The one persistent record of the competition. Exactly one instance exists
/// per deployment; every operation is an atomic transition against it.
#[derive(Clone, Copy, Debug, PartialEq, Eq, Structural)]
pub struct Round {
    /// Set once by `initialize`; never reverts.
    pub initialized: bool,
    /// Admin-controlled switch that blocks `play` and `score` (but not `claim`).
    pub paused: bool,
    /// The identity allowed to pause, resume, take profit and kill.
    pub admin: Identity,
    /// Holder of the current highest score. Carries over across rounds.
    pub winner: Identity,
    /// The current highest score. Carries over across rounds.
    pub score: u16,
    /// 0 = no active round; otherwise the instant at which playing ends.
    pub deadline: i64,
    /// Value owed to the eventual claimant.
    pub pool: u64,
    /// Value owed to the admin, accrued from fees.
    pub commission: u64,
}

/// The phase of the game, derived from the deadline and the current time.
/// It is computed on every access, never stored.
#[derive(Clone, Copy, Debug, PartialEq, Eq, Structural)]
pub enum Phase {
    /// No round in progress; the next `play` arms a fresh deadline.
    Dormant,
    /// A round is running: plays and scores are accepted.
    Playing,
    /// The deadline has passed; only the recorded winner may claim.
    GraceClaim,
    /// The grace window has passed; anyone may claim.
    OpenClaim,
}

/// Phase derivation over unbounded integers: dormant on the zero sentinel,
/// playing up to the deadline, then one round-length of winner-exclusive
/// claiming, then open claiming forever after.
pub open spec fn spec_phase(deadline: int, now: int) -> Phase {
    if deadline == 0 {
        Phase::Dormant
    } else if now <= deadline {
        Phase::Playing
    } else if now <= deadline + ROUND_TIME_IN_SECONDS {
        Phase::GraceClaim
    } else {
        Phase::OpenClaim
    }
}

impl Round {
    /// The phase this record is in at instant `now`.
    pub open spec fn phase_at(self, now: int) -> Phase {
        spec_phase(self.deadline as int, now)
    }
}

/// Compute the phase at instant `now` for a record whose deadline is
/// `deadline`. A deadline so late that the grace window has no representable
/// end still reads as the grace window, matching the unbounded derivation.
pub fn phase(deadline: i64, now: i64) -> (p: Phase)
    ensures
        p == spec_phase(deadline as int, now as int),
{
    if deadline == 0 {
        Phase::Dormant
    } else if now <= deadline {
        Phase::Playing
    } else {
        match deadline.checked_add(ROUND_TIME_IN_SECONDS) {
            Some(grace_end) => {
                if now <= grace_end {
                    Phase::GraceClaim
                } else {
                    Phase::OpenClaim
                }
            },
            None => Phase::GraceClaim,
        }
    }
}

} // verus!
