use vstd::prelude::*;
use crate::constants::{COMMISSION, FEE, ROUND_TIME_IN_SECONDS};
use crate::errors::Errors;
use crate::state::{Identity, Round};

verus! {

// The mathematical model of the game: for each operation, one spec function
// giving the error it is rejected with (if any) and one giving the record it
// commits. Every executable operation is proved to return and mutate exactly
// what these functions say, and the laws about operation sequences are stated
// over them.

/// True when the record is in either claiming phase at instant `now`, so
/// that playing and scoring are over.
pub open spec fn claiming(pre: Round, now: i64) -> bool {
    pre.phase_at(now as int) is GraceClaim || pre.phase_at(now as int) is OpenClaim
}

/// The deadline a successful `play` runs under: the existing one, or a fresh
/// `now + ROUND_TIME_IN_SECONDS` when the record is dormant (unbounded, so
/// arming past the representable range can be stated as an overflow).
pub open spec fn armed_deadline(pre: Round, now: i64) -> int {
    if pre.deadline == 0 {
        now + ROUND_TIME_IN_SECONDS
    } else {
        pre.deadline as int
    }
}

/// Why `initialize` is rejected, or `None` when it commits.
pub open spec fn initialize_error(pre: Round) -> Option<Errors> {
    if pre.initialized {
        Some(Errors::RoundAlreadyInitialized)
    } else {
        None
    }
}

/// The record after `initialize`: set up for the caller as admin, every
/// numeric field zeroed. A rejected `initialize` changes nothing.
pub open spec fn initialize_round(pre: Round, caller: Identity) -> Round {
    if initialize_error(pre) is Some {
        pre
    } else {
        Round {
            initialized: true,
            paused: false,
            admin: caller,
            winner: pre.winner,
            score: 0,
            deadline: 0,
            pool: 0,
            commission: 0,
        }
    }
}

/// Why `play` is rejected, or `None` when it commits: the game must not be
/// paused, the record must not be in a claiming phase, and arming the
/// deadline and crediting the fee must fit their types.
pub open spec fn play_error(pre: Round, now: i64) -> Option<Errors> {
    if pre.paused {
        Some(Errors::GamePaused)
    } else if claiming(pre, now) {
        Some(Errors::PlayInClaimingPhase)
    } else if armed_deadline(pre, now) > i64::MAX {
        Some(Errors::Overflow)
    } else if pre.pool + (FEE - COMMISSION) > u64::MAX {
        Some(Errors::Overflow)
    } else if pre.commission + COMMISSION > u64::MAX {
        Some(Errors::Overflow)
    } else {
        None
    }
}

/// The record after `play`: the deadline armed if the record was dormant, the
/// pool's share of the fee credited to the pool and the rest to the
/// commission. A rejected `play` changes nothing.
pub open spec fn play_round(pre: Round, now: i64) -> Round {
    if play_error(pre, now) is Some {
        pre
    } else {
        Round {
            deadline: armed_deadline(pre, now) as i64,
            pool: (pre.pool + (FEE - COMMISSION)) as u64,
            commission: (pre.commission + COMMISSION) as u64,
            ..pre
        }
    }
}

/// Why `score` is rejected, or `None` when it commits: the game must not be
/// paused, a round must be active, and its deadline must not have passed.
pub open spec fn score_error(pre: Round, now: i64) -> Option<Errors> {
    if pre.paused {
        Some(Errors::GamePaused)
    } else if pre.deadline == 0 {
        Some(Errors::ScoreWithoutRound)
    } else if claiming(pre, now) {
        Some(Errors::ScoreInClaimingPhase)
    } else {
        None
    }
}

/// The record after `score`: a strictly higher value installs the caller as
/// winner; a tie or lower value leaves the incumbent in place. A rejected
/// `score` changes nothing.
pub open spec fn score_round(pre: Round, caller: Identity, value: u16, now: i64) -> Round {
    if score_error(pre, now) is Some {
        pre
    } else if value > pre.score {
        Round { score: value, winner: caller, ..pre }
    } else {
        pre
    }
}

/// Why `claim` is rejected, or `None` when it commits: a round must have a
/// positive deadline, the pool must hold value, the deadline must have been
/// reached, and within the grace window only the recorded winner qualifies.
pub open spec fn claim_error(pre: Round, caller: Identity, now: i64) -> Option<Errors> {
    if pre.deadline <= 0 {
        Some(Errors::ClaimWithoutRound)
    } else if pre.pool == 0 {
        Some(Errors::PoolEmpty)
    } else if now < pre.deadline {
        Some(Errors::ClaimInPlayingPhase)
    } else if now <= pre.deadline + ROUND_TIME_IN_SECONDS && caller != pre.winner {
        Some(Errors::NotWinnerInGracePeriod)
    } else {
        None
    }
}

/// The value a successful `claim` pays out: the whole pool.
pub open spec fn claim_payout(pre: Round) -> u64 {
    pre.pool
}

/// The record after `claim`: the pool emptied and the deadline reset to the
/// dormant sentinel, so the next `play` arms a fresh round. Winner and score
/// carry over. A rejected `claim` changes nothing.
pub open spec fn claim_round(pre: Round, caller: Identity, now: i64) -> Round {
    if claim_error(pre, caller, now) is Some {
        pre
    } else {
        Round { pool: 0, deadline: 0, ..pre }
    }
}

/// Why `pause` is rejected, or `None` when it commits: admin only, and the
/// game must currently be running.
pub open spec fn pause_error(pre: Round, caller: Identity) -> Option<Errors> {
    if caller != pre.admin {
        Some(Errors::NotAdmin)
    } else if pre.paused {
        Some(Errors::GamePaused)
    } else {
        None
    }
}

/// The record after `pause`. A rejected `pause` changes nothing.
pub open spec fn pause_round(pre: Round, caller: Identity) -> Round {
    if pause_error(pre, caller) is Some {
        pre
    } else {
        Round { paused: true, ..pre }
    }
}

/// Why `resume` is rejected, or `None` when it commits: admin only, and the
/// game must currently be paused.
pub open spec fn resume_error(pre: Round, caller: Identity) -> Option<Errors> {
    if caller != pre.admin {
        Some(Errors::NotAdmin)
    } else if !pre.paused {
        Some(Errors::GameNotPaused)
    } else {
        None
    }
}

/// The record after `resume`. A rejected `resume` changes nothing.
pub open spec fn resume_round(pre: Round, caller: Identity) -> Round {
    if resume_error(pre, caller) is Some {
        pre
    } else {
        Round { paused: false, ..pre }
    }
}

/// Why `profit` is rejected, or `None` when it commits: admin only, and the
/// commission must hold value.
pub open spec fn profit_error(pre: Round, caller: Identity) -> Option<Errors> {
    if caller != pre.admin {
        Some(Errors::NotAdmin)
    } else if pre.commission == 0 {
        Some(Errors::ProfitEmpty)
    } else {
        None
    }
}

/// The value a successful `profit` pays out: the whole commission.
pub open spec fn profit_payout(pre: Round) -> u64 {
    pre.commission
}

/// The record after `profit`: the commission emptied. A rejected `profit`
/// changes nothing.
pub open spec fn profit_round(pre: Round, caller: Identity) -> Round {
    if profit_error(pre, caller) is Some {
        pre
    } else {
        Round { commission: 0, ..pre }
    }
}

/// Why `kill` is rejected, or `None` when the record may be destroyed: admin
/// only, the game must be paused, and the pool must be empty. The commission
/// need not be empty; whatever it holds goes down with the record.
pub open spec fn kill_error(pre: Round, caller: Identity) -> Option<Errors> {
    if caller != pre.admin {
        Some(Errors::NotAdmin)
    } else if !pre.paused {
        Some(Errors::KillBeforePausing)
    } else if pre.pool != 0 {
        Some(Errors::KillWithPool)
    } else {
        None
    }
}

} // verus!
