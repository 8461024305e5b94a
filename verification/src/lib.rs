pub mod constants;
pub mod errors;
pub mod laws;
pub mod state;
pub mod trace;
pub mod transitions;

use vstd::prelude::*;
use crate::constants::{COMMISSION, FEE, ROUND_TIME_IN_SECONDS};
use crate::errors::Errors;
use crate::state::{Identity, Round};
use crate::transitions::{
    claim_error, claim_payout, claim_round, initialize_error, initialize_round, kill_error,
    pause_error, pause_round, play_error, play_round, profit_error, profit_payout, profit_round,
    resume_error, resume_round, score_error, score_round,
};

verus! {

// The eight operations of the competition. Each one is an atomic transition
// against the single Round record: either every mutation it describes
// commits, or the record is returned exactly as it was together with the
// error that names the violated precondition. The caller identity each
// operation receives is assumed authenticated by the surrounding
// environment; value transfers decided here (the entry fee owed on a
// successful `play`, the payouts returned by `claim` and `profit`) are
// performed by that environment as well.

/// Split an entry fee between the pool and the admin's commission: a tenth
/// of it, rounded down, becomes commission; the rest, remainder included,
/// goes to the pool.
pub fn split_fee(fee: u64) -> (parts: (u64, u64))
    ensures
        parts.0 == fee - fee / 10,
        parts.1 == fee / 10,
{
    let commission_amount: u64 = fee / 10;
    (fee - commission_amount, commission_amount)
}

/// Set a freshly allocated record up: mark it initialized, make the caller
/// its admin, and zero every numeric field. Rejected once the record is
/// initialized, so admin and balances can never be overwritten.
pub fn initialize(round: &mut Round, initializer: Identity) -> (r: Result<(), Errors>)
    ensures
        *final(round) == initialize_round(*old(round), initializer),
        match r {
            Ok(()) => initialize_error(*old(round)) is None,
            Err(e) => initialize_error(*old(round)) == Some(e),
        },
{
    if round.initialized {
        return Err(Errors::RoundAlreadyInitialized);
    }
    round.initialized = true;
    round.paused = false;
    round.admin = initializer;
    round.score = 0;
    round.deadline = 0;
    round.pool = 0;
    round.commission = 0;
    Ok(())
}

/// Pay the entry fee into the current round, arming a fresh deadline of
/// `now + ROUND_TIME_IN_SECONDS` first when the record is dormant. On
/// success the caller owes the record exactly `FEE`, of which the pool is
/// credited `FEE - COMMISSION` and the commission `COMMISSION`. Rejected
/// while paused, once the deadline has passed, and when arming or crediting
/// would overflow.
pub fn play(round: &mut Round, now: i64) -> (r: Result<(), Errors>)
    ensures
        *final(round) == play_round(*old(round), now),
        match r {
            Ok(()) => play_error(*old(round), now) is None,
            Err(e) => play_error(*old(round), now) == Some(e),
        },
        r is Ok ==> final(round).deadline >= now,
{
    if round.paused {
        return Err(Errors::GamePaused);
    }
    if round.deadline != 0 && now > round.deadline {
        return Err(Errors::PlayInClaimingPhase);
    }
    let deadline: i64 = if round.deadline == 0 {
        match now.checked_add(ROUND_TIME_IN_SECONDS) {
            Some(armed) => armed,
            None => {
                return Err(Errors::Overflow);
            },
        }
    } else {
        round.deadline
    };
    let (pool_amount, commission_amount) = split_fee(FEE);
    let new_pool: u64 = match round.pool.checked_add(pool_amount) {
        Some(p) => p,
        None => {
            return Err(Errors::Overflow);
        },
    };
    let new_commission: u64 = match round.commission.checked_add(commission_amount) {
        Some(c) => c,
        None => {
            return Err(Errors::Overflow);
        },
    };
    round.deadline = deadline;
    round.pool = new_pool;
    round.commission = new_commission;
    Ok(())
}

/// Submit a score for the running round. A value strictly above the current
/// high score installs the caller as winner; a tie or lower value changes
/// nothing. Rejected while paused, while no round is active, and once the
/// deadline has passed. No fee is charged.
pub fn score(round: &mut Round, player: Identity, value: u16, now: i64) -> (r: Result<(), Errors>)
    ensures
        *final(round) == score_round(*old(round), player, value, now),
        match r {
            Ok(()) => score_error(*old(round), now) is None,
            Err(e) => score_error(*old(round), now) == Some(e),
        },
{
    if round.paused {
        return Err(Errors::GamePaused);
    }
    if round.deadline == 0 {
        return Err(Errors::ScoreWithoutRound);
    }
    if now > round.deadline {
        return Err(Errors::ScoreInClaimingPhase);
    }
    if value > round.score {
        round.score = value;
        round.winner = player;
    }
    Ok(())
}

/// Withdraw the pool once the round's deadline has been reached. Within the
/// grace window (one round-length after the deadline) only the recorded
/// winner qualifies; after it, anyone does. On success the returned amount,
/// the whole pool, is owed to the caller; the pool is emptied and the
/// deadline reset to the dormant sentinel. Winner and score carry over into
/// the next round. Pausing does not block claiming.
pub fn claim(round: &mut Round, player: Identity, now: i64) -> (r: Result<u64, Errors>)
    ensures
        *final(round) == claim_round(*old(round), player, now),
        match r {
            Ok(amount) => claim_error(*old(round), player, now) is None && amount
                == claim_payout(*old(round)),
            Err(e) => claim_error(*old(round), player, now) == Some(e),
        },
{
    if round.deadline <= 0 {
        return Err(Errors::ClaimWithoutRound);
    }
    if round.pool == 0 {
        return Err(Errors::PoolEmpty);
    }
    if now < round.deadline {
        return Err(Errors::ClaimInPlayingPhase);
    }
    let in_grace_window: bool = match round.deadline.checked_add(ROUND_TIME_IN_SECONDS) {
        Some(grace_end) => now <= grace_end,
        None => true,
    };
    if in_grace_window && player != round.winner {
        return Err(Errors::NotWinnerInGracePeriod);
    }
    let amount: u64 = round.pool;
    round.pool = 0;
    round.deadline = 0;
    Ok(amount)
}

/// Pause the game, blocking `play` and `score` but not `claim`: value
/// already in the pool stays claimable. Admin only; rejected while already
/// paused.
pub fn pause(round: &mut Round, caller: Identity) -> (r: Result<(), Errors>)
    ensures
        *final(round) == pause_round(*old(round), caller),
        match r {
            Ok(()) => pause_error(*old(round), caller) is None,
            Err(e) => pause_error(*old(round), caller) == Some(e),
        },
{
    if caller != round.admin {
        return Err(Errors::NotAdmin);
    }
    if round.paused {
        return Err(Errors::GamePaused);
    }
    round.paused = true;
    Ok(())
}

/// Resume a paused game, letting `play` and `score` through again. Admin
/// only; rejected while not paused.
pub fn resume(round: &mut Round, caller: Identity) -> (r: Result<(), Errors>)
    ensures
        *final(round) == resume_round(*old(round), caller),
        match r {
            Ok(()) => resume_error(*old(round), caller) is None,
            Err(e) => resume_error(*old(round), caller) == Some(e),
        },
{
    if caller != round.admin {
        return Err(Errors::NotAdmin);
    }
    if !round.paused {
        return Err(Errors::GameNotPaused);
    }
    round.paused = false;
    Ok(())
}

/// Withdraw the accrued commission. Admin only; rejected while the
/// commission is empty. On success the returned amount, the whole
/// commission, is owed to the admin and the commission is emptied.
pub fn profit(round: &mut Round, caller: Identity) -> (r: Result<u64, Errors>)
    ensures
        *final(round) == profit_round(*old(round), caller),
        match r {
            Ok(amount) => profit_error(*old(round), caller) is None && amount
                == profit_payout(*old(round)),
            Err(e) => profit_error(*old(round), caller) == Some(e),
        },
{
    if caller != round.admin {
        return Err(Errors::NotAdmin);
    }
    if round.commission == 0 {
        return Err(Errors::ProfitEmpty);
    }
    let amount: u64 = round.commission;
    round.commission = 0;
    Ok(amount)
}

/// Decide whether the record may be decommissioned: admin only, the game
/// must already be paused, and the pool must be empty. The commission need
/// not be: whatever it still holds is surrendered with the record. On `Ok`
/// the environment destroys the record and returns its storage allowance to
/// the admin; no operation touches it afterwards.
pub fn kill(round: &Round, caller: Identity) -> (r: Result<(), Errors>)
    ensures
        match r {
            Ok(()) => kill_error(*round, caller) is None,
            Err(e) => kill_error(*round, caller) == Some(e),
        },
{
    if caller != round.admin {
        return Err(Errors::NotAdmin);
    }
    if !round.paused {
        return Err(Errors::KillBeforePausing);
    }
    if round.pool != 0 {
        return Err(Errors::KillWithPool);
    }
    Ok(())
}

} // verus!
