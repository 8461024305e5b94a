use vstd::prelude::*;
use crate::constants::ROUND_TIME_IN_SECONDS;
use crate::errors::Errors;
use crate::state::{Identity, Round};
use crate::trace::{step, Op};
use crate::transitions::{
    claim_error, claim_round, pause_error, pause_round, play_error, play_round, score_error,
    score_round, kill_error,
};

verus! {

// Laws relating several operations, stated over the transition model and
// proved once for every record, caller and instant.

/// Inside the grace window the pool belongs to the winner alone. After any
/// committed `play` that leaves a positive deadline, a `claim` within the
/// grace window of that deadline is rejected as `NotWinnerInGracePeriod`
/// whenever the caller is not the recorded winner, and commits — emptying
/// the pool — whenever the caller is the winner.
pub proof fn lemma_grace_claim(pre: Round, now_play: i64, claimer: Identity, now_claim: i64)
    requires
        play_error(pre, now_play) is None,
        play_round(pre, now_play).deadline > 0,
        play_round(pre, now_play).deadline < now_claim,
        now_claim <= play_round(pre, now_play).deadline + ROUND_TIME_IN_SECONDS,
    ensures
        claimer != pre.winner ==> claim_error(play_round(pre, now_play), claimer, now_claim)
            == Some(Errors::NotWinnerInGracePeriod),
        claimer == pre.winner ==> claim_error(play_round(pre, now_play), claimer, now_claim)
            is None,
        claimer == pre.winner ==> claim_round(play_round(pre, now_play), claimer, now_claim).pool
            == 0,
{
}

/// A committed `claim` re-arms the dormant sentinel: it leaves the deadline
/// at zero, and the next committed `play` therefore starts a fresh round
/// whose deadline is its own instant plus one round-length.
pub proof fn lemma_claim_rearms(pre: Round, claimer: Identity, now_claim: i64, now_play: i64)
    requires
        claim_error(pre, claimer, now_claim) is None,
        play_error(claim_round(pre, claimer, now_claim), now_play) is None,
    ensures
        claim_round(pre, claimer, now_claim).deadline == 0,
        play_round(claim_round(pre, claimer, now_claim), now_play).deadline == now_play
            + ROUND_TIME_IN_SECONDS,
{
}

/// Scoring is strict: a value not above the current high score never touches
/// the winner or the score, while a committed `score` with a strictly
/// greater value always installs both the caller and the value.
pub proof fn lemma_score_strictness(pre: Round, player: Identity, value: u16, now: i64)
    ensures
        value <= pre.score ==> score_round(pre, player, value, now) == pre,
        value > pre.score && score_error(pre, now) is None ==> score_round(
            pre,
            player,
            value,
            now,
        ).winner == player && score_round(pre, player, value, now).score == value,
{
}

/// Pausing blocks new plays and scores with the paused error, but does not
/// touch claiming: a `claim` is accepted or rejected exactly as it would
/// have been before the pause, so value already in the pool stays claimable.
pub proof fn lemma_pause_effects(pre: Round, admin: Identity, claimer: Identity, now: i64)
    requires
        pause_error(pre, admin) is None,
    ensures
        play_error(pause_round(pre, admin), now) == Some(Errors::GamePaused),
        score_error(pause_round(pre, admin), now) == Some(Errors::GamePaused),
        claim_error(pause_round(pre, admin), claimer, now) == claim_error(pre, claimer, now),
        claim_error(pre, claimer, now) is None ==> claim_round(
            pause_round(pre, admin),
            claimer,
            now,
        ).pool == 0,
{
}

/// The record can only be decommissioned deliberately and empty-handed:
/// `kill` fails while the game is unpaused whatever the pool holds, fails
/// while the pool is nonempty whatever the pause flag says, and is allowed
/// exactly when the admin calls it on a paused record with an empty pool.
pub proof fn lemma_kill_guards(pre: Round, caller: Identity)
    ensures
        !pre.paused ==> kill_error(pre, caller) is Some,
        pre.pool != 0 ==> kill_error(pre, caller) is Some,
        caller == pre.admin && !pre.paused ==> kill_error(pre, caller) == Some(
            Errors::KillBeforePausing,
        ),
        caller == pre.admin && pre.paused && pre.pool != 0 ==> kill_error(pre, caller) == Some(
            Errors::KillWithPool,
        ),
        kill_error(pre, caller) is None <==> caller == pre.admin && pre.paused && pre.pool == 0,
{
}

/// Balances only ever grow, except for the two sanctioned resets: the pool
/// falls only when a committed `claim` empties it, the commission only when
/// a committed `profit` does.
pub proof fn lemma_balances_monotonic(pre: Round, op: Op)
    requires
        pre.initialized,
    ensures
        step(pre, op).pool >= pre.pool || (op is Claim && step(pre, op).pool == 0),
        step(pre, op).commission >= pre.commission || (op is Profit && step(
            pre,
            op,
        ).commission == 0),
{
}

} // verus!
