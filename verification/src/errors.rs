use vstd::prelude::*;

verus! {

/// Every way an operation can be rejected. A rejected invocation commits no
/// state change: the record is left exactly as it was.
#[derive(Clone, Copy, Debug, PartialEq, Eq, Structural)]
pub enum Errors {
    /// `initialize` was invoked on a record that is already set up.
    RoundAlreadyInitialized,
    /// `play` or `score` while the game is paused, or `pause` while already paused.
    GamePaused,
    /// `resume` while the game is not paused.
    GameNotPaused,
    /// `play` after the current round's deadline has passed.
    PlayInClaimingPhase,
    /// `score` while no round is active.
    ScoreWithoutRound,
    /// `score` after the current round's deadline has passed.
    ScoreInClaimingPhase,
    /// `claim` while no round is active.
    ClaimWithoutRound,
    /// `claim` before the current round's deadline has passed.
    ClaimInPlayingPhase,
    /// `kill` while the game is not paused.
    KillBeforePausing,
    /// `kill` while the pool still holds value.
    KillWithPool,
    /// `profit` while the commission is empty.
    ProfitEmpty,
    /// `claim` while the pool is empty.
    PoolEmpty,
    /// `claim` by someone other than the winner during the grace window.
    NotWinnerInGracePeriod,
    /// An admin-only operation invoked by someone else.
    NotAdmin,
    /// Arming a deadline or crediting a fee would overflow; the whole
    /// operation is aborted rather than wrapping.
    Overflow,
}

} // verus!
