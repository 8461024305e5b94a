use slamjam_homerun_v1::constants::{FEE, ROUND_TIME_IN_SECONDS};
use slamjam_homerun_v1::errors::Errors;
use slamjam_homerun_v1::state::{phase, Identity, Phase, Round};
use slamjam_homerun_v1::{claim, pause, play, score};

fn ident(n: u64) -> Identity {
    Identity { w0: n, w1: 0, w2: 0, w3: 0 }
}

fn record(deadline: i64, pool: u64) -> Round {
    Round {
        initialized: true,
        paused: false,
        admin: ident(1),
        winner: ident(2),
        score: 10,
        deadline,
        pool,
        commission: 0,
    }
}

#[test]
fn phase_derivation() {
    // Zero deadline is the dormant sentinel at every instant.
    assert_eq!(phase(0, -5000), Phase::Dormant);
    assert_eq!(phase(0, 0), Phase::Dormant);
    assert_eq!(phase(0, i64::MAX), Phase::Dormant);

    // Playing runs up to and including the deadline itself.
    assert_eq!(phase(100, 99), Phase::Playing);
    assert_eq!(phase(100, 100), Phase::Playing);

    // Then one round-length of grace, boundary included.
    assert_eq!(phase(100, 101), Phase::GraceClaim);
    assert_eq!(phase(100, 100 + ROUND_TIME_IN_SECONDS), Phase::GraceClaim);

    // Then the claim is open.
    assert_eq!(phase(100, 101 + ROUND_TIME_IN_SECONDS), Phase::OpenClaim);

    // A deadline whose grace window runs past every representable instant
    // still reads as grace, never open.
    assert_eq!(phase(i64::MAX, i64::MAX), Phase::Playing);
    assert_eq!(phase(i64::MAX - 1, i64::MAX), Phase::GraceClaim);
}

#[test]
fn play_rejected_in_claiming_phases() {
    let mut round = record(100, FEE);
    let snapshot = round;
    assert_eq!(play(&mut round, 101), Err(Errors::PlayInClaimingPhase));
    assert_eq!(play(&mut round, 101 + ROUND_TIME_IN_SECONDS), Err(Errors::PlayInClaimingPhase));
    assert_eq!(round, snapshot);
}

#[test]
fn score_needs_running_round() {
    let mut round = record(0, 0);
    assert_eq!(score(&mut round, ident(3), 99, 50), Err(Errors::ScoreWithoutRound));
    let mut round = record(100, FEE);
    let snapshot = round;
    assert_eq!(score(&mut round, ident(3), 99, 101), Err(Errors::ScoreInClaimingPhase));
    assert_eq!(round, snapshot);
}

#[test]
fn claim_needs_ended_round_and_value() {
    let mut round = record(0, FEE);
    assert_eq!(claim(&mut round, ident(2), 50), Err(Errors::ClaimWithoutRound));

    let mut round = record(100, 0);
    assert_eq!(claim(&mut round, ident(2), 150), Err(Errors::PoolEmpty));

    let mut round = record(100, FEE);
    let snapshot = round;
    assert_eq!(claim(&mut round, ident(2), 99), Err(Errors::ClaimInPlayingPhase));
    assert_eq!(round, snapshot);

    // At the deadline itself claiming is already allowed, for the winner.
    assert_eq!(claim(&mut round, ident(2), 100), Ok(FEE));
}

#[test]
fn pause_twice_is_rejected() {
    let mut round = record(0, 0);
    assert_eq!(pause(&mut round, ident(1)), Ok(()));
    assert_eq!(pause(&mut round, ident(1)), Err(Errors::GamePaused));
}

#[test]
fn arming_overflow_is_rejected() {
    let mut round = record(0, 0);
    let snapshot = round;
    assert_eq!(play(&mut round, i64::MAX - 100), Err(Errors::Overflow));
    assert_eq!(round, snapshot);
}

#[test]
fn crediting_overflow_is_rejected() {
    let mut round = record(0, u64::MAX - 10);
    let snapshot = round;
    assert_eq!(play(&mut round, 1000), Err(Errors::Overflow));
    assert_eq!(round, snapshot);

    let mut round = record(0, 0);
    round.commission = u64::MAX - 10;
    let snapshot = round;
    assert_eq!(play(&mut round, 1000), Err(Errors::Overflow));
    assert_eq!(round, snapshot);
}

#[test]
fn identities_compare_by_all_words() {
    let a = Identity { w0: 1, w1: 2, w2: 3, w3: 4 };
    let b = Identity { w0: 1, w1: 2, w2: 3, w3: 5 };
    assert_ne!(a, b);
    assert_eq!(a, Identity { w0: 1, w1: 2, w2: 3, w3: 4 });
}
