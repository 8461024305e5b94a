use vstd::prelude::*;
use crate::constants::{COMMISSION, FEE};
use crate::state::{Identity, Round};
use crate::transitions::{
    claim_error, claim_payout, claim_round, initialize_round, pause_round, play_error, play_round,
    profit_error, profit_payout, profit_round, resume_round, score_round,
};

verus! {

// The game under adversarial, permissionless invocation: any sequence of
// operations by any callers at any instants. An `Op` names one submitted
// operation with its arguments; `run` folds a whole sequence over the record.
// Over this model the crate proves that custody is conserved: however the
// record is driven, the pool and the commission hold exactly what fees
// credited to them minus what withdrawals paid out.

/// One submitted operation, with the caller identity and clock reading the
/// environment hands it.
pub enum Op {
    Initialize { caller: Identity },
    Play { now: i64 },
    Score { caller: Identity, value: u16, now: i64 },
    Claim { caller: Identity, now: i64 },
    Pause { caller: Identity },
    Resume { caller: Identity },
    Profit { caller: Identity },
    Kill { caller: Identity },
}

/// The record after one submitted operation: the transition it commits, or
/// the record unchanged where it is rejected. `kill` never alters the fields;
/// on success the environment destroys the record bodily.
pub open spec fn step(pre: Round, op: Op) -> Round {
    match op {
        Op::Initialize { caller } => initialize_round(pre, caller),
        Op::Play { now } => play_round(pre, now),
        Op::Score { caller, value, now } => score_round(pre, caller, value, now),
        Op::Claim { caller, now } => claim_round(pre, caller, now),
        Op::Pause { caller } => pause_round(pre, caller),
        Op::Resume { caller } => resume_round(pre, caller),
        Op::Profit { caller } => profit_round(pre, caller),
        Op::Kill { caller: _ } => pre,
    }
}

/// The record after a whole sequence of submitted operations, applied in
/// order.
pub open spec fn run(pre: Round, ops: Seq<Op>) -> Round
    decreases ops.len(),
{
    if ops.len() == 0 {
        pre
    } else {
        step(run(pre, ops.drop_last()), ops.last())
    }
}

/// What one operation credits to the pool: the pool's share of the entry fee
/// on a committed `play`, nothing otherwise.
pub open spec fn pool_credit(pre: Round, op: Op) -> int {
    match op {
        Op::Play { now } => if play_error(pre, now) is None {
            FEE - COMMISSION
        } else {
            0
        },
        _ => 0,
    }
}

/// What one operation credits to the commission: the admin's share of the
/// entry fee on a committed `play`, nothing otherwise.
pub open spec fn commission_credit(pre: Round, op: Op) -> int {
    match op {
        Op::Play { now } => if play_error(pre, now) is None {
            COMMISSION as int
        } else {
            0
        },
        _ => 0,
    }
}

/// What one operation pays out of the pool: the whole pool on a committed
/// `claim`, nothing otherwise.
pub open spec fn pool_withdrawal(pre: Round, op: Op) -> int {
    match op {
        Op::Claim { caller, now } => if claim_error(pre, caller, now) is None {
            claim_payout(pre) as int
        } else {
            0
        },
        _ => 0,
    }
}

/// What one operation pays out of the commission: the whole commission on a
/// committed `profit`, nothing otherwise.
pub open spec fn commission_withdrawal(pre: Round, op: Op) -> int {
    match op {
        Op::Profit { caller } => if profit_error(pre, caller) is None {
            profit_payout(pre) as int
        } else {
            0
        },
        _ => 0,
    }
}

/// Everything a sequence of operations credits to the pool, in order.
pub open spec fn total_pool_credit(pre: Round, ops: Seq<Op>) -> int
    decreases ops.len(),
{
    if ops.len() == 0 {
        0
    } else {
        total_pool_credit(pre, ops.drop_last()) + pool_credit(run(pre, ops.drop_last()), ops.last())
    }
}

/// Everything a sequence of operations credits to the commission, in order.
pub open spec fn total_commission_credit(pre: Round, ops: Seq<Op>) -> int
    decreases ops.len(),
{
    if ops.len() == 0 {
        0
    } else {
        total_commission_credit(pre, ops.drop_last()) + commission_credit(
            run(pre, ops.drop_last()),
            ops.last(),
        )
    }
}

/// Everything a sequence of operations pays out of the pool, in order.
pub open spec fn total_pool_withdrawal(pre: Round, ops: Seq<Op>) -> int
    decreases ops.len(),
{
    if ops.len() == 0 {
        0
    } else {
        total_pool_withdrawal(pre, ops.drop_last()) + pool_withdrawal(
            run(pre, ops.drop_last()),
            ops.last(),
        )
    }
}

/// Everything a sequence of operations pays out of the commission, in order.
pub open spec fn total_commission_withdrawal(pre: Round, ops: Seq<Op>) -> int
    decreases ops.len(),
{
    if ops.len() == 0 {
        0
    } else {
        total_commission_withdrawal(pre, ops.drop_last()) + commission_withdrawal(
            run(pre, ops.drop_last()),
            ops.last(),
        )
    }
}

/// Once a record is initialized it stays initialized, whatever sequence of
/// operations is thrown at it: in particular no later `initialize` can
/// commit and wipe the balances.
pub proof fn lemma_initialized_sticky(pre: Round, ops: Seq<Op>)
    requires
        pre.initialized,
    ensures
        run(pre, ops).initialized,
    decreases ops.len(),
{
    if ops.len() > 0 {
        lemma_initialized_sticky(pre, ops.drop_last());
    }
}

/// No value is created or destroyed: after any sequence of operations
/// against an initialized record, the pool holds exactly what it held at the
/// start plus every fee contribution credited to it, minus every withdrawal
/// actually paid out — and likewise the commission.
pub proof fn lemma_value_conservation(pre: Round, ops: Seq<Op>)
    requires
        pre.initialized,
    ensures
        run(pre, ops).pool == pre.pool + total_pool_credit(pre, ops) - total_pool_withdrawal(
            pre,
            ops,
        ),
        run(pre, ops).commission == pre.commission + total_commission_credit(pre, ops)
            - total_commission_withdrawal(pre, ops),
    decreases ops.len(),
{
    if ops.len() > 0 {
        lemma_value_conservation(pre, ops.drop_last());
        lemma_initialized_sticky(pre, ops.drop_last());
    }
}

} // verus!
