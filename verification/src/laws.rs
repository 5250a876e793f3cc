use vstd::prelude::*;

use crate::address::Address;
use crate::errors::ErrorCodes;
use crate::quorum::quorum_met;
use crate::state::{TxAccountMeta, VestPoolView, VestStatus};
use crate::vesting::{
    claim_refusal, claimed, create_refusal, deposit_refusal, deposited, nominate_refusal,
    nominated,
};

verus! {

/// One call on an existing pool, with what the caller and the host supply.
pub enum Call {
    Deposit { sender: Address, mint: Address, accounts: Seq<TxAccountMeta>, now: i64 },
    Nominate { sender: Address, accounts: Seq<TxAccountMeta>, receiver: Address },
    Claim { receiver: Address, base: Address, mint: Address, now: i64 },
}

/// Why `call` is refused on `pool`, if it is.
pub open spec fn refusal(pool: VestPoolView, call: Call) -> Option<ErrorCodes> {
    match call {
        Call::Deposit { sender, mint, accounts, now } => deposit_refusal(
            pool,
            sender,
            mint,
            accounts,
        ),
        Call::Nominate { sender, accounts, receiver } => nominate_refusal(pool, sender, accounts),
        Call::Claim { receiver, base, mint, now } => claim_refusal(pool, receiver, base, mint, now),
    }
}

/// The pool after `call`: changed as the call says where it is accepted, as
/// it was where it is refused.
pub open spec fn after(pool: VestPoolView, call: Call) -> VestPoolView {
    if refusal(pool, call) is Some {
        pool
    } else {
        match call {
            Call::Deposit { sender, mint, accounts, now } => deposited(pool, now),
            Call::Nominate { sender, accounts, receiver } => nominated(pool, receiver),
            Call::Claim { receiver, base, mint, now } => claimed(pool),
        }
    }
}

/// The pool after `calls`, made one after the other.
pub open spec fn after_all(pool: VestPoolView, calls: Seq<Call>) -> VestPoolView
    decreases calls.len(),
{
    if calls.len() == 0 {
        pool
    } else {
        after(after_all(pool, calls.drop_last()), calls.last())
    }
}

/// A call moves the pool to the next stage when it is accepted and leaves
/// the stage alone when it is refused: no stage is skipped, none is left for
/// an earlier one.
pub proof fn call_advances_one_stage(pool: VestPoolView, call: Call)
    ensures
        refusal(pool, call) is None ==> after(pool, call).status.rank() == pool.status.rank() + 1,
        refusal(pool, call) is Some ==> after(pool, call).status == pool.status,
{
}

/// Over any history of calls the stage of a pool never decreases, and it
/// rises by no more than one stage for each call.
pub proof fn status_never_regresses(pool: VestPoolView, calls: Seq<Call>)
    ensures
        pool.status.rank() <= after_all(pool, calls).status.rank() <= pool.status.rank()
            + calls.len(),
    decreases calls.len(),
{
    if calls.len() > 0 {
        status_never_regresses(pool, calls.drop_last());
        call_advances_one_stage(after_all(pool, calls.drop_last()), calls.last());
    }
}

/// No agreement is created for a zero amount, whatever the locking period.
pub proof fn zero_amount_is_refused(locking_period: i64)
    ensures
        create_refusal(0, locking_period) == Some(ErrorCodes::ZeroVestAmount),
{
}

/// A deposit that carries fewer approvals than the pool asks for is refused
/// and leaves the pool as it was.
pub proof fn deposit_needs_quorum(
    pool: VestPoolView,
    sender: Address,
    mint: Address,
    accounts: Seq<TxAccountMeta>,
    now: i64,
)
    requires
        !quorum_met(pool, sender, accounts),
    ensures
        deposit_refusal(pool, sender, mint, accounts) is Some,
        after(pool, Call::Deposit { sender, mint, accounts, now }) == pool,
{
}

/// A claim made before the locking period has passed is refused and leaves
/// the pool as it was. The recipient is told that it is too early, whatever
/// base, asset and stage are; anyone else is told that they are not the
/// recipient.
pub proof fn early_claim_is_refused(
    pool: VestPoolView,
    receiver: Address,
    base: Address,
    mint: Address,
    now: i64,
)
    requires
        now < pool.unlock_time(),
    ensures
        claim_refusal(pool, receiver, base, mint, now) == Some(
            if pool.recipient == receiver {
                ErrorCodes::InvalidClaimTime
            } else {
                ErrorCodes::InvalidReceiver
            },
        ),
        after(pool, Call::Claim { receiver, base, mint, now }) == pool,
{
}

/// A claim by anyone but the nominated recipient is refused for that reason,
/// whatever else holds, and leaves the pool as it was.
pub proof fn claim_by_stranger_is_refused(
    pool: VestPoolView,
    receiver: Address,
    base: Address,
    mint: Address,
    now: i64,
)
    requires
        pool.recipient != receiver,
    ensures
        claim_refusal(pool, receiver, base, mint, now) == Some(ErrorCodes::InvalidReceiver),
        after(pool, Call::Claim { receiver, base, mint, now }) == pool,
{
}

/// A refused call changes nothing, so the same call made again is refused
/// for the same reason.
pub proof fn refused_call_repeats(pool: VestPoolView, call: Call)
    requires
        refusal(pool, call) is Some,
    ensures
        after(pool, call) == pool,
        refusal(after(pool, call), call) == refusal(pool, call),
{
}

/// A claimed pool is final: every call on it is refused and it stays as it
/// is. A deposit and a nomination are refused for the stage, whoever makes
/// them. So is a claim, but for one by anyone else than the recipient and one
/// by the recipient before the unlock time, which are told that first.
pub proof fn claimed_is_final(pool: VestPoolView, call: Call)
    requires
        pool.status == VestStatus::Claimed,
    ensures
        refusal(pool, call) is Some,
        after(pool, call) == pool,
        match call {
            Call::Deposit { sender, mint, accounts, now } => refusal(pool, call) == Some(
                ErrorCodes::InvalidVestingStatus,
            ),
            Call::Nominate { sender, accounts, receiver } => refusal(pool, call) == Some(
                ErrorCodes::InvalidVestingStatus,
            ),
            Call::Claim { receiver, base, mint, now } => refusal(pool, call) == Some(
                if pool.recipient != receiver {
                    ErrorCodes::InvalidReceiver
                } else if now < pool.unlock_time() {
                    ErrorCodes::InvalidClaimTime
                } else {
                    ErrorCodes::InvalidVestingStatus
                },
            ),
        },
{
}

/// The terms of an agreement never change: no call touches the parties that
/// set it up, the asset, the amount, the locking period, the threshold or
/// the registered signers. The deposit time is written by the one accepted
/// deposit and the recipient by the one accepted nomination, and by nothing
/// else.
pub proof fn terms_are_fixed(pool: VestPoolView, call: Call)
    ensures
        after(pool, call).base == pool.base,
        after(pool, call).sender == pool.sender,
        after(pool, call).mint == pool.mint,
        after(pool, call).amount == pool.amount,
        after(pool, call).locked_period == pool.locked_period,
        after(pool, call).min_sign == pool.min_sign,
        after(pool, call).signers == pool.signers,
        after(pool, call).deposit_time != pool.deposit_time ==> call is Deposit && pool.status
            == VestStatus::Created,
        after(pool, call).recipient != pool.recipient ==> call is Nominate && pool.status
            == VestStatus::Deposited,
{
}

/// What holds of a pool at its creation holds after every call.
pub proof fn calls_keep_pool_valid(pool: VestPoolView, call: Call)
    requires
        pool.wf(),
    ensures
        after(pool, call).wf(),
{
}

} // verus!
