use vstd::prelude::*;

use crate::address::{listed, Address};
use crate::custody::{CustodyAuthority, Holding, Release, TokenTransfer};
use crate::errors::{CreateError, ErrorCodes};
use crate::quorum::{quorum_met, validate_quorum};
use crate::state::{TxAccountMeta, VestPool, VestPoolView, VestStatus};

verus! {

/// Why a claim is refused, if it is: the first of the conditions, in this
/// order, that does not hold.
///
/// Anyone but the recipient is told so, whatever else holds. The recipient
/// who comes early is told to wait, whatever else holds. After that a pool
/// that has been claimed refuses for its stage before base and asset are
/// looked at.
pub open spec fn claim_refusal(
    pool: VestPoolView,
    receiver: Address,
    base: Address,
    mint: Address,
    now: i64,
) -> Option<ErrorCodes> {
    if pool.recipient != receiver {
        Some(ErrorCodes::InvalidReceiver)
    } else if now < pool.unlock_time() {
        Some(ErrorCodes::InvalidClaimTime)
    } else if pool.status == VestStatus::Claimed {
        Some(ErrorCodes::InvalidVestingStatus)
    } else if pool.base != base {
        Some(ErrorCodes::InvalidBaseKey)
    } else if pool.mint != mint {
        Some(ErrorCodes::InvalidMint)
    } else if pool.status != VestStatus::Nominated {
        Some(ErrorCodes::InvalidVestingStatus)
    } else {
        None
    }
}

/// The pool after a claim.
pub open spec fn claimed(pool: VestPoolView) -> VestPoolView {
    VestPoolView { status: VestStatus::Claimed, ..pool }
}

/// The movement that a claim asks for: the whole amount, out of the vault,
/// to the recipient.
pub open spec fn claim_transfer(pool: VestPoolView) -> TokenTransfer {
    TokenTransfer {
        mint: pool.mint,
        amount: pool.amount,
        from: Holding::Vault,
        to: Holding::Wallet(pool.recipient),
    }
}

/// Releases the escrowed amount to the nominated recipient once the locking
/// period has passed.
///
/// `now` is the current time and `bump` the bump seed of the pool's address.
/// On success the pool is `Claimed` and the result names the movement out of
/// the vault together with the authority for it. On refusal the pool is left
/// as it was.
pub fn claim(
    pool: &mut VestPool,
    receiver: &Address,
    base: &Address,
    mint: &Address,
    now: i64,
    bump: u8,
) -> (r: Result<Release, ErrorCodes>)
    ensures
        match r {
            Ok(release) => {
                &&& claim_refusal(old(pool)@, *receiver, *base, *mint, now) is None
                &&& final(pool)@ == claimed(old(pool)@)
                &&& release.transfer == claim_transfer(old(pool)@)
                &&& release.authority.spec_base() == old(pool)@.base
                &&& release.authority.spec_bump() == bump
            },
            Err(e) => {
                &&& claim_refusal(old(pool)@, *receiver, *base, *mint, now) == Some(e)
                &&& *final(pool) == *old(pool)
            },
        },
        old(pool)@.wf() ==> final(pool)@.wf(),
{
    if pool.recipient != *receiver {
        return Err(ErrorCodes::InvalidReceiver);
    }
    // A sum beyond the range of a timestamp lies after every `now`.
    match pool.deposit_time.checked_add(pool.locked_period) {
        Some(unlock) => {
            if now < unlock {
                return Err(ErrorCodes::InvalidClaimTime);
            }
        },
        None => {
            if pool.locked_period > 0 {
                return Err(ErrorCodes::InvalidClaimTime);
            }
        },
    }
    if pool.status == VestStatus::Claimed {
        return Err(ErrorCodes::InvalidVestingStatus);
    }
    if pool.base != *base {
        return Err(ErrorCodes::InvalidBaseKey);
    }
    if pool.mint != *mint {
        return Err(ErrorCodes::InvalidMint);
    }
    if pool.status != VestStatus::Nominated {
        return Err(ErrorCodes::InvalidVestingStatus);
    }
    let transfer = TokenTransfer {
        mint: pool.mint,
        amount: pool.amount,
        from: Holding::Vault,
        to: Holding::Wallet(pool.recipient),
    };
    let authority = CustodyAuthority::issue(pool.base, bump);
    pool.status = VestStatus::Claimed;
    Ok(Release { transfer, authority })
}

/// Why a deposit is refused, if it is: the first of the conditions, in this
/// order, that does not hold.
///
/// A pool that has been claimed refuses for its stage, whoever calls.
pub open spec fn deposit_refusal(
    pool: VestPoolView,
    sender: Address,
    mint: Address,
    accounts: Seq<TxAccountMeta>,
) -> Option<ErrorCodes> {
    if pool.status == VestStatus::Claimed {
        Some(ErrorCodes::InvalidVestingStatus)
    } else if pool.sender != sender {
        Some(ErrorCodes::InvalidSender)
    } else if pool.mint != mint {
        Some(ErrorCodes::InvalidMint)
    } else if pool.status != VestStatus::Created {
        Some(ErrorCodes::InvalidVestingStatus)
    } else if !quorum_met(pool, sender, accounts) {
        Some(ErrorCodes::InsufficientSigners)
    } else {
        None
    }
}

/// The pool after a deposit made at `now`.
pub open spec fn deposited(pool: VestPoolView, now: i64) -> VestPoolView {
    VestPoolView { deposit_time: now, status: VestStatus::Deposited, ..pool }
}

/// The movement that a deposit asks for: the whole amount, out of the
/// sender's holding, into the vault.
pub open spec fn deposit_transfer(pool: VestPoolView) -> TokenTransfer {
    TokenTransfer {
        mint: pool.mint,
        amount: pool.amount,
        from: Holding::Wallet(pool.sender),
        to: Holding::Vault,
    }
}

/// Funds the pool.
///
/// `accounts` are the accounts that accompany the call and `now` is the
/// current time. On success the pool is `Deposited`, remembers `now`, and the
/// result names the movement into the vault. On refusal the pool is left as
/// it was and nothing is to be moved.
pub fn deposit(
    pool: &mut VestPool,
    sender: &Address,
    mint: &Address,
    accounts: &Vec<TxAccountMeta>,
    now: i64,
) -> (r: Result<TokenTransfer, ErrorCodes>)
    ensures
        match r {
            Ok(transfer) => {
                &&& deposit_refusal(old(pool)@, *sender, *mint, accounts@) is None
                &&& final(pool)@ == deposited(old(pool)@, now)
                &&& transfer == deposit_transfer(old(pool)@)
            },
            Err(e) => {
                &&& deposit_refusal(old(pool)@, *sender, *mint, accounts@) == Some(e)
                &&& *final(pool) == *old(pool)
            },
        },
        old(pool)@.wf() ==> final(pool)@.wf(),
{
    if pool.status == VestStatus::Claimed {
        return Err(ErrorCodes::InvalidVestingStatus);
    }
    if pool.sender != *sender {
        return Err(ErrorCodes::InvalidSender);
    }
    if pool.mint != *mint {
        return Err(ErrorCodes::InvalidMint);
    }
    if pool.status != VestStatus::Created {
        return Err(ErrorCodes::InvalidVestingStatus);
    }
    match validate_quorum(pool, sender, accounts) {
        Ok(()) => {},
        Err(e) => {
            return Err(e);
        },
    }
    let transfer = TokenTransfer {
        mint: pool.mint,
        amount: pool.amount,
        from: Holding::Wallet(pool.sender),
        to: Holding::Vault,
    };
    pool.deposit_time = now;
    pool.status = VestStatus::Deposited;
    Ok(transfer)
}

/// Why a nomination is refused, if it is: the first of the conditions, in
/// this order, that does not hold.
///
/// A pool that has been claimed refuses for its stage, whoever calls.
pub open spec fn nominate_refusal(
    pool: VestPoolView,
    sender: Address,
    accounts: Seq<TxAccountMeta>,
) -> Option<ErrorCodes> {
    if pool.status == VestStatus::Claimed {
        Some(ErrorCodes::InvalidVestingStatus)
    } else if pool.sender != sender {
        Some(ErrorCodes::InvalidSender)
    } else if pool.status != VestStatus::Deposited {
        Some(ErrorCodes::InvalidVestingStatus)
    } else if !quorum_met(pool, sender, accounts) {
        Some(ErrorCodes::InsufficientSigners)
    } else {
        None
    }
}

/// The pool after the nomination of `receiver`.
pub open spec fn nominated(pool: VestPoolView, receiver: Address) -> VestPoolView {
    VestPoolView { recipient: receiver, status: VestStatus::Nominated, ..pool }
}

/// Names the wallet that may claim the escrowed amount.
///
/// `accounts` are the accounts that accompany the call. On success the pool
/// is `Nominated` with `receiver` as its recipient. On refusal the pool is
/// left as it was.
pub fn nominate_receiver(
    pool: &mut VestPool,
    sender: &Address,
    accounts: &Vec<TxAccountMeta>,
    receiver: Address,
) -> (r: Result<(), ErrorCodes>)
    ensures
        match r {
            Ok(_) => {
                &&& nominate_refusal(old(pool)@, *sender, accounts@) is None
                &&& final(pool)@ == nominated(old(pool)@, receiver)
            },
            Err(e) => {
                &&& nominate_refusal(old(pool)@, *sender, accounts@) == Some(e)
                &&& *final(pool) == *old(pool)
            },
        },
        old(pool)@.wf() ==> final(pool)@.wf(),
{
    if pool.status == VestStatus::Claimed {
        return Err(ErrorCodes::InvalidVestingStatus);
    }
    if pool.sender != *sender {
        return Err(ErrorCodes::InvalidSender);
    }
    if pool.status != VestStatus::Deposited {
        return Err(ErrorCodes::InvalidVestingStatus);
    }
    match validate_quorum(pool, sender, accounts) {
        Ok(()) => {},
        Err(e) => {
            return Err(e);
        },
    }
    pool.recipient = receiver;
    pool.status = VestStatus::Nominated;
    Ok(())
}

/// The addresses of `list` in the order of their first occurrence, each once.
pub open spec fn distinct(list: Seq<Address>) -> Seq<Address>
    decreases list.len(),
{
    if list.len() == 0 {
        Seq::empty()
    } else {
        let before = distinct(list.drop_last());
        if before.contains(list.last()) {
            before
        } else {
            before.push(list.last())
        }
    }
}

/// The signers that a pool of `sender` registers when `candidates` are put
/// forward: the sender first, then each further candidate once.
pub open spec fn registered(sender: Address, candidates: Seq<Address>) -> Seq<Address> {
    distinct(seq![sender] + candidates)
}

/// `distinct` keeps exactly the addresses of its argument, each once, and
/// the first of them stays first.
pub proof fn lemma_distinct(list: Seq<Address>)
    ensures
        distinct(list).no_duplicates(),
        distinct(list).len() <= list.len(),
        forall|a: Address| distinct(list).contains(a) <==> list.contains(a),
        list.len() > 0 ==> distinct(list).len() > 0 && distinct(list)[0] == list[0],
    decreases list.len(),
{
    if list.len() > 0 {
        let front = list.drop_last();
        let before = distinct(front);
        lemma_distinct(front);
        assert forall|a: Address| distinct(list).contains(a) <==> list.contains(a) by {
            vstd::seq_lib::lemma_seq_contains_after_push(before, list.last(), a);
            assert(list =~= front.push(list.last()));
            vstd::seq_lib::lemma_seq_contains_after_push(front, list.last(), a);
        }
    }
}

/// Why the parameters of an agreement are refused, if they are.
pub open spec fn create_refusal(amount: u64, locking_period: i64) -> Option<ErrorCodes> {
    if amount == 0 {
        Some(ErrorCodes::ZeroVestAmount)
    } else if locking_period <= 0 {
        Some(ErrorCodes::InvalidLockingPeriod)
    } else {
        None
    }
}

/// The pool that a creation with these parameters yields.
pub open spec fn created(
    base: Address,
    sender: Address,
    mint: Address,
    candidates: Seq<Address>,
    amount: u64,
    locking_period: i64,
    min_sign: u8,
) -> VestPoolView {
    VestPoolView {
        base,
        sender,
        recipient: Address::unset(),
        mint,
        amount,
        locked_period: locking_period,
        deposit_time: 0,
        min_sign,
        status: VestStatus::Created,
        signers: registered(sender, candidates),
    }
}

/// Adds `who` to `list` unless it is there already.
fn register(list: &mut Vec<Address>, who: Address)
    ensures
        final(list)@ == if old(list)@.contains(who) {
            old(list)@
        } else {
            old(list)@.push(who)
        },
{
    if !listed(list, &who) {
        list.push(who);
    }
}

/// Creates a vesting agreement.
///
/// The pool registers the sender and then each of `candidates` once, in the
/// order given. `max_signers` is the room reserved for signers: a pool with
/// more signers than that cannot be stored and is not created.
pub fn create_pool(
    base: Address,
    sender: Address,
    mint: Address,
    candidates: &Vec<Address>,
    max_signers: u8,
    amount: u64,
    locking_period: i64,
    min_sign: u8,
) -> (r: Result<VestPool, CreateError>)
    ensures
        match r {
            Ok(pool) => {
                &&& create_refusal(amount, locking_period) is None
                &&& pool@ == created(
                    base,
                    sender,
                    mint,
                    candidates@,
                    amount,
                    locking_period,
                    min_sign,
                )
                &&& pool@.signers.len() <= max_signers
                &&& pool@.wf()
            },
            Err(CreateError::Rejected(e)) => create_refusal(amount, locking_period) == Some(e),
            Err(CreateError::OutOfSpace) => {
                &&& create_refusal(amount, locking_period) is None
                &&& registered(sender, candidates@).len() > max_signers
            },
        },
{
    if amount == 0 {
        return Err(CreateError::Rejected(ErrorCodes::ZeroVestAmount));
    }
    if locking_period <= 0 {
        return Err(CreateError::Rejected(ErrorCodes::InvalidLockingPeriod));
    }
    let mut signers: Vec<Address> = Vec::new();
    signers.push(sender);
    proof {
        reveal_with_fuel(distinct, 2);
    }
    let mut i: usize = 0;
    while i < candidates.len()
        invariant
            i <= candidates.len(),
            signers@ == distinct(seq![sender] + candidates@.take(i as int)),
        decreases candidates.len() - i,
    {
        proof {
            let seen = seq![sender] + candidates@.take(i as int);
            let next = seq![sender] + candidates@.take(i + 1);
            assert(next.drop_last() =~= seen);
        }
        register(&mut signers, candidates[i]);
        i += 1;
    }
    proof {
        assert(candidates@.take(candidates@.len() as int) =~= candidates@);
        lemma_distinct(seq![sender] + candidates@);
    }
    let room: usize = max_signers as usize;
    if signers.len() > room {
        return Err(CreateError::OutOfSpace);
    }
    Ok(
        VestPool {
            base,
            sender,
            recipient: Address::default(),
            mint,
            amount,
            locked_period: locking_period,
            deposit_time: 0,
            min_sign,
            status: VestStatus::Created,
            signers,
        },
    )
}

} // verus!
