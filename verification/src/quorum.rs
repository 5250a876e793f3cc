use vstd::prelude::*;

use crate::address::{listed, Address};
use crate::errors::ErrorCodes;
use crate::state::{TxAccountMeta, VestPool, VestPoolView};

verus! {

/// Whether `who` is among the accounts that authenticated the call.
pub open spec fn authenticated(accounts: Seq<TxAccountMeta>, who: Address) -> bool {
    exists|i: int| 0 <= i < accounts.len() && accounts[i].is_signer && accounts[i].pubkey == who
}

/// The approvals that a call carries: the sender, and every registered signer
/// that authenticated the call. Being a set, it counts each address once.
pub open spec fn approvals(
    signers: Seq<Address>,
    sender: Address,
    accounts: Seq<TxAccountMeta>,
) -> Set<Address> {
    Set::new(|a: Address| a == sender || (signers.contains(a) && authenticated(accounts, a)))
}

/// Whether a call by `sender`, accompanied by `accounts`, carries as many
/// approvals as the pool asks for.
pub open spec fn quorum_met(
    pool: VestPoolView,
    sender: Address,
    accounts: Seq<TxAccountMeta>,
) -> bool {
    approvals(pool.signers, sender, accounts).len() >= pool.min_sign
}

/// A call that no account accompanies carries the sender's approval and no
/// other.
pub proof fn lemma_approvals_of_none(signers: Seq<Address>, sender: Address)
    ensures
        approvals(signers, sender, Seq::<TxAccountMeta>::empty()) == seq![sender].to_set(),
{
    assert(seq![sender][0] == sender);
}

/// One more accompanying account adds its address to the approvals exactly
/// when it authenticated the call and is registered. An account that did not
/// sign, one that is not registered, and one that was counted before add
/// nothing.
pub proof fn lemma_approvals_of_next(
    signers: Seq<Address>,
    sender: Address,
    accounts: Seq<TxAccountMeta>,
    n: int,
)
    requires
        0 <= n < accounts.len(),
    ensures
        approvals(signers, sender, accounts.take(n + 1)) == if accounts[n].is_signer
            && signers.contains(accounts[n].pubkey) {
            approvals(signers, sender, accounts.take(n)).insert(accounts[n].pubkey)
        } else {
            approvals(signers, sender, accounts.take(n))
        },
{
    let before = accounts.take(n);
    let after = accounts.take(n + 1);
    let key = accounts[n].pubkey;
    assert forall|a: Address| authenticated(after, a) <==> (authenticated(before, a) || (
    accounts[n].is_signer && key == a)) by {
        if accounts[n].is_signer && key == a {
            assert(after[n] == accounts[n]);
        }
    }
    if accounts[n].is_signer && signers.contains(key) {
        assert(approvals(signers, sender, after) =~= approvals(signers, sender, before).insert(
            key,
        ));
    }
}

/// A call always carries the sender's approval, and no more approvals than
/// the sender and one for each accompanying account.
pub proof fn approvals_bounds(signers: Seq<Address>, sender: Address, accounts: Seq<TxAccountMeta>)
    ensures
        approvals(signers, sender, accounts).finite(),
        approvals(signers, sender, accounts).contains(sender),
        1 <= approvals(signers, sender, accounts).len() <= accounts.len() + 1,
    decreases accounts.len(),
{
    if accounts.len() == 0 {
        lemma_approvals_of_none(signers, sender);
        assert(accounts =~= Seq::<TxAccountMeta>::empty());
        seq![sender].unique_seq_to_set();
        vstd::seq_lib::seq_to_set_is_finite(seq![sender]);
    } else {
        let n = accounts.len() - 1;
        approvals_bounds(signers, sender, accounts.take(n));
        lemma_approvals_of_next(signers, sender, accounts, n);
        assert(accounts.take(n + 1) =~= accounts);
    }
}

/// Counts the approvals that a call by `sender`, accompanied by `accounts`,
/// carries for `pool`.
pub fn count_approvals(pool: &VestPool, sender: &Address, accounts: &Vec<TxAccountMeta>) -> (n:
    usize)
    ensures
        n == approvals(pool@.signers, *sender, accounts@).len(),
        1 <= n <= accounts@.len() + 1,
{
    let mut approved: Vec<Address> = Vec::new();
    approved.push(*sender);
    proof {
        lemma_approvals_of_none(pool@.signers, *sender);
    }
    let mut i: usize = 0;
    while i < accounts.len()
        invariant
            i <= accounts.len(),
            approved@.no_duplicates(),
            1 <= approved@.len() <= i + 1,
            approved@.to_set() == approvals(pool@.signers, *sender, accounts@.take(i as int)),
        decreases accounts.len() - i,
    {
        let account = accounts[i];
        proof {
            lemma_approvals_of_next(pool@.signers, *sender, accounts@, i as int);
        }
        if account.is_signer && pool.find_signer(account.pubkey) {
            if !listed(&approved, &account.pubkey) {
                proof {
                    approved@.lemma_push_to_set_commute(account.pubkey);
                }
                approved.push(account.pubkey);
            }
        }
        i += 1;
    }
    proof {
        assert(accounts@.take(accounts@.len() as int) =~= accounts@);
        approved@.unique_seq_to_set();
    }
    approved.len()
}

/// Decides whether a call by `sender`, accompanied by `accounts`, carries as
/// many approvals as `pool` asks for.
pub fn validate_quorum(pool: &VestPool, sender: &Address, accounts: &Vec<TxAccountMeta>) -> (r:
    Result<(), ErrorCodes>)
    ensures
        r is Ok <==> quorum_met(pool@, *sender, accounts@),
        r is Err ==> r == Err::<(), ErrorCodes>(ErrorCodes::InsufficientSigners),
{
    let min_sign: usize = pool.min_sign as usize;
    if count_approvals(pool, sender, accounts) >= min_sign {
        Ok(())
    } else {
        Err(ErrorCodes::InsufficientSigners)
    }
}

} // verus!
