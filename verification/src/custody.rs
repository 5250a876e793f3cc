use vstd::prelude::*;

use crate::address::Address;

verus! {

/// Namespace tag of pool addresses: the ASCII bytes of `VestPool`.
pub open spec fn pool_tag() -> Seq<u8> {
    seq![86u8, 101u8, 115u8, 116u8, 80u8, 111u8, 111u8, 108u8]
}

/// The seeds that stand for the custody authority of the pool derived from
/// `base` with bump seed `bump`: the tag, the bytes of the base, the bump.
pub open spec fn custody_seeds(base: Address, bump: u8) -> Seq<Seq<u8>> {
    seq![pool_tag(), base.bytes@, seq![bump]]
}

/// Where an amount of an asset is held.
#[derive(Clone, Copy, Debug, PartialEq, Eq)]
pub enum Holding {
    /// The holding of a wallet.
    Wallet(Address),
    /// The pool's escrow, which only the custody authority can move.
    Vault,
}

/// A movement of funds that the asset-custody system is to carry out.
#[derive(Clone, Copy, Debug, PartialEq, Eq)]
pub struct TokenTransfer {
    pub mint: Address,
    pub amount: u64,
    pub from: Holding,
    pub to: Holding,
}

/// Proof of authority over a pool's vault. It cannot be made outside this
/// crate; a successful claim hands one out.
#[derive(Debug, PartialEq, Eq)]
pub struct CustodyAuthority {
    base: Address,
    bump: u8,
}

/// A release of escrowed funds together with the authority to carry it out.
#[derive(Debug, PartialEq, Eq)]
pub struct Release {
    pub transfer: TokenTransfer,
    pub authority: CustodyAuthority,
}

/// The tag as bytes.
fn tag_bytes() -> (tag: Vec<u8>)
    ensures
        tag@ == pool_tag(),
{
    let mut tag: Vec<u8> = Vec::new();
    tag.push(86u8);
    tag.push(101u8);
    tag.push(115u8);
    tag.push(116u8);
    tag.push(80u8);
    tag.push(111u8);
    tag.push(111u8);
    tag.push(108u8);
    tag
}

/// The bytes of an address as a vector.
fn address_bytes(address: &Address) -> (out: Vec<u8>)
    ensures
        out@ == address.bytes@,
{
    let mut out: Vec<u8> = Vec::new();
    let mut i: usize = 0;
    while i < 32
        invariant
            i <= 32,
            out@.len() == i,
            forall|j: int| 0 <= j < i ==> out@[j] == address.bytes@[j],
        decreases 32 - i,
    {
        out.push(address.bytes[i]);
        i += 1;
    }
    out
}

impl CustodyAuthority {
    /// The base of the pool whose vault this authority controls.
    pub closed spec fn spec_base(&self) -> Address {
        self.base
    }

    /// The bump seed that completes the derivation.
    pub closed spec fn spec_bump(&self) -> u8 {
        self.bump
    }

    /// Makes the authority over the vault of the pool derived from `base`.
    pub(crate) fn issue(base: Address, bump: u8) -> (authority: CustodyAuthority)
        ensures
            authority.spec_base() == base,
            authority.spec_bump() == bump,
    {
        CustodyAuthority { base, bump }
    }

    /// The base of the pool whose vault this authority controls.
    #[verifier::when_used_as_spec(spec_base)]
    pub fn base(&self) -> (base: Address)
        ensures
            base == self.spec_base(),
    {
        self.base
    }

    /// The bump seed that completes the derivation.
    #[verifier::when_used_as_spec(spec_bump)]
    pub fn bump(&self) -> (bump: u8)
        ensures
            bump == self.spec_bump(),
    {
        self.bump
    }

    /// The seeds to sign a movement out of the vault with.
    pub fn signer_seeds(&self) -> (seeds: Vec<Vec<u8>>)
        ensures
            seeds.deep_view() == custody_seeds(self.spec_base(), self.spec_bump()),
    {
        let mut last: Vec<u8> = Vec::new();
        last.push(self.bump);
        let mut seeds: Vec<Vec<u8>> = Vec::new();
        seeds.push(tag_bytes());
        seeds.push(address_bytes(&self.base));
        seeds.push(last);
        proof {
            let want = custody_seeds(self.spec_base(), self.spec_bump());
            assert(seeds.deep_view()[0] == want[0]);
            assert(seeds.deep_view()[1] == want[1]);
            assert(seeds.deep_view()[2] == want[2]);
        }
        seeds
    }
}

} // verus!
