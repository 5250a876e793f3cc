use vstd::prelude::*;

use crate::address::{listed, Address, ADDRESS_LEN};

verus! {

/// Stage of a vesting agreement. A pool moves through the stages in the order
/// written here, one at a time, and never back.
#[derive(Clone, Copy, Debug, PartialEq, Eq, Structural)]
pub enum VestStatus {
    Created,
    Deposited,
    Nominated,
    Claimed,
}

impl VestStatus {
    /// Position of the stage in the lifecycle, counted from zero.
    pub open spec fn rank(self) -> int {
        match self {
            VestStatus::Created => 0,
            VestStatus::Deposited => 1,
            VestStatus::Nominated => 2,
            VestStatus::Claimed => 3,
        }
    }
}

impl Default for VestStatus {
    fn default() -> (s: VestStatus)
        ensures
            s == VestStatus::Created,
    {
        VestStatus::Created
    }
}

/// Record of one vesting agreement.
#[derive(Clone, Debug, PartialEq, Eq)]
pub struct VestPool {
    /// Identifier from which the pool's address and custody authority derive.
    pub base: Address,
    /// Wallet that funds the pool.
    pub sender: Address,
    /// Wallet that may claim; unset until nomination.
    pub recipient: Address,
    /// Asset held in escrow.
    pub mint: Address,
    /// Quantity held in escrow.
    pub amount: u64,
    /// Seconds that must pass after the deposit before a claim.
    pub locked_period: i64,
    /// Time of the deposit; zero until then.
    pub deposit_time: i64,
    /// Number of approvals a guarded transition needs.
    pub min_sign: u8,
    pub status: VestStatus,
    /// Registered approvers, the sender among them.
    pub signers: Vec<Address>,
}

/// A pool as a mathematical value.
pub struct VestPoolView {
    pub base: Address,
    pub sender: Address,
    pub recipient: Address,
    pub mint: Address,
    pub amount: u64,
    pub locked_period: i64,
    pub deposit_time: i64,
    pub min_sign: u8,
    pub status: VestStatus,
    pub signers: Seq<Address>,
}

impl View for VestPool {
    type V = VestPoolView;

    open spec fn view(&self) -> VestPoolView {
        VestPoolView {
            base: self.base,
            sender: self.sender,
            recipient: self.recipient,
            mint: self.mint,
            amount: self.amount,
            locked_period: self.locked_period,
            deposit_time: self.deposit_time,
            min_sign: self.min_sign,
            status: self.status,
            signers: self.signers@,
        }
    }
}

impl Default for VestPool {
    /// The empty record: nothing is set, and no signer is registered.
    fn default() -> (pool: VestPool)
        ensures
            pool@ == (VestPoolView {
                base: Address::unset(),
                sender: Address::unset(),
                recipient: Address::unset(),
                mint: Address::unset(),
                amount: 0,
                locked_period: 0,
                deposit_time: 0,
                min_sign: 0,
                status: VestStatus::Created,
                signers: Seq::empty(),
            }),
    {
        VestPool {
            base: Address::default(),
            sender: Address::default(),
            recipient: Address::default(),
            mint: Address::default(),
            amount: 0,
            locked_period: 0,
            deposit_time: 0,
            min_sign: 0,
            status: VestStatus::Created,
            signers: Vec::new(),
        }
    }
}

impl VestPoolView {
    /// What holds of every pool from its creation on.
    pub open spec fn wf(self) -> bool {
        &&& self.amount > 0
        &&& self.locked_period > 0
        &&& self.signers.contains(self.sender)
        &&& self.signers.no_duplicates()
        &&& (self.status == VestStatus::Created ==> self.deposit_time == 0)
        &&& (self.status.rank() < VestStatus::Nominated.rank() ==> self.recipient
            == Address::unset())
    }

    /// First moment at which the escrowed amount may be claimed.
    pub open spec fn unlock_time(self) -> int {
        self.deposit_time + self.locked_period
    }
}

/// Bytes that precede the signer list in a stored pool: an 8-byte record tag,
/// the fixed fields (four addresses, the amount, two timestamps, the threshold
/// and the status tag), and the 4-byte length of the list.
pub open spec fn stored_prefix_len() -> nat {
    (8 + 154 + 4) as nat
}

impl VestPool {
    /// Bytes to reserve for a stored pool with room for `max_signers` signers.
    pub open spec fn spec_get_len(max_signers: u8) -> nat {
        stored_prefix_len() + (ADDRESS_LEN as nat) * (max_signers as nat)
    }

    /// Bytes to reserve for a stored pool with room for `max_signers` signers.
    pub fn get_len(max_signers: u8) -> (n: usize)
        ensures
            n == Self::spec_get_len(max_signers),
    {
        let room: usize = max_signers as usize;
        8 + 154 + 4 + ADDRESS_LEN * room
    }

    /// Whether `signer` is one of the pool's registered approvers.
    pub fn find_signer(&self, signer: Address) -> (found: bool)
        ensures
            found == self@.signers.contains(signer),
    {
        listed(&self.signers, &signer)
    }
}

/// Reference to an account that takes part in a call, with what the call may
/// do with it.
#[derive(Clone, Copy, Debug, PartialEq, Eq)]
pub struct TxAccountMeta {
    pub pubkey: Address,
    /// The account authenticated the call.
    pub is_signer: bool,
    /// The call may change the account.
    pub is_writable: bool,
}

/// Descriptor of one sub-call of a batch.
#[derive(Clone, Debug, PartialEq, Eq)]
pub struct TxInstruction {
    /// Execution unit that the sub-call is addressed to.
    pub program_id: Address,
    /// Accounts handed to it, in order.
    pub keys: Vec<TxAccountMeta>,
    /// Payload, not interpreted here.
    pub data: Vec<u8>,
}

impl Default for TxInstruction {
    /// The empty descriptor: no target, no accounts, no payload.
    fn default() -> (tx: TxInstruction)
        ensures
            tx.program_id == Address::unset(),
            tx.keys@ == Seq::<TxAccountMeta>::empty(),
            tx.data@ == Seq::<u8>::empty(),
    {
        TxInstruction { program_id: Address::default(), keys: Vec::new(), data: Vec::new() }
    }
}

} // verus!
