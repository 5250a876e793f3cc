//! Rules of a custodial vesting agreement and of a batch of sub-calls.
//!
//! A sender locks an amount of an asset into a pool. A quorum of registered
//! signers must approve the deposit and the nomination of a recipient, and the
//! recipient can claim once the locking period has passed. The functions here
//! decide; the host that calls them reads the clock, moves the funds and
//! issues the sub-calls.

pub mod address;
pub mod custody;
pub mod engine;
pub mod errors;
pub mod laws;
pub mod quorum;
pub mod state;
pub mod vesting;

pub use address::Address;
pub use custody::{CustodyAuthority, Holding, Release, TokenTransfer};
pub use engine::{
    execute_transaction, pending_call, run_transaction, validate_transaction, BatchState,
};
pub use errors::{CreateError, ErrorCodes};
pub use quorum::{count_approvals, validate_quorum};
pub use state::{TxAccountMeta, TxInstruction, VestPool, VestPoolView, VestStatus};
pub use vesting::{claim, create_pool, deposit, nominate_receiver};
