use vstd::prelude::*;

use crate::errors::ErrorCodes;
use crate::state::{TxAccountMeta, TxInstruction};

verus! {

/// Where the execution of a batch of sub-calls stands.
///
/// The host issues the sub-calls; this value tells it which one comes next
/// and is told in return how each one ended.
#[derive(Clone, Copy, Debug, PartialEq, Eq, Structural)]
pub enum BatchState {
    /// Every sub-call before `next` succeeded; `next` is to be issued now.
    Calling { next: usize },
    /// Every sub-call of the batch succeeded.
    Completed,
    /// Sub-call `failed` failed; none after it is issued.
    Aborted { failed: usize },
}

impl BatchState {
    /// A state that a batch of `len` sub-calls can be in.
    pub open spec fn wf(self, len: nat) -> bool {
        match self {
            BatchState::Calling { next } => next < len,
            BatchState::Completed => true,
            BatchState::Aborted { failed } => failed < len,
        }
    }
}

/// The state in which a batch of `len` sub-calls starts.
pub open spec fn batch_start(len: nat) -> BatchState {
    if len == 0 {
        BatchState::Completed
    } else {
        BatchState::Calling { next: 0 }
    }
}

/// The state that follows `state` once the sub-call it asked for has ended,
/// with success or not. A batch that has ended stays as it is.
pub open spec fn batch_step(len: nat, state: BatchState, succeeded: bool) -> BatchState {
    match state {
        BatchState::Calling { next } => if !succeeded {
            BatchState::Aborted { failed: next }
        } else if next + 1 < len {
            BatchState::Calling { next: (next + 1) as usize }
        } else {
            BatchState::Completed
        },
        _ => state,
    }
}

/// The state of a batch of `len` sub-calls after the sub-calls asked for so
/// far have ended as `outcomes` tells, in order.
pub open spec fn batch_run(len: nat, outcomes: Seq<bool>) -> BatchState
    decreases outcomes.len(),
{
    if outcomes.len() == 0 {
        batch_start(len)
    } else {
        batch_step(len, batch_run(len, outcomes.drop_last()), outcomes.last())
    }
}

/// Decides whether `payer` may have a batch executed: it must have
/// authenticated the call.
pub fn validate_transaction(payer: &TxAccountMeta) -> (r: Result<(), ErrorCodes>)
    ensures
        r is Ok <==> payer.is_signer,
        r is Err ==> r == Err::<(), ErrorCodes>(ErrorCodes::InvalidSigner),
{
    if payer.is_signer {
        Ok(())
    } else {
        Err(ErrorCodes::InvalidSigner)
    }
}

/// Opens the execution of `instructions` on behalf of `payer`.
///
/// The result is the state from which the host starts to issue sub-calls, or
/// the refusal of a caller that did not authenticate.
pub fn execute_transaction(payer: &TxAccountMeta, instructions: &Vec<TxInstruction>) -> (r: Result<
    BatchState,
    ErrorCodes,
>)
    ensures
        payer.is_signer ==> r == Ok::<BatchState, ErrorCodes>(batch_start(instructions@.len())),
        !payer.is_signer ==> r == Err::<BatchState, ErrorCodes>(ErrorCodes::InvalidSigner),
{
    match validate_transaction(payer) {
        Ok(()) => {},
        Err(e) => {
            return Err(e);
        },
    }
    if instructions.len() == 0 {
        Ok(BatchState::Completed)
    } else {
        Ok(BatchState::Calling { next: 0 })
    }
}

/// The sub-call that `state` asks the host to issue, if any.
pub fn pending_call<'a>(instructions: &'a Vec<TxInstruction>, state: &BatchState) -> (call: Option<
    &'a TxInstruction,
>)
    ensures
        match *state {
            BatchState::Calling { next } if next < instructions@.len() => call == Some(
                &instructions@[next as int],
            ),
            _ => call is None,
        },
{
    match *state {
        BatchState::Calling { next } => {
            if next < instructions.len() {
                Some(&instructions[next])
            } else {
                None
            }
        },
        _ => None,
    }
}

/// Advances the execution of `instructions`: `succeeded` tells how the
/// sub-call that `state` asked for has ended. The first failure aborts the
/// batch; after the last success it is complete.
pub fn run_transaction(instructions: &Vec<TxInstruction>, state: BatchState, succeeded: bool) -> (next:
    BatchState)
    ensures
        next == batch_step(instructions@.len(), state, succeeded),
        state.wf(instructions@.len()) ==> next.wf(instructions@.len()),
{
    match state {
        BatchState::Calling { next } => {
            if !succeeded {
                BatchState::Aborted { failed: next }
            } else if instructions.len() > 0 && next < instructions.len() - 1 {
                BatchState::Calling { next: next + 1 }
            } else {
                BatchState::Completed
            }
        },
        _ => state,
    }
}

/// Sub-calls are issued in the order of the batch for as long as each one
/// succeeds: after `outcomes.len()` successes the next one is asked for, and
/// after the last the batch is complete.
pub proof fn batch_runs_in_order(len: nat, outcomes: Seq<bool>)
    requires
        len <= usize::MAX,
        outcomes.len() <= len,
        forall|i: int| 0 <= i < outcomes.len() ==> outcomes[i],
    ensures
        batch_run(len, outcomes) == if outcomes.len() < len {
            BatchState::Calling { next: outcomes.len() as usize }
        } else {
            BatchState::Completed
        },
    decreases outcomes.len(),
{
    if outcomes.len() > 0 {
        batch_runs_in_order(len, outcomes.drop_last());
    }
}

/// The first failure aborts the batch: whatever is reported after it, the
/// batch stays aborted at that sub-call.
pub proof fn batch_fails_fast(len: nat, outcomes: Seq<bool>, k: int)
    requires
        len <= usize::MAX,
        0 <= k < outcomes.len(),
        k < len,
        !outcomes[k],
        forall|i: int| 0 <= i < k ==> outcomes[i],
    ensures
        batch_run(len, outcomes) == (BatchState::Aborted { failed: k as usize }),
    decreases outcomes.len(),
{
    let front = outcomes.drop_last();
    if k == outcomes.len() - 1 {
        batch_runs_in_order(len, front);
    } else {
        batch_fails_fast(len, front, k);
    }
}

} // verus!
