//! The EVM-style side of the dispatcher: the native call shape handed to
//! the EVM-style engine, the engine interface, the account mapping, and the
//! verified translation of the engine's outcome into the generic result.

use vstd::prelude::*;

use crate::call_result::{
    consumed_of, is_success, is_vm_error, is_vm_revert, CallFailure, CallOutput, CallResult,
    FailureError, FailureRevert,
};
use crate::types::{AccountId, Balance, Context, ReentranceFlag, U256};
use crate::weights::{GasWeightMapping, Weight};

verus! {

/// How the EVM-style engine's execution ended. `Error` and `Fatal` carry
/// the engine's diagnostic bytes.
#[derive(Clone, PartialEq, Eq, Debug)]
pub enum ExitReason {
    Succeed,
    Revert,
    Error(Vec<u8>),
    Fatal(Vec<u8>),
}

/// Resource consumption the engine reports for a transaction it ran; no
/// report means no progress was metered.
#[derive(Clone, Copy, PartialEq, Eq, Structural, Debug)]
pub struct PostDispatchInfo {
    pub actual_weight: Option<Weight>,
}

/// What an executed transaction produced: how it exited, plus the bytes it
/// returned (returned data on success, encoded error data on revert).
#[derive(Clone, PartialEq, Eq, Debug)]
pub struct CallInfo {
    pub exit_reason: ExitReason,
    pub value: Vec<u8>,
}

/// Failure of the engine call itself, before any exit reason was produced:
/// a diagnostic plus whatever partial consumption the engine reports.
#[derive(Clone, PartialEq, Eq, Debug)]
pub struct DispatchErrorWithPostInfo {
    pub post_info: PostDispatchInfo,
    pub error: Vec<u8>,
}

/// Everything the EVM-style engine can report back.
pub type EvmTransactOutcome = Result<(PostDispatchInfo, CallInfo), DispatchErrorWithPostInfo>;

/// A checked transaction in the EVM's native call shape.
#[derive(PartialEq, Eq, Debug)]
pub struct CheckedEthereumTx {
    pub gas_limit: U256,
    pub target: [u8; 20],
    pub value: U256,
    pub input: Vec<u8>,
    pub maybe_access_list: Option<Vec<([u8; 20], Vec<[u8; 32]>)>>,
}

/// The external EVM-style engine. The dispatcher only interprets its
/// outcome; nothing is assumed of what it returns. The reentrance flag is
/// threaded through so code the engine runs can attempt a nested dispatch.
pub trait CheckedEthereumTransact {
    fn xvm_transact(
        source: [u8; 20],
        checked_tx: CheckedEthereumTx,
        flag: &mut ReentranceFlag,
    ) -> EvmTransactOutcome;
}

/// The external mapping from a native account to the EVM's 20-byte address
/// form: pure and total.
pub trait AccountMapping {
    spec fn spec_into_h160(account: AccountId) -> Seq<u8>;

    fn into_h160(account: AccountId) -> (r: [u8; 20])
        ensures
            r@ == Self::spec_into_h160(account),
    ;
}

/// An account mapping that keeps the first 20 bytes of the native account.
pub struct TruncateAccountMapping;

impl AccountMapping for TruncateAccountMapping {
    open spec fn spec_into_h160(account: AccountId) -> Seq<u8> {
        account@.take(20)
    }

    fn into_h160(account: AccountId) -> (r: [u8; 20]) {
        let b = account.0;
        let r: [u8; 20] = [
            b[0], b[1], b[2], b[3], b[4], b[5], b[6], b[7], b[8], b[9], b[10], b[11], b[12],
            b[13], b[14], b[15], b[16], b[17], b[18], b[19],
        ];
        proof {
            assert(r@ =~= account@.take(20));
        }
        r
    }
}

/// Builds the native call handed to the EVM-style engine: the caller's
/// account is mapped to its 20-byte address form, the decoded target and
/// the input are taken verbatim, the value is widened to the 256-bit
/// representation, the gas limit is converted from the caller's weight
/// limit less the overhead (saturating at zero), and no access list is
/// set.
pub fn build_evm_request<A: AccountMapping, G: GasWeightMapping>(
    context: Context,
    source: AccountId,
    target_decoded: [u8; 20],
    input: Vec<u8>,
    value: Balance,
    overheads: Weight,
) -> (r: ([u8; 20], CheckedEthereumTx))
    ensures
        r.0@ == A::spec_into_h160(source),
        r.1.gas_limit.low == G::spec_weight_to_gas(
            context.weight_limit.spec_saturating_sub(overheads),
        ) as u128,
        r.1.gas_limit.high == 0,
        r.1.target@ == target_decoded@,
        r.1.value.low == value,
        r.1.value.high == 0,
        r.1.input@ == input@,
        r.1.maybe_access_list is None,
{
    let value_u256 = U256::from_balance(value);
    // With overheads, less weight is available for the engine.
    let weight_limit = context.weight_limit.saturating_sub(overheads);
    let gas_limit = U256::from_gas(G::weight_to_gas(weight_limit));
    let source_address = A::into_h160(source);
    let tx = CheckedEthereumTx {
        gas_limit,
        target: target_decoded,
        value: value_u256,
        input,
        maybe_access_list: None,
    };
    (source_address, tx)
}

/// The weight an engine report stands for: the reported weight, or zero
/// where the engine reported none.
pub open spec fn reported_or_zero(w: Option<Weight>) -> Weight {
    match w {
        Some(x) => x,
        None => Weight { ref_time: 0, proof_size: 0 },
    }
}

/// Exactly how an EVM-style engine outcome is rendered as a generic call
/// result, with `overheads` added onto the engine's reported consumption:
/// success is forwarded with its returned bytes; a revert is forwarded
/// byte-for-byte on the revert path; an engine error or fatal condition, or
/// a failure of the engine call itself, is wrapped as a VM error carrying
/// the diagnostic.
pub open spec fn evm_translated(outcome: EvmTransactOutcome, overheads: Weight, r: CallResult) -> bool {
    match outcome {
        Ok((post_info, call_info)) => {
            let used = reported_or_zero(post_info.actual_weight).spec_saturating_add(overheads);
            match call_info.exit_reason {
                ExitReason::Succeed => is_success(r, call_info.value@, used),
                ExitReason::Revert => is_vm_revert(r, call_info.value@, used),
                ExitReason::Error(err) => is_vm_error(r, err@, used),
                ExitReason::Fatal(err) => is_vm_error(r, err@, used),
            }
        },
        Err(e) => is_vm_error(
            r,
            e.error@,
            reported_or_zero(e.post_info.actual_weight).spec_saturating_add(overheads),
        ),
    }
}

/// Translates the EVM-style engine's outcome into the generic result shape.
pub fn translate_evm_transact_outcome(outcome: EvmTransactOutcome, overheads: Weight) -> (r:
    CallResult)
    ensures
        evm_translated(outcome, overheads, r),
        consumed_of(r).all_gte(overheads),
{
    match outcome {
        Ok((post_info, call_info)) => {
            let reported = match post_info.actual_weight {
                Some(w) => w,
                None => Weight::zero(),
            };
            let used_weight = reported.saturating_add(overheads);
            let CallInfo { exit_reason, value } = call_info;
            match exit_reason {
                ExitReason::Succeed => Ok(CallOutput::new(value, used_weight)),
                ExitReason::Revert => Err(
                    CallFailure::revert(FailureRevert::VmRevert(value), used_weight),
                ),
                ExitReason::Error(err) => Err(
                    CallFailure::error(FailureError::VmError(err), used_weight),
                ),
                ExitReason::Fatal(err) => Err(
                    CallFailure::error(FailureError::VmError(err), used_weight),
                ),
            }
        },
        Err(e) => {
            let reported = match e.post_info.actual_weight {
                Some(w) => w,
                None => Weight::zero(),
            };
            let used_weight = reported.saturating_add(overheads);
            Err(CallFailure::error(FailureError::VmError(e.error), used_weight))
        },
    }
}

} // verus!
