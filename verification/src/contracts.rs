//! The WASM-style side of the dispatcher: the contract-execution engine
//! interface, its execution-mode switches, and the verified translation of
//! its result into the generic result shape.

use vstd::prelude::*;

use crate::call_result::{
    consumed_of, is_success, is_vm_error, is_vm_revert, CallFailure, CallOutput, CallResult,
    FailureError, FailureRevert,
};
use crate::types::{AccountId, Balance, Context, ReentranceFlag};
use crate::weights::Weight;

verus! {

/// Whether the engine must enforce deterministic execution.
#[derive(Clone, Copy, PartialEq, Eq, Structural, Debug)]
pub enum Determinism {
    Enforced,
    Relaxed,
}

/// Whether the engine collects debug information.
#[derive(Clone, Copy, PartialEq, Eq, Structural, Debug)]
pub enum DebugInfo {
    Skip,
    Collect,
}

/// Whether the engine collects emitted events.
#[derive(Clone, Copy, PartialEq, Eq, Structural, Debug)]
pub enum CollectEvents {
    Skip,
    Collect,
}

/// What executed contract code handed back: its returned bytes, and
/// whether its return flags mark the result as a deliberate revert.
#[derive(Clone, PartialEq, Eq, Debug)]
pub struct ExecReturnValue {
    pub did_revert: bool,
    pub data: Vec<u8>,
}

/// The WASM-style engine's report: the weight it consumed, and either a
/// return value or a diagnostic for an execution error.
#[derive(PartialEq, Eq, Debug)]
pub struct ContractExecResult {
    pub gas_consumed: Weight,
    pub result: Result<ExecReturnValue, Vec<u8>>,
}

/// A call in the WASM-style engine's native shape: who calls, which
/// account is called, with what value, budget, deposit ceiling, input, and
/// under which execution-mode switches.
#[derive(PartialEq, Eq, Debug)]
pub struct WasmCallRequest {
    pub origin: AccountId,
    pub dest: AccountId,
    pub value: Balance,
    pub gas_limit: Weight,
    pub storage_deposit_limit: Option<Balance>,
    pub data: Vec<u8>,
    pub debug: DebugInfo,
    pub collect_events: CollectEvents,
    pub determinism: Determinism,
}

/// The external WASM-style contract-execution engine. The dispatcher only
/// interprets its result; nothing is assumed of what it returns. The
/// reentrance flag is threaded through so code the engine runs can attempt
/// a nested dispatch.
pub trait WasmExecutor {
    fn bare_call(request: WasmCallRequest, flag: &mut ReentranceFlag) -> ContractExecResult;
}

/// Builds the native call handed to the WASM-style engine: the request is
/// forwarded unchanged, the engine's budget is the caller's weight limit
/// less the overhead (saturating at zero), and the engine is always asked
/// to enforce deterministic execution and to skip debug and event
/// collection.
pub fn build_wasm_request(
    context: Context,
    source: AccountId,
    dest: AccountId,
    input: Vec<u8>,
    value: Balance,
    storage_deposit_limit: Option<Balance>,
    overheads: Weight,
) -> (r: WasmCallRequest)
    ensures
        r.origin == source,
        r.dest == dest,
        r.value == value,
        r.gas_limit == context.weight_limit.spec_saturating_sub(overheads),
        r.storage_deposit_limit == storage_deposit_limit,
        r.data@ == input@,
        r.debug == DebugInfo::Skip,
        r.collect_events == CollectEvents::Skip,
        r.determinism == Determinism::Enforced,
{
    // With overheads, less weight is available for the engine.
    let gas_limit = context.weight_limit.saturating_sub(overheads);
    WasmCallRequest {
        origin: source,
        dest,
        value,
        gas_limit,
        storage_deposit_limit,
        data: input,
        debug: DebugInfo::Skip,
        collect_events: CollectEvents::Skip,
        determinism: Determinism::Enforced,
    }
}

/// Exactly how a WASM-style engine result is rendered as a generic call
/// result, with `overheads` added onto the engine's consumed weight: a
/// return value with the revert flag set is forwarded byte-for-byte on the
/// revert path, one without it is a success with its returned bytes, and
/// an execution error is wrapped as a VM error carrying the diagnostic.
pub open spec fn wasm_translated(
    exec_result: ContractExecResult,
    overheads: Weight,
    r: CallResult,
) -> bool {
    let used = exec_result.gas_consumed.spec_saturating_add(overheads);
    match exec_result.result {
        Ok(val) => if val.did_revert {
            is_vm_revert(r, val.data@, used)
        } else {
            is_success(r, val.data@, used)
        },
        Err(err) => is_vm_error(r, err@, used),
    }
}

/// Translates the WASM-style engine's result into the generic result shape.
pub fn translate_contract_exec_result(exec_result: ContractExecResult, overheads: Weight) -> (r:
    CallResult)
    ensures
        wasm_translated(exec_result, overheads, r),
        consumed_of(r).all_gte(overheads),
{
    let used_weight = exec_result.gas_consumed.saturating_add(overheads);
    match exec_result.result {
        Ok(val) => {
            let ExecReturnValue { did_revert, data } = val;
            if did_revert {
                Err(CallFailure::revert(FailureRevert::VmRevert(data), used_weight))
            } else {
                Ok(CallOutput::new(data, used_weight))
            }
        },
        Err(err) => Err(CallFailure::error(FailureError::VmError(err), used_weight)),
    }
}

} // verus!
