//! The dispatcher core: same-VM-call rejection, the reentrance guard,
//! weight-limit adjustment for overhead, and the routing switch between
//! the two VM call adapters.

use core::marker::PhantomData;
use vstd::prelude::*;

use crate::call_result::{
    consumed_of, is_input_too_large, is_invalid_target, is_reentrance_denied, is_same_vm_denied,
    is_success, CallFailure, CallOutput, CallResult, FailureError, FailureRevert,
};
use crate::codec::{decode_evm_target, decode_wasm_target, EVM_TARGET_LEN, MAX_ETHEREUM_TX_INPUT,
    WASM_TARGET_LEN};
use crate::contracts::{
    build_wasm_request, wasm_translated, translate_contract_exec_result, ContractExecResult,
    WasmExecutor,
};
use crate::ethereum::{
    build_evm_request, evm_translated, translate_evm_transact_outcome, AccountMapping,
    CheckedEthereumTransact, EvmTransactOutcome,
};
use crate::types::{AccountId, Balance, Context, ReentranceFlag, VmId};
use crate::weights::{GasWeightMapping, Weight, WeightInfo};

verus! {

/// Everything the surrounding runtime must supply: the account mapping,
/// the weight-to-gas conversion, the two VM engines, and the overhead
/// table.
pub trait Config {
    type AccountMapping: AccountMapping;

    type GasWeightMapping: GasWeightMapping;

    type EthereumTransact: CheckedEthereumTransact;

    type WasmExecutor: WasmExecutor;

    type WeightInfo: WeightInfo;
}

pub type WeightInfoOf<T> = <T as Config>::WeightInfo;

type AccountMappingOf<T> = <T as Config>::AccountMapping;

type GasWeightMappingOf<T> = <T as Config>::GasWeightMapping;

type EthereumTransactOf<T> = <T as Config>::EthereumTransact;

type WasmExecutorOf<T> = <T as Config>::WasmExecutor;

/// The overhead charged for crossing into the given VM, as the overhead
/// table of the configuration fixes it.
pub open spec fn spec_overheads<T: Config>(vm_id: VmId) -> Weight {
    match vm_id {
        VmId::Evm => WeightInfoOf::<T>::spec_evm_call_overheads(),
        VmId::Wasm => WeightInfoOf::<T>::spec_wasm_call_overheads(),
    }
}

/// Everything the EVM-style adapter promises of its result, for a request
/// whose raw target is `target` and whose input payload is `input`:
/// validation failures are exact reverts at overhead-only cost; with "skip
/// execution" set, a validated request succeeds with empty data at
/// overhead-only cost; otherwise the result is the exact translation of
/// some engine outcome; and cost never falls below the overhead.
pub open spec fn evm_call_ensures(
    target: Seq<u8>,
    input: Seq<u8>,
    overheads: Weight,
    skip_execution: bool,
    r: CallResult,
) -> bool {
    &&& target.len() != EVM_TARGET_LEN ==> is_invalid_target(r, overheads)
    &&& target.len() == EVM_TARGET_LEN && input.len() > MAX_ETHEREUM_TX_INPUT
        ==> is_input_too_large(r, overheads)
    &&& target.len() == EVM_TARGET_LEN && input.len() <= MAX_ETHEREUM_TX_INPUT && skip_execution
        ==> is_success(r, Seq::<u8>::empty(), overheads)
    &&& target.len() == EVM_TARGET_LEN && input.len() <= MAX_ETHEREUM_TX_INPUT && !skip_execution
        ==> exists|outcome: EvmTransactOutcome| evm_translated(outcome, overheads, r)
    &&& consumed_of(r).all_gte(overheads)
}

/// Everything the WASM-style adapter promises of its result, for a request
/// whose raw target is `target`: an undecodable target is an exact revert
/// at overhead-only cost; with "skip execution" set, a validated request
/// succeeds with empty data at overhead-only cost; otherwise the result is
/// the exact translation of some engine result; and cost never falls below
/// the overhead.
pub open spec fn wasm_call_ensures(
    target: Seq<u8>,
    overheads: Weight,
    skip_execution: bool,
    r: CallResult,
) -> bool {
    &&& target.len() < WASM_TARGET_LEN ==> is_invalid_target(r, overheads)
    &&& target.len() >= WASM_TARGET_LEN && skip_execution
        ==> is_success(r, Seq::<u8>::empty(), overheads)
    &&& target.len() >= WASM_TARGET_LEN && !skip_execution
        ==> exists|exec_result: ContractExecResult| wasm_translated(exec_result, overheads, r)
    &&& consumed_of(r).all_gte(overheads)
}

/// Everything one dispatch promises: the reentrance flag is restored on
/// every exit path; a same-VM call is refused outright; a nested dispatch
/// is refused; cost never falls below the target VM's overhead; and an
/// admitted request keeps the promises of the adapter it was routed to.
pub open spec fn dispatch_ensures<T: Config>(
    context: Context,
    vm_id: VmId,
    target: Seq<u8>,
    input: Seq<u8>,
    skip_execution: bool,
    flag_before: bool,
    flag_after: bool,
    r: CallResult,
) -> bool {
    &&& flag_after == flag_before
    &&& context.source_vm_id == vm_id ==> is_same_vm_denied(r, spec_overheads::<T>(vm_id))
    &&& context.source_vm_id != vm_id && flag_before
        ==> is_reentrance_denied(r, spec_overheads::<T>(vm_id))
    &&& context.source_vm_id != vm_id && !flag_before && vm_id == VmId::Evm
        ==> evm_call_ensures(target, input, spec_overheads::<T>(vm_id), skip_execution, r)
    &&& context.source_vm_id != vm_id && !flag_before && vm_id == VmId::Wasm
        ==> wasm_call_ensures(target, spec_overheads::<T>(vm_id), skip_execution, r)
    &&& consumed_of(r).all_gte(spec_overheads::<T>(vm_id))
}

/// The cross-VM call dispatcher over a runtime configuration.
pub struct Pallet<T>(PhantomData<T>);

impl<T: Config> Pallet<T> {
    /// Dispatches one cross-VM call request.
    pub fn call(
        context: Context,
        vm_id: VmId,
        source: AccountId,
        target: Vec<u8>,
        input: Vec<u8>,
        value: Balance,
        storage_deposit_limit: Option<Balance>,
        flag: &mut ReentranceFlag,
    ) -> (r: CallResult)
        ensures
            dispatch_ensures::<T>(
                context,
                vm_id,
                target@,
                input@,
                false,
                old(flag).in_xvm,
                final(flag).in_xvm,
                r,
            ),
    {
        Self::do_call(context, vm_id, source, target, input, value, storage_deposit_limit, false, flag)
    }

    /// Dispatches a request in "skip execution" mode, for measuring the
    /// overhead itself: all validation and conversion is performed, but
    /// the engine is not entered, and a validated request succeeds with
    /// empty data at exactly the overhead cost.
    pub fn call_without_execution(
        context: Context,
        vm_id: VmId,
        source: AccountId,
        target: Vec<u8>,
        input: Vec<u8>,
        value: Balance,
        storage_deposit_limit: Option<Balance>,
        flag: &mut ReentranceFlag,
    ) -> (r: CallResult)
        ensures
            dispatch_ensures::<T>(
                context,
                vm_id,
                target@,
                input@,
                true,
                old(flag).in_xvm,
                final(flag).in_xvm,
                r,
            ),
    {
        Self::do_call(context, vm_id, source, target, input, value, storage_deposit_limit, true, flag)
    }

    fn do_call(
        context: Context,
        vm_id: VmId,
        source: AccountId,
        target: Vec<u8>,
        input: Vec<u8>,
        value: Balance,
        storage_deposit_limit: Option<Balance>,
        skip_execution: bool,
        flag: &mut ReentranceFlag,
    ) -> (r: CallResult)
        ensures
            dispatch_ensures::<T>(
                context,
                vm_id,
                target@,
                input@,
                skip_execution,
                old(flag).in_xvm,
                final(flag).in_xvm,
                r,
            ),
    {
        let overheads = match vm_id {
            VmId::Evm => WeightInfoOf::<T>::evm_call_overheads(),
            VmId::Wasm => WeightInfoOf::<T>::wasm_call_overheads(),
        };

        // A VM may not call back into itself through the dispatcher: a
        // same-VM call must use the VM's native call mechanism directly.
        if context.source_vm_id == vm_id {
            return Err(CallFailure::error(FailureError::SameVmCallDenied, overheads));
        }

        // Test-and-set the reentrance flag. A dispatch already in progress
        // on this call stack keeps the flag it set; the nested attempt is
        // refused without touching it.
        if flag.in_xvm {
            return Err(CallFailure::error(FailureError::ReentranceDenied, overheads));
        }
        flag.in_xvm = true;

        let res = match vm_id {
            VmId::Evm => Self::evm_call(
                context,
                source,
                target,
                input,
                value,
                overheads,
                skip_execution,
                flag,
            ),
            VmId::Wasm => Self::wasm_call(
                context,
                source,
                target,
                input,
                value,
                overheads,
                storage_deposit_limit,
                skip_execution,
                flag,
            ),
        };

        // Clear the reentrance flag on every exit path that set it,
        // whatever the adapter or the engine did meanwhile.
        flag.in_xvm = false;

        res
    }

    fn evm_call(
        context: Context,
        source: AccountId,
        target: Vec<u8>,
        input: Vec<u8>,
        value: Balance,
        overheads: Weight,
        skip_execution: bool,
        flag: &mut ReentranceFlag,
    ) -> (r: CallResult)
        ensures
            evm_call_ensures(target@, input@, overheads, skip_execution, r),
    {
        let target_decoded = match decode_evm_target(&target) {
            Some(t) => t,
            None => {
                return Err(CallFailure::revert(FailureRevert::InvalidTarget, overheads));
            },
        };
        if input.len() > MAX_ETHEREUM_TX_INPUT {
            return Err(CallFailure::revert(FailureRevert::InputTooLarge, overheads));
        }

        let (source_address, tx) = build_evm_request::<AccountMappingOf<T>, GasWeightMappingOf<T>>(
            context,
            source,
            target_decoded,
            input,
            value,
            overheads,
        );

        // The skip-execution test sits immediately before the engine call,
        // so that the validation and conversion cost around it is the same
        // with and without it.
        if skip_execution {
            return Ok(CallOutput::new(Vec::new(), overheads));
        }

        let transact_result = EthereumTransactOf::<T>::xvm_transact(source_address, tx, flag);
        let res = translate_evm_transact_outcome(transact_result, overheads);
        proof {
            assert(exists|outcome: EvmTransactOutcome| evm_translated(outcome, overheads, res))
                by {
                assert(evm_translated(transact_result, overheads, res));
            }
        }
        res
    }

    fn wasm_call(
        context: Context,
        source: AccountId,
        target: Vec<u8>,
        input: Vec<u8>,
        value: Balance,
        overheads: Weight,
        storage_deposit_limit: Option<Balance>,
        skip_execution: bool,
        flag: &mut ReentranceFlag,
    ) -> (r: CallResult)
        ensures
            wasm_call_ensures(target@, overheads, skip_execution, r),
    {
        let dest = match decode_wasm_target(&target) {
            Some(d) => d,
            None => {
                return Err(CallFailure::revert(FailureRevert::InvalidTarget, overheads));
            },
        };

        let request = build_wasm_request(
            context,
            source,
            dest,
            input,
            value,
            storage_deposit_limit,
            overheads,
        );

        // The skip-execution test sits immediately before the engine call,
        // so that the validation and conversion cost around it is the same
        // with and without it.
        if skip_execution {
            return Ok(CallOutput::new(Vec::new(), overheads));
        }

        let call_result = WasmExecutorOf::<T>::bare_call(request, flag);
        let res = translate_contract_exec_result(call_result, overheads);
        proof {
            assert(exists|exec_result: ContractExecResult| wasm_translated(exec_result, overheads, res))
                by {
                assert(wasm_translated(call_result, overheads, res));
            }
        }
        res
    }
}

} // verus!
