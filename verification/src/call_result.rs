//! The shared result vocabulary all adapters produce: a success payload
//! with its consumed cost, or a tagged failure with its consumed cost.
//!
//! Failures come in two families. The `Error` family holds dispatch-level
//! failures not attributable to the called VM's own revert semantics; the
//! `Revert` family holds structured rejections deliberately returned by the
//! called code as program-level data.

use vstd::prelude::*;

use crate::weights::Weight;

verus! {

/// Produced only on success: the bytes the called code returned, plus the
/// total cost consumed, overhead included.
#[derive(Clone, PartialEq, Eq, Debug)]
pub struct CallOutput {
    pub output: Vec<u8>,
    pub used_weight: Weight,
}

impl CallOutput {
    pub fn new(output: Vec<u8>, used_weight: Weight) -> (r: CallOutput)
        ensures
            r.output == output,
            r.used_weight == used_weight,
    {
        CallOutput { output, used_weight }
    }
}

/// Dispatch-level failures: policy violations, malformed requests, and
/// opaque VM-internal errors carrying a diagnostic.
#[derive(Clone, PartialEq, Eq, Debug)]
pub enum FailureError {
    /// A VM attempted to call back into itself through the dispatcher.
    SameVmCallDenied,
    /// A dispatch was attempted while another was already in progress on
    /// the same call stack.
    ReentranceDenied,
    /// The called VM engine itself failed; carries its diagnostic bytes.
    VmError(Vec<u8>),
}

/// Rejections surfaced on the caller's revert-handling path: an unreachable
/// or invalid callee, or a deliberate revert from the called code.
#[derive(Clone, PartialEq, Eq, Debug)]
pub enum FailureRevert {
    /// The target byte sequence does not decode as an address of the
    /// target VM.
    InvalidTarget,
    /// The input payload exceeds the size bound of the target VM.
    InputTooLarge,
    /// The called code deliberately reverted; carries its returned bytes,
    /// forwarded unmodified.
    VmRevert(Vec<u8>),
}

/// The two failure families.
#[derive(Clone, PartialEq, Eq, Debug)]
pub enum FailureReason {
    Revert(FailureRevert),
    Error(FailureError),
}

/// A failure, unambiguously tagged with its family at construction time,
/// always carrying the cost consumed up to the point of failure.
#[derive(Clone, PartialEq, Eq, Debug)]
pub struct CallFailure {
    pub reason: FailureReason,
    pub used_weight: Weight,
}

impl CallFailure {
    /// The only way to build an `Error`-family failure.
    pub fn error(error: FailureError, used_weight: Weight) -> (r: CallFailure)
        ensures
            r.reason == FailureReason::Error(error),
            r.used_weight == used_weight,
    {
        CallFailure { reason: FailureReason::Error(error), used_weight }
    }

    /// The only way to build a `Revert`-family failure.
    pub fn revert(revert: FailureRevert, used_weight: Weight) -> (r: CallFailure)
        ensures
            r.reason == FailureReason::Revert(revert),
            r.used_weight == used_weight,
    {
        CallFailure { reason: FailureReason::Revert(revert), used_weight }
    }
}

pub type CallResult = Result<CallOutput, CallFailure>;

/// The cost reported by a result, on success and on failure alike.
pub open spec fn consumed_of(r: CallResult) -> Weight {
    match r {
        Ok(o) => o.used_weight,
        Err(f) => f.used_weight,
    }
}

/// `r` is a success returning exactly `data` with cost `used`.
pub open spec fn is_success(r: CallResult, data: Seq<u8>, used: Weight) -> bool {
    match r {
        Ok(o) => o.output@ == data && o.used_weight == used,
        Err(_) => false,
    }
}

/// `r` is a same-VM-call rejection with cost `used`.
pub open spec fn is_same_vm_denied(r: CallResult, used: Weight) -> bool {
    r == Err::<CallOutput, CallFailure>(
        CallFailure { reason: FailureReason::Error(FailureError::SameVmCallDenied), used_weight: used },
    )
}

/// `r` is a reentrance rejection with cost `used`.
pub open spec fn is_reentrance_denied(r: CallResult, used: Weight) -> bool {
    r == Err::<CallOutput, CallFailure>(
        CallFailure { reason: FailureReason::Error(FailureError::ReentranceDenied), used_weight: used },
    )
}

/// `r` is an invalid-target revert with cost `used`.
pub open spec fn is_invalid_target(r: CallResult, used: Weight) -> bool {
    r == Err::<CallOutput, CallFailure>(
        CallFailure { reason: FailureReason::Revert(FailureRevert::InvalidTarget), used_weight: used },
    )
}

/// `r` is an oversized-input revert with cost `used`.
pub open spec fn is_input_too_large(r: CallResult, used: Weight) -> bool {
    r == Err::<CallOutput, CallFailure>(
        CallFailure { reason: FailureReason::Revert(FailureRevert::InputTooLarge), used_weight: used },
    )
}

/// `r` forwards a deliberate revert of the called code, whose payload is
/// exactly `data`, with cost `used`.
pub open spec fn is_vm_revert(r: CallResult, data: Seq<u8>, used: Weight) -> bool {
    match r {
        Ok(_) => false,
        Err(f) => f.used_weight == used && match f.reason {
            FailureReason::Revert(FailureRevert::VmRevert(bytes)) => bytes@ == data,
            _ => false,
        },
    }
}

/// `r` wraps a VM-internal failure whose diagnostic bytes are exactly
/// `reason`, with cost `used`.
pub open spec fn is_vm_error(r: CallResult, reason: Seq<u8>, used: Weight) -> bool {
    match r {
        Ok(_) => false,
        Err(f) => f.used_weight == used && match f.reason {
            FailureReason::Error(FailureError::VmError(bytes)) => bytes@ == reason,
            _ => false,
        },
    }
}

} // verus!
