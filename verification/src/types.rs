//! Plain data carried through a cross-VM call: VM identifiers, accounts,
//! the call context, and the reentrance flag.

use vstd::prelude::*;

use crate::weights::Weight;

verus! {

/// Identifier of a virtual machine kind. The dispatcher routes between
/// exactly these two kinds.
#[derive(Clone, Copy, PartialEq, Eq, Structural, Debug)]
pub enum VmId {
    Evm,
    Wasm,
}

/// The runtime's native balance unit.
pub type Balance = u128;

/// The runtime's native account identifier: 32 raw bytes.
#[derive(Clone, Copy, PartialEq, Eq, Debug)]
pub struct AccountId(pub [u8; 32]);

impl View for AccountId {
    type V = Seq<u8>;

    open spec fn view(&self) -> Seq<u8> {
        self.0@
    }
}

/// A 256-bit value in the EVM's native numeric representation, held as two
/// 128-bit limbs (little-endian limb order).
#[derive(Clone, Copy, PartialEq, Eq, Structural, Debug)]
pub struct U256 {
    pub low: u128,
    pub high: u128,
}

impl U256 {
    /// Widens a native balance into the EVM's 256-bit representation.
    pub fn from_balance(v: Balance) -> (r: U256)
        ensures
            r.low == v,
            r.high == 0,
    {
        U256 { low: v, high: 0 }
    }

    /// Widens a gas amount into the EVM's 256-bit representation.
    pub fn from_gas(g: u64) -> (r: U256)
        ensures
            r.low == g,
            r.high == 0,
    {
        U256 { low: g as u128, high: 0 }
    }
}

/// Immutable call context supplied by the caller: which VM the call
/// originates from, and the cost budget available for the entire cross-VM
/// call, overhead included.
#[derive(Clone, Copy, PartialEq, Eq, Structural, Debug)]
pub struct Context {
    pub source_vm_id: VmId,
    pub weight_limit: Weight,
}

/// Reentrance flag for one transaction's call stack: true exactly while a
/// dispatch is in progress. It is threaded explicitly through the dispatcher
/// and the engine calls, so that a nested dispatch attempt on the same stack
/// can be detected and refused.
#[derive(Clone, Copy, PartialEq, Eq, Structural, Debug)]
pub struct ReentranceFlag {
    pub in_xvm: bool,
}

impl ReentranceFlag {
    /// A fresh flag for a new call stack: no dispatch in progress.
    pub fn new() -> (r: ReentranceFlag)
        ensures
            !r.in_xvm,
    {
        ReentranceFlag { in_xvm: false }
    }
}

} // verus!
