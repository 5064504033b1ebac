//! The runtime's cost unit, the per-VM overhead table, and the
//! weight-to-gas conversion interface.

use vstd::prelude::*;

verus! {

/// The runtime's VM-agnostic cost unit: computational time and storage
/// proof size, metered independently.
#[derive(Clone, Copy, PartialEq, Eq, Structural, Debug)]
pub struct Weight {
    pub ref_time: u64,
    pub proof_size: u64,
}

impl Weight {
    pub open spec fn spec_saturating_add(self, other: Weight) -> Weight {
        Weight {
            ref_time: if self.ref_time + other.ref_time <= u64::MAX {
                (self.ref_time + other.ref_time) as u64
            } else {
                u64::MAX
            },
            proof_size: if self.proof_size + other.proof_size <= u64::MAX {
                (self.proof_size + other.proof_size) as u64
            } else {
                u64::MAX
            },
        }
    }

    pub open spec fn spec_saturating_sub(self, other: Weight) -> Weight {
        Weight {
            ref_time: if self.ref_time >= other.ref_time {
                (self.ref_time - other.ref_time) as u64
            } else {
                0
            },
            proof_size: if self.proof_size >= other.proof_size {
                (self.proof_size - other.proof_size) as u64
            } else {
                0
            },
        }
    }

    /// Both components are at least as large as `other`'s.
    pub open spec fn all_gte(self, other: Weight) -> bool {
        self.ref_time >= other.ref_time && self.proof_size >= other.proof_size
    }

    pub fn from_parts(ref_time: u64, proof_size: u64) -> (r: Weight)
        ensures
            r == (Weight { ref_time, proof_size }),
    {
        Weight { ref_time, proof_size }
    }

    pub fn zero() -> (r: Weight)
        ensures
            r == (Weight { ref_time: 0u64, proof_size: 0u64 }),
    {
        Weight { ref_time: 0, proof_size: 0 }
    }

    /// Component-wise addition, saturating at the largest representable
    /// value instead of overflowing.
    pub fn saturating_add(self, other: Weight) -> (r: Weight)
        ensures
            r == self.spec_saturating_add(other),
            r.all_gte(other),
            r.all_gte(self),
    {
        let ref_time: u64 = if self.ref_time <= u64::MAX - other.ref_time {
            self.ref_time + other.ref_time
        } else {
            u64::MAX
        };
        let proof_size: u64 = if self.proof_size <= u64::MAX - other.proof_size {
            self.proof_size + other.proof_size
        } else {
            u64::MAX
        };
        Weight { ref_time, proof_size }
    }

    /// Component-wise subtraction, saturating at zero instead of
    /// underflowing.
    pub fn saturating_sub(self, other: Weight) -> (r: Weight)
        ensures
            r == self.spec_saturating_sub(other),
    {
        let ref_time: u64 = if self.ref_time >= other.ref_time {
            self.ref_time - other.ref_time
        } else {
            0
        };
        let proof_size: u64 = if self.proof_size >= other.proof_size {
            self.proof_size - other.proof_size
        } else {
            0
        };
        Weight { ref_time, proof_size }
    }
}

/// The overhead table: a fixed metering overhead charged for crossing into
/// each VM kind, independent of the call's outcome.
pub trait WeightInfo {
    spec fn spec_evm_call_overheads() -> Weight;

    spec fn spec_wasm_call_overheads() -> Weight;

    fn evm_call_overheads() -> (w: Weight)
        ensures
            w == Self::spec_evm_call_overheads(),
    ;

    fn wasm_call_overheads() -> (w: Weight)
        ensures
            w == Self::spec_wasm_call_overheads(),
    ;
}

pub const EVM_OVERHEAD_REF_TIME: u64 = 3000000;

pub const EVM_OVERHEAD_PROOF_SIZE: u64 = 1000;

pub const WASM_OVERHEAD_REF_TIME: u64 = 5000000;

pub const WASM_OVERHEAD_PROOF_SIZE: u64 = 2000;

/// An overhead table with constants fixed at build time.
pub struct FixedWeightInfo;

impl WeightInfo for FixedWeightInfo {
    open spec fn spec_evm_call_overheads() -> Weight {
        Weight { ref_time: EVM_OVERHEAD_REF_TIME, proof_size: EVM_OVERHEAD_PROOF_SIZE }
    }

    open spec fn spec_wasm_call_overheads() -> Weight {
        Weight { ref_time: WASM_OVERHEAD_REF_TIME, proof_size: WASM_OVERHEAD_PROOF_SIZE }
    }

    fn evm_call_overheads() -> Weight {
        Weight { ref_time: EVM_OVERHEAD_REF_TIME, proof_size: EVM_OVERHEAD_PROOF_SIZE }
    }

    fn wasm_call_overheads() -> Weight {
        Weight { ref_time: WASM_OVERHEAD_REF_TIME, proof_size: WASM_OVERHEAD_PROOF_SIZE }
    }
}

/// Conversion from the runtime's weight unit to the EVM's gas unit: a pure,
/// deterministic, monotonic external mapping. Monotonicity is a law every
/// implementation must prove: a weight no smaller in both components is
/// mapped to a gas amount no smaller.
pub trait GasWeightMapping {
    spec fn spec_weight_to_gas(weight: Weight) -> u64;

    proof fn lemma_weight_to_gas_monotonic(a: Weight, b: Weight)
        requires
            b.all_gte(a),
        ensures
            Self::spec_weight_to_gas(a) <= Self::spec_weight_to_gas(b),
    ;

    fn weight_to_gas(weight: Weight) -> (g: u64)
        ensures
            g == Self::spec_weight_to_gas(weight),
    ;
}

/// A gas mapping that charges one gas unit per unit of computational time.
pub struct OneToOneGasMapping;

impl GasWeightMapping for OneToOneGasMapping {
    open spec fn spec_weight_to_gas(weight: Weight) -> u64 {
        weight.ref_time
    }

    proof fn lemma_weight_to_gas_monotonic(a: Weight, b: Weight) {
    }

    fn weight_to_gas(weight: Weight) -> u64 {
        weight.ref_time
    }
}

} // verus!
