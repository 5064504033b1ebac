//! Cross-virtual-machine call dispatcher.
//!
//! Lets code running inside one virtual machine invoke code inside a
//! different virtual machine within the same transaction, while enforcing
//! metering, reentrance, and target-validation rules. Exactly two VM kinds
//! are supported: an EVM-style machine and a WASM-style machine.

pub mod call_result;
pub mod codec;
pub mod contracts;
pub mod dispatch;
pub mod ethereum;
pub mod types;
pub mod weights;

pub use call_result::{CallFailure, CallOutput, CallResult, FailureError, FailureReason, FailureRevert};
pub use dispatch::{Config, Pallet, WeightInfoOf};
pub use types::{AccountId, Balance, Context, ReentranceFlag, VmId, U256};
pub use weights::{GasWeightMapping, Weight, WeightInfo};
