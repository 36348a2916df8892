//! On-ledger logic of a liquid-staking program: instruction encoding and
//! decoding, the ordered account-role checks that guard every instruction,
//! derived program authorities, and the state transitions of the processor.
use vstd::prelude::*;

pub mod error;
pub mod key;
pub mod accounts;
pub mod instruction;
pub mod authority;
pub mod ids;
pub mod stake_pool;
pub mod state;
pub mod processor;
pub mod multisig;
pub mod cpi;

verus! {

} // verus!
