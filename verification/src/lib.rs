//! An on-ledger instant-messaging program core: deterministic address
//! derivation, account layout and serialization, storage-allocation sizing,
//! and the instruction processor that validates every supplied account
//! before describing any mutation.

use vstd::prelude::*;

pub mod accounts;
pub mod addr;
pub mod codec;
pub mod dec;
pub mod error;
pub mod instruction;
pub mod ledger;
pub mod pda;
pub mod processor;
pub mod state;
pub mod utils;

pub use crate::processor::process_instruction;

verus! {

} // verus!
