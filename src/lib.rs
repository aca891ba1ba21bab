//! A review-record processor: it derives the storage address of a review from
//! its author and title, checks authorization and the record's invariants, and
//! creates or updates the record's bytes in a storage slot.

pub mod address;
pub mod codec;
pub mod instruction;
pub mod laws;
pub mod processor;
pub mod state;

pub use address::derive_address;
pub use instruction::ReviewInstruction;
pub use processor::{add_review, check_create, init_record, process_instruction, update_review};
pub use state::{same_address, Account, AccountState, ReviewError, ACCOUNT_LEN};
