//! Identity registration for a ledger program: one identity record per
//! authority at a derived address, and the ordered nested calls that mint the
//! unique token standing for it.
//!
//! The library decides; the program around it does the outside work. A
//! registration is begun with [`register_identity`], which checks the input
//! and fills in the record. It then names the step to be done next, hands out
//! what that step needs, and takes the step's outcome.

pub mod account;
pub mod address;
pub mod context;
pub mod error;
pub mod instruction;
pub mod registration;

pub use account::IdentityAccount;
pub use context::RegisterIdentity;
pub use error::ErrorCode;
pub use registration::register_identity;
