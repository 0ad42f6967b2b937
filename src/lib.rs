//! On-chain film reviews: validated review records, verification records,
//! fixed-capacity account layouts, and an explicit account lifecycle
//! (create into an empty slot, close by the stored author with the deposit
//! refunded).
pub mod account;
mod clock;
pub mod error;
pub mod key;
pub mod layout;
pub mod review;
pub mod validate;
pub mod verify;
