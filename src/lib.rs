//! An escrow payment program with optional N-of-M multisig release, written
//! over plain values: account keys are 32-byte arrays, records are decoded
//! from and encoded to their fixed byte layouts, and every operation is a
//! function from the records it reads to the records it writes.
pub mod address;
pub mod badge_ops;
pub mod claim;
pub mod codec;
pub mod dispatch;
pub mod errors;
pub mod escrow_ops;
pub mod laws;
pub mod multisig_ops;
pub mod payload;
pub mod state;
