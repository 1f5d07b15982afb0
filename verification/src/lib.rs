//! Validation of signed price attestations and the running aggregate that
//! counts, per claimed `(value, slot, interval)`, how many validators vouch
//! for it.

pub mod bls;
pub mod bucket;
pub mod digest;
pub mod encoding;
pub mod entry;
pub mod error;
pub mod hex;
pub mod laws;
pub mod protocol;
pub mod signed;
pub mod store;
pub mod submission;
