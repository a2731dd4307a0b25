//! Stateless ledger operations: key handling, message signing and verification,
//! and construction of unsigned instruction payloads.
pub mod codec;
pub mod keys;
pub mod instruction;
pub mod request;
