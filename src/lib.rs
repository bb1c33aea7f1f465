//! Two on-chain record registries: compressed NFTs kept as leaves of an
//! external Merkle tree, and "blink" metadata records.
//!
//! Each entry point validates its inputs, enforces the account constraints
//! (fresh account on create, stored owner on every mutation) and computes
//! the new record state. The host runtime stays with the caller: the ledger
//! time comes in as a value, and the calls into the compression program go
//! out as requests.
pub mod key;
pub mod layout;
pub mod cnft;
pub mod blink;
