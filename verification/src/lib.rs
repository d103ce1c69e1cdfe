//! Search for Ed25519 SSH keypairs whose public-key encoding matches a
//! textual pattern ("vanity keys").
//!
//! The crate provides the verified core of the search: key generation
//! (through trusted bindings to the curve arithmetic), pattern compilation
//! and matching, the worker loop that generates and tests batches, and the
//! aggregator state that folds worker reports into rate statistics and
//! match records.  Everything that touches the file system, the terminal or
//! threads lives outside this crate and drives it through plain values.

pub mod config;
pub mod keypair;
pub mod manager;
pub mod pattern;
pub mod text;
pub mod worker;
