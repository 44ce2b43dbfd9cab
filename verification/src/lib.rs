//! A transparency-log package registry core.
//!
//! The registry keeps an append-only Merkle log of leaves and a verifiable
//! map from each log to its latest record, commits to both in one
//! checkpoint, and gives evidence for what it holds. Records reach it
//! through validators of operator and package logs, which accept signed
//! envelopes in order and never change on a rejection.
//!
//! * [`text`]: hash identifiers and the other values that cross the
//!   interface as text.
//! * [`record`]: what operator and package records have in common.
//! * [`operator`], [`package`]: the records of the two kinds of log, their
//!   canonical encoding, and their validators.
//! * [`checkpoints`]: the log and the map filled together, and their
//!   checkpoint.
//! * [`log_proofs`], [`map_proofs`]: the Merkle log and the verifiable map
//!   with the proofs that they give.
//! * [`encoding`]: base64, key identifiers and signature encodings.
//! * [`ledger`], [`names`], [`commands`]: what the registry's interfaces
//!   compute around the core.
//!
//! The hash tree, the map, the record format and the validation rules are
//! those of the `warg` crates, which this library calls; the contracts
//! name what those crates compute and state what the library does with it.

pub mod checkpoints;
pub mod commands;
pub mod encoding;
pub mod ledger;
pub mod log_proofs;
pub mod map_proofs;
pub mod names;
pub mod operator;
pub mod package;
pub mod record;
pub mod text;
