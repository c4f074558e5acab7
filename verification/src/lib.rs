//! An emoji-tagged commit workflow on top of three version-control
//! operations: staging files, creating a commit, and pushing a branch
//! to its remote.
//!
//! The engine itself (object database, index, transport) is the `git2`
//! crate, consumed through a narrow trusted interface; everything this
//! crate decides — path normalization, commit-message assembly,
//! credential-strategy selection, and the sequencing and error mapping
//! of the three operations — is verified.

pub mod add;
pub mod catalog;
pub mod commands;
pub mod commit;
pub mod creds;
pub mod errors;
pub mod git;
pub mod message;
pub mod paths;
pub mod push;
pub mod repository;
pub mod text;
