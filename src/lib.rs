//! A two-party escrow: an owner locks an amount against a described task, a
//! freelancer claims the task, and the owner completes it once the claimant
//! matches and the release time has come.
//!
//! `state` holds the persistent job record and its fixed 183-byte layout,
//! `instruction` decodes instruction data, `processor` holds the state
//! transitions and the per-invocation dispatcher, and `lemmas` the proved
//! properties that relate them.

pub mod error;
pub mod instruction;
pub mod lemmas;
pub mod processor;
pub mod state;
