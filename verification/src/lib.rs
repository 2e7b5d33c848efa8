//! The logic of an edge agent. The agent agrees on a key with a client through a
//! matchmaker that never learns it, opens the client's encrypted jobs, runs them
//! confined in containers on encrypted storage, and seals their results.
//!
//! - [`payload`], [`keys`]: padding and sealing of payloads, and the keys for it.
//! - [`sev_snp`], [`exchange`]: attestation, and the key exchange.
//! - [`session`], [`job`], [`docker`], [`luks`]: what the agent does with a
//!   message, a job, a container and its storage, as functions from what happened
//!   to what is to be done.
//! - [`laws`]: what each of these operations is for.
//! - [`trace`]: what holds of a job from its first step to its last.
//! - [`messages`], [`gpu`], [`config`]: what it sends, and what it knows of its
//!   machine and its settings.
//! - [`text`], [`json`], [`primitives`]: text, JSON and cryptography.

pub mod config;
pub mod docker;
pub mod exchange;
pub mod gpu;
pub mod job;
pub mod json;
pub mod keys;
pub mod laws;
pub mod luks;
pub mod messages;
pub mod payload;
pub mod primitives;
pub mod session;
pub mod sev_snp;
pub mod text;
pub mod trace;
