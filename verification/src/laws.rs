//! What each operation is for, as laws over its inputs and results.

pub mod docker;
pub mod exchange;
pub mod gpu;
pub mod job;
pub mod keys;
pub mod luks;
pub mod messages;
pub mod payload;
pub mod session;
pub mod settings;
pub mod sev_snp;
pub mod text;
