//! The Subsocial parachain runtime's own configuration logic: its time units, block
//! weight and length limits, default space permissions, cross-chain message format and
//! version information.
pub mod arith;
pub mod config;
pub mod limits;
pub mod message;
pub mod permissions;
pub mod time;
pub mod version;
