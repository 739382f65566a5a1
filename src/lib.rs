//! Error resolution against runtime metadata, and composition of batched
//! utility calls.

pub mod encoding;
pub mod error;
pub mod extrinsic;
pub mod metadata;
