//! Decoding and planning for cloning a verified contract's sources from an
//! Etherscan-compatible block explorer into a local project tree.

pub mod chain;
pub mod json;
pub mod pipeline;
pub mod source;
pub mod text;
