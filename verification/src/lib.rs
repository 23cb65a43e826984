//! Bearer-token gateway core: token parsing and verification, signing-key
//! caching with single-flight refresh, and route-policy evaluation.

pub mod bytesutil;
pub mod errors;
pub mod flow;
pub mod keys;
pub mod laws;
pub mod policy;
pub mod token;
pub mod trusted;
