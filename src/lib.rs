//! Request and response translation between a payment engine's canonical
//! operations and the MultiSafepay gateway's wire shapes.
//!
//! Every translation here is a pure function with a contract: request
//! builders, response parsers and the status mappings between the gateway's
//! vocabulary and the engine's.

pub mod decimal;
pub mod transformers;
pub mod types;
