//! One-time passcode (OTP) issuance and verification for phone-number
//! ownership proof.
//!
//! The crate holds the verified core of the service: the pending-code store
//! with its single-flight rate limiting and expiry rules, the verified-phone
//! set, the random-code generator, the delivery client's request building and
//! retry decisions, and the engine that ties them together. Network and
//! randomness capabilities stay outside; they hand the engine plain values
//! (the current time, random bytes, each delivery attempt's outcome).

pub mod codegen;
pub mod delivery;
pub mod digits;
pub mod engine;
pub mod store;
