//! Off-chain client library for submitting signed reports to an on-chain
//! verifier program.
//!
//! The library holds the verified core of the submission flow: deriving the
//! verifier-configuration and per-report configuration addresses, compressing
//! the report, assembling the single verification instruction, stepping the
//! submission session from blockhash fetch to confirmation, and decoding the
//! optional return payload.  The network transport, transaction signing and
//! instruction byte encoding are the surrounding application's task; it drives
//! the session state machine defined here with the events it observes.

pub mod addr;
pub mod client;
pub mod codec;
pub mod session;
