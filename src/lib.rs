//! Presentation-of-proof conversations between a prover and a verifier:
//! the two protocol state machines, the registries that hold sessions, and
//! the matcher that picks which pending inbound message advances a session.
pub mod error;
pub mod messages;
pub mod ids;
pub mod prover;
pub mod matcher;
pub mod registry;
pub mod verification;
pub mod disclosed_proof;
pub mod service;
pub mod laws;
pub mod ledger;
