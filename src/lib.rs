//! Discovery of receipt printers and transmission of ticket payloads.
//!
//! The library holds the decisions: which registered printers count as
//! USB-like or COM-like, how listings are composed, how a probe is judged,
//! and the protocol that drives a transmission step by step. The caller
//! performs the operating-system work that each step asks for and reports
//! back what happened.
pub mod discovery;
pub mod directory;
pub mod endpoint;
pub mod probe;
pub mod text;
pub mod transmit;
