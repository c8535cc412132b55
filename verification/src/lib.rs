//! Identifier validation and deterministic handshake-message construction
//! for a two-chain inter-chain communication demo.
//!
//! The pipeline turns operator-typed arguments into validated protocol
//! identifiers, derives fixed-width binary identifiers from them, builds the
//! handshake message for one of the supported operations, encodes it into a
//! typed envelope, and prepares the submission to a resolved chain endpoint.

pub mod digest;
pub mod dispatch;
pub mod encode;
pub mod endpoints;
pub mod hexparse;
pub mod messages;
pub mod numparse;
pub mod pipeline;
pub mod validation;
