//! Verified core of a Q&A web service backend.
//!
//! The security-critical logic lives here: credential hashing and
//! verification, the session-token lifecycle (issue, decode, validate),
//! the request authorization decisions, and the retry/classification
//! policy of the outbound content-moderation client.  Persistence and
//! HTTP transport are external collaborators; the functions in this
//! crate take their results as plain values and return plain values.

pub mod account;
pub mod authentication;
pub mod answer;
pub mod config;
pub mod credentials;
pub mod decimal;
pub mod error;
pub mod moderation;
pub mod pagination;
pub mod question;
pub mod strutil;
pub mod token;
