//! Normalization and redaction of log submissions.
//!
//! A request, given by its headers and its body, is turned into a [`model::NormalizedLog`] or
//! rejected ([`normalize`]). A normalized log is processed into a [`model::ProcessedLog`]: its
//! phone numbers are redacted ([`redact`]), its identity is resolved and its record assembled
//! ([`process`]) and laid out for the store ([`store`]). What is to happen outside for a
//! delivered message, step by step, is decided in [`batch`].

pub mod batch;
pub mod clock;
pub mod headers;
pub mod ids;
pub mod json;
pub mod metadata;
pub mod model;
pub mod normalize;
pub mod process;
pub mod redact;
pub mod store;
pub mod text;
