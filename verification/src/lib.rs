//! A database readiness probe, written without I/O.
//!
//! The probe answers one question: is this database reachable and accepting
//! queries right now? This crate holds everything about that question that
//! can be decided from plain values: how a request is decoded, what the
//! connection string looks like, what to do after each connect, query and
//! sleep, and how the outcome is reported. The caller owns the socket and
//! the clock; it performs each [`probe::Action`] and hands back the
//! [`probe::Event`] that resulted.

pub mod decode;
pub mod outcome;
pub mod params;
pub mod probe;
pub mod trace;
