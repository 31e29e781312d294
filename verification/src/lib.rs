//! Core logic of a small tutoring-platform service: tutors, the courses they
//! post, and the shared application state behind the HTTP handlers.
//!
//! The handlers here are the pure hearts of the HTTP endpoints: they take the
//! request's data as plain values, read or mutate the application state, and
//! return the status code and body of the response. The surrounding server
//! (routing, JSON extraction, the lock around the shared state) lives outside
//! this crate.

pub mod handlers;
pub mod ids;
pub mod json;
pub mod laws;
pub mod models;
pub mod persistent;
pub mod queries;
pub mod state;
pub mod text;
pub mod time;
