//! Verified core of a small note-taking REST service.
//!
//! The service keeps notes (title, content, publish flag, timestamps) in a
//! relational table and exposes three operations over HTTP: list notes with
//! pagination, create a note, and partially update a note by id. This crate
//! verifies the decision logic of that pipeline: pagination arithmetic,
//! identifier validation, partial-update merging, the service rules over the
//! notes table, and the mapping of outcomes to HTTP status codes and response
//! envelopes. The surrounding process (routing, JSON decoding, the SQL driver)
//! performs the input/output and calls into this core for every decision.

pub mod http;
pub mod laws;
pub mod model;
pub mod note_id;
pub mod schema;
pub mod service;
pub mod store;
