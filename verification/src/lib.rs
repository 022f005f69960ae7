//! A small verified client library for a chat-server HTTP API.
//!
//! The library holds the session logic: building the login and endpoint
//! requests, deciding what a response means, extracting the bearer token and
//! user id, and summing unread message counts. Performing the HTTP calls is
//! left to the program around the library.

pub mod error;
pub mod json;
pub mod session;
pub mod text;
pub mod unread;
