//! An in-memory ticket service: a collection of tickets kept in insertion
//! order, the five operations on it (create, list, fetch, update, delete),
//! and the HTTP replies (status, content type, JSON body) that answer them.
//!
//! The functions here work on plain values. A caller that serves the
//! operations over a network holds the collection behind a lock and
//! hands each operation exclusive access for the length of one call.

pub mod ticket;
pub mod json;
pub mod reply;
pub mod store;
pub mod handlers;
pub mod service;
pub mod laws;
