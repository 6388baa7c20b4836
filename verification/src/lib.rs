//! An in-memory message queue service: named first-in-first-out queues of
//! string messages, shared by concurrent request handlers.
//!
//! - `model` says what a store is as a mathematical map, and what each
//!   operation does to it.
//! - `queue_map` holds the queues for one owner; every operation proves that
//!   it does what `model` says.
//! - `store` puts one `QueueMap` behind one lock, for many callers.
//! - `laws` proves what follows for every run: first in first out, counts,
//!   reads that change nothing, inserts that lose nothing.
//! - `json` writes the JSON texts of the answers.
//! - `web` turns the outcome of an operation into the response of its route.

pub mod json;
pub mod laws;
pub mod model;
pub mod queue_map;
pub mod store;
pub mod web;
