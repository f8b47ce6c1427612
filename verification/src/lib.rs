//! Core logic of a small user-record service backed by two sources: a local,
//! mutable record store and an external, read-mostly user directory.
//!
//! The library holds the decision logic — merging the two sources, the
//! identifier policy, field-level diffs for partial updates, and the
//! interpretation of directory responses — as verified functions over plain
//! values. The surrounding I/O (HTTP server and clients, the document store)
//! lives outside and hands plain values in and out.

pub mod configuration;
pub mod user;
pub mod user_client;
pub mod user_controller;
pub mod user_service;
