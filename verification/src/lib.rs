//! Verified core of a small file-management backend: credentials and bearer
//! tokens, the authorization gate, the user, reset-code and file stores, and
//! the request handlers that tie them together.
//!
//! Every handler is written against in-memory tables whose operations mirror
//! one relational statement each; the decisions a handler takes between two
//! store round trips are separate functions, so that a server backed by a real
//! database can drive the same verified logic.

pub mod config;
pub mod db;
pub mod laws;
pub mod models;
pub mod repositories;
pub mod services;
