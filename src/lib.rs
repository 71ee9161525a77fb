//! Authentication and session orchestration for a campus marketplace backend.
//!
//! The library holds the logic of the sign-up, login, recovery and logout
//! flows, stated over a model of the volatile key-value store and of the
//! durable user table, and proved by Verus.

pub mod models;
pub mod store;
pub mod credentials;
pub mod users;
pub mod codes;
pub mod cookies;
pub mod sessions;
pub mod orchestrator;
pub mod laws;
pub mod config;
pub mod utilities;
