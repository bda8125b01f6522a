//! Authentication and session core of a language-learning service:
//! password hashing, signed access tokens, single-use refresh tokens
//! and role checks, with every rule stated as a contract.

pub mod errors;
pub mod models;
pub mod outside;
pub mod token;
pub mod store;
pub mod password;
pub mod memory;
pub mod flow;
pub mod service;
pub mod guarantees;
pub mod quiz;
