//! Core of a small discussion forum: users register and log in, post threads,
//! and attach comments (optionally nested) to threads.
//!
//! The crate verifies the data-consistency and authorization layer: the
//! relational store with its referential-integrity invariants, the session
//! component, and the forum service that ties them together. HTTP routing,
//! templating, configuration loading and the credential backend that hashes
//! passwords are left to the surrounding application; the service states
//! exactly what it returns for every outcome those collaborators can hand in.

pub mod clock;
pub mod errors;
pub mod forum;
pub mod models;
pub mod session;
pub mod store;
