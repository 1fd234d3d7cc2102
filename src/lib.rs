//! A todo store: the record model, a repository abstraction over storage
//! backends, and an in-memory backend whose operations are verified.
pub mod api;
pub mod cli;
pub mod models;
pub mod repository;
