//! The persisted configuration: input bindings, zone images and brightness.
pub mod models;
pub mod mappers;
pub mod sqlite;
pub mod operations;
