//! Commands from clients: what each one changes in the store and what the
//! control loop is asked to do with it.
pub mod commands;
pub mod connection;
