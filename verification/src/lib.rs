//! Planning and sequencing of PostgreSQL backup and restore runs.

pub mod catalog;
pub mod config;
pub mod laws;
pub mod paths;
pub mod postgres;
pub mod scheduler;
pub mod tasks;
pub mod text;
pub mod webhook;
