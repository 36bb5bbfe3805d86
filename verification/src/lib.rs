pub mod benchmark;
pub mod cli;
pub mod config;
pub mod error;
pub mod progress;
pub mod types;
