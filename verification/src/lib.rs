//! Turns a request in plain words into one shell command with the help of a
//! local inference service, and decides what to do with the command.

pub mod config;
pub mod decision;
pub mod executor;
pub mod inference;
pub mod json;
pub mod prompt;
pub mod report;
pub mod session;
pub mod text;
