//! The decisions behind the `opencli-rs` command line.
//!
//! Everything here computes: which command line is offered, what a parsed
//! command line asks for, which step a browser session takes next, what is sent
//! to the adapter server and what is made of its reply. Reading the environment,
//! talking to the browser and the network, and printing are left to the program
//! around this library.
pub mod adapters;
pub mod catalog;
pub mod cli;
pub mod command_line;
pub mod dispatch;
pub mod execution;
pub mod json;
pub mod number;
pub mod percent;
pub mod report;
pub mod session;
pub mod storage;
pub mod text;
pub mod upload;
