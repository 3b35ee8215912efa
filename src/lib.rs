//! A line-oriented client for "drop" resources kept by a remote HTTP service.
//!
//! The library holds every decision the client makes: how a typed line becomes
//! a command or a diagnostic, which HTTP request a command sends, and how a
//! decoded reply is shown. Reading the terminal and talking to the network are
//! left to the program that drives it.

pub mod text;
pub mod command;
pub mod request;
pub mod output;
pub mod session;
