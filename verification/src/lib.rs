//! Host-side bridge between an HTTP server and a script handler.
//!
//! A request is turned into a compact value that a script engine consumes,
//! the script answers with a value of its own, and that value is turned
//! back into an HTTP response. Frequent header names and values travel as
//! small integers. The engine and the network stay outside: this crate
//! holds the rules, and every function in it is verified.

pub mod cli;
pub mod report;
pub mod request;
pub mod response;
pub mod runtime;
pub mod syntax;
pub mod text;
pub mod token_table;
pub mod value;
