//! A readline-style input line in front of a child program: the line
//! editor, the rendering of the prompt line, and the decisions of the
//! session's lifecycle, each with its contract.
//!
//! Everything that touches the operating system (raw mode, descriptors,
//! the pseudo-terminal, threads, signals) is done by the caller, who hands
//! this library plain values and carries out what it returns.

pub mod config;
pub mod text;
pub mod session;
pub mod laws;
