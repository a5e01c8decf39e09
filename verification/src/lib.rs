//! A sans-I/O core for joining an Erlang-style distributed runtime as a node.
//!
//! The crate holds the decisions of the node and connection lifecycle: which
//! names and cookies are acceptable, how a process identifier is laid out in
//! its fixed-width form and read back, how an incoming frame is classified,
//! and when a receive loops, fails or yields a term. The sockets themselves
//! belong to the caller, who performs each wait or write that the library
//! asks for and hands back what happened.

pub mod codec;
pub mod ei;
pub mod error;
pub mod etf;
pub mod node;
pub mod text;
