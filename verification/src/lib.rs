//! Luna: a small Lua runtime host.
//!
//! The verified library holds the decisions of the host: which Lua build a
//! request accepts, how engine failures become host errors, how the
//! execution budget of a script is kept, how route paths are rewritten, how
//! modules are registered and how the command line is read. Starting Lua
//! states, running scripts and talking to the network stand around it.
pub mod cli;
pub mod embed;
pub mod engine;
pub mod ffi;
pub mod modules;
mod sealed;
pub mod server;
pub mod text;
