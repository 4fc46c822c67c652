//! A preflight gate for a `git`-wrapping command-line tool.
//!
//! Before any subcommand may run, the tool must confirm that a `git`
//! executable is present, that it is at least version 2.30.0, and that the
//! current directory lies inside a git work tree. This crate holds that gate
//! as pure, verified logic over captured process outcomes: the operating
//! system work (spawning `git` and draining its output) stays with the
//! caller, which then supplies each captured outcome to the library.

pub mod errors;
pub mod gates;
pub mod runner;
pub mod text;
pub mod version;
