//! A library for a line-oriented chat protocol (IRC family).
//!
//! One protocol line is scanned into a `Message`: an owned text buffer
//! together with offset spans for the optional tags block, the optional
//! prefix, the command token and the arguments.  Typed command views are
//! extracted on demand, and a session transport automaton answers
//! keep-alive probes and enforces an idle timeout.

pub mod command;
pub mod error;
pub mod message;
pub mod parser;
pub mod span;
pub mod text;
pub mod transport;
