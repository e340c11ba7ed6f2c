//! The compile-and-run pipeline of a code playground.
//!
//! A request carries source text. The pipeline writes it into a workspace of
//! its own, has it compiled, runs the program that comes out, and classifies
//! what happened into a reply. Everything that touches the machine (the
//! directory, the two subprocesses, the transport) is done by the caller: the
//! pipeline says what to do next, is told how it went, and decides.

pub mod response;
pub mod outcome;
pub mod subprocess;
pub mod identifier;
pub mod pipeline;
pub mod runs;
