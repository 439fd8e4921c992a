//! Per-monitor wallpaper assignment: which monitor is meant, and what is done
//! with each monitor that the desktop-wallpaper service enumerates.
//!
//! The operating system is reached by the program around this library. Here
//! stand the rules: how a wide-character buffer becomes an identifier, which
//! identifiers are eligible, and the two exchanges (finding the monitor under
//! the pointer, walking the service's monitor list) as state machines that say
//! what to ask the system next and what each answer leads to.

pub mod applier;
pub mod cli;
pub mod ident;
pub mod outcome;
pub mod report;
pub mod resolver;
pub mod wide;
