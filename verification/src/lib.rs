//! The core of a small terminal emulator.
//!
//! A shell runs on a pseudoterminal; its output fills a scrolling grid of
//! characters, and key presses go back to it. This crate holds the rules and
//! leaves the descriptors, the window and the processes to its caller:
//!
//! - [`grid`] is the mathematical model of the grid, with the laws that its
//!   operations obey;
//! - [`term`] is the grid itself;
//! - [`mux`] decides what the event loop does next;
//! - [`interest`] fills and reads the set of descriptors that the loop waits
//!   on;
//! - [`pty`] holds the geometry reported to the shell and the steps that
//!   start it;
//! - [`render`] says what is drawn for a cell;
//! - [`error`] names the failures.

pub mod error;
pub mod grid;
pub mod interest;
pub mod mux;
pub mod pty;
pub mod render;
pub mod term;
