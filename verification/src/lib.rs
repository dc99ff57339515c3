//! Core of a terminal clock: a countdown and a timer built on a
//! decisecond-resolution duration value, with field-by-field editing of the
//! displayed time, and a renderer that paints the value as large block
//! digits into a terminal cell buffer.
//!
//! - [`duration`] holds the bounded decisecond value.
//! - [`clock`] holds the state machine, specified by transition functions
//!   over its mathematical model.
//! - [`laws`] proves the laws the machine obeys.
//! - [`widget`] renders a clock into a ratatui buffer, with every cell
//!   write pinned down.

pub mod clock;
pub mod duration;
pub mod laws;
pub mod widget;
