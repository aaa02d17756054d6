//! Core of a terminal dashboard that follows the International Space Station.
//!
//! The crate holds the parts of the dashboard that decide something: the
//! drift-correcting poll timer in [`timer`], the key bindings in [`tui`], the
//! state of the dashboard in [`app`], and in [`run_loop`] the loop that
//! sequences polling, input and drawing. Everything that touches the terminal
//! or the network is left to the host program, which carries out what the loop
//! asks for and reports back what came of it.

pub mod app;
pub mod run_loop;
pub mod timer;
pub mod tui;
