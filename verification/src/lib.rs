//! State machine and frame composition for a two-tab terminal chat dashboard.
//!
//! The crate holds the navigation state, the colour themes, the message
//! histories, the key dispatch and the composition of a frame from them.
//! Painting the frame, reading keys and talking to the network are left to
//! the program that uses the crate.

pub mod config;
pub mod cycle;
pub mod text;
pub mod tui;
