//! The terminal user interface: state, input and frame composition.

pub mod app;
pub mod history;
pub mod input;
pub mod layout;
pub mod ui;
