//! Configuration of the dashboard.

pub mod colors;
