//! The smart meter: its document and the resolution of its timestamps.

pub mod models;
pub mod reader;
