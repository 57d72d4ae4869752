//! The battery inverter: its data model, the two read protocols and the
//! command encodings.

pub mod batched;
pub mod controller;
pub mod models;
pub mod reader;
