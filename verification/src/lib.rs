//! Device-protocol normalisation and cycle planning for a home
//! energy-management node.
//!
//! The node reads a grid smart meter and a battery inverter once per cycle
//! and compares the two. This library holds what the node decides and
//! computes: the safety envelope of the battery ([`config`]), the decoding
//! of the meter's timestamps ([`p1`]), the two read protocols of the
//! inverter and its commands ([`indevolt`]), and the order and cadence of a
//! cycle ([`cycle`]). Requests, sleeps and logs are the caller's; it hands
//! in what came back and acts on what is handed out.
//!
//! Quantities with a fractional part are held as whole thousandths
//! ([`fixed`]); numbers travel as decimal text ([`text`]).

pub mod config;
pub mod cycle;
pub mod fixed;
pub mod http;
pub mod indevolt;
pub mod p1;
pub mod text;
