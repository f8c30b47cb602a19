//! Core of a network throughput-testing tool: a double-buffered
//! producer/consumer handoff that decouples payload generation from socket
//! I/O, and a measurement engine that derives throughput statistics from a
//! continuous byte stream.
#![allow(non_snake_case)]
#![allow(non_camel_case_types)]

pub mod double_buffer;
pub mod generator;
pub mod net_engine;
pub mod stats;
pub mod user_config;
