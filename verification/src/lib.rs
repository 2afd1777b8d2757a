//! Verified core of a connector harness: it models the lifecycle of isolated
//! execution units running third-party connector images, scans their output
//! streams for protocol messages, aggregates concurrently harvested results,
//! and generates typed configuration bindings from harvested schemas.

pub mod codegen;
pub mod container;
pub mod core_structs;
pub mod errors;
pub mod facade;
pub mod json;
pub mod pipeline;
pub mod scanner;
pub mod schema;
pub mod staging;
pub mod text;

pub use core_structs::{AirbyteConnectionStatus, ConnectionStatus};
