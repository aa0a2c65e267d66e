//! Typed values of a publish/subscribe telemetry protocol, and the state of
//! the dashboard that shows them.
//!
//! A topic's value has a kind ([`data_type::DataType`]) and travels as one
//! self-describing MessagePack value ([`wire`]). The types that can travel
//! are those with [`codec::NetworkTableData`].

pub mod codec;
pub mod config;
pub mod data_type;
pub mod nt;
pub mod text;
pub mod topics;
pub mod type_id;
pub mod ui;
pub mod wire;
pub mod wrappers;
