//! The node agent: privileged operations as plans, and what their outcomes mean.

pub mod api;
pub mod capabilities;
pub mod config;
pub mod exec;
pub mod ops;
pub mod path;
pub mod plan;
pub mod state;
pub mod store;
pub mod tls;
