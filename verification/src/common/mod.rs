//! Models and protocol shared by panel and agent.

pub mod error;
pub mod fmt;
pub mod models;
pub mod protocol;
