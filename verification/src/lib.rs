//! Verified core of the WPressForge control plane and node agent.

pub mod agent;
pub mod clock;
pub mod common;
pub mod crypto;
pub mod digits;
pub mod expiring;
pub mod json;
pub mod panel;
pub mod text;
