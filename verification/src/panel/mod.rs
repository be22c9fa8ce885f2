//! The control plane: what the panel decides, shows and sends to its agents.

pub mod agent;
pub mod alerts;
pub mod api;
pub mod auth;
pub mod config;
pub mod credentials;
pub mod csrf;
pub mod db;
pub mod email;
pub mod error;
pub mod jobs;
pub mod promises;
pub mod scheduler;
pub mod secrets;
pub mod totp;
