//! What each operation asks of the host.

pub mod backup;
pub mod database;
pub mod dispatch;
pub mod docker;
pub mod effects;
pub mod filesystem;
pub mod flow;
pub mod ground;
pub mod import;
pub mod lifecycle;
pub mod metrics;
pub mod mu_plugin;
pub mod nginx;
pub mod outcomes;
pub mod promises;
pub mod site;
pub mod ssl;
pub mod upkeep;
pub mod webserver;
pub mod wordpress;
pub mod wpconfig;
