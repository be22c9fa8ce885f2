//! What the panel makes of what its database holds.
//!
//! Queries run elsewhere; here their columns become models, and decisions become
//! what a query is given.

pub mod audit;
pub mod destinations;
pub mod jobs;
pub mod notifications;
pub mod schedules;
pub mod seed;
pub mod servers;
pub mod sites;
pub mod teams;
pub mod times;
pub mod tokens;
pub mod users;
