//! Endpoint assessment: the verified core of a fleet monitor.

pub mod admin;
pub mod agent;
pub mod checks;
pub mod collector;
pub mod executor;
pub mod fleet;
pub mod models;
pub mod params;
pub mod pattern;
pub mod protocol;
pub mod server;
pub mod store;
pub mod text;
