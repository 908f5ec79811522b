//! Verified core logic of the SwarmSync job and worker orchestrator.
pub mod assignments;
pub mod board;
pub mod config;
pub mod dispatcher;
pub mod enums;
pub mod heartbeat;
pub mod lifecycle;
pub mod logs;
pub mod menus;
pub mod models;
pub mod net;
pub mod numeric;
pub mod routes;
pub mod text;
pub mod time;
