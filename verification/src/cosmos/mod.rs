//! A deadline scheduler.
pub mod account;
pub mod account_laws;
pub mod dispatch;
pub mod enqueue;
pub mod idle;
pub mod idle_laws;
pub mod lifecycle;
pub mod placement_laws;
pub mod select;
pub mod state;
pub mod task;
pub mod tick;
pub mod topology;
pub mod topology_laws;
pub mod weight;
pub mod weight_laws;
