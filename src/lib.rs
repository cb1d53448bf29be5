//! The core of an embedded robot controller: a registry that maps component
//! categories and model names to constructors and dependency resolvers, the
//! telemetry collectors that bind a capability to a resource, and the
//! monitor that keeps the running configuration in line with the remote one.

pub mod attributes;
pub mod component;
pub mod config_monitor;
pub mod data_collector;
pub mod model_table;
pub mod registry;
pub mod resource;
