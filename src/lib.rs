//! Declarative configuration model for an HTTP gateway: listeners, handlers,
//! routes with their match predicates and header operations, and the
//! destination plugins that routes dispatch to.

pub mod config_loader;
pub mod error;
pub mod headers;
pub mod loader;
pub mod plugin;
pub mod schema_loader_plugin;
pub mod validate;
