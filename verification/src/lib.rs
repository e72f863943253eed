//! A local message broker for plugin processes: topic filters, the plugin
//! list, envelope validation, and the decisions of the listener, the hub and
//! the plugin supervisor.

pub mod glob;
pub mod init;
pub mod json;
pub mod limits;
pub mod listener;
pub mod matcher;
pub mod messenger;
pub mod plugin;
pub mod text;
