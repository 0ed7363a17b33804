//! Task orchestration with durable recovery: a registry of background tasks,
//! the table that keeps persistent tasks across restarts, and the plain data
//! types of the workspace around them.

pub mod app_commands;
pub mod app_config;
pub mod app_events;
pub mod app_file_tree;
pub mod app_runtime;
pub mod app_state;
pub mod clock;
pub mod dto;
pub mod home;
pub mod ident;
pub mod logging;
pub mod payload;
pub mod sequences;
pub mod text;
pub mod task;
