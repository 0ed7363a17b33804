//! Tasks: their records, the registry and the durable table.

pub mod commands;
pub mod events;
pub mod info;
pub mod laws;
pub mod manager;
pub mod order;
pub mod retention;
pub mod row;
pub mod state;
pub mod status;
pub mod store;
pub mod table;
