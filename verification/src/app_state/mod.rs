//! The entities of a workspace, as plain values.

pub mod app_config;
pub mod chat;
pub mod file;
pub mod index_job;
pub mod link;
pub mod note;
pub mod repo;
pub mod terminal;
pub mod workspace;
