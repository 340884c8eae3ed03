pub mod app_dirs;
pub mod commands;
pub mod config;
pub mod models;
pub mod paths;
pub mod pipeline;
pub mod text;
