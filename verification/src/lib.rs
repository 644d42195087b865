pub mod backend;
pub mod config;
pub mod text;
pub mod tables;
pub mod invoke;
pub mod plugin;
pub mod instance_plan;
pub mod admin;
pub mod cli;
pub mod env_config;
pub mod tools;
pub mod laws;
pub mod manifest;
