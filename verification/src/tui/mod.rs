//! Terminal user interface: input model, components and configuration.

pub mod app;
pub mod app_types;
pub mod commands;
pub mod config;
pub mod components;
pub mod signals;
pub mod traits;
