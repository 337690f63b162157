//! Configuration.

pub mod app_config;
