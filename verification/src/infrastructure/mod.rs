//! What connects the domain to the outside: authentication, configuration, the clock, the
//! web interface.

pub mod auth;
pub mod clock;
pub mod config;
pub mod errors;
pub mod web;
