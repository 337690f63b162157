//! The errors of the web interface.

pub mod web_errors;
