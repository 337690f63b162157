//! The errors of the application services.

pub mod user_service_errors;
