//! The errors of the domain.

pub mod user_errors;
