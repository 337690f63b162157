//! What the application does with the domain: the user service and its errors.

pub mod errors;
pub mod user_service;
