//! Authentication.

pub mod jwt_service;
