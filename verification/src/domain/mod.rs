//! The account domain: its value objects, its model of a user, and its errors.

pub mod errors;
pub mod models;
pub mod value_objects;
