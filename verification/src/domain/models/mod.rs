//! The models of the domain.

pub mod user;
