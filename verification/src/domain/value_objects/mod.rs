//! The values of the domain that are valid by construction.

pub mod email;
pub mod password_hash;
pub mod user_id;
pub mod user_name;

pub use email::Email;
pub use password_hash::PasswordHash;
pub use user_id::UserId;
pub use user_name::UserName;
