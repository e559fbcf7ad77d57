//! The identity bounded context: validated value objects, the user
//! aggregate and the errors of its business rules.

pub mod email;
pub mod error;
pub mod password;
pub mod permission;
pub mod role;
pub mod user;
pub mod user_id;
pub mod username;
