//! Request authenticators that work on HTTP credentials: the bearer
//! `Authorization` header and the session cookie.

pub mod composite;
pub mod bearer;
pub mod session;
pub mod jwt;
