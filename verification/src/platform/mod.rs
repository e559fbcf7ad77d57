//! Platform adapters: authentication methods, sessions, refresh-token
//! records and authorization.

pub mod composite;
pub mod session;
pub mod jwt;
pub mod authz;
pub mod refresh;
