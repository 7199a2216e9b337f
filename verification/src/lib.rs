//! Admin control panel: the verified rules behind its HTTP API, its
//! authentication middleware and its `admin_user` table.
pub mod admin_api;
pub mod auth;
pub mod schema;
pub mod server;
