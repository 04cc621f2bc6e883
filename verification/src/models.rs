pub mod api;
pub mod auth;
pub mod files;
pub mod user;
