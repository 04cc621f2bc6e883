pub mod api;
pub mod auth;
pub mod files_actions;
pub mod primitives;
pub mod send_email;
pub mod text;
