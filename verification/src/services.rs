pub mod auth_service;
pub mod files_service;
pub mod user_service;
