pub mod auth_repository;
pub mod user_repository;
