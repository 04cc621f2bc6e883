pub mod blobs;
pub mod codes;
pub mod files;
pub mod users;
