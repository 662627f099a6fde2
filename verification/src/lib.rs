pub mod auth;
pub mod kafka;
pub mod s3;
pub mod text;
pub mod upload;
pub mod uuid_format;
pub mod validation;
