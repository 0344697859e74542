//! Building blocks of a small uploader for S3-compatible object stores.

pub mod client;
pub mod config;
pub mod object;
pub mod pem;
pub mod pipeline;
pub mod source;
