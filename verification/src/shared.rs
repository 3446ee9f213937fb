pub mod config;
pub mod response;
