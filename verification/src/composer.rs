pub mod config;
pub mod draft;
