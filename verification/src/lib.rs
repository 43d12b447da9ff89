pub mod command;
pub mod handler;
pub mod json;
pub mod request;
