pub mod text;
pub mod url;
pub mod json;
pub mod cli;
pub mod config;
pub mod client;
pub mod request;
pub mod commands;
pub mod output;
