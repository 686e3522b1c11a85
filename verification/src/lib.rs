//! An SSH control server: the decisions behind it, verified.
pub mod call;
pub mod channel;
pub mod config;
pub mod connect;
pub mod encoding;
pub mod error;
pub mod name_map;
pub mod path;
pub mod pattern;
pub mod pool;
pub mod reload;
pub mod reply;
pub mod security;
pub mod server;
pub mod sftp;
pub mod ssh;
pub mod sudo;
pub mod text;
