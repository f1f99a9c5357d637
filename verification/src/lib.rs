pub mod buffer;
pub mod charts;
pub mod cli;
pub mod commands;
pub mod config;
pub mod export;
pub mod models;
pub mod packet;
pub mod parser;
pub mod plots;
pub mod render;
pub mod session;
pub mod streaming;
pub mod text;
pub mod transport;
