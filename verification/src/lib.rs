//! The verified core of a live file share: one host publishes the content of
//! a text file, and every viewer that attaches gets the current content at
//! once and each later version as it is published.

pub mod cli;
pub mod client;
pub mod connection;
pub mod endpoint;
pub mod identifier;
pub mod message;
pub mod page;
pub mod session;
pub mod system;
pub mod text;
pub mod trusted;
pub mod watcher;
