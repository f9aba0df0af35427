//! The network-management daemon as a backend: its settings objects, and
//! what is written into them.

pub mod connection;
pub mod settings;
