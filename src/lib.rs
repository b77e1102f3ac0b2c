//! A relay that turns monitoring-alert webhooks into push notifications and
//! delivers each one to every configured destination.

pub mod client;
pub mod config;
pub mod fanout;
pub mod server;
