//! Command engine that bridges a message channel to a remote alarm-panel API.
pub mod api;
pub mod dispatch;
pub mod mqtt;
pub mod retry;
pub mod runs;
pub mod visonic;

