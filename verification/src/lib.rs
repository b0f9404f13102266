//! Verified core of the Blackout password manager: the vault model, the
//! password generator, the encrypted container format, the event-log framing,
//! the daemon's request decisions and the state logic of the terminal client.

pub mod app;
pub mod client;
pub mod config;
pub mod crypto;
pub mod daemon;
pub mod event;
pub mod events;
pub mod generator;
pub mod handle;
pub mod ipc;
pub mod state;
pub mod storage;
pub mod text;
pub mod vault;
