//! Runtime core of a desktop application shell: window identity and lifecycle,
//! the invoke bridge between window scripts and host commands, and the event bus.

pub mod app;
pub mod bundle;
pub mod config;
pub mod context;
pub mod endpoints;
pub mod error;
pub mod event;
pub mod ipc;
pub mod json;
pub mod manager;
pub mod plugin;
pub mod salt;
pub mod state;
pub mod text;
pub mod window;
