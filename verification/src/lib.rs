//! The control plane of a local network-proxy client.
//!
//! It owns the lifecycle of an externally supplied proxy engine, reconciles
//! configuration patches against the engine in transactions, runs the state
//! machine of the virtual network interface mode, finds stray engine
//! processes, and dispatches notifications to the interface.
//!
//! The library decides and never waits: whatever takes time or touches the
//! system is handed to the caller as a command, and its outcome comes back
//! as a value.

pub mod clash;
pub mod core_manager;
pub mod draft;
pub mod error;
pub mod flags;
pub mod guard;
pub mod handle;
pub mod notify;
pub mod permission;
pub mod platform;
pub mod process;
pub mod reconcile;
pub mod service;
pub mod text;
pub mod tun;
pub mod validator;
pub mod verge;
