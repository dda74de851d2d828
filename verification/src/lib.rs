//! Control logic of a remote for Kodi media centres: instance settings,
//! colour themes, JSON-RPC messages and the now-playing session.

pub mod decimal;
pub mod instance;
pub mod theme;
pub mod config;
pub mod json;
pub mod rpc;
pub mod session;
pub mod remote;
