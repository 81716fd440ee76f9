//! Core of a self-hosted build server: a single-flight build queue with
//! deduplication and capacity limits, a sequential command pipeline with
//! per-step abort policy, batched output capture, and notification with
//! one retry.  All decision logic lives here, verified; process spawning,
//! HTTP and file I/O are left to an unverified shell around this crate.

pub mod auth;
pub mod capture;
pub mod config;
pub mod kv;
pub mod notify;
pub mod paths;
pub mod pipeline;
pub mod scheduler;
pub mod session;
pub mod state;
pub mod status;
pub mod strings;
pub mod template;
pub mod utils;
