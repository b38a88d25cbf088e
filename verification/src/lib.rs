//! Fleet updater for web-application deployments.
//!
//! For each managed project the library decides which build and install
//! steps a synchronization requires, drives a crash-resumable update
//! pipeline, maintains a shared content-addressed build cache with
//! reference-counted garbage collection, and keeps a per-project resume
//! record of the last failed step.
//!
//! All decision logic lives here and is verified.  Process spawning,
//! filesystem access and operator prompts are performed by a thin
//! unverified driver that feeds results back into the state machines
//! defined in this crate.

pub mod text;
pub mod classify;
pub mod project;
pub mod pipeline;
pub mod state;
pub mod cache;
pub mod git;
pub mod sync;
pub mod logger;
pub mod config;
