//! Verified core of a command-line client for a remote project-hosting
//! service: repository, build and work-tracking operations, and a bulk
//! repository clone orchestrator with bounded concurrency, confirmation
//! gating and per-repository failure isolation.

pub mod artifacts;
pub mod auth;
pub mod boards;
pub mod commands;
pub mod json;
pub mod pipelines;
pub mod pr;
pub mod project;
pub mod repos;
pub mod seqs;
pub mod text;
pub mod utils;
