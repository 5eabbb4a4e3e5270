//! Orchestration of repeated benchmark runs in ephemeral environments.
pub mod plan;
pub mod orchestrator;
pub mod laws;
pub mod overlay;
pub mod berbalang_config;
