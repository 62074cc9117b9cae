//! Orchestration layer for an external container engine.
//!
//! The library models images and containers, composes the exact argument
//! lists handed to the engine binary, and drives the build -> run -> cleanup
//! lifecycle over an in-memory registry. All engine and filesystem effects
//! go through the [`engine::EnginePort`] trait, so the logic here is verified
//! for every outcome the engine can produce.

pub mod engine;
pub mod entity;
pub mod error;
pub mod registry;
pub mod wrapper;
