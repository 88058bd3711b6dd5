//! Render-state core of a progressively refining ray tracer.
//!
//! The crate keeps the mutable state that must stay consistent across
//! frames — the camera orientation, the scene store with its structural
//! dirty flags, the per-frame uniform block, and the progressive
//! accumulation state machine — and decides, each frame, which GPU
//! resources have to be reallocated or rebound.  The GPU work itself
//! (device, buffers, render passes) is carried out by an unverified
//! collaborator that follows the action plans this crate hands out.

pub mod accum;
pub mod camera;
pub mod engine;
pub mod scene;
pub mod uniform;
