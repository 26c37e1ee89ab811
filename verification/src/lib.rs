//! A verified model of a real-time frame renderer: a sequence of GPU passes
//! (geometry buffer, deferred lighting, particles, sprites, final blit, UI
//! overlay) driven by a frame orchestrator that owns every pass, tracks
//! timing statistics and degrades gracefully on backend errors.
//!
//! The graphics backend itself (driver state, bound objects, resource
//! handles) is modelled as explicit plain-value state in [`backend`], so the
//! ordering discipline between passes and the lifetime of every GPU resource
//! is checked by the verifier rather than left to convention.
pub mod math;
pub mod error;
pub mod backend;
pub mod gpu_texture;
pub mod gpu_program;
pub mod surface;
pub mod scene;
pub mod gbuffer;
pub mod deferred_light_renderer;
pub mod particle_system_renderer;
pub mod sprite_renderer;
pub mod ui_renderer;
pub mod resource_manager;
pub mod statistics;
pub mod renderer;
pub mod inspector;
