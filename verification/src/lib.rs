//! Core state engine for a small GPU renderer: procedural mesh schedules,
//! per-instance uniform data from a seeded source, surface configuration,
//! an orbit-camera controller, and the per-frame decision machine.
//!
//! Everything here is plain data and decisions. The host side owns the
//! graphics device, evaluates trigonometry, and performs the actual draw
//! calls; it consumes the schedules and decisions this crate produces.

pub mod camera;
pub mod engine;
pub mod geometry;
pub mod instance;
pub mod keycode;
pub mod pipeline;
pub mod render;
pub mod rng;
pub mod surface;
