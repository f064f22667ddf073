//! Per-frame geometric pipeline for tracking a single fiducial marker:
//! camera-model resolution, candidate selection, pose bookkeeping, Euler
//! decomposition of rotations, and overlay projection helpers.
//!
//! All real quantities are carried as exact fixed-point integers in
//! micro-units (one unit of the underlying quantity equals `MICRO`), so
//! every geometric decision in this crate is proved exactly.

pub mod camera;
pub mod euler;
pub mod fixed;
pub mod geom;
pub mod marker;
pub mod overlay;
pub mod pose;
pub mod template;

pub use template::TemplateLibrary;
pub use template::TemplateLibrary1;
