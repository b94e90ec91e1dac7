//! Data model, packing and control logic of an interactive ray-marching viewer.

pub mod math;
pub mod packed;
pub mod scene;
pub mod uniform;
pub mod binding;
pub mod error;
pub mod control;
