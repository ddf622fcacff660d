//! Bootstrap sequencing for an asset-driven physics scene.

pub mod controller;
pub mod input;
pub mod mesh;
pub mod overlay;
pub mod scene;
pub mod sequencer;
pub mod state;
pub mod units;
