//! Real-time pitch correction for sped-up game audio: the decisions and the
//! data handling of the capture → shift → playback pipeline, with their
//! contracts.

pub mod bridge;
pub mod cache;
pub mod config;
pub mod constant;
pub mod device;
pub mod reg;
pub mod remap;
pub mod tui;
pub mod utils;
