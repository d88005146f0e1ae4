//! Verified core of an imgui renderer on luminance: vertex layout
//! conversion, the texture table with its font fallback, the per-command
//! draw plan of a frame, and the mapping of window events onto imgui's
//! input state.

pub mod draw;
pub mod input;
pub mod semantics;
pub mod texture;
pub mod vertex;
