//! Verified CPU-side logic of the Truvis renderer app layer.
pub mod text;
pub mod render_modes;
pub mod offline;
pub mod rt_schedule;
pub mod debug_image;
pub mod editor;
pub mod input;
pub mod camera_control;
pub mod gizmo;
pub mod overlay;
pub mod dlss;
pub mod rt_shaders;
pub mod debug_targets;
pub mod dispatch;
