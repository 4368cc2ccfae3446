//! Multi-monitor wallpaper compositing: virtual-desktop geometry, per-screen
//! crop rectangles, per-screen outcome bookkeeping and the scheduling rules.

pub mod geometry;
pub mod crop;
pub mod render;
pub mod apply;
pub mod spaces;
pub mod screens;
pub mod settings;
pub mod scheduler;
