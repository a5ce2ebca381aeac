//! Startup rules of the Focus Forge desktop shell: the greeting command, the
//! log sink's settings, the order in which capabilities are attached, and the
//! reaction to a second launch.

pub mod coordinator;
pub mod greeting;
pub mod logging;
pub mod plugins;
pub mod text;
