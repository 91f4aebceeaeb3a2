//! An isometric minimap for the ClassiCube game client.
//!
//! The library holds the decisions of the plugin: how the minimap image is
//! composed from the terrain, how the render hooks find the isometric view
//! transform, which graphics resources live across context loss, and how
//! the logger is configured.
pub mod context_handler;
pub mod logger;
pub mod plugin;
