//! The plugin: its minimap texture, its render hooks and its screen.
//!
//! While the plugin is loaded it owns a screen, drawn under everything else,
//! whose render callback updates and draws the minimap, and the texture the
//! minimap is drawn into.
use vstd::prelude::*;

pub mod atlas;
pub mod bmp;
pub mod render_hooks;

verus! {

/// The resources the plugin holds: its screen `S` and its minimap texture
/// `T`.
pub struct PluginState<S, T> {
    /// The plugin's screen, while the plugin is loaded.
    pub screen: Option<S>,
    /// The minimap texture, while the plugin is loaded.
    pub texture: Option<T>,
}

/// Whether the plugin holds neither a screen nor a texture.
pub open spec fn is_unloaded<S, T>(state: PluginState<S, T>) -> bool {
    state.screen is None && state.texture is None
}

impl<S, T> PluginState<S, T> {
    /// The state before the plugin is loaded: nothing held.
    pub fn new() -> (state: Self)
        ensures
            is_unloaded(state),
    {
        PluginState { screen: None, texture: None }
    }
}

/// Loads the plugin: first keeps the minimap texture `texture`, then the
/// screen `screen` whose render callback draws the minimap; anything held
/// before is released.
pub fn init<S, T>(state: &mut PluginState<S, T>, texture: T, screen: S)
    ensures
        final(state).texture == Some(texture),
        final(state).screen == Some(screen),
{
    bmp::init(&mut state.texture, texture);
    state.screen = Some(screen);
}

/// Unloads the plugin: first releases the screen, which takes it off the
/// game's screen list, then the minimap texture.
pub fn free<S, T>(state: &mut PluginState<S, T>)
    ensures
        is_unloaded(*final(state)),
{
    state.screen = None;
    bmp::free(&mut state.texture);
}

} // verus!
