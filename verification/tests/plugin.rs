use iso_minimap::plugin::bmp;
use iso_minimap::plugin::{free, init, PluginState};

#[test]
fn plugin_starts_unloaded() {
    let s: PluginState<u8, u16> = PluginState::new();
    assert!(s.screen.is_none());
    assert!(s.texture.is_none());
}

#[test]
fn init_then_free() {
    let mut s: PluginState<&str, u16> = PluginState::new();
    init(&mut s, 5u16, "screen");
    assert_eq!(s.screen, Some("screen"));
    assert_eq!(s.texture, Some(5));
    free(&mut s);
    assert!(s.screen.is_none());
    assert!(s.texture.is_none());
    free(&mut s);
    assert!(s.screen.is_none());
    assert!(s.texture.is_none());
}

#[test]
fn init_replaces_resources() {
    let mut s: PluginState<&str, u16> = PluginState::new();
    init(&mut s, 5u16, "first");
    init(&mut s, 6u16, "second");
    assert_eq!(s.screen, Some("second"));
    assert_eq!(s.texture, Some(6));
}

#[test]
fn texture_slot_lifecycle() {
    let mut slot: Option<u32> = None;
    bmp::init(&mut slot, 9);
    assert_eq!(slot, Some(9));
    bmp::init(&mut slot, 10);
    assert_eq!(slot, Some(10));
    bmp::free(&mut slot);
    assert_eq!(slot, None);
}
