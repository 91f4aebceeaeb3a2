use iso_minimap::context_handler::{
    context_lost, context_recreated, dispatch, initialize, shutdown, BufferAction, ContextEvent,
    ContextHandler,
};

#[test]
fn handler_starts_silent() {
    let h = ContextHandler::new();
    assert!(!h.listening);
}

#[test]
fn handler_initialize_stores_buffer_and_listens() {
    let mut h = ContextHandler::new();
    let mut vb: Option<u32> = Some(1);
    h.initialize(&mut vb, 2);
    assert!(h.listening);
    assert_eq!(vb, Some(2));
    assert_eq!(h.on_event(ContextEvent::Lost), BufferAction::Release);
    assert_eq!(h.on_event(ContextEvent::Recreated), BufferAction::Create);
    h.shutdown(&mut vb);
    assert_eq!(vb, None);
    assert!(h.listening);
}

#[test]
fn buffer_follows_context_events() {
    let mut slot: Option<ContextHandler> = None;
    let mut vb: Option<u32> = None;
    initialize(&mut slot, &mut vb, 7);
    assert_eq!(slot, Some(ContextHandler { listening: true }));
    assert_eq!(vb, Some(7));

    assert_eq!(dispatch(&slot, ContextEvent::Lost), Some(BufferAction::Release));
    context_lost(&mut vb);
    assert_eq!(vb, None);

    assert_eq!(dispatch(&slot, ContextEvent::Recreated), Some(BufferAction::Create));
    context_recreated(&mut vb, 8);
    assert_eq!(vb, Some(8));
}

#[test]
fn shutdown_releases_and_silences() {
    let mut slot: Option<ContextHandler> = None;
    let mut vb: Option<u32> = None;
    initialize(&mut slot, &mut vb, 7);
    shutdown(&mut slot, &mut vb);
    assert_eq!(slot, None);
    assert_eq!(vb, None);
    assert_eq!(dispatch(&slot, ContextEvent::Lost), None);
    assert_eq!(dispatch(&slot, ContextEvent::Recreated), None);
}

#[test]
fn shutdown_without_handler_keeps_buffer() {
    let mut slot: Option<ContextHandler> = None;
    let mut vb: Option<u32> = Some(3);
    shutdown(&mut slot, &mut vb);
    assert_eq!(vb, Some(3));
    shutdown(&mut slot, &mut vb);
    assert_eq!(vb, Some(3));
}

#[test]
fn initialize_replaces_handler_and_buffer() {
    let mut slot: Option<ContextHandler> = Some(ContextHandler { listening: false });
    let mut vb: Option<u32> = Some(1);
    assert_eq!(dispatch(&slot, ContextEvent::Lost), None);
    initialize(&mut slot, &mut vb, 2);
    assert_eq!(slot, Some(ContextHandler { listening: true }));
    assert_eq!(vb, Some(2));
}
