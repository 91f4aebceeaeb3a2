//! Graphics resources that must follow the game's graphics context.
//!
//! When the game loses its graphics context (window resize, device reset)
//! every GPU resource is gone; when the context is recreated, resources
//! must be made again. The plugin keeps one shared textured vertex buffer,
//! `tex_vb`, alive across these events. A `ContextHandler` listens to the
//! two events while it is installed in the plugin's handler slot.
use vstd::prelude::*;

verus! {

/// A graphics context event raised by the game.
#[derive(PartialEq, Eq, Structural, Clone, Copy, Debug)]
pub enum ContextEvent {
    /// The graphics context was lost.
    Lost,
    /// The graphics context was recreated.
    Recreated,
}

/// What must happen to the shared vertex buffer in answer to an event.
#[derive(PartialEq, Eq, Structural, Clone, Copy, Debug)]
pub enum BufferAction {
    /// Create a fresh vertex buffer and store it with `context_recreated`.
    Create,
    /// Release the vertex buffer with `context_lost`.
    Release,
}

/// Listens to the graphics context events once initialized.
#[derive(PartialEq, Eq, Structural, Clone, Copy, Debug)]
pub struct ContextHandler {
    /// The handler's callbacks for both events are registered.
    pub listening: bool,
}

/// Stores a freshly created vertex buffer, releasing the one held before.
pub fn context_recreated<B>(tex_vb: &mut Option<B>, fresh: B)
    ensures
        *final(tex_vb) == Some(fresh),
{
    *tex_vb = Some(fresh);
}

/// Releases the vertex buffer, if one is held.
pub fn context_lost<B>(tex_vb: &mut Option<B>)
    ensures
        *final(tex_vb) == None::<B>,
{
    *tex_vb = None;
}

/// The buffer action that a listening handler takes for `event`.
pub open spec fn event_buffer_action(event: ContextEvent) -> BufferAction {
    match event {
        ContextEvent::Lost => BufferAction::Release,
        ContextEvent::Recreated => BufferAction::Create,
    }
}

/// What the game's dispatch of `event` asks of the shared vertex buffer,
/// given the handler slot: only an installed, listening handler acts.
pub open spec fn dispatch_action(slot: Option<ContextHandler>, event: ContextEvent) -> Option<BufferAction> {
    match slot {
        Some(handler) => if handler.listening {
            Some(event_buffer_action(event))
        } else {
            None
        },
        None => None,
    }
}

/// The vertex buffer after `shutdown` with handler slot `slot`: released
/// if a handler was installed, untouched otherwise.
pub open spec fn buffer_after_shutdown<B>(slot: Option<ContextHandler>, tex_vb: Option<B>) -> Option<B> {
    if slot is Some {
        None
    } else {
        tex_vb
    }
}

impl ContextHandler {
    /// A handler whose callbacks are not registered yet.
    pub fn new() -> (handler: Self)
        ensures
            !handler.listening,
    {
        ContextHandler { listening: false }
    }

    /// Starts with the context created: stores the freshly created vertex
    /// buffer `fresh`, then registers the callbacks for both events.
    pub fn initialize<B>(&mut self, tex_vb: &mut Option<B>, fresh: B)
        ensures
            final(self).listening,
            *final(tex_vb) == Some(fresh),
    {
        context_recreated(tex_vb, fresh);
        self.listening = true;
    }

    /// The buffer action this handler's callback takes when `event` is
    /// raised.
    pub fn on_event(&self, event: ContextEvent) -> (action: BufferAction)
        ensures
            action == event_buffer_action(event),
    {
        match event {
            ContextEvent::Lost => BufferAction::Release,
            ContextEvent::Recreated => BufferAction::Create,
        }
    }

    /// Releases the vertex buffer; the callbacks stay registered until
    /// the handler itself is dropped.
    pub fn shutdown<B>(&mut self, tex_vb: &mut Option<B>)
        ensures
            *final(self) == *old(self),
            *final(tex_vb) == None::<B>,
    {
        context_lost(tex_vb);
    }
}

/// Installs a new, initialized handler in `slot`, replacing any handler
/// there, and stores the freshly created vertex buffer `fresh`.
pub fn initialize<B>(slot: &mut Option<ContextHandler>, tex_vb: &mut Option<B>, fresh: B)
    ensures
        *final(slot) == Some(ContextHandler { listening: true }),
        *final(tex_vb) == Some(fresh),
{
    let mut context_handler = ContextHandler::new();
    context_handler.initialize(tex_vb, fresh);
    *slot = Some(context_handler);
}

/// Takes the handler out of `slot`, if any, and shuts it down, which
/// releases the vertex buffer; with no handler installed nothing happens.
pub fn shutdown<B>(slot: &mut Option<ContextHandler>, tex_vb: &mut Option<B>)
    ensures
        *final(slot) == None::<ContextHandler>,
        *final(tex_vb) == buffer_after_shutdown(*old(slot), *old(tex_vb)),
{
    let taken = slot.take();
    match taken {
        Some(mut context_handler) => {
            context_handler.shutdown(tex_vb);
        },
        None => {},
    }
}

/// The game raises `event`: the callbacks of the handler installed in
/// `slot`, if it listens, say what to do with the vertex buffer.
pub fn dispatch(slot: &Option<ContextHandler>, event: ContextEvent) -> (action: Option<BufferAction>)
    ensures
        action == dispatch_action(*slot, event),
{
    match slot {
        Some(context_handler) => {
            if context_handler.listening {
                Some(context_handler.on_event(event))
            } else {
                None
            }
        },
        None => None,
    }
}

/// After `initialize`, losing the context releases the buffer and
/// recreating it creates a new one.
pub proof fn lemma_initialized_handler_follows_context()
    ensures
        dispatch_action(Some(ContextHandler { listening: true }), ContextEvent::Lost) == Some(
            BufferAction::Release,
        ),
        dispatch_action(Some(ContextHandler { listening: true }), ContextEvent::Recreated) == Some(
            BufferAction::Create,
        ),
{
}

/// After `shutdown`, no event touches the buffer any more, and a second
/// `shutdown` leaves it as the first left it.
pub proof fn lemma_shutdown_is_final<B>(slot: Option<ContextHandler>, tex_vb: Option<B>, event: ContextEvent)
    ensures
        dispatch_action(None, event) == None::<BufferAction>,
        buffer_after_shutdown(None, buffer_after_shutdown(slot, tex_vb)) == buffer_after_shutdown(
            slot,
            tex_vb,
        ),
{
}

/// `initialize` followed by `shutdown` leaves no vertex buffer.
pub proof fn lemma_initialize_then_shutdown_releases<B>(fresh: B)
    ensures
        buffer_after_shutdown(Some(ContextHandler { listening: true }), Some(fresh)) == None::<B>,
{
}

/// Shutting down releases the buffer exactly when a handler was installed;
/// with no handler the buffer is left as it was.
pub proof fn lemma_shutdown_releases_only_with_handler<B>(handler: ContextHandler, tex_vb: Option<B>)
    ensures
        buffer_after_shutdown(Some(handler), tex_vb) == None::<B>,
        buffer_after_shutdown(None, tex_vb) == tex_vb,
{
}

/// Only a listening handler answers events: a handler installed but not
/// listening, or no handler, asks nothing; a listening one releases the
/// buffer on loss and creates one on recreation.
pub proof fn lemma_only_listening_handler_acts(event: ContextEvent)
    ensures
        dispatch_action(Some(ContextHandler { listening: false }), event) == None::<BufferAction>,
        dispatch_action(None, event) == None::<BufferAction>,
        event == ContextEvent::Lost ==> dispatch_action(Some(ContextHandler { listening: true }), event)
            == Some(BufferAction::Release),
        event == ContextEvent::Recreated ==> dispatch_action(
            Some(ContextHandler { listening: true }),
            event,
        ) == Some(BufferAction::Create),
{
}

} // verus!
