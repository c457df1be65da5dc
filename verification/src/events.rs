//! What the event loop does with each event it is handed.

use vstd::prelude::*;

verus! {

/// The events of the windowing system that the playground tells apart.
#[derive(PartialEq, Eq, Structural, Clone, Copy, Debug)]
pub enum LoopEvent {
    /// The application may draw again (mobile platforms).
    Resumed,
    /// The application must stop drawing (mobile platforms).
    Suspended,
    /// The window is asked to close.
    CloseRequested,
    /// The window now has this size in pixels.
    Resized { width: u32, height: u32 },
    /// The window is to be drawn.
    RedrawRequested,
    /// Any other event of the window.
    OtherWindowEvent,
    /// The loop is about to wait for new events.
    AboutToWait,
    /// Any other event.
    Other,
}

/// What the event loop is to do.
#[derive(PartialEq, Eq, Structural, Clone, Copy, Debug)]
pub enum LoopAction {
    Nothing,
    /// Set up the GPU state for the window.
    CreateApp,
    /// Drop the GPU state.
    DropApp,
    /// Leave the event loop.
    Exit,
    /// Resize the window's surface.
    Resize { width: u32, height: u32 },
    /// Advance a frame and draw it.
    Redraw,
    /// Ask the window for a redraw.
    RequestRedraw,
}

/// Whether the event comes from the window, and so is first offered to the
/// user interface.
pub open spec fn is_window_event(event: LoopEvent) -> bool {
    match event {
        LoopEvent::CloseRequested | LoopEvent::Resized { .. } | LoopEvent::RedrawRequested
        | LoopEvent::OtherWindowEvent => true,
        _ => false,
    }
}

/// The action for `event`. Where the platform manages the application's
/// lifecycle, resuming sets up the GPU state when there is none and
/// suspending drops it. With no GPU state nothing else is done; a window
/// event that the user interface consumed goes no further; otherwise a close
/// request leaves the loop, a resize resizes, a redraw request draws, and the
/// loop asks for a redraw before it waits.
pub open spec fn event_action(lifecycle: bool, has_app: bool, consumed_by_ui: bool, event: LoopEvent) -> LoopAction {
    if lifecycle && event == LoopEvent::Resumed {
        if has_app { LoopAction::Nothing } else { LoopAction::CreateApp }
    } else if lifecycle && event == LoopEvent::Suspended {
        LoopAction::DropApp
    } else if !has_app || (consumed_by_ui && is_window_event(event)) {
        LoopAction::Nothing
    } else {
        match event {
            LoopEvent::CloseRequested => LoopAction::Exit,
            LoopEvent::Resized { width, height } => LoopAction::Resize { width, height },
            LoopEvent::RedrawRequested => LoopAction::Redraw,
            LoopEvent::AboutToWait => LoopAction::RequestRedraw,
            _ => LoopAction::Nothing,
        }
    }
}

/// Decides what to do with `event`. `lifecycle` says whether the platform
/// resumes and suspends the application, `has_app` whether the GPU state
/// exists, and `consumed_by_ui` whether the user interface consumed the
/// event (only window events are offered to it).
pub fn handle_event(lifecycle: bool, has_app: bool, consumed_by_ui: bool, event: LoopEvent) -> (action: LoopAction)
    ensures
        action == event_action(lifecycle, has_app, consumed_by_ui, event),
{
    if lifecycle {
        match event {
            LoopEvent::Resumed => {
                return if has_app { LoopAction::Nothing } else { LoopAction::CreateApp };
            },
            LoopEvent::Suspended => {
                return LoopAction::DropApp;
            },
            _ => {},
        }
    }
    if !has_app {
        return LoopAction::Nothing;
    }
    let window_event = match event {
        LoopEvent::CloseRequested | LoopEvent::Resized { .. } | LoopEvent::RedrawRequested
        | LoopEvent::OtherWindowEvent => true,
        _ => false,
    };
    if consumed_by_ui && window_event {
        return LoopAction::Nothing;
    }
    match event {
        LoopEvent::CloseRequested => LoopAction::Exit,
        LoopEvent::Resized { width, height } => LoopAction::Resize { width, height },
        LoopEvent::RedrawRequested => LoopAction::Redraw,
        LoopEvent::AboutToWait => LoopAction::RequestRedraw,
        _ => LoopAction::Nothing,
    }
}

/// An event that the user interface consumed is not acted on, and an event
/// that does not come from the window is never withheld by it.
pub proof fn lemma_consumed_events_stop(lifecycle: bool, has_app: bool, event: LoopEvent)
    ensures
        is_window_event(event) ==> event_action(lifecycle, has_app, true, event) == LoopAction::Nothing,
        !is_window_event(event) ==> event_action(lifecycle, has_app, true, event) == event_action(lifecycle, has_app, false, event),
{
}

/// Where the platform does not manage the lifecycle, the GPU state is
/// never set up or dropped by an event; and without GPU state only a
/// lifecycle event does anything.
pub proof fn lemma_lifecycle_only_on_mobile(lifecycle: bool, has_app: bool, consumed_by_ui: bool, event: LoopEvent)
    ensures
        !lifecycle ==> event_action(lifecycle, has_app, consumed_by_ui, event) != LoopAction::CreateApp,
        !lifecycle ==> event_action(lifecycle, has_app, consumed_by_ui, event) != LoopAction::DropApp,
        !has_app && !(lifecycle && (event == LoopEvent::Resumed || event == LoopEvent::Suspended))
            ==> event_action(lifecycle, has_app, consumed_by_ui, event) == LoopAction::Nothing,
        lifecycle && has_app ==> event_action(lifecycle, has_app, consumed_by_ui, LoopEvent::Resumed) == LoopAction::Nothing,
{
}

/// Only resuming and suspending depend on whether the platform manages the
/// lifecycle; every other event gets the same action either way.
pub proof fn lemma_lifecycle_only_for_resume_and_suspend(has_app: bool, consumed_by_ui: bool, event: LoopEvent)
    requires
        event != LoopEvent::Resumed,
        event != LoopEvent::Suspended,
    ensures
        event_action(true, has_app, consumed_by_ui, event) == event_action(false, has_app, consumed_by_ui, event),
{
}

/// What each event does once the GPU state exists, on any platform: a close
/// request leaves the loop and a resize resizes to the reported size, unless
/// the user interface consumed them; a redraw request draws unless consumed;
/// before waiting the loop always asks for a redraw; other events do nothing.
/// Without GPU state, the lifecycle platform sets it up on resume and every
/// platform drops nothing but on suspend.
pub proof fn lemma_event_actions(lifecycle: bool, consumed_by_ui: bool, width: u32, height: u32)
    ensures
        event_action(lifecycle, true, false, LoopEvent::CloseRequested) == LoopAction::Exit,
        event_action(lifecycle, true, false, LoopEvent::Resized { width, height }) == (LoopAction::Resize { width, height }),
        event_action(lifecycle, true, false, LoopEvent::RedrawRequested) == LoopAction::Redraw,
        event_action(lifecycle, true, consumed_by_ui, LoopEvent::AboutToWait) == LoopAction::RequestRedraw,
        event_action(lifecycle, true, consumed_by_ui, LoopEvent::OtherWindowEvent) == LoopAction::Nothing,
        event_action(lifecycle, true, consumed_by_ui, LoopEvent::Other) == LoopAction::Nothing,
        event_action(true, false, consumed_by_ui, LoopEvent::Resumed) == LoopAction::CreateApp,
        event_action(true, true, consumed_by_ui, LoopEvent::Suspended) == LoopAction::DropApp,
        event_action(true, false, consumed_by_ui, LoopEvent::Suspended) == LoopAction::DropApp,
        event_action(false, true, consumed_by_ui, LoopEvent::Resumed) == LoopAction::Nothing,
        event_action(false, true, consumed_by_ui, LoopEvent::Suspended) == LoopAction::Nothing,
{
}

} // verus!
