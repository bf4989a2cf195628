//! What the window's events lead to.

use vstd::prelude::*;

verus! {

/// An event of the window, as far as the render loop cares.
#[derive(Clone, Copy, Debug, PartialEq, Eq, Structural)]
pub enum WindowEvent {
    /// The window's contents are due to be drawn.
    RedrawRequested,
    /// All pending events have been handled.
    MainEventsCleared,
    /// The user asked to close the window.
    CloseRequested,
    /// The window now has this size.
    Resized { width: u32, height: u32 },
    /// Anything else, and any event of another window.
    Other,
}

/// What the event loop does next.
#[derive(Clone, Copy, Debug, PartialEq, Eq, Structural)]
pub enum WindowAction {
    /// Render one frame.
    Render,
    /// Ask the window for a redraw, so that one frame is rendered per idle
    /// cycle.
    RequestRedraw,
    /// Rebuild swapchain, render target and pipeline for this size.
    Resize { width: u32, height: u32 },
    /// Leave the event loop.
    Exit,
    Nothing,
}

/// The action that `event` leads to.
pub open spec fn spec_on_event(event: WindowEvent) -> WindowAction {
    match event {
        WindowEvent::RedrawRequested => WindowAction::Render,
        WindowEvent::MainEventsCleared => WindowAction::RequestRedraw,
        WindowEvent::CloseRequested => WindowAction::Exit,
        WindowEvent::Resized { width, height } => WindowAction::Resize { width, height },
        WindowEvent::Other => WindowAction::Nothing,
    }
}

/// Decides what the event loop does on `event`.
pub fn on_event(event: WindowEvent) -> (r: WindowAction)
    ensures
        r == spec_on_event(event),
{
    match event {
        WindowEvent::RedrawRequested => WindowAction::Render,
        WindowEvent::MainEventsCleared => WindowAction::RequestRedraw,
        WindowEvent::CloseRequested => WindowAction::Exit,
        WindowEvent::Resized { width, height } => WindowAction::Resize { width, height },
        WindowEvent::Other => WindowAction::Nothing,
    }
}

} // verus!
