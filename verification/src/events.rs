//! The events that reach the run loop, and what each of them asks of the
//! core.

use crate::frame::FrameEvent;
use crate::surface::PhysicalSize;
use vstd::prelude::*;

verus! {

/// Whether a key went down or came up.
#[derive(Clone, Copy, Debug, PartialEq, Eq, Structural)]
pub enum ElementState {
    Pressed,
    Released,
}

/// The meaning of a key, as far as the program tells keys apart.
#[derive(Clone, Copy, Debug, PartialEq, Eq, Structural)]
pub enum VirtualKeyCode {
    Escape,
    Other,
}

/// Something that happened to a window.
#[derive(Clone, Copy, Debug, PartialEq, Eq, Structural)]
pub enum WindowEvent {
    CloseRequested,
    KeyboardInput { state: ElementState, virtual_keycode: Option<VirtualKeyCode> },
    /// The window has the given size now.
    Resized(PhysicalSize),
    /// The window moved to another scale factor and has the given size now.
    ScaleFactorChanged { new_inner_size: PhysicalSize },
    /// Any other input: pointer movement, focus, text and the like.
    Other,
}

/// Something that the run loop is told.
#[derive(Clone, Copy, Debug, PartialEq, Eq, Structural)]
pub enum Event {
    /// A window event; `own_window` says whether it is for the program's
    /// window.
    WindowEvent { own_window: bool, event: WindowEvent },
    /// A window wants to be drawn.
    RedrawRequested { own_window: bool },
    /// All pending events have been handled.
    MainEventsCleared,
    /// The embedding program reports progress on the frame in flight.
    UserEvent(FrameEvent),
    /// Anything else.
    Other,
}

/// What an event asks of the core.
#[derive(Clone, Copy, Debug, PartialEq, Eq, Structural)]
pub enum Request {
    /// End the run loop.
    Exit,
    /// Take a new window size.
    Resize(PhysicalSize),
    /// Hand an event to the frame loop.
    Frame(FrameEvent),
    /// Ask the window for another redraw.
    RequestRedraw,
    /// No change to the core.
    Nothing,
}

/// What a window event of the program's own window asks for: closing the
/// window or pressing escape ends the run loop, a new size or scale factor is
/// a resize, everything else passes without effect.
pub open spec fn route_window_event(event: WindowEvent) -> Request {
    match event {
        WindowEvent::CloseRequested => Request::Exit,
        WindowEvent::KeyboardInput {
            state: ElementState::Pressed,
            virtual_keycode: Some(VirtualKeyCode::Escape),
        } => Request::Exit,
        WindowEvent::Resized(size) => Request::Resize(size),
        WindowEvent::ScaleFactorChanged { new_inner_size } => Request::Resize(new_inner_size),
        _ => Request::Nothing,
    }
}

/// What an event asks for. Events for other windows ask for nothing; once
/// all events are handled another redraw is asked for, so that frames follow
/// each other as fast as the display takes them.
pub open spec fn route(event: Event) -> Request {
    match event {
        Event::WindowEvent { own_window: true, event } => route_window_event(event),
        Event::RedrawRequested { own_window: true } => Request::Frame(FrameEvent::RedrawRequested),
        Event::MainEventsCleared => Request::RequestRedraw,
        Event::UserEvent(progress) => Request::Frame(progress),
        _ => Request::Nothing,
    }
}

/// Says what a window event of the program's own window asks for.
pub fn dispatch_window_event(event: &WindowEvent) -> (request: Request)
    ensures
        request == route_window_event(*event),
{
    match event {
        WindowEvent::CloseRequested => Request::Exit,
        WindowEvent::KeyboardInput {
            state: ElementState::Pressed,
            virtual_keycode: Some(VirtualKeyCode::Escape),
        } => Request::Exit,
        WindowEvent::Resized(size) => Request::Resize(*size),
        WindowEvent::ScaleFactorChanged { new_inner_size } => Request::Resize(*new_inner_size),
        _ => Request::Nothing,
    }
}

/// Says what an event asks for.
pub fn dispatch(event: &Event) -> (request: Request)
    ensures
        request == route(*event),
{
    match event {
        Event::WindowEvent { own_window: true, event } => dispatch_window_event(event),
        Event::RedrawRequested { own_window: true } => Request::Frame(FrameEvent::RedrawRequested),
        Event::MainEventsCleared => Request::RequestRedraw,
        Event::UserEvent(progress) => Request::Frame(*progress),
        _ => Request::Nothing,
    }
}

/// The run loop is asked to end by exactly two window events: a close
/// request, and escape going down.
pub proof fn lemma_exit_requests(event: WindowEvent)
    ensures
        route_window_event(event) == Request::Exit <==> event == WindowEvent::CloseRequested
            || event == (WindowEvent::KeyboardInput {
            state: ElementState::Pressed,
            virtual_keycode: Some(VirtualKeyCode::Escape),
        }),
{
}

/// Only an event for the program's own window, or progress on its frame,
/// reaches the core.
pub proof fn lemma_foreign_events_pass(event: Event)
    requires
        event matches Event::WindowEvent { own_window: false, .. } || event
            matches Event::RedrawRequested { own_window: false } || event == Event::Other,
    ensures
        route(event) == Request::Nothing,
{
}

} // verus!
