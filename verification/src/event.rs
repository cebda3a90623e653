use vstd::prelude::*;
use crate::surface::Size;

verus! {

/// A key, as far as the driver tells keys apart.
#[derive(Clone, Copy, Debug, PartialEq, Eq, Structural)]
pub enum Key {
    Escape,
    Other,
}

/// An event of one window.
#[derive(Clone, Copy, Debug, PartialEq, Eq, Structural)]
pub enum WindowEvent {
    /// The user asked to close the window.
    CloseRequested,
    /// A key went down (`pressed`) or up; `key` is `None` where the platform
    /// names no key.
    KeyboardInput { pressed: bool, key: Option<Key> },
    /// The window now has this size.
    Resized(Size),
    /// The scale factor changed, and with it the window's size in pixels.
    ScaleFactorChanged { new_inner_size: Size },
    /// Any other window event.
    Other,
}

impl WindowEvent {
    /// Whether the event asks the application to end: a close request, or
    /// Escape going down.
    pub open spec fn spec_asks_to_exit(&self) -> bool {
        ||| *self == WindowEvent::CloseRequested
        ||| *self == (WindowEvent::KeyboardInput { pressed: true, key: Some(Key::Escape) })
    }

    #[verifier::when_used_as_spec(spec_asks_to_exit)]
    pub fn asks_to_exit(&self) -> (exit: bool)
        ensures
            exit == self.spec_asks_to_exit(),
    {
        match self {
            WindowEvent::CloseRequested => true,
            WindowEvent::KeyboardInput { pressed: true, key: Some(Key::Escape) } => true,
            _ => false,
        }
    }

    /// The size that the event announces, if it announces one.
    pub open spec fn spec_new_size(&self) -> Option<Size> {
        match *self {
            WindowEvent::Resized(size) => Some(size),
            WindowEvent::ScaleFactorChanged { new_inner_size } => Some(new_inner_size),
            _ => None,
        }
    }

    #[verifier::when_used_as_spec(spec_new_size)]
    pub fn new_size(&self) -> (size: Option<Size>)
        ensures
            size == self.spec_new_size(),
    {
        match self {
            WindowEvent::Resized(size) => Some(*size),
            WindowEvent::ScaleFactorChanged { new_inner_size } => Some(*new_inner_size),
            _ => None,
        }
    }
}

/// An event of the platform's event loop. `own_window` says whether the event
/// belongs to the window that the renderer draws into.
#[derive(Clone, Copy, Debug, PartialEq, Eq, Structural)]
pub enum Event {
    /// A window must be redrawn.
    RedrawRequested { own_window: bool },
    /// All pending events have been handed out.
    MainEventsCleared,
    /// A window event.
    Window { own_window: bool, event: WindowEvent },
    /// Any other event.
    Other,
}

} // verus!
