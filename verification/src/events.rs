//! Window and input event classification, consumed from the windowing
//! collaborator: event kinds, category flags, and the interface every
//! concrete event offers.

use vstd::prelude::*;

verus! {

/// Kind of a window or input event.
#[derive(Clone, Copy, Debug, PartialEq, Eq, Structural)]
pub enum EventType {
    Unknown,
    WindowResized,
    WindowClosed,
    WindowMoved,
    KeyPressed,
    KeyReleased,
    KeyTyped,
    MouseButtonPressed,
    MouseButtonReleased,
    MouseScrolled,
    MouseMoved,
}

/// Category flags of an event.
#[derive(Clone, Copy, Debug, PartialEq, Eq, Structural)]
pub struct EventCategory {
    pub keyboard: bool,
    pub application: bool,
    pub mouse: bool,
    pub input: bool,
    pub mouse_button: bool,
}

impl EventCategory {
    /// Whether any category of `other` is also set here.
    pub fn Intersects(&self, other: EventCategory) -> (r: bool)
        ensures
            r == ((self.keyboard && other.keyboard) || (self.application && other.application)
                || (self.mouse && other.mouse) || (self.input && other.input) || (
            self.mouse_button && other.mouse_button)),
    {
        (self.keyboard && other.keyboard) || (self.application && other.application) || (
        self.mouse && other.mouse) || (self.input && other.input) || (self.mouse_button
            && other.mouse_button)
    }
}

/// What every concrete event of the windowing layer offers.
pub trait Event {
    fn GetType(&self) -> EventType;

    fn GetCategoryFlags(&self) -> EventCategory;

    fn IsHandled(&self) -> bool;
}

} // verus!
