//! Event handling (mouse, keyboard, controller, touch screen, etc.)
//!
//! [`Event`] is the stable, exhaustively matched vocabulary of input
//! occurrences that the protocol carries. [`RawEvent`] is the library's
//! plain-value model of one notification from the windowing backend; the
//! embedding program converts the backend's own event type into it and calls
//! [`from_raw_event`] to translate.

use vstd::prelude::*;
use crate::state::Point;

verus! {

/// A keyboard key, identified by its portable key code.
#[derive(Clone, Copy, PartialEq, Eq, Structural, Debug)]
pub struct Key {
    pub code: u32,
}

/// A mouse button.
#[derive(Clone, Copy, PartialEq, Eq, Structural, Debug)]
pub enum MouseButton {
    Unknown,
    Left,
    Right,
    Middle,
    X1,
    X2,
    Button6,
    Button7,
    Button8,
}

/// A controller (gamepad) button. Not guaranteed consistent across backends.
#[derive(Clone, Copy, PartialEq, Eq, Structural, Debug)]
pub struct ControllerButton {
    /// Which controller the button is on.
    pub id: u32,
    /// Which button was pressed.
    pub button: u8,
}

/// A controller axis (usually a joystick) position change.
#[derive(Clone, Copy, PartialEq, Eq, Structural, Debug)]
pub struct ControllerAxis {
    /// Which controller moved.
    pub id: u32,
    /// The axis that moved.
    pub axis: u8,
    /// New position of the axis, in the embedding program's fixed scale.
    pub position: i64,
}

/// The phase of a touch: a finger pressed down, moved, lifted, or cancelled.
#[derive(Clone, Copy, PartialEq, Eq, Structural, Debug)]
pub enum TouchPhase {
    Start,
    Move,
    End,
    Cancel,
}

/// One touch occurrence on a touch screen or trackpad.
#[derive(Clone, Copy, PartialEq, Eq, Structural, Debug)]
pub struct Touch {
    /// The device the touch came from.
    pub device: i64,
    /// Identifies the finger during one touch; ids may be reused over time.
    pub id: i64,
    pub x: i64,
    pub y: i64,
    pub phase: TouchPhase,
}

/// The direction a controller hat (d-pad) is held in.
#[derive(Clone, Copy, PartialEq, Eq, Structural, Debug)]
pub enum HatState {
    Centered,
    Up,
    Right,
    Down,
    Left,
    RightUp,
    RightDown,
    LeftUp,
    LeftDown,
}

/// A controller hat (d-pad) state change.
#[derive(Clone, Copy, PartialEq, Eq, Structural, Debug)]
pub struct ControllerHat {
    /// Which controller the hat is on.
    pub id: u32,
    /// Which hat on the controller changed.
    pub which: u8,
    /// The new direction.
    pub state: HatState,
}

/// Possible events returned when the control side polls for input.
///
/// Events make programs interactive. This type is a simplified, serializable
/// model of the windowing backend's event type, decoupled from any particular
/// backend. A value is produced once per input occurrence and never mutated.
#[derive(Clone, Copy, PartialEq, Eq, Structural, Debug)]
pub enum Event {
    /// Sent when a keyboard key is pressed.
    KeyPressed(Key),
    /// Sent when a keyboard key is released.
    KeyReleased(Key),
    /// Sent when a mouse button is pressed.
    MouseButtonPressed(MouseButton),
    /// Sent when a mouse button is released.
    MouseButtonReleased(MouseButton),
    /// Sent when a controller button is pressed.
    ControllerButtonPressed(ControllerButton),
    /// Sent when a controller button is released.
    ControllerButtonReleased(ControllerButton),
    /// Sent when a controller axis (usually a joystick) is changed.
    ControllerAxisChange(ControllerAxis),
    /// Sent when the mouse is moving; `x` and `y` are the new coordinates,
    /// relative to the center of the window.
    MouseMove { x: i64, y: i64 },
    /// Sent when the mouse is scrolled; `x` and `y` are in scroll ticks.
    MouseScroll { x: i64, y: i64 },
    /// Sent when a user touches the screen.
    Touch(Touch),
    /// Sent when the window gets resized.
    WindowResized { width: u32, height: u32 },
    /// Sent when the window focus changes; true if the window is in focus.
    WindowFocused(bool),
    /// Sent when the window gains (true) or loses (false) the cursor.
    WindowCursor(bool),
    /// Sent when the window is closed.
    WindowClosed,
}

/// The button part of a raw button notification.
#[derive(Clone, Copy, PartialEq, Eq, Structural, Debug)]
pub enum RawButton {
    Keyboard(Key),
    Mouse(MouseButton),
    Controller(ControllerButton),
    /// A controller hat (d-pad) change.
    Hat(ControllerHat),
}

/// Whether a raw button notification reports a press or a release.
#[derive(Clone, Copy, PartialEq, Eq, Structural, Debug)]
pub enum RawButtonState {
    Press,
    Release,
}

/// The motion part of a raw motion notification.
#[derive(Clone, Copy, PartialEq, Eq, Structural, Debug)]
pub enum RawMotion {
    /// Absolute cursor position, in device/window coordinates.
    MouseCursor(Point),
    /// Relative mouse motion.
    MouseRelative(Point),
    /// Scroll ticks.
    MouseScroll { x: i64, y: i64 },
    /// Controller axis move.
    ControllerAxis(ControllerAxis),
    /// Touch occurrence.
    Touch(Touch),
}

/// The library's model of one raw input notification from the windowing
/// backend, holding as plain values exactly what translation reads.
#[derive(Clone, Copy, PartialEq, Eq, Structural, Debug)]
pub enum RawInput {
    /// Changed button state.
    Button { state: RawButtonState, button: RawButton },
    /// Mouse, controller or touch motion.
    Move(RawMotion),
    /// Text input; its content is never read here, so it carries none.
    Text,
    /// A file dragged or dropped over the window.
    FileDrag,
    /// Window got resized.
    Resize { width: u32, height: u32 },
    /// Window gained or lost focus.
    Focus(bool),
    /// Window gained or lost the cursor.
    Cursor(bool),
    /// Window closed.
    Close,
}

/// One raw notification from the windowing backend: either an input
/// notification, or anything else (render/update/idle loop events and
/// backend-specific events), which translation never produces an event for.
#[derive(Clone, Copy, PartialEq, Eq, Structural, Debug)]
pub enum RawEvent {
    Input(RawInput),
    Other,
}

/// What translating a raw button notification yields.
///
/// Press and release map keyboard, mouse and controller buttons onto the
/// matching `*Pressed` / `*Released` variant. A hat (d-pad) change has no
/// variant in the [`Event`] vocabulary; the chosen policy is to suppress it
/// (`None`) rather than fail, since no caller could act on it.
pub open spec fn button_event(state: RawButtonState, button: RawButton) -> Option<Event> {
    match button {
        RawButton::Keyboard(key) => match state {
            RawButtonState::Press => Some(Event::KeyPressed(key)),
            RawButtonState::Release => Some(Event::KeyReleased(key)),
        },
        RawButton::Mouse(btn) => match state {
            RawButtonState::Press => Some(Event::MouseButtonPressed(btn)),
            RawButtonState::Release => Some(Event::MouseButtonReleased(btn)),
        },
        RawButton::Controller(btn) => match state {
            RawButtonState::Press => Some(Event::ControllerButtonPressed(btn)),
            RawButtonState::Release => Some(Event::ControllerButtonReleased(btn)),
        },
        RawButton::Hat(_) => None,
    }
}

/// What translating a raw notification yields for every part that does not
/// depend on the caller-supplied coordinate transform. The absolute-cursor
/// case is excluded here and pinned down by [`from_raw_event`]'s contract,
/// which states the transform's postcondition for the translated point.
pub open spec fn fixed_translation(event: RawEvent) -> Option<Event>
    recommends !(event matches RawEvent::Input(RawInput::Move(RawMotion::MouseCursor(_))))
{
    match event {
        RawEvent::Input(input) => match input {
            RawInput::Button { state, button } => button_event(state, button),
            RawInput::Move(motion) => match motion {
                RawMotion::MouseCursor(_) => None,
                RawMotion::MouseRelative(_) => None,
                RawMotion::MouseScroll { x, y } => Some(Event::MouseScroll { x, y }),
                RawMotion::ControllerAxis(axis) => Some(Event::ControllerAxisChange(axis)),
                RawMotion::Touch(touch) => Some(Event::Touch(touch)),
            },
            RawInput::Text => None,
            RawInput::FileDrag => None,
            RawInput::Resize { width, height } => Some(Event::WindowResized { width, height }),
            RawInput::Focus(focused) => Some(Event::WindowFocused(focused)),
            RawInput::Cursor(cursor) => Some(Event::WindowCursor(cursor)),
            RawInput::Close => Some(Event::WindowClosed),
        },
        RawEvent::Other => None,
    }
}

/// Translates one raw backend notification into the stable [`Event`]
/// vocabulary, or `None` where the notification is suppressed by design:
/// relative mouse motion (absolute cursor positions already report the same
/// physical motion), raw text input (unreliable under modifier keys), file
/// drags (unsupported), hat changes (no mapping; see [`button_event`]), and
/// non-input notifications.
///
/// An absolute-cursor notification is first run through the caller-supplied
/// transform `to_local_coords` (device/window coordinates to the logical
/// system centered on the window) and then wrapped as [`Event::MouseMove`].
pub fn from_raw_event<F: FnOnce(Point) -> Point>(event: &RawEvent, to_local_coords: F) -> (r:
    Option<Event>)
    requires
        *event matches RawEvent::Input(RawInput::Move(RawMotion::MouseCursor(p)))
            ==> call_requires(to_local_coords, (p,)),
    ensures
        match *event {
            RawEvent::Input(RawInput::Move(RawMotion::MouseCursor(p))) => {
                &&& r matches Some(Event::MouseMove { x, y })
                &&& call_ensures(to_local_coords, (p,), Point { x, y })
            },
            _ => r == fixed_translation(*event),
        },
{
    let input = match *event {
        RawEvent::Input(input) => input,
        RawEvent::Other => {
            return None;
        },
    };
    match input {
        RawInput::Button { state, button } => match button {
            RawButton::Keyboard(key) => match state {
                RawButtonState::Press => Some(Event::KeyPressed(key)),
                RawButtonState::Release => Some(Event::KeyReleased(key)),
            },
            RawButton::Mouse(btn) => match state {
                RawButtonState::Press => Some(Event::MouseButtonPressed(btn)),
                RawButtonState::Release => Some(Event::MouseButtonReleased(btn)),
            },
            RawButton::Controller(btn) => match state {
                RawButtonState::Press => Some(Event::ControllerButtonPressed(btn)),
                RawButtonState::Release => Some(Event::ControllerButtonReleased(btn)),
            },
            // A hat (d-pad) change has no event variant; suppressed by policy.
            RawButton::Hat(_) => None,
        },
        RawInput::Move(motion) => match motion {
            RawMotion::MouseCursor(p) => {
                let local = to_local_coords(p);
                Some(Event::MouseMove { x: local.x, y: local.y })
            },
            // Ignored in favor of MouseCursor.
            RawMotion::MouseRelative(_) => None,
            RawMotion::MouseScroll { x, y } => Some(Event::MouseScroll { x, y }),
            RawMotion::ControllerAxis(axis) => Some(Event::ControllerAxisChange(axis)),
            RawMotion::Touch(touch) => Some(Event::Touch(touch)),
        },
        // Ignored because this value doesn't produce text reliably for all
        // keys (especially when ctrl is pressed).
        RawInput::Text => None,
        // Not supported.
        RawInput::FileDrag => None,
        RawInput::Resize { width, height } => Some(Event::WindowResized { width, height }),
        RawInput::Focus(focused) => Some(Event::WindowFocused(focused)),
        RawInput::Cursor(cursor) => Some(Event::WindowCursor(cursor)),
        RawInput::Close => Some(Event::WindowClosed),
    }
}

} // verus!
