//! The event translator: variant mapping, the coordinate transform, and the
//! suppression rules.

use turtle::event::{
    ControllerAxis, ControllerButton, ControllerHat, Event, HatState, Key, MouseButton, RawButton,
    RawButtonState, RawEvent, RawInput, RawMotion, Touch, TouchPhase, from_raw_event,
};
use turtle::state::Point;

fn identity(p: Point) -> Point {
    p
}

fn press(button: RawButton) -> RawEvent {
    RawEvent::Input(RawInput::Button { state: RawButtonState::Press, button })
}

fn release(button: RawButton) -> RawEvent {
    RawEvent::Input(RawInput::Button { state: RawButtonState::Release, button })
}

#[test]
fn key_press_and_release_translate_to_key_events() {
    let key = Key { code: 97 };
    assert_eq!(
        from_raw_event(&press(RawButton::Keyboard(key)), identity),
        Some(Event::KeyPressed(key))
    );
    assert_eq!(
        from_raw_event(&release(RawButton::Keyboard(key)), identity),
        Some(Event::KeyReleased(key))
    );
}

#[test]
fn mouse_press_and_release_translate_to_mouse_events() {
    assert_eq!(
        from_raw_event(&press(RawButton::Mouse(MouseButton::Left)), identity),
        Some(Event::MouseButtonPressed(MouseButton::Left))
    );
    assert_eq!(
        from_raw_event(&release(RawButton::Mouse(MouseButton::Right)), identity),
        Some(Event::MouseButtonReleased(MouseButton::Right))
    );
}

#[test]
fn controller_press_and_release_translate_to_controller_events() {
    let button = ControllerButton { id: 1, button: 4 };
    assert_eq!(
        from_raw_event(&press(RawButton::Controller(button)), identity),
        Some(Event::ControllerButtonPressed(button))
    );
    assert_eq!(
        from_raw_event(&release(RawButton::Controller(button)), identity),
        Some(Event::ControllerButtonReleased(button))
    );
}

#[test]
fn hat_changes_are_suppressed() {
    let hat = ControllerHat { id: 0, which: 0, state: HatState::Up };
    assert_eq!(from_raw_event(&press(RawButton::Hat(hat)), identity), None);
    assert_eq!(from_raw_event(&release(RawButton::Hat(hat)), identity), None);
}

#[test]
fn relative_mouse_motion_is_suppressed() {
    let raw = RawEvent::Input(RawInput::Move(RawMotion::MouseRelative(Point { x: 3, y: 4 })));
    assert_eq!(from_raw_event(&raw, identity), None);
}

#[test]
fn absolute_cursor_motion_goes_through_the_transform() {
    // Device coordinates to a system centered on an 800x600 window.
    let to_local = |p: Point| Point { x: p.x - 400, y: 300 - p.y };
    let raw = RawEvent::Input(RawInput::Move(RawMotion::MouseCursor(Point { x: 410, y: 290 })));
    assert_eq!(from_raw_event(&raw, to_local), Some(Event::MouseMove { x: 10, y: 10 }));
}

#[test]
fn scroll_axis_and_touch_are_passed_through() {
    let raw = RawEvent::Input(RawInput::Move(RawMotion::MouseScroll { x: 0, y: -1 }));
    assert_eq!(from_raw_event(&raw, identity), Some(Event::MouseScroll { x: 0, y: -1 }));

    let axis = ControllerAxis { id: 2, axis: 1, position: -500 };
    let raw = RawEvent::Input(RawInput::Move(RawMotion::ControllerAxis(axis)));
    assert_eq!(from_raw_event(&raw, identity), Some(Event::ControllerAxisChange(axis)));

    let touch = Touch { device: 1, id: 7, x: 12, y: 34, phase: TouchPhase::Start };
    let raw = RawEvent::Input(RawInput::Move(RawMotion::Touch(touch)));
    assert_eq!(from_raw_event(&raw, identity), Some(Event::Touch(touch)));
}

#[test]
fn text_and_file_drag_are_suppressed() {
    assert_eq!(from_raw_event(&RawEvent::Input(RawInput::Text), identity), None);
    assert_eq!(from_raw_event(&RawEvent::Input(RawInput::FileDrag), identity), None);
}

#[test]
fn window_notifications_translate_directly() {
    let raw = RawEvent::Input(RawInput::Resize { width: 640, height: 480 });
    assert_eq!(
        from_raw_event(&raw, identity),
        Some(Event::WindowResized { width: 640, height: 480 })
    );
    assert_eq!(
        from_raw_event(&RawEvent::Input(RawInput::Focus(false)), identity),
        Some(Event::WindowFocused(false))
    );
    assert_eq!(
        from_raw_event(&RawEvent::Input(RawInput::Cursor(true)), identity),
        Some(Event::WindowCursor(true))
    );
    assert_eq!(
        from_raw_event(&RawEvent::Input(RawInput::Close), identity),
        Some(Event::WindowClosed)
    );
}

#[test]
fn non_input_notifications_are_suppressed() {
    assert_eq!(from_raw_event(&RawEvent::Other, identity), None);
}
