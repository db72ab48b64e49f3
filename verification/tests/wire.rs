//! The wire codec: round trips for queries and responses, exact encodings,
//! and rejection of malformed buffers.

use turtle::codec::{decode_query, decode_response, encode_query, encode_response};
use turtle::event::{ControllerAxis, Event, Key, MouseButton, Touch, TouchPhase};
use turtle::query::{DrawingCommand, Query, Request, Response, StateUpdate};
use turtle::state::{Color, DrawingState, Path, Pen, Point, TurtleState};

fn sample_path() -> Path {
    Path {
        start: Point { x: -3, y: 900 },
        end: Point { x: 14, y: -200 },
        pen: Pen {
            enabled: false,
            thickness: 7,
            color: Color { red: 1, green: 2, blue: 3, alpha: 4 },
        },
    }
}

fn sample_turtle() -> TurtleState {
    TurtleState {
        position: Point { x: i64::MIN, y: i64::MAX },
        heading: -180,
        pen: Pen {
            enabled: true,
            thickness: u64::MAX,
            color: Color { red: 0, green: 128, blue: 255, alpha: 10 },
        },
        visible: false,
    }
}

fn sample_drawing() -> DrawingState {
    DrawingState {
        background: Color { red: 9, green: 8, blue: 7, alpha: 6 },
        center: Point { x: -1, y: 1 },
        width: u32::MAX,
        height: 0,
    }
}

fn query_round_trips(q: Query) {
    let bytes = encode_query(&q);
    assert_eq!(decode_query(&bytes), Some(q));
}

fn response_round_trips(r: Response) {
    let bytes = encode_response(&r);
    assert_eq!(decode_response(&bytes), Some(r));
}

#[test]
fn queries_round_trip() {
    query_round_trips(Query::Request(Request::TurtleState));
    query_round_trips(Query::Request(Request::DrawingState));
    query_round_trips(Query::Request(Request::Event));
    query_round_trips(Query::Update(StateUpdate::TurtleState(sample_turtle())));
    query_round_trips(Query::Update(StateUpdate::DrawingState(sample_drawing())));
    query_round_trips(Query::Update(StateUpdate::TemporaryPath(Some(sample_path()))));
    query_round_trips(Query::Update(StateUpdate::TemporaryPath(None)));
    query_round_trips(Query::Drawing(DrawingCommand::StorePath(sample_path())));
    query_round_trips(Query::Drawing(DrawingCommand::BeginFill(Color {
        red: 255,
        green: 0,
        blue: 0,
        alpha: 255,
    })));
    query_round_trips(Query::Drawing(DrawingCommand::EndFill));
    query_round_trips(Query::Drawing(DrawingCommand::Clear));
}

#[test]
fn responses_round_trip() {
    response_round_trips(Response::TurtleState(sample_turtle()));
    response_round_trips(Response::DrawingState(sample_drawing()));
    response_round_trips(Response::Event(None));
    for event in [
        Event::KeyPressed(Key { code: 97 }),
        Event::KeyReleased(Key { code: 0 }),
        Event::MouseButtonPressed(MouseButton::Left),
        Event::MouseButtonReleased(MouseButton::Button8),
        Event::ControllerButtonPressed(turtle::event::ControllerButton { id: 3, button: 250 }),
        Event::ControllerButtonReleased(turtle::event::ControllerButton { id: 0, button: 0 }),
        Event::ControllerAxisChange(ControllerAxis { id: 1, axis: 2, position: -1000 }),
        Event::MouseMove { x: -400, y: 300 },
        Event::MouseScroll { x: 0, y: -2 },
        Event::Touch(Touch { device: -1, id: 9, x: 5, y: 6, phase: TouchPhase::Cancel }),
        Event::WindowResized { width: 800, height: 600 },
        Event::WindowFocused(true),
        Event::WindowCursor(false),
        Event::WindowClosed,
    ] {
        response_round_trips(Response::Event(Some(event)));
    }
}

#[test]
fn small_messages_have_the_documented_exact_encoding() {
    // Outer tag 2 (drawing command), inner tag 2 (EndFill).
    assert_eq!(encode_query(&Query::Drawing(DrawingCommand::EndFill)), vec![2, 2]);
    // Outer tag 0 (request), inner tag 2 (event poll).
    assert_eq!(encode_query(&Query::Request(Request::Event)), vec![0, 2]);
    // Outer tag 2 (event response), inner tag 0 (no pending event).
    assert_eq!(encode_response(&Response::Event(None)), vec![2, 0]);
}

#[test]
fn malformed_buffers_are_rejected() {
    // Empty buffer.
    assert_eq!(decode_query(&vec![]), None);
    // Unknown outer tag.
    assert_eq!(decode_query(&vec![9]), None);
    // Unknown request tag.
    assert_eq!(decode_query(&vec![0, 3]), None);
    // Truncated payload: BeginFill needs four color bytes.
    assert_eq!(decode_query(&vec![2, 1, 10, 20]), None);
    // Trailing garbage after a complete message.
    assert_eq!(decode_query(&vec![2, 2, 0]), None);
    // An option tag must be zero or one.
    assert_eq!(decode_response(&vec![2, 7]), None);
    // A boolean byte must be zero or one: flip the `enabled` byte inside a
    // stored path's pen encoding.
    let mut bytes = encode_query(&Query::Drawing(DrawingCommand::StorePath(sample_path())));
    let pen_enabled_at = 2 + 32; // outer + inner tags, then two points.
    assert_eq!(bytes[pen_enabled_at], 0);
    bytes[pen_enabled_at] = 2;
    assert_eq!(decode_query(&bytes), None);
}
