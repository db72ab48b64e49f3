//! The fill state machine and the request/response discipline, exercised
//! through the public renderer interface.

use turtle::query::{DrawingCommand, ProtocolError, Query, Request, Response, StateUpdate};
use turtle::renderer::{DrawnShape, Renderer};
use turtle::state::{Color, DrawingState, Path, Pen, Point, TurtleState};

fn sample_color() -> Color {
    Color { red: 200, green: 10, blue: 30, alpha: 255 }
}

fn sample_pen() -> Pen {
    Pen { enabled: true, thickness: 3, color: sample_color() }
}

fn sample_path(x: i64, y: i64) -> Path {
    Path {
        start: Point { x, y },
        end: Point { x: x + 10, y: y - 5 },
        pen: sample_pen(),
    }
}

fn sample_turtle() -> TurtleState {
    TurtleState {
        position: Point { x: 0, y: 0 },
        heading: 90,
        pen: sample_pen(),
        visible: true,
    }
}

fn sample_drawing() -> DrawingState {
    DrawingState {
        background: Color { red: 255, green: 255, blue: 255, alpha: 255 },
        center: Point { x: 0, y: 0 },
        width: 800,
        height: 600,
    }
}

fn new_renderer() -> Renderer {
    Renderer::new(sample_turtle(), sample_drawing())
}

#[test]
fn store_path_appends_to_persisted_list() {
    let mut r = new_renderer();
    let p = sample_path(1, 2);
    assert_eq!(r.handle_drawing(DrawingCommand::StorePath(p)), Ok(()));
    assert!(!r.is_filling());
    let persisted = r.persisted_paths();
    assert_eq!(persisted.len(), 1);
    match &persisted[0] {
        DrawnShape::Stroke(stored) => assert_eq!(*stored, p),
        DrawnShape::Fill { .. } => panic!("stroke expected"),
    }
}

#[test]
fn fill_sequence_persists_one_filled_shape() {
    let mut r = new_renderer();
    let c = sample_color();
    let p1 = sample_path(1, 1);
    let p2 = sample_path(2, 2);
    assert_eq!(r.handle_drawing(DrawingCommand::BeginFill(c)), Ok(()));
    assert!(r.is_filling());
    assert_eq!(r.handle_drawing(DrawingCommand::StorePath(p1)), Ok(()));
    assert_eq!(r.handle_drawing(DrawingCommand::StorePath(p2)), Ok(()));
    // While filling, nothing is appended to the persisted list directly.
    assert_eq!(r.persisted_paths().len(), 0);
    assert_eq!(r.handle_drawing(DrawingCommand::EndFill), Ok(()));
    assert!(!r.is_filling());
    let persisted = r.persisted_paths();
    assert_eq!(persisted.len(), 1);
    match &persisted[0] {
        DrawnShape::Fill { color, paths } => {
            assert_eq!(*color, c);
            assert_eq!(paths.as_slice(), &[p1, p2]);
        }
        DrawnShape::Stroke(_) => panic!("filled shape expected"),
    }
}

#[test]
fn end_fill_without_begin_fill_is_rejected() {
    let mut r = new_renderer();
    assert_eq!(
        r.handle_drawing(DrawingCommand::EndFill),
        Err(ProtocolError::EndFillWhileNotFilling)
    );
}

#[test]
fn begin_fill_while_filling_is_rejected() {
    let mut r = new_renderer();
    assert_eq!(r.handle_drawing(DrawingCommand::BeginFill(sample_color())), Ok(()));
    assert_eq!(
        r.handle_drawing(DrawingCommand::BeginFill(sample_color())),
        Err(ProtocolError::BeginFillWhileFilling)
    );
    // The pending fill is untouched by the rejected command.
    assert!(r.is_filling());
}

#[test]
fn clear_with_temporary_path_is_rejected() {
    let mut r = new_renderer();
    let p = sample_path(5, 5);
    assert_eq!(r.handle_drawing(DrawingCommand::StorePath(p)), Ok(()));
    r.handle_update(StateUpdate::TemporaryPath(Some(p)));
    assert_eq!(
        r.handle_drawing(DrawingCommand::Clear),
        Err(ProtocolError::ClearWithTemporaryPath)
    );
    // Nothing was applied.
    assert_eq!(r.persisted_paths().len(), 1);
}

#[test]
fn clear_empties_paths_and_keeps_fill_state() {
    let mut r = new_renderer();
    assert_eq!(r.handle_drawing(DrawingCommand::StorePath(sample_path(1, 1))), Ok(()));
    assert_eq!(r.handle_drawing(DrawingCommand::BeginFill(sample_color())), Ok(()));
    assert_eq!(r.handle_drawing(DrawingCommand::Clear), Ok(()));
    assert_eq!(r.persisted_paths().len(), 0);
    // Clearing does not reset the fill machine.
    assert!(r.is_filling());
}

#[test]
fn every_request_gets_the_matching_response_variant() {
    let mut r = new_renderer();
    match r.handle_request(Request::TurtleState) {
        Response::TurtleState(t) => assert_eq!(t, sample_turtle()),
        other => panic!("wrong variant: {:?}", other),
    }
    match r.handle_request(Request::DrawingState) {
        Response::DrawingState(d) => assert_eq!(d, sample_drawing()),
        other => panic!("wrong variant: {:?}", other),
    }
    match r.handle_request(Request::Event) {
        Response::Event(e) => assert_eq!(e, None),
        other => panic!("wrong variant: {:?}", other),
    }
}

#[test]
fn event_poll_is_nonblocking_and_consumes_the_event() {
    let mut r = new_renderer();
    assert_eq!(r.handle_request(Request::Event), Response::Event(None));
    let event = turtle::Event::WindowFocused(true);
    r.push_event(event);
    assert_eq!(r.handle_request(Request::Event), Response::Event(Some(event)));
    // The pending event was consumed.
    assert_eq!(r.handle_request(Request::Event), Response::Event(None));
}

#[test]
fn newer_event_replaces_an_unpolled_one() {
    let mut r = new_renderer();
    r.push_event(turtle::Event::WindowFocused(true));
    r.push_event(turtle::Event::WindowClosed);
    assert_eq!(
        r.handle_request(Request::Event),
        Response::Event(Some(turtle::Event::WindowClosed))
    );
}

#[test]
fn state_updates_are_reflected_in_later_responses() {
    let mut r = new_renderer();
    let mut turtle = sample_turtle();
    turtle.position = Point { x: 42, y: -7 };
    r.handle_update(StateUpdate::TurtleState(turtle));
    assert_eq!(r.handle_request(Request::TurtleState), Response::TurtleState(turtle));

    let mut drawing = sample_drawing();
    drawing.width = 1024;
    r.handle_update(StateUpdate::DrawingState(drawing));
    assert_eq!(r.handle_request(Request::DrawingState), Response::DrawingState(drawing));

    let p = sample_path(3, 3);
    r.handle_update(StateUpdate::TemporaryPath(Some(p)));
    assert_eq!(r.temporary_path(), Some(p));
    r.handle_update(StateUpdate::TemporaryPath(None));
    assert_eq!(r.temporary_path(), None);
}

#[test]
fn clear_succeeds_after_preview_is_cleared() {
    let mut r = new_renderer();
    let p = sample_path(9, 9);
    assert_eq!(r.handle_drawing(DrawingCommand::StorePath(p)), Ok(()));
    let batch = vec![
        Query::Update(StateUpdate::TemporaryPath(Some(p))),
        Query::Update(StateUpdate::TemporaryPath(None)),
        Query::Drawing(DrawingCommand::Clear),
    ];
    let responses = r.drain(&batch).expect("the cleared preview makes Clear legal");
    assert!(responses.is_empty());
    assert_eq!(r.persisted_paths().len(), 0);
    assert_eq!(r.temporary_path(), None);
}

#[test]
fn drain_answers_exactly_the_requests_in_order() {
    let mut r = new_renderer();
    let batch = vec![
        Query::Request(Request::Event),
        Query::Drawing(DrawingCommand::StorePath(sample_path(1, 1))),
        Query::Request(Request::TurtleState),
        Query::Update(StateUpdate::TemporaryPath(None)),
        Query::Request(Request::DrawingState),
    ];
    let responses = r.drain(&batch).expect("no violation in this batch");
    assert_eq!(responses.len(), 3);
    assert!(matches!(responses[0], Response::Event(None)));
    assert!(matches!(responses[1], Response::TurtleState(_)));
    assert!(matches!(responses[2], Response::DrawingState(_)));
}

#[test]
fn drain_stops_at_the_first_violation() {
    let mut r = new_renderer();
    let batch = vec![
        Query::Drawing(DrawingCommand::EndFill),
        Query::Drawing(DrawingCommand::StorePath(sample_path(1, 1))),
    ];
    assert_eq!(r.drain(&batch), Err(ProtocolError::EndFillWhileNotFilling));
    // The command after the violation was not applied.
    assert_eq!(r.persisted_paths().len(), 0);
}
