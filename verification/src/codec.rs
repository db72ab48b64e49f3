//! A binary tagged-union encoding of the protocol messages.
//!
//! The wire shape is a byte sequence: enum variants are one-byte tags,
//! 64-bit scalars are little-endian, and fields follow one another in
//! declaration order. Decoding validates what it reads and rejects any
//! byte sequence that no message encodes to; encoding then decoding any
//! [`Query`] or [`Response`] yields the original value (see
//! [`lemma_query_round_trip`] and [`lemma_response_round_trip`]).

use vstd::prelude::*;
use crate::event::{
    ControllerAxis, ControllerButton, Event, Key, MouseButton, Touch, TouchPhase,
};
use crate::query::{DrawingCommand, Query, Request, Response, StateUpdate};
use crate::state::{Color, DrawingState, Path, Pen, Point, TurtleState};

verus! {

// ---------------------------------------------------------------------
// Scalars
// ---------------------------------------------------------------------

/// Concatenation of byte sequences associates; stated once so the lemmas
/// below can re-bracket an encoding without expanding it.
pub proof fn lemma_add_assoc(a: Seq<u8>, b: Seq<u8>, c: Seq<u8>)
    ensures
        (a + b) + c == a + (b + c),
{
    assert((a + b) + c =~= a + (b + c));
}

/// A `u64`, as eight little-endian bytes.
pub open spec fn enc_u64(v: u64) -> Seq<u8> {
    seq![
        (v & 0xff) as u8,
        ((v >> 8) & 0xff) as u8,
        ((v >> 16) & 0xff) as u8,
        ((v >> 24) & 0xff) as u8,
        ((v >> 32) & 0xff) as u8,
        ((v >> 40) & 0xff) as u8,
        ((v >> 48) & 0xff) as u8,
        ((v >> 56) & 0xff) as u8,
    ]
}

/// The `u64` whose little-endian bytes open `s`.
pub open spec fn le_value(s: Seq<u8>) -> u64
    recommends
        s.len() >= 8,
{
    ((s[0] as u64) | ((s[1] as u64) << 8) | ((s[2] as u64) << 16) | ((s[3] as u64) << 24) | ((
    s[4] as u64) << 32) | ((s[5] as u64) << 40) | ((s[6] as u64) << 48) | ((s[7] as u64) << 56))
}

pub open spec fn dec_u64(s: Seq<u8>) -> Option<(u64, Seq<u8>)> {
    if s.len() >= 8 {
        Some((le_value(s), s.skip(8)))
    } else {
        None
    }
}

pub proof fn lemma_dec_enc_u64(v: u64, rest: Seq<u8>)
    ensures
        dec_u64(enc_u64(v) + rest) == Some((v, rest)),
{
    let s = enc_u64(v) + rest;
    let b0 = (v & 0xff) as u8;
    let b1 = ((v >> 8) & 0xff) as u8;
    let b2 = ((v >> 16) & 0xff) as u8;
    let b3 = ((v >> 24) & 0xff) as u8;
    let b4 = ((v >> 32) & 0xff) as u8;
    let b5 = ((v >> 40) & 0xff) as u8;
    let b6 = ((v >> 48) & 0xff) as u8;
    let b7 = ((v >> 56) & 0xff) as u8;
    assert(s[0] == b0 && s[1] == b1 && s[2] == b2 && s[3] == b3 && s[4] == b4 && s[5] == b5 && s[6]
        == b6 && s[7] == b7);
    assert(((b0 as u64) | ((b1 as u64) << 8) | ((b2 as u64) << 16) | ((b3 as u64) << 24) | ((
    b4 as u64) << 32) | ((b5 as u64) << 40) | ((b6 as u64) << 48) | ((b7 as u64) << 56)) == v)
        by (bit_vector)
        requires
            b0 == (v & 0xff) as u8,
            b1 == ((v >> 8) & 0xff) as u8,
            b2 == ((v >> 16) & 0xff) as u8,
            b3 == ((v >> 24) & 0xff) as u8,
            b4 == ((v >> 32) & 0xff) as u8,
            b5 == ((v >> 40) & 0xff) as u8,
            b6 == ((v >> 48) & 0xff) as u8,
            b7 == ((v >> 56) & 0xff) as u8,
    ;
    assert(le_value(s) == v);
    assert(s.skip(8) =~= rest);
}

/// An `i64`, as the eight little-endian bytes of its two's complement.
pub open spec fn enc_i64(v: i64) -> Seq<u8> {
    enc_u64(v as u64)
}

pub open spec fn dec_i64(s: Seq<u8>) -> Option<(i64, Seq<u8>)> {
    match dec_u64(s) {
        Some((v, rest)) => Some(((v as i64), rest)),
        None => None,
    }
}

pub proof fn lemma_dec_enc_i64(v: i64, rest: Seq<u8>)
    ensures
        dec_i64(enc_i64(v) + rest) == Some((v, rest)),
{
    lemma_dec_enc_u64(v as u64, rest);
    assert((v as u64) as i64 == v) by (bit_vector);
}

/// A `u32`, widened to a `u64`; decoding rejects values out of range.
pub open spec fn enc_u32(v: u32) -> Seq<u8> {
    enc_u64(v as u64)
}

pub open spec fn dec_u32(s: Seq<u8>) -> Option<(u32, Seq<u8>)> {
    match dec_u64(s) {
        Some((v, rest)) => if v <= u32::MAX as u64 {
            Some(((v as u32), rest))
        } else {
            None
        },
        None => None,
    }
}

pub proof fn lemma_dec_enc_u32(v: u32, rest: Seq<u8>)
    ensures
        dec_u32(enc_u32(v) + rest) == Some((v, rest)),
{
    lemma_dec_enc_u64(v as u64, rest);
}

/// A `u8`, as itself.
pub open spec fn enc_u8(v: u8) -> Seq<u8> {
    seq![v]
}

pub open spec fn dec_u8(s: Seq<u8>) -> Option<(u8, Seq<u8>)> {
    if s.len() >= 1 {
        Some((s[0], s.skip(1)))
    } else {
        None
    }
}

pub proof fn lemma_dec_enc_u8(v: u8, rest: Seq<u8>)
    ensures
        dec_u8(enc_u8(v) + rest) == Some((v, rest)),
{
    let s = enc_u8(v) + rest;
    assert(s[0] == v);
    assert(s.skip(1) =~= rest);
}

/// A `bool`, as one byte holding zero or one; anything else is rejected.
pub open spec fn enc_bool(v: bool) -> Seq<u8> {
    enc_u8(
        if v {
            1
        } else {
            0
        },
    )
}

pub open spec fn dec_bool(s: Seq<u8>) -> Option<(bool, Seq<u8>)> {
    match dec_u8(s) {
        Some((v, rest)) => if v == 0 {
            Some((false, rest))
        } else if v == 1 {
            Some((true, rest))
        } else {
            None
        },
        None => None,
    }
}

pub proof fn lemma_dec_enc_bool(v: bool, rest: Seq<u8>)
    ensures
        dec_bool(enc_bool(v) + rest) == Some((v, rest)),
{
    lemma_dec_enc_u8(
        if v {
            1
        } else {
            0
        },
        rest,
    );
}

// ---------------------------------------------------------------------
// Drawing payloads
// ---------------------------------------------------------------------

pub open spec fn enc_point(v: Point) -> Seq<u8> {
    enc_i64(v.x) + enc_i64(v.y)
}

pub open spec fn dec_point(s: Seq<u8>) -> Option<(Point, Seq<u8>)> {
    match dec_i64(s) {
        Some((x, s)) => match dec_i64(s) {
            Some((y, s)) => Some((Point { x, y }, s)),
            None => None,
        },
        None => None,
    }
}

pub proof fn lemma_dec_enc_point(v: Point, rest: Seq<u8>)
    ensures
        dec_point(enc_point(v) + rest) == Some((v, rest)),
{
    assert(enc_point(v) + rest =~= enc_i64(v.x) + (enc_i64(v.y) + rest));
    lemma_dec_enc_i64(v.x, enc_i64(v.y) + rest);
    lemma_dec_enc_i64(v.y, rest);
}

pub open spec fn enc_color(v: Color) -> Seq<u8> {
    enc_u8(v.red) + enc_u8(v.green) + enc_u8(v.blue) + enc_u8(v.alpha)
}

pub open spec fn dec_color(s: Seq<u8>) -> Option<(Color, Seq<u8>)> {
    match dec_u8(s) {
        Some((red, s)) => match dec_u8(s) {
            Some((green, s)) => match dec_u8(s) {
                Some((blue, s)) => match dec_u8(s) {
                    Some((alpha, s)) => Some((Color { red, green, blue, alpha }, s)),
                    None => None,
                },
                None => None,
            },
            None => None,
        },
        None => None,
    }
}

pub proof fn lemma_dec_enc_color(v: Color, rest: Seq<u8>)
    ensures
        dec_color(enc_color(v) + rest) == Some((v, rest)),
{
    let t3 = enc_u8(v.alpha) + rest;
    let t2 = enc_u8(v.blue) + t3;
    let t1 = enc_u8(v.green) + t2;
    assert(enc_color(v) + rest =~= enc_u8(v.red) + t1);
    assert(t1 =~= enc_u8(v.green) + t2);
    lemma_dec_enc_u8(v.red, t1);
    lemma_dec_enc_u8(v.green, t2);
    lemma_dec_enc_u8(v.blue, t3);
    lemma_dec_enc_u8(v.alpha, rest);
}

pub open spec fn enc_pen(v: Pen) -> Seq<u8> {
    enc_bool(v.enabled) + enc_u64(v.thickness) + enc_color(v.color)
}

pub open spec fn dec_pen(s: Seq<u8>) -> Option<(Pen, Seq<u8>)> {
    match dec_bool(s) {
        Some((enabled, s)) => match dec_u64(s) {
            Some((thickness, s)) => match dec_color(s) {
                Some((color, s)) => Some((Pen { enabled, thickness, color }, s)),
                None => None,
            },
            None => None,
        },
        None => None,
    }
}

pub proof fn lemma_dec_enc_pen(v: Pen, rest: Seq<u8>)
    ensures
        dec_pen(enc_pen(v) + rest) == Some((v, rest)),
{
    let t2 = enc_color(v.color) + rest;
    let t1 = enc_u64(v.thickness) + t2;
    assert(enc_pen(v) + rest =~= enc_bool(v.enabled) + t1);
    lemma_dec_enc_bool(v.enabled, t1);
    lemma_dec_enc_u64(v.thickness, t2);
    lemma_dec_enc_color(v.color, rest);
}

pub open spec fn enc_path(v: Path) -> Seq<u8> {
    enc_point(v.start) + enc_point(v.end) + enc_pen(v.pen)
}

pub open spec fn dec_path(s: Seq<u8>) -> Option<(Path, Seq<u8>)> {
    match dec_point(s) {
        Some((start, s)) => match dec_point(s) {
            Some((end, s)) => match dec_pen(s) {
                Some((pen, s)) => Some((Path { start, end, pen }, s)),
                None => None,
            },
            None => None,
        },
        None => None,
    }
}

pub proof fn lemma_dec_enc_path(v: Path, rest: Seq<u8>)
    ensures
        dec_path(enc_path(v) + rest) == Some((v, rest)),
{
    let t2 = enc_pen(v.pen) + rest;
    let t1 = enc_point(v.end) + t2;
    assert(enc_path(v) + rest =~= enc_point(v.start) + t1);
    lemma_dec_enc_point(v.start, t1);
    lemma_dec_enc_point(v.end, t2);
    lemma_dec_enc_pen(v.pen, rest);
}

pub open spec fn enc_turtle_state(v: TurtleState) -> Seq<u8> {
    enc_point(v.position) + enc_i64(v.heading) + enc_pen(v.pen) + enc_bool(v.visible)
}

pub open spec fn dec_turtle_state(s: Seq<u8>) -> Option<(TurtleState, Seq<u8>)> {
    match dec_point(s) {
        Some((position, s)) => match dec_i64(s) {
            Some((heading, s)) => match dec_pen(s) {
                Some((pen, s)) => match dec_bool(s) {
                    Some((visible, s)) => Some((TurtleState { position, heading, pen, visible }, s)),
                    None => None,
                },
                None => None,
            },
            None => None,
        },
        None => None,
    }
}

pub proof fn lemma_dec_enc_turtle_state(v: TurtleState, rest: Seq<u8>)
    ensures
        dec_turtle_state(enc_turtle_state(v) + rest) == Some((v, rest)),
{
    let t3 = enc_bool(v.visible) + rest;
    let t2 = enc_pen(v.pen) + t3;
    let t1 = enc_i64(v.heading) + t2;
    assert(enc_turtle_state(v) + rest =~= enc_point(v.position) + t1);
    lemma_dec_enc_point(v.position, t1);
    lemma_dec_enc_i64(v.heading, t2);
    lemma_dec_enc_pen(v.pen, t3);
    lemma_dec_enc_bool(v.visible, rest);
}

pub open spec fn enc_drawing_state(v: DrawingState) -> Seq<u8> {
    enc_color(v.background) + enc_point(v.center) + enc_u32(v.width) + enc_u32(v.height)
}

pub open spec fn dec_drawing_state(s: Seq<u8>) -> Option<(DrawingState, Seq<u8>)> {
    match dec_color(s) {
        Some((background, s)) => match dec_point(s) {
            Some((center, s)) => match dec_u32(s) {
                Some((width, s)) => match dec_u32(s) {
                    Some((height, s)) => Some(
                        (DrawingState { background, center, width, height }, s),
                    ),
                    None => None,
                },
                None => None,
            },
            None => None,
        },
        None => None,
    }
}

pub proof fn lemma_dec_enc_drawing_state(v: DrawingState, rest: Seq<u8>)
    ensures
        dec_drawing_state(enc_drawing_state(v) + rest) == Some((v, rest)),
{
    let t3 = enc_u32(v.height) + rest;
    let t2 = enc_u32(v.width) + t3;
    let t1 = enc_point(v.center) + t2;
    assert(enc_drawing_state(v) + rest =~= enc_color(v.background) + t1);
    lemma_dec_enc_color(v.background, t1);
    lemma_dec_enc_point(v.center, t2);
    lemma_dec_enc_u32(v.width, t3);
    lemma_dec_enc_u32(v.height, rest);
}

// ---------------------------------------------------------------------
// Input events
// ---------------------------------------------------------------------

pub open spec fn enc_key(v: Key) -> Seq<u8> {
    enc_u32(v.code)
}

pub open spec fn dec_key(s: Seq<u8>) -> Option<(Key, Seq<u8>)> {
    match dec_u32(s) {
        Some((code, s)) => Some((Key { code }, s)),
        None => None,
    }
}

pub proof fn lemma_dec_enc_key(v: Key, rest: Seq<u8>)
    ensures
        dec_key(enc_key(v) + rest) == Some((v, rest)),
{
    lemma_dec_enc_u32(v.code, rest);
}

pub open spec fn mouse_button_tag(v: MouseButton) -> u8 {
    match v {
        MouseButton::Unknown => 0,
        MouseButton::Left => 1,
        MouseButton::Right => 2,
        MouseButton::Middle => 3,
        MouseButton::X1 => 4,
        MouseButton::X2 => 5,
        MouseButton::Button6 => 6,
        MouseButton::Button7 => 7,
        MouseButton::Button8 => 8,
    }
}

pub open spec fn enc_mouse_button(v: MouseButton) -> Seq<u8> {
    enc_u8(mouse_button_tag(v))
}

pub open spec fn dec_mouse_button(s: Seq<u8>) -> Option<(MouseButton, Seq<u8>)> {
    match dec_u8(s) {
        Some((tag, s)) => if tag == 0 {
            Some((MouseButton::Unknown, s))
        } else if tag == 1 {
            Some((MouseButton::Left, s))
        } else if tag == 2 {
            Some((MouseButton::Right, s))
        } else if tag == 3 {
            Some((MouseButton::Middle, s))
        } else if tag == 4 {
            Some((MouseButton::X1, s))
        } else if tag == 5 {
            Some((MouseButton::X2, s))
        } else if tag == 6 {
            Some((MouseButton::Button6, s))
        } else if tag == 7 {
            Some((MouseButton::Button7, s))
        } else if tag == 8 {
            Some((MouseButton::Button8, s))
        } else {
            None
        },
        None => None,
    }
}

pub proof fn lemma_dec_enc_mouse_button(v: MouseButton, rest: Seq<u8>)
    ensures
        dec_mouse_button(enc_mouse_button(v) + rest) == Some((v, rest)),
{
    lemma_dec_enc_u8(mouse_button_tag(v), rest);
}

pub open spec fn enc_controller_button(v: ControllerButton) -> Seq<u8> {
    enc_u32(v.id) + enc_u8(v.button)
}

pub open spec fn dec_controller_button(s: Seq<u8>) -> Option<(ControllerButton, Seq<u8>)> {
    match dec_u32(s) {
        Some((id, s)) => match dec_u8(s) {
            Some((button, s)) => Some((ControllerButton { id, button }, s)),
            None => None,
        },
        None => None,
    }
}

pub proof fn lemma_dec_enc_controller_button(v: ControllerButton, rest: Seq<u8>)
    ensures
        dec_controller_button(enc_controller_button(v) + rest) == Some((v, rest)),
{
    assert(enc_controller_button(v) + rest =~= enc_u32(v.id) + (enc_u8(v.button) + rest));
    lemma_dec_enc_u32(v.id, enc_u8(v.button) + rest);
    lemma_dec_enc_u8(v.button, rest);
}

pub open spec fn enc_controller_axis(v: ControllerAxis) -> Seq<u8> {
    enc_u32(v.id) + enc_u8(v.axis) + enc_i64(v.position)
}

pub open spec fn dec_controller_axis(s: Seq<u8>) -> Option<(ControllerAxis, Seq<u8>)> {
    match dec_u32(s) {
        Some((id, s)) => match dec_u8(s) {
            Some((axis, s)) => match dec_i64(s) {
                Some((position, s)) => Some((ControllerAxis { id, axis, position }, s)),
                None => None,
            },
            None => None,
        },
        None => None,
    }
}

pub proof fn lemma_dec_enc_controller_axis(v: ControllerAxis, rest: Seq<u8>)
    ensures
        dec_controller_axis(enc_controller_axis(v) + rest) == Some((v, rest)),
{
    let t2 = enc_i64(v.position) + rest;
    let t1 = enc_u8(v.axis) + t2;
    assert(enc_controller_axis(v) + rest =~= enc_u32(v.id) + t1);
    lemma_dec_enc_u32(v.id, t1);
    lemma_dec_enc_u8(v.axis, t2);
    lemma_dec_enc_i64(v.position, rest);
}

pub open spec fn touch_phase_tag(v: TouchPhase) -> u8 {
    match v {
        TouchPhase::Start => 0,
        TouchPhase::Move => 1,
        TouchPhase::End => 2,
        TouchPhase::Cancel => 3,
    }
}

pub open spec fn enc_touch_phase(v: TouchPhase) -> Seq<u8> {
    enc_u8(touch_phase_tag(v))
}

pub open spec fn dec_touch_phase(s: Seq<u8>) -> Option<(TouchPhase, Seq<u8>)> {
    match dec_u8(s) {
        Some((tag, s)) => if tag == 0 {
            Some((TouchPhase::Start, s))
        } else if tag == 1 {
            Some((TouchPhase::Move, s))
        } else if tag == 2 {
            Some((TouchPhase::End, s))
        } else if tag == 3 {
            Some((TouchPhase::Cancel, s))
        } else {
            None
        },
        None => None,
    }
}

pub proof fn lemma_dec_enc_touch_phase(v: TouchPhase, rest: Seq<u8>)
    ensures
        dec_touch_phase(enc_touch_phase(v) + rest) == Some((v, rest)),
{
    lemma_dec_enc_u8(touch_phase_tag(v), rest);
}

pub open spec fn enc_touch(v: Touch) -> Seq<u8> {
    enc_i64(v.device) + enc_i64(v.id) + enc_i64(v.x) + enc_i64(v.y) + enc_touch_phase(v.phase)
}

pub open spec fn dec_touch(s: Seq<u8>) -> Option<(Touch, Seq<u8>)> {
    match dec_i64(s) {
        Some((device, s)) => match dec_i64(s) {
            Some((id, s)) => match dec_i64(s) {
                Some((x, s)) => match dec_i64(s) {
                    Some((y, s)) => match dec_touch_phase(s) {
                        Some((phase, s)) => Some((Touch { device, id, x, y, phase }, s)),
                        None => None,
                    },
                    None => None,
                },
                None => None,
            },
            None => None,
        },
        None => None,
    }
}

pub proof fn lemma_dec_enc_touch(v: Touch, rest: Seq<u8>)
    ensures
        dec_touch(enc_touch(v) + rest) == Some((v, rest)),
{
    let t4 = enc_touch_phase(v.phase) + rest;
    let t3 = enc_i64(v.y) + t4;
    let t2 = enc_i64(v.x) + t3;
    let t1 = enc_i64(v.id) + t2;
    assert(enc_touch(v) + rest =~= enc_i64(v.device) + t1);
    lemma_dec_enc_i64(v.device, t1);
    lemma_dec_enc_i64(v.id, t2);
    lemma_dec_enc_i64(v.x, t3);
    lemma_dec_enc_i64(v.y, t4);
    lemma_dec_enc_touch_phase(v.phase, rest);
}

pub open spec fn enc_event(v: Event) -> Seq<u8> {
    match v {
        Event::KeyPressed(key) => enc_u8(0) + enc_key(key),
        Event::KeyReleased(key) => enc_u8(1) + enc_key(key),
        Event::MouseButtonPressed(btn) => enc_u8(2) + enc_mouse_button(btn),
        Event::MouseButtonReleased(btn) => enc_u8(3) + enc_mouse_button(btn),
        Event::ControllerButtonPressed(btn) => enc_u8(4) + enc_controller_button(btn),
        Event::ControllerButtonReleased(btn) => enc_u8(5) + enc_controller_button(btn),
        Event::ControllerAxisChange(axis) => enc_u8(6) + enc_controller_axis(axis),
        Event::MouseMove { x, y } => enc_u8(7) + enc_i64(x) + enc_i64(y),
        Event::MouseScroll { x, y } => enc_u8(8) + enc_i64(x) + enc_i64(y),
        Event::Touch(touch) => enc_u8(9) + enc_touch(touch),
        Event::WindowResized { width, height } => enc_u8(10) + enc_u32(width) + enc_u32(height),
        Event::WindowFocused(focused) => enc_u8(11) + enc_bool(focused),
        Event::WindowCursor(cursor) => enc_u8(12) + enc_bool(cursor),
        Event::WindowClosed => enc_u8(13),
    }
}

pub open spec fn dec_event(s: Seq<u8>) -> Option<(Event, Seq<u8>)> {
    match dec_u8(s) {
        Some((tag, s)) => if tag == 0 {
            match dec_key(s) {
                Some((key, s)) => Some((Event::KeyPressed(key), s)),
                None => None,
            }
        } else if tag == 1 {
            match dec_key(s) {
                Some((key, s)) => Some((Event::KeyReleased(key), s)),
                None => None,
            }
        } else if tag == 2 {
            match dec_mouse_button(s) {
                Some((btn, s)) => Some((Event::MouseButtonPressed(btn), s)),
                None => None,
            }
        } else if tag == 3 {
            match dec_mouse_button(s) {
                Some((btn, s)) => Some((Event::MouseButtonReleased(btn), s)),
                None => None,
            }
        } else if tag == 4 {
            match dec_controller_button(s) {
                Some((btn, s)) => Some((Event::ControllerButtonPressed(btn), s)),
                None => None,
            }
        } else if tag == 5 {
            match dec_controller_button(s) {
                Some((btn, s)) => Some((Event::ControllerButtonReleased(btn), s)),
                None => None,
            }
        } else if tag == 6 {
            match dec_controller_axis(s) {
                Some((axis, s)) => Some((Event::ControllerAxisChange(axis), s)),
                None => None,
            }
        } else if tag == 7 {
            match dec_i64(s) {
                Some((x, s)) => match dec_i64(s) {
                    Some((y, s)) => Some((Event::MouseMove { x, y }, s)),
                    None => None,
                },
                None => None,
            }
        } else if tag == 8 {
            match dec_i64(s) {
                Some((x, s)) => match dec_i64(s) {
                    Some((y, s)) => Some((Event::MouseScroll { x, y }, s)),
                    None => None,
                },
                None => None,
            }
        } else if tag == 9 {
            match dec_touch(s) {
                Some((touch, s)) => Some((Event::Touch(touch), s)),
                None => None,
            }
        } else if tag == 10 {
            match dec_u32(s) {
                Some((width, s)) => match dec_u32(s) {
                    Some((height, s)) => Some((Event::WindowResized { width, height }, s)),
                    None => None,
                },
                None => None,
            }
        } else if tag == 11 {
            match dec_bool(s) {
                Some((focused, s)) => Some((Event::WindowFocused(focused), s)),
                None => None,
            }
        } else if tag == 12 {
            match dec_bool(s) {
                Some((cursor, s)) => Some((Event::WindowCursor(cursor), s)),
                None => None,
            }
        } else if tag == 13 {
            Some((Event::WindowClosed, s))
        } else {
            None
        },
        None => None,
    }
}

#[verifier::rlimit(60)]
pub proof fn lemma_dec_enc_event(v: Event, rest: Seq<u8>)
    ensures
        dec_event(enc_event(v) + rest) == Some((v, rest)),
{
    match v {
        Event::KeyPressed(key) => {
            lemma_add_assoc(enc_u8(0), enc_key(key), rest);
            lemma_dec_enc_u8(0, enc_key(key) + rest);
            lemma_dec_enc_key(key, rest);
        },
        Event::KeyReleased(key) => {
            lemma_add_assoc(enc_u8(1), enc_key(key), rest);
            lemma_dec_enc_u8(1, enc_key(key) + rest);
            lemma_dec_enc_key(key, rest);
        },
        Event::MouseButtonPressed(btn) => {
            lemma_add_assoc(enc_u8(2), enc_mouse_button(btn), rest);
            lemma_dec_enc_u8(2, enc_mouse_button(btn) + rest);
            lemma_dec_enc_mouse_button(btn, rest);
        },
        Event::MouseButtonReleased(btn) => {
            lemma_add_assoc(enc_u8(3), enc_mouse_button(btn), rest);
            lemma_dec_enc_u8(3, enc_mouse_button(btn) + rest);
            lemma_dec_enc_mouse_button(btn, rest);
        },
        Event::ControllerButtonPressed(btn) => {
            lemma_add_assoc(enc_u8(4), enc_controller_button(btn), rest);
            lemma_dec_enc_u8(4, enc_controller_button(btn) + rest);
            lemma_dec_enc_controller_button(btn, rest);
        },
        Event::ControllerButtonReleased(btn) => {
            lemma_add_assoc(enc_u8(5), enc_controller_button(btn), rest);
            lemma_dec_enc_u8(5, enc_controller_button(btn) + rest);
            lemma_dec_enc_controller_button(btn, rest);
        },
        Event::ControllerAxisChange(axis) => {
            lemma_add_assoc(enc_u8(6), enc_controller_axis(axis), rest);
            lemma_dec_enc_u8(6, enc_controller_axis(axis) + rest);
            lemma_dec_enc_controller_axis(axis, rest);
        },
        Event::MouseMove { x, y } => {
            let t1 = enc_i64(x) + (enc_i64(y) + rest);
            assert(enc_event(v) + rest =~= enc_u8(7) + t1);
            lemma_dec_enc_u8(7, t1);
            lemma_dec_enc_i64(x, enc_i64(y) + rest);
            lemma_dec_enc_i64(y, rest);
        },
        Event::MouseScroll { x, y } => {
            let t1 = enc_i64(x) + (enc_i64(y) + rest);
            assert(enc_event(v) + rest =~= enc_u8(8) + t1);
            lemma_dec_enc_u8(8, t1);
            lemma_dec_enc_i64(x, enc_i64(y) + rest);
            lemma_dec_enc_i64(y, rest);
        },
        Event::Touch(touch) => {
            lemma_add_assoc(enc_u8(9), enc_touch(touch), rest);
            lemma_dec_enc_u8(9, enc_touch(touch) + rest);
            lemma_dec_enc_touch(touch, rest);
        },
        Event::WindowResized { width, height } => {
            let t1 = enc_u32(width) + (enc_u32(height) + rest);
            assert(enc_event(v) + rest =~= enc_u8(10) + t1);
            lemma_dec_enc_u8(10, t1);
            lemma_dec_enc_u32(width, enc_u32(height) + rest);
            lemma_dec_enc_u32(height, rest);
        },
        Event::WindowFocused(focused) => {
            lemma_add_assoc(enc_u8(11), enc_bool(focused), rest);
            lemma_dec_enc_u8(11, enc_bool(focused) + rest);
            lemma_dec_enc_bool(focused, rest);
        },
        Event::WindowCursor(cursor) => {
            lemma_add_assoc(enc_u8(12), enc_bool(cursor), rest);
            lemma_dec_enc_u8(12, enc_bool(cursor) + rest);
            lemma_dec_enc_bool(cursor, rest);
        },
        Event::WindowClosed => {
            assert(enc_event(v) + rest =~= enc_u8(13) + rest);
            lemma_dec_enc_u8(13, rest);
        },
    }
}

// ---------------------------------------------------------------------
// Protocol messages
// ---------------------------------------------------------------------

pub open spec fn enc_opt_event(v: Option<Event>) -> Seq<u8> {
    match v {
        None => enc_u8(0),
        Some(event) => enc_u8(1) + enc_event(event),
    }
}

pub open spec fn dec_opt_event(s: Seq<u8>) -> Option<(Option<Event>, Seq<u8>)> {
    match dec_u8(s) {
        Some((tag, s)) => if tag == 0 {
            Some((None, s))
        } else if tag == 1 {
            match dec_event(s) {
                Some((event, s)) => Some((Some(event), s)),
                None => None,
            }
        } else {
            None
        },
        None => None,
    }
}

pub proof fn lemma_dec_enc_opt_event(v: Option<Event>, rest: Seq<u8>)
    ensures
        dec_opt_event(enc_opt_event(v) + rest) == Some((v, rest)),
{
    match v {
        None => {
            lemma_dec_enc_u8(0, rest);
        },
        Some(event) => {
            lemma_add_assoc(enc_u8(1), enc_event(event), rest);
            lemma_dec_enc_u8(1, enc_event(event) + rest);
            lemma_dec_enc_event(event, rest);
        },
    }
}

pub open spec fn enc_opt_path(v: Option<Path>) -> Seq<u8> {
    match v {
        None => enc_u8(0),
        Some(path) => enc_u8(1) + enc_path(path),
    }
}

pub open spec fn dec_opt_path(s: Seq<u8>) -> Option<(Option<Path>, Seq<u8>)> {
    match dec_u8(s) {
        Some((tag, s)) => if tag == 0 {
            Some((None, s))
        } else if tag == 1 {
            match dec_path(s) {
                Some((path, s)) => Some((Some(path), s)),
                None => None,
            }
        } else {
            None
        },
        None => None,
    }
}

pub proof fn lemma_dec_enc_opt_path(v: Option<Path>, rest: Seq<u8>)
    ensures
        dec_opt_path(enc_opt_path(v) + rest) == Some((v, rest)),
{
    match v {
        None => {
            lemma_dec_enc_u8(0, rest);
        },
        Some(path) => {
            lemma_add_assoc(enc_u8(1), enc_path(path), rest);
            lemma_dec_enc_u8(1, enc_path(path) + rest);
            lemma_dec_enc_path(path, rest);
        },
    }
}

pub open spec fn request_tag(v: Request) -> u8 {
    match v {
        Request::TurtleState => 0,
        Request::DrawingState => 1,
        Request::Event => 2,
    }
}

pub open spec fn enc_request(v: Request) -> Seq<u8> {
    enc_u8(request_tag(v))
}

pub open spec fn dec_request(s: Seq<u8>) -> Option<(Request, Seq<u8>)> {
    match dec_u8(s) {
        Some((tag, s)) => if tag == 0 {
            Some((Request::TurtleState, s))
        } else if tag == 1 {
            Some((Request::DrawingState, s))
        } else if tag == 2 {
            Some((Request::Event, s))
        } else {
            None
        },
        None => None,
    }
}

pub proof fn lemma_dec_enc_request(v: Request, rest: Seq<u8>)
    ensures
        dec_request(enc_request(v) + rest) == Some((v, rest)),
{
    lemma_dec_enc_u8(request_tag(v), rest);
}

pub open spec fn enc_state_update(v: StateUpdate) -> Seq<u8> {
    match v {
        StateUpdate::TurtleState(turtle) => enc_u8(0) + enc_turtle_state(turtle),
        StateUpdate::DrawingState(drawing) => enc_u8(1) + enc_drawing_state(drawing),
        StateUpdate::TemporaryPath(path) => enc_u8(2) + enc_opt_path(path),
    }
}

pub open spec fn dec_state_update(s: Seq<u8>) -> Option<(StateUpdate, Seq<u8>)> {
    match dec_u8(s) {
        Some((tag, s)) => if tag == 0 {
            match dec_turtle_state(s) {
                Some((turtle, s)) => Some((StateUpdate::TurtleState(turtle), s)),
                None => None,
            }
        } else if tag == 1 {
            match dec_drawing_state(s) {
                Some((drawing, s)) => Some((StateUpdate::DrawingState(drawing), s)),
                None => None,
            }
        } else if tag == 2 {
            match dec_opt_path(s) {
                Some((path, s)) => Some((StateUpdate::TemporaryPath(path), s)),
                None => None,
            }
        } else {
            None
        },
        None => None,
    }
}

pub proof fn lemma_dec_enc_state_update(v: StateUpdate, rest: Seq<u8>)
    ensures
        dec_state_update(enc_state_update(v) + rest) == Some((v, rest)),
{
    match v {
        StateUpdate::TurtleState(turtle) => {
            lemma_add_assoc(enc_u8(0), enc_turtle_state(turtle), rest);
            lemma_dec_enc_u8(0, enc_turtle_state(turtle) + rest);
            lemma_dec_enc_turtle_state(turtle, rest);
        },
        StateUpdate::DrawingState(drawing) => {
            lemma_add_assoc(enc_u8(1), enc_drawing_state(drawing), rest);
            lemma_dec_enc_u8(1, enc_drawing_state(drawing) + rest);
            lemma_dec_enc_drawing_state(drawing, rest);
        },
        StateUpdate::TemporaryPath(path) => {
            lemma_add_assoc(enc_u8(2), enc_opt_path(path), rest);
            lemma_dec_enc_u8(2, enc_opt_path(path) + rest);
            lemma_dec_enc_opt_path(path, rest);
        },
    }
}

pub open spec fn enc_drawing_command(v: DrawingCommand) -> Seq<u8> {
    match v {
        DrawingCommand::StorePath(path) => enc_u8(0) + enc_path(path),
        DrawingCommand::BeginFill(color) => enc_u8(1) + enc_color(color),
        DrawingCommand::EndFill => enc_u8(2),
        DrawingCommand::Clear => enc_u8(3),
    }
}

pub open spec fn dec_drawing_command(s: Seq<u8>) -> Option<(DrawingCommand, Seq<u8>)> {
    match dec_u8(s) {
        Some((tag, s)) => if tag == 0 {
            match dec_path(s) {
                Some((path, s)) => Some((DrawingCommand::StorePath(path), s)),
                None => None,
            }
        } else if tag == 1 {
            match dec_color(s) {
                Some((color, s)) => Some((DrawingCommand::BeginFill(color), s)),
                None => None,
            }
        } else if tag == 2 {
            Some((DrawingCommand::EndFill, s))
        } else if tag == 3 {
            Some((DrawingCommand::Clear, s))
        } else {
            None
        },
        None => None,
    }
}

pub proof fn lemma_dec_enc_drawing_command(v: DrawingCommand, rest: Seq<u8>)
    ensures
        dec_drawing_command(enc_drawing_command(v) + rest) == Some((v, rest)),
{
    match v {
        DrawingCommand::StorePath(path) => {
            lemma_add_assoc(enc_u8(0), enc_path(path), rest);
            lemma_dec_enc_u8(0, enc_path(path) + rest);
            lemma_dec_enc_path(path, rest);
        },
        DrawingCommand::BeginFill(color) => {
            lemma_add_assoc(enc_u8(1), enc_color(color), rest);
            lemma_dec_enc_u8(1, enc_color(color) + rest);
            lemma_dec_enc_color(color, rest);
        },
        DrawingCommand::EndFill => {
            assert(enc_drawing_command(v) + rest =~= enc_u8(2) + rest);
            lemma_dec_enc_u8(2, rest);
        },
        DrawingCommand::Clear => {
            assert(enc_drawing_command(v) + rest =~= enc_u8(3) + rest);
            lemma_dec_enc_u8(3, rest);
        },
    }
}

pub open spec fn enc_response(v: Response) -> Seq<u8> {
    match v {
        Response::TurtleState(turtle) => enc_u8(0) + enc_turtle_state(turtle),
        Response::DrawingState(drawing) => enc_u8(1) + enc_drawing_state(drawing),
        Response::Event(event) => enc_u8(2) + enc_opt_event(event),
    }
}

pub open spec fn dec_response(s: Seq<u8>) -> Option<(Response, Seq<u8>)> {
    match dec_u8(s) {
        Some((tag, s)) => if tag == 0 {
            match dec_turtle_state(s) {
                Some((turtle, s)) => Some((Response::TurtleState(turtle), s)),
                None => None,
            }
        } else if tag == 1 {
            match dec_drawing_state(s) {
                Some((drawing, s)) => Some((Response::DrawingState(drawing), s)),
                None => None,
            }
        } else if tag == 2 {
            match dec_opt_event(s) {
                Some((event, s)) => Some((Response::Event(event), s)),
                None => None,
            }
        } else {
            None
        },
        None => None,
    }
}

pub proof fn lemma_dec_enc_response(v: Response, rest: Seq<u8>)
    ensures
        dec_response(enc_response(v) + rest) == Some((v, rest)),
{
    match v {
        Response::TurtleState(turtle) => {
            lemma_add_assoc(enc_u8(0), enc_turtle_state(turtle), rest);
            lemma_dec_enc_u8(0, enc_turtle_state(turtle) + rest);
            lemma_dec_enc_turtle_state(turtle, rest);
        },
        Response::DrawingState(drawing) => {
            lemma_add_assoc(enc_u8(1), enc_drawing_state(drawing), rest);
            lemma_dec_enc_u8(1, enc_drawing_state(drawing) + rest);
            lemma_dec_enc_drawing_state(drawing, rest);
        },
        Response::Event(event) => {
            lemma_add_assoc(enc_u8(2), enc_opt_event(event), rest);
            lemma_dec_enc_u8(2, enc_opt_event(event) + rest);
            lemma_dec_enc_opt_event(event, rest);
        },
    }
}

pub open spec fn enc_query(v: Query) -> Seq<u8> {
    match v {
        Query::Request(request) => enc_u8(0) + enc_request(request),
        Query::Update(update) => enc_u8(1) + enc_state_update(update),
        Query::Drawing(cmd) => enc_u8(2) + enc_drawing_command(cmd),
    }
}

pub open spec fn dec_query(s: Seq<u8>) -> Option<(Query, Seq<u8>)> {
    match dec_u8(s) {
        Some((tag, s)) => if tag == 0 {
            match dec_request(s) {
                Some((request, s)) => Some((Query::Request(request), s)),
                None => None,
            }
        } else if tag == 1 {
            match dec_state_update(s) {
                Some((update, s)) => Some((Query::Update(update), s)),
                None => None,
            }
        } else if tag == 2 {
            match dec_drawing_command(s) {
                Some((cmd, s)) => Some((Query::Drawing(cmd), s)),
                None => None,
            }
        } else {
            None
        },
        None => None,
    }
}

pub proof fn lemma_dec_enc_query(v: Query, rest: Seq<u8>)
    ensures
        dec_query(enc_query(v) + rest) == Some((v, rest)),
{
    match v {
        Query::Request(request) => {
            lemma_add_assoc(enc_u8(0), enc_request(request), rest);
            lemma_dec_enc_u8(0, enc_request(request) + rest);
            lemma_dec_enc_request(request, rest);
        },
        Query::Update(update) => {
            lemma_add_assoc(enc_u8(1), enc_state_update(update), rest);
            lemma_dec_enc_u8(1, enc_state_update(update) + rest);
            lemma_dec_enc_state_update(update, rest);
        },
        Query::Drawing(cmd) => {
            lemma_add_assoc(enc_u8(2), enc_drawing_command(cmd), rest);
            lemma_dec_enc_u8(2, enc_drawing_command(cmd) + rest);
            lemma_dec_enc_drawing_command(cmd, rest);
        },
    }
}

/// What decoding a whole buffer yields: the message, provided the buffer is
/// one complete encoding with nothing after it.
pub open spec fn decoded_query(s: Seq<u8>) -> Option<Query> {
    match dec_query(s) {
        Some((query, rest)) => if rest.len() == 0 {
            Some(query)
        } else {
            None
        },
        None => None,
    }
}

/// See [`decoded_query`].
pub open spec fn decoded_response(s: Seq<u8>) -> Option<Response> {
    match dec_response(s) {
        Some((response, rest)) => if rest.len() == 0 {
            Some(response)
        } else {
            None
        },
        None => None,
    }
}

// ---------------------------------------------------------------------
// Executable encoding
// ---------------------------------------------------------------------

pub(crate) fn write_u8(out: &mut Vec<u8>, v: u8)
    ensures
        final(out)@ == old(out)@ + enc_u8(v),
{
    out.push(v);
    proof {
        assert(out@ =~= old(out)@ + enc_u8(v));
    }
}

pub(crate) fn write_u64(out: &mut Vec<u8>, v: u64)
    ensures
        final(out)@ == old(out)@ + enc_u64(v),
{
    out.push((v & 0xff) as u8);
    out.push(((v >> 8) & 0xff) as u8);
    out.push(((v >> 16) & 0xff) as u8);
    out.push(((v >> 24) & 0xff) as u8);
    out.push(((v >> 32) & 0xff) as u8);
    out.push(((v >> 40) & 0xff) as u8);
    out.push(((v >> 48) & 0xff) as u8);
    out.push(((v >> 56) & 0xff) as u8);
    proof {
        assert(out@ =~= old(out)@ + enc_u64(v));
    }
}

pub(crate) fn write_i64(out: &mut Vec<u8>, v: i64)
    ensures
        final(out)@ == old(out)@ + enc_i64(v),
{
    write_u64(out, v as u64);
}

pub(crate) fn write_u32(out: &mut Vec<u8>, v: u32)
    ensures
        final(out)@ == old(out)@ + enc_u32(v),
{
    write_u64(out, v as u64);
}

pub(crate) fn write_bool(out: &mut Vec<u8>, v: bool)
    ensures
        final(out)@ == old(out)@ + enc_bool(v),
{
    write_u8(
        out,
        if v {
            1
        } else {
            0
        },
    );
}

pub(crate) fn write_point(out: &mut Vec<u8>, v: &Point)
    ensures
        final(out)@ == old(out)@ + enc_point(*v),
{
    write_i64(out, v.x);
    write_i64(out, v.y);
    proof {
        assert(out@ =~= old(out)@ + enc_point(*v));
    }
}

pub(crate) fn write_color(out: &mut Vec<u8>, v: &Color)
    ensures
        final(out)@ == old(out)@ + enc_color(*v),
{
    write_u8(out, v.red);
    write_u8(out, v.green);
    write_u8(out, v.blue);
    write_u8(out, v.alpha);
    proof {
        assert(out@ =~= old(out)@ + enc_color(*v));
    }
}

pub(crate) fn write_pen(out: &mut Vec<u8>, v: &Pen)
    ensures
        final(out)@ == old(out)@ + enc_pen(*v),
{
    write_bool(out, v.enabled);
    write_u64(out, v.thickness);
    write_color(out, &v.color);
    proof {
        assert(out@ =~= old(out)@ + enc_pen(*v));
    }
}

pub(crate) fn write_path(out: &mut Vec<u8>, v: &Path)
    ensures
        final(out)@ == old(out)@ + enc_path(*v),
{
    write_point(out, &v.start);
    write_point(out, &v.end);
    write_pen(out, &v.pen);
    proof {
        assert(out@ =~= old(out)@ + enc_path(*v));
    }
}

pub(crate) fn write_turtle_state(out: &mut Vec<u8>, v: &TurtleState)
    ensures
        final(out)@ == old(out)@ + enc_turtle_state(*v),
{
    write_point(out, &v.position);
    write_i64(out, v.heading);
    write_pen(out, &v.pen);
    write_bool(out, v.visible);
    proof {
        assert(out@ =~= old(out)@ + enc_turtle_state(*v));
    }
}

pub(crate) fn write_drawing_state(out: &mut Vec<u8>, v: &DrawingState)
    ensures
        final(out)@ == old(out)@ + enc_drawing_state(*v),
{
    write_color(out, &v.background);
    write_point(out, &v.center);
    write_u32(out, v.width);
    write_u32(out, v.height);
    proof {
        assert(out@ =~= old(out)@ + enc_drawing_state(*v));
    }
}

pub(crate) fn write_key(out: &mut Vec<u8>, v: &Key)
    ensures
        final(out)@ == old(out)@ + enc_key(*v),
{
    write_u32(out, v.code);
}

pub(crate) fn write_mouse_button(out: &mut Vec<u8>, v: &MouseButton)
    ensures
        final(out)@ == old(out)@ + enc_mouse_button(*v),
{
    let tag: u8 = match v {
        MouseButton::Unknown => 0,
        MouseButton::Left => 1,
        MouseButton::Right => 2,
        MouseButton::Middle => 3,
        MouseButton::X1 => 4,
        MouseButton::X2 => 5,
        MouseButton::Button6 => 6,
        MouseButton::Button7 => 7,
        MouseButton::Button8 => 8,
    };
    write_u8(out, tag);
}

pub(crate) fn write_controller_button(out: &mut Vec<u8>, v: &ControllerButton)
    ensures
        final(out)@ == old(out)@ + enc_controller_button(*v),
{
    write_u32(out, v.id);
    write_u8(out, v.button);
    proof {
        assert(out@ =~= old(out)@ + enc_controller_button(*v));
    }
}

pub(crate) fn write_controller_axis(out: &mut Vec<u8>, v: &ControllerAxis)
    ensures
        final(out)@ == old(out)@ + enc_controller_axis(*v),
{
    write_u32(out, v.id);
    write_u8(out, v.axis);
    write_i64(out, v.position);
    proof {
        assert(out@ =~= old(out)@ + enc_controller_axis(*v));
    }
}

pub(crate) fn write_touch_phase(out: &mut Vec<u8>, v: &TouchPhase)
    ensures
        final(out)@ == old(out)@ + enc_touch_phase(*v),
{
    let tag: u8 = match v {
        TouchPhase::Start => 0,
        TouchPhase::Move => 1,
        TouchPhase::End => 2,
        TouchPhase::Cancel => 3,
    };
    write_u8(out, tag);
}

pub(crate) fn write_touch(out: &mut Vec<u8>, v: &Touch)
    ensures
        final(out)@ == old(out)@ + enc_touch(*v),
{
    write_i64(out, v.device);
    write_i64(out, v.id);
    write_i64(out, v.x);
    write_i64(out, v.y);
    write_touch_phase(out, &v.phase);
    proof {
        assert(out@ =~= old(out)@ + enc_touch(*v));
    }
}

pub(crate) fn write_event(out: &mut Vec<u8>, v: &Event)
    ensures
        final(out)@ == old(out)@ + enc_event(*v),
{
    match v {
        Event::KeyPressed(key) => {
            write_u8(out, 0);
            write_key(out, key);
        },
        Event::KeyReleased(key) => {
            write_u8(out, 1);
            write_key(out, key);
        },
        Event::MouseButtonPressed(btn) => {
            write_u8(out, 2);
            write_mouse_button(out, btn);
        },
        Event::MouseButtonReleased(btn) => {
            write_u8(out, 3);
            write_mouse_button(out, btn);
        },
        Event::ControllerButtonPressed(btn) => {
            write_u8(out, 4);
            write_controller_button(out, btn);
        },
        Event::ControllerButtonReleased(btn) => {
            write_u8(out, 5);
            write_controller_button(out, btn);
        },
        Event::ControllerAxisChange(axis) => {
            write_u8(out, 6);
            write_controller_axis(out, axis);
        },
        Event::MouseMove { x, y } => {
            write_u8(out, 7);
            write_i64(out, *x);
            write_i64(out, *y);
        },
        Event::MouseScroll { x, y } => {
            write_u8(out, 8);
            write_i64(out, *x);
            write_i64(out, *y);
        },
        Event::Touch(touch) => {
            write_u8(out, 9);
            write_touch(out, touch);
        },
        Event::WindowResized { width, height } => {
            write_u8(out, 10);
            write_u32(out, *width);
            write_u32(out, *height);
        },
        Event::WindowFocused(focused) => {
            write_u8(out, 11);
            write_bool(out, *focused);
        },
        Event::WindowCursor(cursor) => {
            write_u8(out, 12);
            write_bool(out, *cursor);
        },
        Event::WindowClosed => {
            write_u8(out, 13);
        },
    }
    proof {
        assert(out@ =~= old(out)@ + enc_event(*v));
    }
}

pub(crate) fn write_opt_event(out: &mut Vec<u8>, v: &Option<Event>)
    ensures
        final(out)@ == old(out)@ + enc_opt_event(*v),
{
    match v {
        None => {
            write_u8(out, 0);
        },
        Some(event) => {
            write_u8(out, 1);
            write_event(out, event);
        },
    }
    proof {
        assert(out@ =~= old(out)@ + enc_opt_event(*v));
    }
}

pub(crate) fn write_opt_path(out: &mut Vec<u8>, v: &Option<Path>)
    ensures
        final(out)@ == old(out)@ + enc_opt_path(*v),
{
    match v {
        None => {
            write_u8(out, 0);
        },
        Some(path) => {
            write_u8(out, 1);
            write_path(out, path);
        },
    }
    proof {
        assert(out@ =~= old(out)@ + enc_opt_path(*v));
    }
}

pub(crate) fn write_request(out: &mut Vec<u8>, v: &Request)
    ensures
        final(out)@ == old(out)@ + enc_request(*v),
{
    let tag: u8 = match v {
        Request::TurtleState => 0,
        Request::DrawingState => 1,
        Request::Event => 2,
    };
    write_u8(out, tag);
}

pub(crate) fn write_state_update(out: &mut Vec<u8>, v: &StateUpdate)
    ensures
        final(out)@ == old(out)@ + enc_state_update(*v),
{
    match v {
        StateUpdate::TurtleState(turtle) => {
            write_u8(out, 0);
            write_turtle_state(out, turtle);
        },
        StateUpdate::DrawingState(drawing) => {
            write_u8(out, 1);
            write_drawing_state(out, drawing);
        },
        StateUpdate::TemporaryPath(path) => {
            write_u8(out, 2);
            write_opt_path(out, path);
        },
    }
    proof {
        assert(out@ =~= old(out)@ + enc_state_update(*v));
    }
}

pub(crate) fn write_drawing_command(out: &mut Vec<u8>, v: &DrawingCommand)
    ensures
        final(out)@ == old(out)@ + enc_drawing_command(*v),
{
    match v {
        DrawingCommand::StorePath(path) => {
            write_u8(out, 0);
            write_path(out, path);
        },
        DrawingCommand::BeginFill(color) => {
            write_u8(out, 1);
            write_color(out, color);
        },
        DrawingCommand::EndFill => {
            write_u8(out, 2);
        },
        DrawingCommand::Clear => {
            write_u8(out, 3);
        },
    }
    proof {
        assert(out@ =~= old(out)@ + enc_drawing_command(*v));
    }
}

/// Encodes one query for the wire.
pub fn encode_query(v: &Query) -> (r: Vec<u8>)
    ensures
        r@ == enc_query(*v),
{
    let mut out: Vec<u8> = Vec::new();
    match v {
        Query::Request(request) => {
            write_u8(&mut out, 0);
            write_request(&mut out, request);
        },
        Query::Update(update) => {
            write_u8(&mut out, 1);
            write_state_update(&mut out, update);
        },
        Query::Drawing(cmd) => {
            write_u8(&mut out, 2);
            write_drawing_command(&mut out, cmd);
        },
    }
    proof {
        assert(out@ =~= enc_query(*v));
    }
    out
}

/// Encodes one response for the wire.
pub fn encode_response(v: &Response) -> (r: Vec<u8>)
    ensures
        r@ == enc_response(*v),
{
    let mut out: Vec<u8> = Vec::new();
    match v {
        Response::TurtleState(turtle) => {
            write_u8(&mut out, 0);
            write_turtle_state(&mut out, turtle);
        },
        Response::DrawingState(drawing) => {
            write_u8(&mut out, 1);
            write_drawing_state(&mut out, drawing);
        },
        Response::Event(event) => {
            write_u8(&mut out, 2);
            write_opt_event(&mut out, event);
        },
    }
    proof {
        assert(out@ =~= enc_response(*v));
    }
    out
}

// ---------------------------------------------------------------------
// Executable decoding
// ---------------------------------------------------------------------

pub(crate) fn read_u8(buf: &Vec<u8>, pos: usize) -> (r: Option<(u8, usize)>)
    requires
        pos <= buf@.len(),
    ensures
        match r {
            None => dec_u8(buf@.skip(pos as int)) is None,
            Some((v, end)) => pos <= end <= buf@.len() && dec_u8(buf@.skip(pos as int)) == Some(
                (v, buf@.skip(end as int)),
            ),
        },
{
    if pos < buf.len() {
        let v = buf[pos];
        proof {
            assert(buf@.skip(pos as int).skip(1) =~= buf@.skip(pos as int + 1));
        }
        Some((v, pos + 1))
    } else {
        None
    }
}

pub(crate) fn read_u64(buf: &Vec<u8>, pos: usize) -> (r: Option<(u64, usize)>)
    requires
        pos <= buf@.len(),
    ensures
        match r {
            None => dec_u64(buf@.skip(pos as int)) is None,
            Some((v, end)) => pos <= end <= buf@.len() && dec_u64(buf@.skip(pos as int)) == Some(
                (v, buf@.skip(end as int)),
            ),
        },
{
    if buf.len() - pos >= 8 {
        let b0 = buf[pos];
        let b1 = buf[pos + 1];
        let b2 = buf[pos + 2];
        let b3 = buf[pos + 3];
        let b4 = buf[pos + 4];
        let b5 = buf[pos + 5];
        let b6 = buf[pos + 6];
        let b7 = buf[pos + 7];
        let v = (b0 as u64) | ((b1 as u64) << 8) | ((b2 as u64) << 16) | ((b3 as u64) << 24) | ((
        b4 as u64) << 32) | ((b5 as u64) << 40) | ((b6 as u64) << 48) | ((b7 as u64) << 56);
        proof {
            let s = buf@.skip(pos as int);
            assert(s[0] == b0 && s[1] == b1 && s[2] == b2 && s[3] == b3 && s[4] == b4 && s[5] == b5
                && s[6] == b6 && s[7] == b7);
            assert(le_value(s) == v);
            assert(s.skip(8) =~= buf@.skip(pos as int + 8));
        }
        Some((v, pos + 8))
    } else {
        None
    }
}

pub(crate) fn read_i64(buf: &Vec<u8>, pos: usize) -> (r: Option<(i64, usize)>)
    requires
        pos <= buf@.len(),
    ensures
        match r {
            None => dec_i64(buf@.skip(pos as int)) is None,
            Some((v, end)) => pos <= end <= buf@.len() && dec_i64(buf@.skip(pos as int)) == Some(
                (v, buf@.skip(end as int)),
            ),
        },
{
    match read_u64(buf, pos) {
        Some((v, end)) => Some((v as i64, end)),
        None => None,
    }
}

pub(crate) fn read_u32(buf: &Vec<u8>, pos: usize) -> (r: Option<(u32, usize)>)
    requires
        pos <= buf@.len(),
    ensures
        match r {
            None => dec_u32(buf@.skip(pos as int)) is None,
            Some((v, end)) => pos <= end <= buf@.len() && dec_u32(buf@.skip(pos as int)) == Some(
                (v, buf@.skip(end as int)),
            ),
        },
{
    match read_u64(buf, pos) {
        Some((v, end)) => if v <= u32::MAX as u64 {
            Some((v as u32, end))
        } else {
            None
        },
        None => None,
    }
}

pub(crate) fn read_bool(buf: &Vec<u8>, pos: usize) -> (r: Option<(bool, usize)>)
    requires
        pos <= buf@.len(),
    ensures
        match r {
            None => dec_bool(buf@.skip(pos as int)) is None,
            Some((v, end)) => pos <= end <= buf@.len() && dec_bool(buf@.skip(pos as int)) == Some(
                (v, buf@.skip(end as int)),
            ),
        },
{
    match read_u8(buf, pos) {
        Some((v, end)) => if v == 0 {
            Some((false, end))
        } else if v == 1 {
            Some((true, end))
        } else {
            None
        },
        None => None,
    }
}

pub(crate) fn read_point(buf: &Vec<u8>, pos: usize) -> (r: Option<(Point, usize)>)
    requires
        pos <= buf@.len(),
    ensures
        match r {
            None => dec_point(buf@.skip(pos as int)) is None,
            Some((v, end)) => pos <= end <= buf@.len() && dec_point(buf@.skip(pos as int)) == Some(
                (v, buf@.skip(end as int)),
            ),
        },
{
    match read_i64(buf, pos) {
        Some((x, pos)) => match read_i64(buf, pos) {
            Some((y, pos)) => Some((Point { x, y }, pos)),
            None => None,
        },
        None => None,
    }
}

pub(crate) fn read_color(buf: &Vec<u8>, pos: usize) -> (r: Option<(Color, usize)>)
    requires
        pos <= buf@.len(),
    ensures
        match r {
            None => dec_color(buf@.skip(pos as int)) is None,
            Some((v, end)) => pos <= end <= buf@.len() && dec_color(buf@.skip(pos as int)) == Some(
                (v, buf@.skip(end as int)),
            ),
        },
{
    match read_u8(buf, pos) {
        Some((red, pos)) => match read_u8(buf, pos) {
            Some((green, pos)) => match read_u8(buf, pos) {
                Some((blue, pos)) => match read_u8(buf, pos) {
                    Some((alpha, pos)) => Some((Color { red, green, blue, alpha }, pos)),
                    None => None,
                },
                None => None,
            },
            None => None,
        },
        None => None,
    }
}

pub(crate) fn read_pen(buf: &Vec<u8>, pos: usize) -> (r: Option<(Pen, usize)>)
    requires
        pos <= buf@.len(),
    ensures
        match r {
            None => dec_pen(buf@.skip(pos as int)) is None,
            Some((v, end)) => pos <= end <= buf@.len() && dec_pen(buf@.skip(pos as int)) == Some(
                (v, buf@.skip(end as int)),
            ),
        },
{
    match read_bool(buf, pos) {
        Some((enabled, pos)) => match read_u64(buf, pos) {
            Some((thickness, pos)) => match read_color(buf, pos) {
                Some((color, pos)) => Some((Pen { enabled, thickness, color }, pos)),
                None => None,
            },
            None => None,
        },
        None => None,
    }
}

pub(crate) fn read_path(buf: &Vec<u8>, pos: usize) -> (r: Option<(Path, usize)>)
    requires
        pos <= buf@.len(),
    ensures
        match r {
            None => dec_path(buf@.skip(pos as int)) is None,
            Some((v, end)) => pos <= end <= buf@.len() && dec_path(buf@.skip(pos as int)) == Some(
                (v, buf@.skip(end as int)),
            ),
        },
{
    match read_point(buf, pos) {
        Some((start, pos)) => match read_point(buf, pos) {
            Some((end, pos)) => match read_pen(buf, pos) {
                Some((pen, pos)) => Some((Path { start, end, pen }, pos)),
                None => None,
            },
            None => None,
        },
        None => None,
    }
}

pub(crate) fn read_turtle_state(buf: &Vec<u8>, pos: usize) -> (r: Option<(TurtleState, usize)>)
    requires
        pos <= buf@.len(),
    ensures
        match r {
            None => dec_turtle_state(buf@.skip(pos as int)) is None,
            Some((v, end)) => pos <= end <= buf@.len() && dec_turtle_state(buf@.skip(pos as int))
                == Some((v, buf@.skip(end as int))),
        },
{
    match read_point(buf, pos) {
        Some((position, pos)) => match read_i64(buf, pos) {
            Some((heading, pos)) => match read_pen(buf, pos) {
                Some((pen, pos)) => match read_bool(buf, pos) {
                    Some((visible, pos)) => Some(
                        (TurtleState { position, heading, pen, visible }, pos),
                    ),
                    None => None,
                },
                None => None,
            },
            None => None,
        },
        None => None,
    }
}

pub(crate) fn read_drawing_state(buf: &Vec<u8>, pos: usize) -> (r: Option<(DrawingState, usize)>)
    requires
        pos <= buf@.len(),
    ensures
        match r {
            None => dec_drawing_state(buf@.skip(pos as int)) is None,
            Some((v, end)) => pos <= end <= buf@.len() && dec_drawing_state(buf@.skip(pos as int))
                == Some((v, buf@.skip(end as int))),
        },
{
    match read_color(buf, pos) {
        Some((background, pos)) => match read_point(buf, pos) {
            Some((center, pos)) => match read_u32(buf, pos) {
                Some((width, pos)) => match read_u32(buf, pos) {
                    Some((height, pos)) => Some(
                        (DrawingState { background, center, width, height }, pos),
                    ),
                    None => None,
                },
                None => None,
            },
            None => None,
        },
        None => None,
    }
}

pub(crate) fn read_key(buf: &Vec<u8>, pos: usize) -> (r: Option<(Key, usize)>)
    requires
        pos <= buf@.len(),
    ensures
        match r {
            None => dec_key(buf@.skip(pos as int)) is None,
            Some((v, end)) => pos <= end <= buf@.len() && dec_key(buf@.skip(pos as int)) == Some(
                (v, buf@.skip(end as int)),
            ),
        },
{
    match read_u32(buf, pos) {
        Some((code, pos)) => Some((Key { code }, pos)),
        None => None,
    }
}

pub(crate) fn read_mouse_button(buf: &Vec<u8>, pos: usize) -> (r: Option<(MouseButton, usize)>)
    requires
        pos <= buf@.len(),
    ensures
        match r {
            None => dec_mouse_button(buf@.skip(pos as int)) is None,
            Some((v, end)) => pos <= end <= buf@.len() && dec_mouse_button(buf@.skip(pos as int))
                == Some((v, buf@.skip(end as int))),
        },
{
    match read_u8(buf, pos) {
        Some((tag, pos)) => if tag == 0 {
            Some((MouseButton::Unknown, pos))
        } else if tag == 1 {
            Some((MouseButton::Left, pos))
        } else if tag == 2 {
            Some((MouseButton::Right, pos))
        } else if tag == 3 {
            Some((MouseButton::Middle, pos))
        } else if tag == 4 {
            Some((MouseButton::X1, pos))
        } else if tag == 5 {
            Some((MouseButton::X2, pos))
        } else if tag == 6 {
            Some((MouseButton::Button6, pos))
        } else if tag == 7 {
            Some((MouseButton::Button7, pos))
        } else if tag == 8 {
            Some((MouseButton::Button8, pos))
        } else {
            None
        },
        None => None,
    }
}

pub(crate) fn read_controller_button(buf: &Vec<u8>, pos: usize) -> (r: Option<
    (ControllerButton, usize),
>)
    requires
        pos <= buf@.len(),
    ensures
        match r {
            None => dec_controller_button(buf@.skip(pos as int)) is None,
            Some((v, end)) => pos <= end <= buf@.len() && dec_controller_button(
                buf@.skip(pos as int),
            ) == Some((v, buf@.skip(end as int))),
        },
{
    match read_u32(buf, pos) {
        Some((id, pos)) => match read_u8(buf, pos) {
            Some((button, pos)) => Some((ControllerButton { id, button }, pos)),
            None => None,
        },
        None => None,
    }
}

pub(crate) fn read_controller_axis(buf: &Vec<u8>, pos: usize) -> (r: Option<
    (ControllerAxis, usize),
>)
    requires
        pos <= buf@.len(),
    ensures
        match r {
            None => dec_controller_axis(buf@.skip(pos as int)) is None,
            Some((v, end)) => pos <= end <= buf@.len() && dec_controller_axis(
                buf@.skip(pos as int),
            ) == Some((v, buf@.skip(end as int))),
        },
{
    match read_u32(buf, pos) {
        Some((id, pos)) => match read_u8(buf, pos) {
            Some((axis, pos)) => match read_i64(buf, pos) {
                Some((position, pos)) => Some((ControllerAxis { id, axis, position }, pos)),
                None => None,
            },
            None => None,
        },
        None => None,
    }
}

pub(crate) fn read_touch_phase(buf: &Vec<u8>, pos: usize) -> (r: Option<(TouchPhase, usize)>)
    requires
        pos <= buf@.len(),
    ensures
        match r {
            None => dec_touch_phase(buf@.skip(pos as int)) is None,
            Some((v, end)) => pos <= end <= buf@.len() && dec_touch_phase(buf@.skip(pos as int))
                == Some((v, buf@.skip(end as int))),
        },
{
    match read_u8(buf, pos) {
        Some((tag, pos)) => if tag == 0 {
            Some((TouchPhase::Start, pos))
        } else if tag == 1 {
            Some((TouchPhase::Move, pos))
        } else if tag == 2 {
            Some((TouchPhase::End, pos))
        } else if tag == 3 {
            Some((TouchPhase::Cancel, pos))
        } else {
            None
        },
        None => None,
    }
}

pub(crate) fn read_touch(buf: &Vec<u8>, pos: usize) -> (r: Option<(Touch, usize)>)
    requires
        pos <= buf@.len(),
    ensures
        match r {
            None => dec_touch(buf@.skip(pos as int)) is None,
            Some((v, end)) => pos <= end <= buf@.len() && dec_touch(buf@.skip(pos as int)) == Some(
                (v, buf@.skip(end as int)),
            ),
        },
{
    match read_i64(buf, pos) {
        Some((device, pos)) => match read_i64(buf, pos) {
            Some((id, pos)) => match read_i64(buf, pos) {
                Some((x, pos)) => match read_i64(buf, pos) {
                    Some((y, pos)) => match read_touch_phase(buf, pos) {
                        Some((phase, pos)) => Some((Touch { device, id, x, y, phase }, pos)),
                        None => None,
                    },
                    None => None,
                },
                None => None,
            },
            None => None,
        },
        None => None,
    }
}

#[verifier::rlimit(60)]
pub(crate) fn read_event(buf: &Vec<u8>, pos: usize) -> (r: Option<(Event, usize)>)
    requires
        pos <= buf@.len(),
    ensures
        match r {
            None => dec_event(buf@.skip(pos as int)) is None,
            Some((v, end)) => pos <= end <= buf@.len() && dec_event(buf@.skip(pos as int)) == Some(
                (v, buf@.skip(end as int)),
            ),
        },
{
    match read_u8(buf, pos) {
        Some((tag, pos)) => if tag == 0 {
            match read_key(buf, pos) {
                Some((key, pos)) => Some((Event::KeyPressed(key), pos)),
                None => None,
            }
        } else if tag == 1 {
            match read_key(buf, pos) {
                Some((key, pos)) => Some((Event::KeyReleased(key), pos)),
                None => None,
            }
        } else if tag == 2 {
            match read_mouse_button(buf, pos) {
                Some((btn, pos)) => Some((Event::MouseButtonPressed(btn), pos)),
                None => None,
            }
        } else if tag == 3 {
            match read_mouse_button(buf, pos) {
                Some((btn, pos)) => Some((Event::MouseButtonReleased(btn), pos)),
                None => None,
            }
        } else if tag == 4 {
            match read_controller_button(buf, pos) {
                Some((btn, pos)) => Some((Event::ControllerButtonPressed(btn), pos)),
                None => None,
            }
        } else if tag == 5 {
            match read_controller_button(buf, pos) {
                Some((btn, pos)) => Some((Event::ControllerButtonReleased(btn), pos)),
                None => None,
            }
        } else if tag == 6 {
            match read_controller_axis(buf, pos) {
                Some((axis, pos)) => Some((Event::ControllerAxisChange(axis), pos)),
                None => None,
            }
        } else if tag == 7 {
            match read_i64(buf, pos) {
                Some((x, pos)) => match read_i64(buf, pos) {
                    Some((y, pos)) => Some((Event::MouseMove { x, y }, pos)),
                    None => None,
                },
                None => None,
            }
        } else if tag == 8 {
            match read_i64(buf, pos) {
                Some((x, pos)) => match read_i64(buf, pos) {
                    Some((y, pos)) => Some((Event::MouseScroll { x, y }, pos)),
                    None => None,
                },
                None => None,
            }
        } else if tag == 9 {
            match read_touch(buf, pos) {
                Some((touch, pos)) => Some((Event::Touch(touch), pos)),
                None => None,
            }
        } else if tag == 10 {
            match read_u32(buf, pos) {
                Some((width, pos)) => match read_u32(buf, pos) {
                    Some((height, pos)) => Some((Event::WindowResized { width, height }, pos)),
                    None => None,
                },
                None => None,
            }
        } else if tag == 11 {
            match read_bool(buf, pos) {
                Some((focused, pos)) => Some((Event::WindowFocused(focused), pos)),
                None => None,
            }
        } else if tag == 12 {
            match read_bool(buf, pos) {
                Some((cursor, pos)) => Some((Event::WindowCursor(cursor), pos)),
                None => None,
            }
        } else if tag == 13 {
            Some((Event::WindowClosed, pos))
        } else {
            None
        },
        None => None,
    }
}

pub(crate) fn read_opt_event(buf: &Vec<u8>, pos: usize) -> (r: Option<(Option<Event>, usize)>)
    requires
        pos <= buf@.len(),
    ensures
        match r {
            None => dec_opt_event(buf@.skip(pos as int)) is None,
            Some((v, end)) => pos <= end <= buf@.len() && dec_opt_event(buf@.skip(pos as int))
                == Some((v, buf@.skip(end as int))),
        },
{
    match read_u8(buf, pos) {
        Some((tag, pos)) => if tag == 0 {
            Some((None, pos))
        } else if tag == 1 {
            match read_event(buf, pos) {
                Some((event, pos)) => Some((Some(event), pos)),
                None => None,
            }
        } else {
            None
        },
        None => None,
    }
}

pub(crate) fn read_opt_path(buf: &Vec<u8>, pos: usize) -> (r: Option<(Option<Path>, usize)>)
    requires
        pos <= buf@.len(),
    ensures
        match r {
            None => dec_opt_path(buf@.skip(pos as int)) is None,
            Some((v, end)) => pos <= end <= buf@.len() && dec_opt_path(buf@.skip(pos as int))
                == Some((v, buf@.skip(end as int))),
        },
{
    match read_u8(buf, pos) {
        Some((tag, pos)) => if tag == 0 {
            Some((None, pos))
        } else if tag == 1 {
            match read_path(buf, pos) {
                Some((path, pos)) => Some((Some(path), pos)),
                None => None,
            }
        } else {
            None
        },
        None => None,
    }
}

pub(crate) fn read_request(buf: &Vec<u8>, pos: usize) -> (r: Option<(Request, usize)>)
    requires
        pos <= buf@.len(),
    ensures
        match r {
            None => dec_request(buf@.skip(pos as int)) is None,
            Some((v, end)) => pos <= end <= buf@.len() && dec_request(buf@.skip(pos as int))
                == Some((v, buf@.skip(end as int))),
        },
{
    match read_u8(buf, pos) {
        Some((tag, pos)) => if tag == 0 {
            Some((Request::TurtleState, pos))
        } else if tag == 1 {
            Some((Request::DrawingState, pos))
        } else if tag == 2 {
            Some((Request::Event, pos))
        } else {
            None
        },
        None => None,
    }
}

pub(crate) fn read_state_update(buf: &Vec<u8>, pos: usize) -> (r: Option<(StateUpdate, usize)>)
    requires
        pos <= buf@.len(),
    ensures
        match r {
            None => dec_state_update(buf@.skip(pos as int)) is None,
            Some((v, end)) => pos <= end <= buf@.len() && dec_state_update(buf@.skip(pos as int))
                == Some((v, buf@.skip(end as int))),
        },
{
    match read_u8(buf, pos) {
        Some((tag, pos)) => if tag == 0 {
            match read_turtle_state(buf, pos) {
                Some((turtle, pos)) => Some((StateUpdate::TurtleState(turtle), pos)),
                None => None,
            }
        } else if tag == 1 {
            match read_drawing_state(buf, pos) {
                Some((drawing, pos)) => Some((StateUpdate::DrawingState(drawing), pos)),
                None => None,
            }
        } else if tag == 2 {
            match read_opt_path(buf, pos) {
                Some((path, pos)) => Some((StateUpdate::TemporaryPath(path), pos)),
                None => None,
            }
        } else {
            None
        },
        None => None,
    }
}

pub(crate) fn read_drawing_command(buf: &Vec<u8>, pos: usize) -> (r: Option<
    (DrawingCommand, usize),
>)
    requires
        pos <= buf@.len(),
    ensures
        match r {
            None => dec_drawing_command(buf@.skip(pos as int)) is None,
            Some((v, end)) => pos <= end <= buf@.len() && dec_drawing_command(
                buf@.skip(pos as int),
            ) == Some((v, buf@.skip(end as int))),
        },
{
    match read_u8(buf, pos) {
        Some((tag, pos)) => if tag == 0 {
            match read_path(buf, pos) {
                Some((path, pos)) => Some((DrawingCommand::StorePath(path), pos)),
                None => None,
            }
        } else if tag == 1 {
            match read_color(buf, pos) {
                Some((color, pos)) => Some((DrawingCommand::BeginFill(color), pos)),
                None => None,
            }
        } else if tag == 2 {
            Some((DrawingCommand::EndFill, pos))
        } else if tag == 3 {
            Some((DrawingCommand::Clear, pos))
        } else {
            None
        },
        None => None,
    }
}

/// Decodes one query from a whole wire buffer; `None` unless the buffer is
/// exactly one valid encoding.
pub fn decode_query(buf: &Vec<u8>) -> (r: Option<Query>)
    ensures
        r == decoded_query(buf@),
{
    proof {
        assert(buf@.skip(0) =~= buf@);
    }
    let outer = match read_u8(buf, 0) {
        Some((tag, pos)) => if tag == 0 {
            match read_request(buf, pos) {
                Some((request, pos)) => Some((Query::Request(request), pos)),
                None => None,
            }
        } else if tag == 1 {
            match read_state_update(buf, pos) {
                Some((update, pos)) => Some((Query::Update(update), pos)),
                None => None,
            }
        } else if tag == 2 {
            match read_drawing_command(buf, pos) {
                Some((cmd, pos)) => Some((Query::Drawing(cmd), pos)),
                None => None,
            }
        } else {
            None
        },
        None => None,
    };
    match outer {
        Some((query, pos)) => if pos == buf.len() {
            proof {
                assert(buf@.skip(pos as int).len() == 0);
            }
            Some(query)
        } else {
            None
        },
        None => None,
    }
}

/// Decodes one response from a whole wire buffer; `None` unless the buffer
/// is exactly one valid encoding.
pub fn decode_response(buf: &Vec<u8>) -> (r: Option<Response>)
    ensures
        r == decoded_response(buf@),
{
    proof {
        assert(buf@.skip(0) =~= buf@);
    }
    let outer = match read_u8(buf, 0) {
        Some((tag, pos)) => if tag == 0 {
            match read_turtle_state(buf, pos) {
                Some((turtle, pos)) => Some((Response::TurtleState(turtle), pos)),
                None => None,
            }
        } else if tag == 1 {
            match read_drawing_state(buf, pos) {
                Some((drawing, pos)) => Some((Response::DrawingState(drawing), pos)),
                None => None,
            }
        } else if tag == 2 {
            match read_opt_event(buf, pos) {
                Some((event, pos)) => Some((Response::Event(event), pos)),
                None => None,
            }
        } else {
            None
        },
        None => None,
    };
    match outer {
        Some((response, pos)) => if pos == buf.len() {
            proof {
                assert(buf@.skip(pos as int).len() == 0);
            }
            Some(response)
        } else {
            None
        },
        None => None,
    }
}

/// Round trip: decoding the encoding of any query yields that query back,
/// payload and all.
pub proof fn lemma_query_round_trip(v: Query)
    ensures
        decoded_query(enc_query(v)) == Some(v),
{
    lemma_dec_enc_query(v, Seq::empty());
    assert(enc_query(v) + Seq::<u8>::empty() =~= enc_query(v));
}

/// Round trip: decoding the encoding of any response yields that response
/// back, payload and all.
pub proof fn lemma_response_round_trip(v: Response)
    ensures
        decoded_response(enc_response(v)) == Some(v),
{
    lemma_dec_enc_response(v, Seq::empty());
    assert(enc_response(v) + Seq::<u8>::empty() =~= enc_response(v));
}

} // verus!
