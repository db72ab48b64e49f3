//! Plain value snapshots carried by the protocol.
//!
//! The protocol treats the drawing data as value types with copy-on-send
//! semantics: once a snapshot is sent, the sender's copy and the receiver's
//! copy are independent. Coordinates and pen thickness are held as plain
//! integers in a fixed logical scale chosen by the embedding program.

use vstd::prelude::*;

verus! {

/// A point in the logical coordinate system (centered on the window).
#[derive(Clone, Copy, PartialEq, Eq, Structural, Debug)]
pub struct Point {
    pub x: i64,
    pub y: i64,
}

/// An RGBA color, one channel per byte.
#[derive(Clone, Copy, PartialEq, Eq, Structural, Debug)]
pub struct Color {
    pub red: u8,
    pub green: u8,
    pub blue: u8,
    pub alpha: u8,
}

/// The drawing pen: whether it draws, how thick, and in which color.
#[derive(Clone, Copy, PartialEq, Eq, Structural, Debug)]
pub struct Pen {
    pub enabled: bool,
    pub thickness: u64,
    pub color: Color,
}

/// One finished stroke: a line segment drawn with a pen.
#[derive(Clone, Copy, PartialEq, Eq, Structural, Debug)]
pub struct Path {
    pub start: Point,
    pub end: Point,
    pub pen: Pen,
}

/// Snapshot of the turtle: where it stands, where it points, its pen.
#[derive(Clone, Copy, PartialEq, Eq, Structural, Debug)]
pub struct TurtleState {
    pub position: Point,
    pub heading: i64,
    pub pen: Pen,
    pub visible: bool,
}

/// Snapshot of the drawing surface.
#[derive(Clone, Copy, PartialEq, Eq, Structural, Debug)]
pub struct DrawingState {
    pub background: Color,
    pub center: Point,
    pub width: u32,
    pub height: u32,
}

} // verus!
