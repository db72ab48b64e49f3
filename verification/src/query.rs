//! The `Query`/`Response` message vocabulary exchanged between the control
//! side and the render side.
//!
//! [`Query`] is the only message type the control side may send; [`Response`]
//! is the only reply type. The render side is a passive responder to
//! [`Request`] and a passive consumer of updates and drawing commands — it
//! never initiates a query itself.

use vstd::prelude::*;
use crate::event::Event;
use crate::state::{Color, DrawingState, Path, TurtleState};

verus! {

/// The render side's answer to one [`Request`]: always the variant matching
/// the request. `Event(None)` means no input event is currently pending.
#[derive(Clone, Copy, PartialEq, Eq, Structural, Debug)]
pub enum Response {
    TurtleState(TurtleState),
    DrawingState(DrawingState),
    Event(Option<Event>),
}

/// The outer envelope of every message the control side sends. Exactly one
/// message kind per envelope — the protocol never bundles several intents
/// into one message.
#[derive(Clone, Copy, PartialEq, Eq, Structural, Debug)]
pub enum Query {
    /// Pull an authoritative snapshot or the next pending input event.
    Request(Request),
    /// Push the control side's current live state.
    Update(StateUpdate),
    /// Commit a finished drawing action.
    Drawing(DrawingCommand),
}

/// A pull request, no payload. Every request yields exactly one [`Response`]
/// of the matching variant; requests are never silently dropped.
#[derive(Clone, Copy, PartialEq, Eq, Structural, Debug)]
pub enum Request {
    TurtleState,
    DrawingState,
    Event,
}

/// A fire-and-forget push of the control side's current live state, used to
/// keep the render side's animated preview in sync. `TemporaryPath(None)`
/// clears any in-progress preview path.
#[derive(Clone, Copy, PartialEq, Eq, Structural, Debug)]
pub enum StateUpdate {
    TurtleState(TurtleState),
    DrawingState(DrawingState),
    TemporaryPath(Option<Path>),
}

/// A fire-and-forget push that commits a finished drawing action.
#[derive(Clone, Copy, PartialEq, Eq, Structural, Debug)]
pub enum DrawingCommand {
    /// When a path is finished being animated, it needs to be persisted in
    /// the renderer so it can be redrawn every frame.
    StorePath(Path),
    /// Begins filling from the next path onwards: paths sent via `StorePath`
    /// are accumulated into the filled shape instead of the persisted list.
    /// Carries the fill color that was set at the time the command was
    /// issued — it cannot be re-read when the command is handled, because
    /// that may be well after the fill color has changed.
    BeginFill(Color),
    /// Finishes the filled shape and persists it as one entry.
    EndFill,
    /// Clears the persisted drawing completely. The control side must have
    /// cleared its live preview (`StateUpdate::TemporaryPath(None)`) first.
    Clear,
}

/// A violation of the protocol's sequencing contract by the control side.
/// These are programming errors, not recoverable conditions: the embedding
/// program should fail loudly on one rather than attempt silent recovery.
#[derive(Clone, Copy, PartialEq, Eq, Structural, Debug)]
pub enum ProtocolError {
    /// `BeginFill` arrived while a fill was already being accumulated.
    BeginFillWhileFilling,
    /// `EndFill` arrived with no preceding `BeginFill`.
    EndFillWhileNotFilling,
    /// `Clear` arrived while a temporary preview path was still set.
    ClearWithTemporaryPath,
}

/// Whether a response answers the given request with the matching variant.
pub open spec fn response_matches(request: Request, response: Response) -> bool {
    match request {
        Request::TurtleState => response is TurtleState,
        Request::DrawingState => response is DrawingState,
        Request::Event => response is Event,
    }
}

} // verus!
