//! Synchronization layer between the two halves of an interactive drawing
//! program: a *control* side that runs user drawing logic and a *render* side
//! that owns the display surface, the input source and the persisted drawing.
//!
//! The two sides share no memory; they exchange [`Query`] and [`Response`]
//! messages. The render side interprets [`DrawingCommand`]s with a fill
//! state machine, answers every [`Request`] with a matching [`Response`],
//! and translates raw platform input into the stable [`Event`] vocabulary.

pub mod codec;
pub mod event;
pub mod laws;
pub mod query;
pub mod renderer;
pub mod state;

pub use codec::{decode_query, decode_response, encode_query, encode_response};
pub use event::Event;
pub use query::{DrawingCommand, ProtocolError, Query, Request, Response, StateUpdate};
pub use renderer::Renderer;
pub use state::{Color, DrawingState, Path, Pen, Point, TurtleState};
