//! The render side's authoritative state and the fill state machine.
//!
//! A [`Renderer`] owns the persisted path list, the fill accumulator, the
//! temporary preview path, the latest state snapshots and the pending input
//! event. It is mutated only by received messages, applied in receipt order:
//! the control side never touches this state directly.
//!
//! The fill state machine has two states, `NotFilling` and `Filling`; see
//! [`drawing_ok`] and [`apply_drawing`] for the exact transition rules.

use vstd::prelude::*;
use crate::event::Event;
use crate::query::{
    DrawingCommand, ProtocolError, Query, Request, Response, StateUpdate, response_matches,
};
use crate::state::{Color, DrawingState, Path, TurtleState};

verus! {

/// One persisted entry of the drawing: an independent stroke, or one filled
/// shape flushed by `EndFill` over the paths accumulated since `BeginFill`.
#[derive(Clone, Debug)]
pub enum DrawnShape {
    Stroke(Path),
    Fill { color: Color, paths: Vec<Path> },
}

/// Mathematical model of one persisted entry.
#[verifier::ext_equal]
pub enum ShapeView {
    Stroke(Path),
    Fill { color: Color, paths: Seq<Path> },
}

impl View for DrawnShape {
    type V = ShapeView;

    open spec fn view(&self) -> ShapeView {
        match self {
            DrawnShape::Stroke(path) => ShapeView::Stroke(*path),
            DrawnShape::Fill { color, paths } => ShapeView::Fill {
                color: *color,
                paths: paths@,
            },
        }
    }
}

/// Mathematical model of the fill accumulator: either no fill is in
/// progress, or one is, with the color captured by `BeginFill` and the paths
/// accumulated so far.
#[verifier::ext_equal]
pub enum FillView {
    NotFilling,
    Filling { color: Color, shape: Seq<Path> },
}

/// Mathematical model of the whole render-side state.
#[verifier::ext_equal]
pub struct RendererView {
    /// The persisted path list: the authoritative drawing history.
    pub paths: Seq<ShapeView>,
    /// The fill accumulator.
    pub fill: FillView,
    /// The not-yet-committed preview path, if any.
    pub temporary_path: Option<Path>,
    /// Latest turtle snapshot pushed by the control side.
    pub turtle: TurtleState,
    /// Latest drawing snapshot pushed by the control side.
    pub drawing: DrawingState,
    /// The pending input event, if one has arrived and was not yet polled.
    pub pending_event: Option<Event>,
}

/// Whether the fill state machine accepts `cmd` in state `s`. A rejected
/// command is a violation of the protocol's sequencing contract.
pub open spec fn drawing_ok(s: RendererView, cmd: DrawingCommand) -> bool {
    match cmd {
        DrawingCommand::StorePath(_) => true,
        DrawingCommand::BeginFill(_) => s.fill is NotFilling,
        DrawingCommand::EndFill => s.fill is Filling,
        DrawingCommand::Clear => s.temporary_path is None,
    }
}

/// Which violation a rejected command reports.
pub open spec fn drawing_error(s: RendererView, cmd: DrawingCommand) -> ProtocolError
    recommends
        !drawing_ok(s, cmd),
{
    match cmd {
        DrawingCommand::BeginFill(_) => ProtocolError::BeginFillWhileFilling,
        DrawingCommand::EndFill => ProtocolError::EndFillWhileNotFilling,
        _ => ProtocolError::ClearWithTemporaryPath,
    }
}

/// The fill state machine's transition: the state after an accepted `cmd`.
///
/// - `StorePath` appends to the persisted list while not filling, and to the
///   fill accumulator while filling.
/// - `BeginFill` starts accumulating with an empty shape.
/// - `EndFill` flushes the accumulated shape as one filled entry.
/// - `Clear` empties the persisted list and touches nothing else; clearing
///   while filling is permitted and keeps the accumulator (the chosen policy
///   for that otherwise open case).
pub open spec fn apply_drawing(s: RendererView, cmd: DrawingCommand) -> RendererView
    recommends
        drawing_ok(s, cmd),
{
    match cmd {
        DrawingCommand::StorePath(path) => match s.fill {
            FillView::NotFilling => RendererView {
                paths: s.paths.push(ShapeView::Stroke(path)),
                ..s
            },
            FillView::Filling { color, shape } => RendererView {
                fill: FillView::Filling { color, shape: shape.push(path) },
                ..s
            },
        },
        DrawingCommand::BeginFill(color) => RendererView {
            fill: FillView::Filling { color, shape: Seq::empty() },
            ..s
        },
        DrawingCommand::EndFill => match s.fill {
            FillView::Filling { color, shape } => RendererView {
                paths: s.paths.push(ShapeView::Fill { color, paths: shape }),
                fill: FillView::NotFilling,
                ..s
            },
            FillView::NotFilling => s,
        },
        DrawingCommand::Clear => RendererView { paths: Seq::empty(), ..s },
    }
}

/// The state after a state update: updates are unconditional and never touch
/// the persisted list or the fill accumulator.
pub open spec fn apply_update(s: RendererView, update: StateUpdate) -> RendererView {
    match update {
        StateUpdate::TurtleState(turtle) => RendererView { turtle, ..s },
        StateUpdate::DrawingState(drawing) => RendererView { drawing, ..s },
        StateUpdate::TemporaryPath(path) => RendererView { temporary_path: path, ..s },
    }
}

/// The state after answering a request, and the answer itself. Only polling
/// the pending event changes the state (the event is consumed); the answer
/// always has the variant matching the request, with `Event(None)` when no
/// input is pending.
pub open spec fn apply_request(s: RendererView, request: Request) -> (RendererView, Response) {
    match request {
        Request::TurtleState => (s, Response::TurtleState(s.turtle)),
        Request::DrawingState => (s, Response::DrawingState(s.drawing)),
        Request::Event => (
            RendererView { pending_event: None, ..s },
            Response::Event(s.pending_event),
        ),
    }
}

/// Whether the render side accepts `query` in state `s`: only a drawing
/// command can be rejected.
pub open spec fn query_ok(s: RendererView, query: Query) -> bool {
    match query {
        Query::Drawing(cmd) => drawing_ok(s, cmd),
        _ => true,
    }
}

/// Which violation a rejected query reports.
pub open spec fn query_error(s: RendererView, query: Query) -> ProtocolError
    recommends
        !query_ok(s, query),
{
    match query {
        Query::Drawing(cmd) => drawing_error(s, cmd),
        _ => ProtocolError::ClearWithTemporaryPath,
    }
}

/// The state after an accepted query.
pub open spec fn apply_query(s: RendererView, query: Query) -> RendererView {
    match query {
        Query::Request(request) => apply_request(s, request).0,
        Query::Update(update) => apply_update(s, update),
        Query::Drawing(cmd) => apply_drawing(s, cmd),
    }
}

/// The response an accepted query produces: exactly one for a request,
/// none for the fire-and-forget updates and drawing commands.
pub open spec fn query_response(s: RendererView, query: Query) -> Option<Response> {
    match query {
        Query::Request(request) => Some(apply_request(s, request).1),
        _ => None,
    }
}

/// The outcome of draining a sequence of received messages: the state
/// reached, the responses produced (in order), and the first violation hit,
/// if any. On a violation draining stops; the offending message and those
/// after it are not applied.
#[verifier::ext_equal]
pub struct RunOutcome {
    pub state: RendererView,
    pub responses: Seq<Response>,
    pub error: Option<ProtocolError>,
}

/// Draining, as a mathematical fold: messages are applied strictly in
/// receipt order, each against the state the previous ones produced.
pub open spec fn run(s: RendererView, queries: Seq<Query>) -> RunOutcome
    decreases queries.len(),
{
    if queries.len() == 0 {
        RunOutcome { state: s, responses: Seq::empty(), error: None }
    } else if !query_ok(s, queries[0]) {
        RunOutcome { state: s, responses: Seq::empty(), error: Some(query_error(s, queries[0])) }
    } else {
        let rest = run(apply_query(s, queries[0]), queries.skip(1));
        RunOutcome {
            state: rest.state,
            responses: match query_response(s, queries[0]) {
                Some(response) => seq![response] + rest.responses,
                None => rest.responses,
            },
            error: rest.error,
        }
    }
}

/// The pull requests among a batch of messages, in receipt order — the
/// requests a violation-free drain owes a response to.
pub open spec fn requests_of(queries: Seq<Query>) -> Seq<Request>
    decreases queries.len(),
{
    if queries.len() == 0 {
        Seq::empty()
    } else {
        (match queries[0] {
            Query::Request(request) => seq![request],
            _ => Seq::empty(),
        }) + requests_of(queries.skip(1))
    }
}

/// The render-side state, owned exclusively by the render component.
pub struct Renderer {
    paths: Vec<DrawnShape>,
    fill_color: Option<Color>,
    fill_shape: Vec<Path>,
    temporary_path: Option<Path>,
    turtle: TurtleState,
    drawing: DrawingState,
    pending_event: Option<Event>,
}

impl Renderer {
    /// Well-formedness: while no fill is in progress the accumulator is
    /// empty, so `BeginFill` always starts from an empty shape.
    pub closed spec fn wf(self) -> bool {
        self.fill_color is None ==> self.fill_shape@ == Seq::<Path>::empty()
    }

    /// The mathematical model of this state.
    pub closed spec fn view(self) -> RendererView {
        RendererView {
            paths: self.paths@.map_values(|shape: DrawnShape| shape@),
            fill: match self.fill_color {
                None => FillView::NotFilling,
                Some(color) => FillView::Filling { color, shape: self.fill_shape@ },
            },
            temporary_path: self.temporary_path,
            turtle: self.turtle,
            drawing: self.drawing,
            pending_event: self.pending_event,
        }
    }

    /// A fresh render side: empty drawing, not filling, no preview path, no
    /// pending event, with the given initial snapshots.
    pub fn new(turtle: TurtleState, drawing: DrawingState) -> (r: Renderer)
        ensures
            r.wf(),
            r.view() == (RendererView {
                paths: Seq::empty(),
                fill: FillView::NotFilling,
                temporary_path: None,
                turtle,
                drawing,
                pending_event: None,
            }),
    {
        let r = Renderer {
            paths: Vec::new(),
            fill_color: None,
            fill_shape: Vec::new(),
            temporary_path: None,
            turtle,
            drawing,
            pending_event: None,
        };
        proof {
            assert(r.view().paths =~= Seq::<ShapeView>::empty());
            assert(r.view() =~= (RendererView {
                paths: Seq::empty(),
                fill: FillView::NotFilling,
                temporary_path: None,
                turtle,
                drawing,
                pending_event: None,
            }));
        }
        r
    }

    /// Interprets one committed drawing command against the fill state
    /// machine. Rejections are protocol violations, reported to the caller
    /// and never applied: the state is unchanged on `Err`.
    pub fn handle_drawing(&mut self, cmd: DrawingCommand) -> (r: Result<(), ProtocolError>)
        requires
            old(self).wf(),
        ensures
            final(self).wf(),
            r is Ok <==> drawing_ok(old(self).view(), cmd),
            r is Ok ==> final(self).view() == apply_drawing(old(self).view(), cmd),
            r is Err ==> final(self).view() == old(self).view() && r == Err::<(),
                ProtocolError,
            >(drawing_error(old(self).view(), cmd)),
    {
        let ghost pre = self.view();
        match cmd {
            DrawingCommand::StorePath(path) => {
                if self.fill_color.is_some() {
                    self.fill_shape.push(path);
                    proof {
                        assert(self.view() =~= apply_drawing(pre, cmd));
                    }
                } else {
                    self.paths.push(DrawnShape::Stroke(path));
                    proof {
                        assert(self.view().paths =~= pre.paths.push(ShapeView::Stroke(path)));
                        assert(self.view() =~= apply_drawing(pre, cmd));
                    }
                }
                Ok(())
            },
            DrawingCommand::BeginFill(color) => {
                if self.fill_color.is_some() {
                    Err(ProtocolError::BeginFillWhileFilling)
                } else {
                    self.fill_color = Some(color);
                    proof {
                        assert(self.view() =~= apply_drawing(pre, cmd));
                    }
                    Ok(())
                }
            },
            DrawingCommand::EndFill => {
                match self.fill_color {
                    Some(color) => {
                        let mut shape: Vec<Path> = Vec::new();
                        core::mem::swap(&mut shape, &mut self.fill_shape);
                        self.paths.push(DrawnShape::Fill { color, paths: shape });
                        self.fill_color = None;
                        proof {
                            assert(self.fill_shape@ =~= Seq::<Path>::empty());
                            assert(self.view().paths =~= pre.paths.push(
                                ShapeView::Fill {
                                    color,
                                    paths: match pre.fill {
                                        FillView::Filling { shape, .. } => shape,
                                        FillView::NotFilling => Seq::empty(),
                                    },
                                },
                            ));
                            assert(self.view() =~= apply_drawing(pre, cmd));
                        }
                        Ok(())
                    },
                    None => Err(ProtocolError::EndFillWhileNotFilling),
                }
            },
            DrawingCommand::Clear => {
                if self.temporary_path.is_some() {
                    Err(ProtocolError::ClearWithTemporaryPath)
                } else {
                    self.paths = Vec::new();
                    proof {
                        assert(self.view().paths =~= Seq::<ShapeView>::empty());
                        assert(self.view() =~= apply_drawing(pre, cmd));
                    }
                    Ok(())
                }
            },
        }
    }

    /// Applies one live-state push. Updates are unconditional and never
    /// touch the persisted list or the fill accumulator.
    pub fn handle_update(&mut self, update: StateUpdate)
        requires
            old(self).wf(),
        ensures
            final(self).wf(),
            final(self).view() == apply_update(old(self).view(), update),
    {
        let ghost pre = self.view();
        match update {
            StateUpdate::TurtleState(turtle) => {
                self.turtle = turtle;
            },
            StateUpdate::DrawingState(drawing) => {
                self.drawing = drawing;
            },
            StateUpdate::TemporaryPath(path) => {
                self.temporary_path = path;
            },
        }
        proof {
            assert(self.view() =~= apply_update(pre, update));
        }
    }

    /// Answers one pull request, always with the matching response variant
    /// and without ever waiting: polling for an event returns
    /// `Response::Event(None)` immediately when none is pending, and
    /// consumes the pending event otherwise.
    pub fn handle_request(&mut self, request: Request) -> (r: Response)
        requires
            old(self).wf(),
        ensures
            final(self).wf(),
            response_matches(request, r),
            final(self).view() == apply_request(old(self).view(), request).0,
            r == apply_request(old(self).view(), request).1,
    {
        let ghost pre = self.view();
        match request {
            Request::TurtleState => Response::TurtleState(self.turtle),
            Request::DrawingState => Response::DrawingState(self.drawing),
            Request::Event => {
                let pending = self.pending_event;
                self.pending_event = None;
                proof {
                    assert(self.view() =~= apply_request(pre, request).0);
                }
                Response::Event(pending)
            },
        }
    }

    /// Records one translated input event for the next `Request::Event`.
    /// The buffer holds a single event: a newer one replaces an unpolled
    /// older one, matching the source's single-event-at-a-time model.
    pub fn push_event(&mut self, event: Event)
        requires
            old(self).wf(),
        ensures
            final(self).wf(),
            final(self).view() == (RendererView {
                pending_event: Some(event),
                ..old(self).view()
            }),
    {
        let ghost pre = self.view();
        self.pending_event = Some(event);
        proof {
            assert(self.view() =~= (RendererView { pending_event: Some(event), ..pre }));
        }
    }

    /// Dispatches one received message. Exactly the requests produce a
    /// response; updates and drawing commands are fire-and-forget, and only
    /// a drawing command can be rejected.
    pub fn handle_query(&mut self, query: Query) -> (r: Result<Option<Response>, ProtocolError>)
        requires
            old(self).wf(),
        ensures
            final(self).wf(),
            r is Ok <==> query_ok(old(self).view(), query),
            r is Ok ==> final(self).view() == apply_query(old(self).view(), query) && r
                == Ok::<_, ProtocolError>(query_response(old(self).view(), query)),
            r is Err ==> final(self).view() == old(self).view() && r == Err::<Option<Response>,
                _,
            >(query_error(old(self).view(), query)),
    {
        match query {
            Query::Request(request) => {
                let response = self.handle_request(request);
                Ok(Some(response))
            },
            Query::Update(update) => {
                self.handle_update(update);
                Ok(None)
            },
            Query::Drawing(cmd) => match self.handle_drawing(cmd) {
                Ok(()) => Ok(None),
                Err(e) => Err(e),
            },
        }
    }

    /// Drains a batch of received messages, applying them strictly in
    /// receipt order. Returns the responses the requests produced, in
    /// order, or stops at the first protocol violation: the offending
    /// message and those after it are not applied.
    pub fn drain(&mut self, incoming: &Vec<Query>) -> (r: Result<Vec<Response>, ProtocolError>)
        requires
            old(self).wf(),
        ensures
            final(self).wf(),
            final(self).view() == run(old(self).view(), incoming@).state,
            match r {
                Ok(responses) => run(old(self).view(), incoming@).error is None && responses@
                    == run(old(self).view(), incoming@).responses,
                Err(e) => run(old(self).view(), incoming@).error == Some(e),
            },
    {
        let ghost target = run(old(self).view(), incoming@);
        let mut responses: Vec<Response> = Vec::new();
        let mut i: usize = 0;
        proof {
            assert(incoming@.skip(0) =~= incoming@);
            assert(Seq::<Response>::empty() + target.responses =~= target.responses);
        }
        while i < incoming.len()
            invariant
                self.wf(),
                i <= incoming.len(),
                target == run(old(self).view(), incoming@),
                target.state == run(self.view(), incoming@.skip(i as int)).state,
                target.error == run(self.view(), incoming@.skip(i as int)).error,
                target.responses == responses@ + run(self.view(), incoming@.skip(i as int)).responses,
            decreases incoming.len() - i,
        {
            let ghost rem = incoming@.skip(i as int);
            proof {
                assert(rem[0] == incoming@[i as int]);
                assert(rem.skip(1) =~= incoming@.skip(i as int + 1));
            }
            let query = incoming[i];
            let ghost pre_responses = responses@;
            match self.handle_query(query) {
                Ok(Some(response)) => {
                    responses.push(response);
                    proof {
                        assert(responses@ =~= pre_responses + seq![response]);
                        assert(pre_responses + (seq![response] + run(
                            self.view(),
                            rem.skip(1),
                        ).responses) =~= responses@ + run(self.view(), rem.skip(1)).responses);
                    }
                },
                Ok(None) => {
                },
                Err(e) => {
                    return Err(e);
                },
            }
            i += 1;
        }
        proof {
            assert(incoming@.skip(i as int) =~= Seq::<Query>::empty());
            assert(responses@ + Seq::<Response>::empty() =~= responses@);
        }
        Ok(responses)
    }

    /// The persisted path list, in drawing order.
    pub fn persisted_paths(&self) -> (r: &Vec<DrawnShape>)
        ensures
            r@.map_values(|shape: DrawnShape| shape@) == self.view().paths,
    {
        &self.paths
    }

    /// Whether a fill is currently being accumulated.
    pub fn is_filling(&self) -> (r: bool)
        ensures
            r == (self.view().fill is Filling),
    {
        self.fill_color.is_some()
    }

    /// The current temporary preview path, if any.
    pub fn temporary_path(&self) -> (r: Option<Path>)
        ensures
            r == self.view().temporary_path,
    {
        self.temporary_path
    }
}

} // verus!
