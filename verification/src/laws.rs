//! The protocol's documented guarantees, stated once and proved, over the
//! mathematical model in [`crate::renderer`].

use vstd::prelude::*;
use crate::query::{DrawingCommand, ProtocolError, Query, StateUpdate, response_matches};
use crate::renderer::{
    FillView, RendererView, RunOutcome, ShapeView, apply_drawing, apply_query, apply_request,
    apply_update, drawing_error, drawing_ok, query_ok, requests_of, run,
};
use crate::state::{Color, Path};

verus! {

/// A violation-free drain produces exactly one response per request, in
/// order, each of the variant matching its request: no request is dropped,
/// and no fire-and-forget message is answered.
pub proof fn lemma_one_response_per_request(s: RendererView, queries: Seq<Query>)
    ensures
        run(s, queries).error is None ==> {
            let responses = run(s, queries).responses;
            let requests = requests_of(queries);
            &&& responses.len() == requests.len()
            &&& forall|j: int|
                0 <= j < requests.len() ==> response_matches(requests[j], #[trigger] responses[j])
        },
    decreases queries.len(),
{
    if queries.len() == 0 {
    } else if !query_ok(s, queries[0]) {
    } else {
        lemma_one_response_per_request(apply_query(s, queries[0]), queries.skip(1));
        if run(s, queries).error is None {
            let rest = run(apply_query(s, queries[0]), queries.skip(1));
            match queries[0] {
                Query::Request(request) => {
                    assert(response_matches(request, apply_request(s, request).1));
                    assert(run(s, queries).responses == seq![apply_request(s, request).1]
                        + rest.responses);
                    assert(requests_of(queries) == seq![request] + requests_of(queries.skip(1)));
                },
                _ => {
                },
            }
        }
    }
}

/// Only drawing commands mutate the drawing: a live-state update never
/// touches the persisted path list, the fill accumulator, or the pending
/// event.
pub proof fn lemma_updates_never_touch_the_drawing(s: RendererView, update: StateUpdate)
    ensures
        apply_update(s, update).paths == s.paths,
        apply_update(s, update).fill == s.fill,
        apply_update(s, update).pending_event == s.pending_event,
{
}

/// Storing a path while not filling appends exactly that stroke to the
/// persisted path list and leaves the fill accumulator (and everything
/// else) unchanged.
pub proof fn lemma_store_path_while_not_filling(s: RendererView, path: Path)
    requires
        s.fill is NotFilling,
    ensures
        drawing_ok(s, DrawingCommand::StorePath(path)),
        apply_drawing(s, DrawingCommand::StorePath(path)) == (RendererView {
            paths: s.paths.push(ShapeView::Stroke(path)),
            ..s
        }),
{
}

/// Beginning a fill, storing two paths and ending the fill is accepted and
/// persists exactly one new entry: a filled shape over the two paths, in
/// order, with the color captured when the fill began. Neither path is
/// appended to the persisted list directly, and the machine is back to
/// not filling.
pub proof fn lemma_fill_sequence(s: RendererView, color: Color, p1: Path, p2: Path)
    requires
        s.fill is NotFilling,
    ensures
        ({
            let queries = seq![
                Query::Drawing(DrawingCommand::BeginFill(color)),
                Query::Drawing(DrawingCommand::StorePath(p1)),
                Query::Drawing(DrawingCommand::StorePath(p2)),
                Query::Drawing(DrawingCommand::EndFill),
            ];
            let outcome = run(s, queries);
            &&& outcome.error is None
            &&& outcome.responses == Seq::<crate::query::Response>::empty()
            &&& outcome.state == (RendererView {
                paths: s.paths.push(ShapeView::Fill { color, paths: seq![p1, p2] }),
                fill: FillView::NotFilling,
                ..s
            })
        }),
{
    let q1 = Query::Drawing(DrawingCommand::BeginFill(color));
    let q2 = Query::Drawing(DrawingCommand::StorePath(p1));
    let q3 = Query::Drawing(DrawingCommand::StorePath(p2));
    let q4 = Query::Drawing(DrawingCommand::EndFill);
    let queries = seq![q1, q2, q3, q4];
    assert(queries.skip(1) =~= seq![q2, q3, q4]);
    assert(seq![q2, q3, q4].skip(1) =~= seq![q3, q4]);
    assert(seq![q3, q4].skip(1) =~= seq![q4]);
    assert(seq![q4].skip(1) =~= Seq::<Query>::empty());
    let s1 = apply_query(s, q1);
    let s2 = apply_query(s1, q2);
    let s3 = apply_query(s2, q3);
    let s4 = apply_query(s3, q4);
    let done = RunOutcome {
        state: s4,
        responses: Seq::<crate::query::Response>::empty(),
        error: None,
    };
    assert(run(s4, Seq::<Query>::empty()) =~= done);
    assert(run(s3, seq![q4]) =~= done);
    assert(run(s2, seq![q3, q4]) =~= done);
    assert(run(s1, seq![q2, q3, q4]) =~= done);
    assert(run(s, queries) =~= done);
    assert(Seq::<Path>::empty().push(p1).push(p2) =~= seq![p1, p2]);
    assert(s4 =~= (RendererView {
        paths: s.paths.push(ShapeView::Fill { color, paths: seq![p1, p2] }),
        fill: FillView::NotFilling,
        ..s
    }));
}

/// `EndFill` with no fill in progress is rejected as a protocol violation —
/// never silently ignored.
pub proof fn lemma_end_fill_requires_begin_fill(s: RendererView)
    requires
        s.fill is NotFilling,
    ensures
        !drawing_ok(s, DrawingCommand::EndFill),
        drawing_error(s, DrawingCommand::EndFill) == ProtocolError::EndFillWhileNotFilling,
{
}

/// A second `BeginFill` before the first fill ends is rejected as a
/// protocol violation: the pending shape is never silently overwritten.
pub proof fn lemma_begin_fill_requires_end_fill(s: RendererView, color: Color)
    requires
        s.fill is Filling,
    ensures
        !drawing_ok(s, DrawingCommand::BeginFill(color)),
        drawing_error(s, DrawingCommand::BeginFill(color)) == ProtocolError::BeginFillWhileFilling,
{
}

/// `Clear` while a temporary preview path is still set is rejected as a
/// protocol violation.
pub proof fn lemma_clear_rejected_with_temporary_path(s: RendererView)
    requires
        s.temporary_path is Some,
    ensures
        !drawing_ok(s, DrawingCommand::Clear),
        drawing_error(s, DrawingCommand::Clear) == ProtocolError::ClearWithTemporaryPath,
{
}

/// `Clear` with no temporary path empties the persisted path list and
/// leaves the fill state (and everything else) untouched.
pub proof fn lemma_clear_with_no_temporary_path(s: RendererView)
    requires
        s.temporary_path is None,
    ensures
        drawing_ok(s, DrawingCommand::Clear),
        apply_drawing(s, DrawingCommand::Clear) == (RendererView { paths: Seq::empty(), ..s }),
{
}

/// The documented way to clear: pushing a preview, clearing the preview,
/// then `Clear` succeeds from any state, and the persisted path list ends
/// empty.
pub proof fn lemma_clear_after_preview_cleared(s: RendererView, path: Path)
    ensures
        ({
            let queries = seq![
                Query::Update(StateUpdate::TemporaryPath(Some(path))),
                Query::Update(StateUpdate::TemporaryPath(None)),
                Query::Drawing(DrawingCommand::Clear),
            ];
            let outcome = run(s, queries);
            &&& outcome.error is None
            &&& outcome.state.paths == Seq::<ShapeView>::empty()
            &&& outcome.state.temporary_path is None
        }),
{
    let q1 = Query::Update(StateUpdate::TemporaryPath(Some(path)));
    let q2 = Query::Update(StateUpdate::TemporaryPath(None));
    let q3 = Query::Drawing(DrawingCommand::Clear);
    let queries = seq![q1, q2, q3];
    assert(queries.skip(1) =~= seq![q2, q3]);
    assert(seq![q2, q3].skip(1) =~= seq![q3]);
    assert(seq![q3].skip(1) =~= Seq::<Query>::empty());
    let s1 = apply_query(s, q1);
    let s2 = apply_query(s1, q2);
    let s3 = apply_query(s2, q3);
    assert(s2.temporary_path is None);
    let done = RunOutcome {
        state: s3,
        responses: Seq::<crate::query::Response>::empty(),
        error: None,
    };
    assert(run(s3, Seq::<Query>::empty()) =~= done);
    assert(run(s2, seq![q3]) =~= done);
    assert(run(s1, seq![q2, q3]) =~= done);
    assert(run(s, queries) =~= done);
    assert(s3.paths =~= Seq::<ShapeView>::empty());
}

} // verus!
