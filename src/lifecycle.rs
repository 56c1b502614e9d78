//! Facts about whole runs of a session: what every path through the protocol
//! guarantees about the engine resources, the collected stream and draining.
use vstd::prelude::*;
use crate::error::EncodeError;
use crate::params::EncoderParameters;
use crate::session::{
    accepts, holds, initial, inv, layout_matches, transition, Action, Event, SessionModel, Stage,
};

verus! {

/// Bytes that event `e` adds to the stream when the session takes it: the
/// unit of an encode step that did not fail.
pub open spec fn unit_of(e: Event) -> Seq<u8> {
    match e {
        Event::Encoded { size, payload } => if size >= 0 { payload@ } else { Seq::empty() },
        _ => Seq::empty(),
    }
}

/// 1 when `e` reports a picture buffer allocated, else 0.
pub open spec fn picture_acquired(e: Event) -> int {
    match e {
        Event::PictureAllocated { status } => if status == 0 { 1 } else { 0 },
        _ => 0,
    }
}

/// 1 when `e` reports an engine handle opened, else 0.
pub open spec fn engine_acquired(e: Event) -> int {
    match e {
        Event::EngineOpened { opened, .. } => if opened { 1 } else { 0 },
        _ => 0,
    }
}

/// 1 when `a` releases the picture buffer, else 0.
pub open spec fn picture_released(a: Action) -> int {
    match a {
        Action::Release { picture, .. } => if picture { 1 } else { 0 },
        _ => 0,
    }
}

/// 1 when `a` releases the engine handle, else 0.
pub open spec fn engine_released(a: Action) -> int {
    match a {
        Action::Release { engine, .. } => if engine { 1 } else { 0 },
        _ => 0,
    }
}

/// Stages in which no picture buffer has been asked for yet.
pub open spec fn before_picture(stage: Stage) -> bool {
    stage is Idle || stage is Presetting || stage is Configuring || stage is Profiling || stage is Allocating
}

/// Stages in which the engine has not been asked to open yet.
pub open spec fn before_engine(stage: Stage) -> bool {
    before_picture(stage) || stage is Opening
}

/// Stages in which the session takes frames or drains the engine.
pub open spec fn takes_frames(stage: Stage) -> bool {
    stage is AwaitingFrame || stage is ApplyingQuality || stage is Submitting || stage is Querying || stage is Draining
}

/// `e` reports an opened engine whose picture buffer fits `params`.
pub open spec fn opened_with_layout(params: EncoderParameters, e: Event) -> bool {
    e matches Event::EngineOpened { opened, planes, stride_y, stride_u, stride_v }
        && opened && layout_matches(params, planes, stride_y, stride_u, stride_v)
}

/// What one step of the protocol does to the resources, the stream and the
/// drained flag.
pub proof fn lemma_step(s: SessionModel, e: Event, t: SessionModel, a: Action)
    requires
        inv(s),
        accepts(s, e),
        transition(s, e, t, a),
    ensures
        inv(t),
        t.params == s.params,
        t.quality == s.quality,
        t.output == s.output + unit_of(e),
        t.picture_held as int == s.picture_held as int + picture_acquired(e) - picture_released(a),
        t.engine_held as int == s.engine_held as int + engine_acquired(e) - engine_released(a),
        picture_acquired(e) == 1 ==> before_picture(s.stage) && !before_picture(t.stage),
        engine_acquired(e) == 1 ==> before_engine(s.stage) && !before_engine(t.stage),
        before_picture(t.stage) ==> before_picture(s.stage),
        before_engine(t.stage) ==> before_engine(s.stage),
        s.drained ==> t.drained,
        t.drained && !s.drained ==> (e matches Event::Delayed { count } && count <= 0),
        a is Finish ==> t.stage is Finished && !holds(t),
        takes_frames(t.stage) && !takes_frames(s.stage) ==> s.stage is Opening && opened_with_layout(s.params, e),
{
}

/// `states`, `events` and `actions` record a run of a session made with
/// `params` and `quality`: event `i` takes state `i` to state `i + 1` and
/// yields action `i`.
pub open spec fn is_run(
    params: EncoderParameters,
    quality: u32,
    states: Seq<SessionModel>,
    events: Seq<Event>,
    actions: Seq<Action>,
) -> bool {
    &&& params.wf()
    &&& states.len() == events.len() + 1
    &&& actions.len() == events.len()
    &&& states[0] == initial(params, quality)
    &&& forall|i: int| 0 <= i < events.len() ==> accepts(states[i], #[trigger] events[i])
        && transition(states[i], events[i], states[i + 1], actions[i])
}

/// The concatenation of the units that the encode steps among `events` emitted.
pub open spec fn emitted(events: Seq<Event>) -> Seq<u8>
    decreases events.len(),
{
    if events.len() == 0 {
        Seq::empty()
    } else {
        emitted(events.drop_last()) + unit_of(events.last())
    }
}

/// How many of `events` report a picture buffer allocated.
pub open spec fn picture_acquisitions(events: Seq<Event>) -> int
    decreases events.len(),
{
    if events.len() == 0 { 0 } else { picture_acquisitions(events.drop_last()) + picture_acquired(events.last()) }
}

/// How many of `events` report an engine handle opened.
pub open spec fn engine_acquisitions(events: Seq<Event>) -> int
    decreases events.len(),
{
    if events.len() == 0 { 0 } else { engine_acquisitions(events.drop_last()) + engine_acquired(events.last()) }
}

/// How many of `actions` release the picture buffer.
pub open spec fn picture_releases(actions: Seq<Action>) -> int
    decreases actions.len(),
{
    if actions.len() == 0 { 0 } else { picture_releases(actions.drop_last()) + picture_released(actions.last()) }
}

/// How many of `actions` release the engine handle.
pub open spec fn engine_releases(actions: Seq<Action>) -> int
    decreases actions.len(),
{
    if actions.len() == 0 { 0 } else { engine_releases(actions.drop_last()) + engine_released(actions.last()) }
}

/// What holds after the first `k` steps of a run.
proof fn lemma_run_prefix(
    params: EncoderParameters,
    quality: u32,
    states: Seq<SessionModel>,
    events: Seq<Event>,
    actions: Seq<Action>,
    k: int,
)
    requires
        is_run(params, quality, states, events, actions),
        0 <= k <= events.len(),
    ensures
        inv(states[k]),
        states[k].params == params,
        states[k].output == emitted(events.subrange(0, k)),
        forall|j: int| 0 <= j <= k ==> (#[trigger] states[j]).output.is_prefix_of(states[k].output),
        states[k].picture_held as int + picture_releases(actions.subrange(0, k))
            == picture_acquisitions(events.subrange(0, k)),
        states[k].engine_held as int + engine_releases(actions.subrange(0, k))
            == engine_acquisitions(events.subrange(0, k)),
        0 <= picture_acquisitions(events.subrange(0, k)) <= 1,
        0 <= engine_acquisitions(events.subrange(0, k)) <= 1,
        before_picture(states[k].stage) ==> picture_acquisitions(events.subrange(0, k)) == 0,
        before_engine(states[k].stage) ==> engine_acquisitions(events.subrange(0, k)) == 0,
        states[k].drained ==> exists|j: int| 0 <= j < k
            && (#[trigger] events[j] matches Event::Delayed { count } && count <= 0),
        takes_frames(states[k].stage) ==> exists|j: int| 0 <= j < k && opened_with_layout(params, #[trigger] events[j]),
    decreases k,
{
    if k == 0 {
        assert(events.subrange(0, 0) =~= Seq::<Event>::empty());
        assert(actions.subrange(0, 0) =~= Seq::<Action>::empty());
    } else {
        lemma_run_prefix(params, quality, states, events, actions, k - 1);
        let i = k - 1;
        assert(accepts(states[i], events[i]) && transition(states[i], events[i], states[i + 1], actions[i]));
        lemma_step(states[i], events[i], states[k], actions[i]);
        assert(events.subrange(0, k).drop_last() =~= events.subrange(0, i));
        assert(actions.subrange(0, k).drop_last() =~= actions.subrange(0, i));
        assert(events.subrange(0, k).last() == events[i]);
        assert(actions.subrange(0, k).last() == actions[i]);
        assert forall|j: int| 0 <= j <= k implies (#[trigger] states[j]).output.is_prefix_of(states[k].output) by {
            if j < k {
                assert(states[j].output.is_prefix_of(states[i].output));
                assert(states[k].output.subrange(0, states[i].output.len() as int) =~= states[i].output);
                assert(states[k].output.subrange(0, states[j].output.len() as int)
                    =~= states[i].output.subrange(0, states[j].output.len() as int));
            } else {
                assert(states[k].output.subrange(0, states[k].output.len() as int) =~= states[k].output);
            }
        }
        if states[k].drained && !states[i].drained {
            assert(events[i] matches Event::Delayed { count } && count <= 0);
        }
        if takes_frames(states[k].stage) && !takes_frames(states[i].stage) {
            assert(opened_with_layout(params, events[i]));
        }
    }
}

/// Every run releases each resource that it acquired exactly once: a
/// release never comes without a held resource, each resource is acquired at
/// most once, and once the session has finished, whatever path it took, the
/// releases of the picture buffer and of the engine handle equal their
/// acquisitions.
pub proof fn lemma_resources_released_once(
    params: EncoderParameters,
    quality: u32,
    states: Seq<SessionModel>,
    events: Seq<Event>,
    actions: Seq<Action>,
)
    requires
        is_run(params, quality, states, events, actions),
    ensures
        0 <= picture_releases(actions) <= picture_acquisitions(events) <= 1,
        0 <= engine_releases(actions) <= engine_acquisitions(events) <= 1,
        states.last().stage is Finished ==> picture_releases(actions) == picture_acquisitions(events)
            && engine_releases(actions) == engine_acquisitions(events),
{
    let n = events.len() as int;
    lemma_run_prefix(params, quality, states, events, actions, n);
    assert(events.subrange(0, n) =~= events);
    assert(actions.subrange(0, n) =~= actions);
    lemma_releases_nonnegative(actions);
}

proof fn lemma_releases_nonnegative(actions: Seq<Action>)
    ensures
        picture_releases(actions) >= 0,
        engine_releases(actions) >= 0,
    decreases actions.len(),
{
    if actions.len() > 0 {
        lemma_releases_nonnegative(actions.drop_last());
    }
}

/// The stream of a run is the concatenation, in order, of the units that its
/// encode steps emitted, whether a unit came from submitting a frame or from
/// draining. So two runs whose engine emits the same units give byte-identical
/// output.
pub proof fn lemma_output_is_emitted_units(
    params: EncoderParameters,
    quality: u32,
    states: Seq<SessionModel>,
    events: Seq<Event>,
    actions: Seq<Action>,
    params2: EncoderParameters,
    quality2: u32,
    states2: Seq<SessionModel>,
    events2: Seq<Event>,
    actions2: Seq<Action>,
)
    requires
        is_run(params, quality, states, events, actions),
        is_run(params2, quality2, states2, events2, actions2),
    ensures
        states.last().output == emitted(events),
        emitted(events) == emitted(events2) ==> states.last().output == states2.last().output,
{
    let n = events.len() as int;
    lemma_run_prefix(params, quality, states, events, actions, n);
    assert(events.subrange(0, n) =~= events);
    let n2 = events2.len() as int;
    lemma_run_prefix(params2, quality2, states2, events2, actions2, n2);
    assert(events2.subrange(0, n2) =~= events2);
}

/// A run succeeds only after the engine has reported that it holds no more
/// delayed frames, and every stream that the run held earlier is a prefix of
/// the stream it ends with: stopping the drain early leaves a prefix of it.
pub proof fn lemma_output_only_after_drain(
    params: EncoderParameters,
    quality: u32,
    states: Seq<SessionModel>,
    events: Seq<Event>,
    actions: Seq<Action>,
)
    requires
        is_run(params, quality, states, events, actions),
    ensures
        forall|j: int| 0 <= j < states.len() ==> (#[trigger] states[j]).output.is_prefix_of(states.last().output),
        states.last().stage is Finished && states.last().failure is None ==> exists|j: int| 0 <= j < events.len()
            && (#[trigger] events[j] matches Event::Delayed { count } && count <= 0),
{
    let n = events.len() as int;
    lemma_run_prefix(params, quality, states, events, actions, n);
}

/// When the engine has opened, the session goes on to take frames only if the
/// picture buffer has three planes with strides (W, W/2, W/2); otherwise it
/// aborts with a layout error and releases the engine and the picture buffer
/// before any frame.
pub proof fn lemma_layout_checked_at_open(s: SessionModel, e: Event, t: SessionModel, a: Action)
    requires
        inv(s),
        s.stage is Opening,
        accepts(s, e),
        transition(s, e, t, a),
        e matches Event::EngineOpened { opened, .. } && opened,
    ensures
        e matches Event::EngineOpened { planes, stride_y, stride_u, stride_v, .. }
            && (t.stage is AwaitingFrame <==> layout_matches(s.params, planes, stride_y, stride_u, stride_v)),
        !(t.stage is AwaitingFrame) ==> t.failure == Some(EncodeError::BufferLayoutMismatch)
            && a == (Action::Release { engine: true, picture: true }),
{
}

/// In every run, a frame reaches the session only after the engine opened
/// with a picture buffer of three planes with strides (W, W/2, W/2) for the
/// session's geometry.
pub proof fn lemma_frames_follow_layout_check(
    params: EncoderParameters,
    quality: u32,
    states: Seq<SessionModel>,
    events: Seq<Event>,
    actions: Seq<Action>,
)
    requires
        is_run(params, quality, states, events, actions),
    ensures
        forall|k: int| 0 <= k < events.len() && (#[trigger] events[k]) is Frame ==> exists|j: int| 0 <= j < k
            && opened_with_layout(params, #[trigger] events[j]),
{
    assert forall|k: int| 0 <= k < events.len() && (#[trigger] events[k]) is Frame implies exists|j: int| 0 <= j < k
        && opened_with_layout(params, #[trigger] events[j]) by {
        lemma_run_prefix(params, quality, states, events, actions, k);
        assert(accepts(states[k], events[k]));
    }
}

} // verus!
