//! What holds of a capture from its first step to its last.
//!
//! A run is the sequence of sessions that a capture passes through, with
//! the events that led from each to the next.

use crate::encode::rgba8_png;
use crate::error::CaptureError;
use crate::png::declares_rgba8;
use crate::session::{lemma_alike_steps_stay_alike, Action, Event, Phase, Session};
use vstd::prelude::*;

verus! {

/// `run` is a capture from its start, told `events` in turn: it begins with
/// a session for which nothing has been done, and each event leads from one
/// session to the next.
pub open spec fn is_run(run: Seq<Session>, events: Seq<Event>) -> bool {
    &&& run.len() == events.len() + 1
    &&& run[0].phase is Enumerating
    &&& forall|i: int|
        #![trigger events[i]]
        0 <= i < events.len() ==> run[i].advances(events[i], run[i + 1])
}

/// The event brings a frame whose PNG is `bytes`, and `bytes` declares that
/// frame's dimensions.
pub open spec fn brings(event: Event, bytes: Seq<u8>) -> bool {
    event matches Event::Grabbed(Ok(frame)) && rgba8_png(frame) == Some(bytes) && declares_rgba8(
        bytes,
        frame.width,
        frame.height,
    )
}

/// One of the first `upto` events brings a frame whose PNG is `bytes`.
pub open spec fn grabbed_before(events: Seq<Event>, upto: int, bytes: Seq<u8>) -> bool {
    exists|j: int| 0 <= j < upto && j < events.len() && brings(#[trigger] events[j], bytes)
}

/// Every session of a run is well formed, and a run asks only for monitors
/// that were listed: where the host says every time it is asked that there
/// are `count` monitors, each monitor that it is told to ask or to grab
/// from has an index below `count`.
pub proof fn lemma_asks_only_for_listed_monitors(
    run: Seq<Session>,
    events: Seq<Event>,
    count: usize,
)
    requires
        is_run(run, events),
        forall|i: int|
            0 <= i < events.len() ==> (#[trigger] events[i] matches Event::Enumerated(Ok(listed))
                ==> listed == count),
    ensures
        forall|i: int|
            #![trigger run[i]]
            0 <= i < run.len() ==> {
                &&& run[i].well_formed()
                &&& run[i].pending() matches Action::QueryPrimary { monitor } ==> monitor < count
                &&& run[i].pending() matches Action::Grab { monitor, .. } ==> monitor < count
            },
{
    assert forall|i: int| 0 <= i < run.len() implies within(#[trigger] run[i], count) by {
        lemma_stays_within(run, events, count, i);
    }
}

/// Whatever bytes a capture holds or returns, it was handed a frame before
/// of which they are the PNG: bytes come from no other place, and they
/// declare the dimensions of the frame that was grabbed, which need not be
/// those that were asked for.
pub proof fn lemma_output_is_of_a_grabbed_frame(run: Seq<Session>, events: Seq<Event>)
    requires
        is_run(run, events),
    ensures
        forall|i: int|
            #![trigger run[i]]
            0 <= i < run.len() ==> (run[i].output() matches Some(bytes) ==> grabbed_before(
                events,
                i,
                bytes,
            )),
{
    assert forall|i: int| 0 <= i < run.len() implies ((#[trigger] run[i]).output() matches Some(
        bytes,
    ) ==> grabbed_before(events, i, bytes)) by {
        lemma_output_has_a_source(run, events, i);
    }
}

/// Repeating a capture against an unchanged screen gives the same bytes:
/// two captures of one request whose hosts tell them alike things, frames
/// of equal pixels among them, are alike at every step, hold the same bytes
/// and end alike.
pub proof fn lemma_repeated_capture_is_alike(
    run_a: Seq<Session>,
    run_b: Seq<Session>,
    events_a: Seq<Event>,
    events_b: Seq<Event>,
)
    requires
        is_run(run_a, events_a),
        is_run(run_b, events_b),
        run_a[0].alike(run_b[0]),
        events_a.len() == events_b.len(),
        forall|i: int|
            #![trigger events_a[i]]
            0 <= i < events_a.len() ==> events_a[i].alike(events_b[i]),
    ensures
        forall|i: int|
            #![trigger run_a[i]]
            0 <= i < run_a.len() ==> run_a[i].alike(run_b[i]) && run_a[i].output()
                == run_b[i].output(),
{
    assert forall|i: int| 0 <= i < run_a.len() implies (#[trigger] run_a[i]).alike(run_b[i])
        && run_a[i].output() == run_b[i].output() by {
        lemma_runs_stay_alike(run_a, run_b, events_a, events_b, i);
    }
}

/// While no monitor says that it is the primary one, a capture grabs
/// nothing, produces no bytes and writes no file, whatever else it is told:
/// it is still looking, or it has failed for want of monitors to ask.
pub proof fn lemma_no_primary_no_capture(run: Seq<Session>, events: Seq<Event>)
    requires
        is_run(run, events),
        forall|i: int|
            0 <= i < events.len() ==> #[trigger] events[i] != Event::PrimaryAnswer(Some(true)),
    ensures
        forall|i: int|
            #![trigger run[i]]
            0 <= i < run.len() ==> {
                &&& run[i].output() is None
                &&& !(run[i].pending() is Grab)
                &&& !(run[i].pending() is Write)
                &&& run[i].phase matches Phase::Failed { error } ==> error is Enumeration || error
                    is NoPrimaryMonitor
            },
{
    assert forall|i: int| 0 <= i < run.len() implies searching(#[trigger] run[i]) by {
        lemma_still_searching(run, events, i);
    }
}

/// Where the monitors were listed, each was asked in turn and none said
/// that it is the primary one, the capture has failed for that reason: it
/// is over, with no bytes, and it asked for no grab and no write on the
/// way.
pub proof fn lemma_no_primary_monitor_fails(run: Seq<Session>, events: Seq<Event>, count: usize)
    requires
        is_run(run, events),
        events.len() == count + 1,
        events[0] == Event::Enumerated(Ok(count)),
        forall|i: int|
            1 <= i < events.len() ==> (#[trigger] events[i] matches Event::PrimaryAnswer(answer)
                && answer != Some(true)),
    ensures
        run.last().phase == (Phase::Failed { error: CaptureError::NoPrimaryMonitor }),
        run.last().pending() == Action::Finish,
        forall|i: int|
            #![trigger run[i]]
            0 <= i < run.len() ==> !(run[i].pending() is Grab) && !(run[i].pending() is Write)
                && run[i].output() is None,
{
    lemma_asked_in_turn(run, events, count, count as int);
    lemma_no_primary_no_capture(run, events);
}

/// A well-formed session whose monitors, where it knows of any, are
/// `count` in number.
spec fn within(s: Session, count: usize) -> bool {
    &&& s.well_formed()
    &&& s.phase matches Phase::Probing { count: listed, .. } ==> listed == count
    &&& s.phase matches Phase::Grabbing { count: listed, .. } ==> listed == count
}

/// A capture that has not heard of a primary monitor: it is listing or
/// asking monitors, or it has failed for want of one.
spec fn searching(s: Session) -> bool {
    match s.phase {
        Phase::Enumerating => true,
        Phase::Probing { .. } => true,
        Phase::Failed { error } => error is Enumeration || error is NoPrimaryMonitor,
        _ => false,
    }
}

/// Every session of a run whose host lists `count` monitors is within them.
proof fn lemma_stays_within(run: Seq<Session>, events: Seq<Event>, count: usize, i: int)
    requires
        is_run(run, events),
        forall|k: int|
            0 <= k < events.len() ==> (#[trigger] events[k] matches Event::Enumerated(Ok(listed))
                ==> listed == count),
        0 <= i < run.len(),
    ensures
        within(run[i], count),
    decreases i,
{
    if i > 0 {
        lemma_stays_within(run, events, count, i - 1);
        assert(run[i - 1].advances(events[i - 1], run[i - 1 + 1]));
    }
}

/// Every session of a run that is told of no primary monitor is searching.
proof fn lemma_still_searching(run: Seq<Session>, events: Seq<Event>, i: int)
    requires
        is_run(run, events),
        forall|k: int|
            0 <= k < events.len() ==> #[trigger] events[k] != Event::PrimaryAnswer(Some(true)),
        0 <= i < run.len(),
    ensures
        searching(run[i]),
    decreases i,
{
    if i > 0 {
        lemma_still_searching(run, events, i - 1);
        assert(run[i - 1].advances(events[i - 1], run[i - 1 + 1]));
    }
}

/// After the monitors were listed and `asked` of them said that they are
/// not the primary one, the next is to be asked, if there is one.
proof fn lemma_asked_in_turn(run: Seq<Session>, events: Seq<Event>, count: usize, asked: int)
    requires
        is_run(run, events),
        events.len() == count + 1,
        events[0] == Event::Enumerated(Ok(count)),
        forall|k: int|
            1 <= k < events.len() ==> (#[trigger] events[k] matches Event::PrimaryAnswer(answer)
                && answer != Some(true)),
        0 <= asked <= count,
    ensures
        run[asked + 1].phase == Session::probe(asked, count),
    decreases asked,
{
    if asked > 0 {
        lemma_asked_in_turn(run, events, count, asked - 1);
        assert(run[asked].advances(events[asked], run[asked + 1]));
    } else {
        assert(run[0].advances(events[0], run[1]));
    }
}

/// The bytes that session `i` of a run holds are those of a frame that one
/// of the events before it brought.
proof fn lemma_output_has_a_source(run: Seq<Session>, events: Seq<Event>, i: int)
    requires
        is_run(run, events),
        0 <= i < run.len(),
    ensures
        run[i].output() matches Some(bytes) ==> grabbed_before(events, i, bytes),
    decreases i,
{
    if i > 0 && run[i].output() is Some {
        let bytes = run[i].output()->0;
        lemma_output_has_a_source(run, events, i - 1);
        assert(run[i - 1].advances(events[i - 1], run[i - 1 + 1]));
        if run[i - 1].output() == Some(bytes) {
            let j = choose|j: int|
                0 <= j < i - 1 && j < events.len() && brings(#[trigger] events[j], bytes);
            assert(0 <= j < i && brings(events[j], bytes));
        } else {
            assert(brings(events[i - 1], bytes));
        }
    }
}

/// Sessions `i` of two runs that start alike and are told alike things are
/// alike.
proof fn lemma_runs_stay_alike(
    run_a: Seq<Session>,
    run_b: Seq<Session>,
    events_a: Seq<Event>,
    events_b: Seq<Event>,
    i: int,
)
    requires
        is_run(run_a, events_a),
        is_run(run_b, events_b),
        run_a[0].alike(run_b[0]),
        events_a.len() == events_b.len(),
        forall|k: int|
            #![trigger events_a[k]]
            0 <= k < events_a.len() ==> events_a[k].alike(events_b[k]),
        0 <= i < run_a.len(),
    ensures
        run_a[i].alike(run_b[i]),
        run_a[i].output() == run_b[i].output(),
    decreases i,
{
    if i > 0 {
        lemma_runs_stay_alike(run_a, run_b, events_a, events_b, i - 1);
        assert(events_a[i - 1].alike(events_b[i - 1]));
        assert(run_b[i - 1].advances(events_b[i - 1], run_b[i - 1 + 1]));
        lemma_alike_steps_stay_alike(
            run_a[i - 1],
            run_b[i - 1],
            events_a[i - 1],
            events_b[i - 1],
            run_a[i - 1 + 1],
            run_b[i - 1 + 1],
        );
    }
}

} // verus!
