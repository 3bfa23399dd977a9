//! What holds of a session over any course of events.
//!
//! A session, once started, sees buffers arrive at the capture sink, requests
//! to stop from the control thread, the watchdog ending it or refreshing the
//! time of its last activity, and its stream being torn down, in any order
//! and number. The theorems here speak of every such course.

use vstd::prelude::*;
use crate::audio::{RecorderState, SinkStep};
use crate::watchdog::{tick_decision, TickOutcome, WARMUP_SECS};

verus! {

/// One thing that happens to a running session.
pub enum Event {
    /// A buffer arrives at the capture sink at `now_secs`; `active` tells
    /// whether it counts as activity.
    Buffer { active: bool, now_secs: u64 },
    /// The control thread asks to stop.
    Stop,
    /// The watchdog ends the session, for its duration or for silence.
    WatchdogStop,
    /// The watchdog refreshes the time of the last activity at `now_secs`.
    WatchdogRefresh { now_secs: u64 },
    /// The stream is torn down.
    StreamClosed,
}

/// The state after one event.
pub open spec fn apply(state: RecorderState, event: Event) -> RecorderState {
    match event {
        Event::Buffer { active, now_secs } => state.after_buffer(active, now_secs),
        Event::Stop => state.stopped(),
        Event::WatchdogStop => state.halted(),
        Event::WatchdogRefresh { now_secs } => state.refreshed(now_secs),
        Event::StreamClosed => state.after_teardown(),
    }
}

/// The state after a course of events.
pub open spec fn run(state: RecorderState, events: Seq<Event>) -> RecorderState
    decreases events.len(),
{
    if events.len() == 0 {
        state
    } else {
        apply(run(state, events.drop_last()), events.last())
    }
}

/// Whether the event closes the writer when it happens in this state.
pub open spec fn finalizes(state: RecorderState, event: Event) -> bool {
    match event {
        Event::Buffer { .. } => state.sink_step() == SinkStep::Finalize,
        Event::StreamClosed => state.teardown_step() == SinkStep::Finalize,
        _ => false,
    }
}

/// How often the writer is closed in a course of events.
pub open spec fn finalize_count(state: RecorderState, events: Seq<Event>) -> nat
    decreases events.len(),
{
    if events.len() == 0 {
        0
    } else {
        let before = run(state, events.drop_last());
        finalize_count(state, events.drop_last()) + if finalizes(before, events.last()) {
            1nat
        } else {
            0nat
        }
    }
}

/// 1 for an open writer, 0 for a closed one.
pub open spec fn open_writers(state: RecorderState) -> nat {
    if state.writer_open {
        1
    } else {
        0
    }
}

/// Whether every event of the course is a buffer.
pub open spec fn only_buffers(events: Seq<Event>) -> bool {
    forall|i: int| 0 <= i < events.len() ==> (#[trigger] events[i]) is Buffer
}

/// The state stays well formed over every course of events.
pub proof fn lemma_run_keeps_wf(state: RecorderState, events: Seq<Event>)
    requires
        state.wf(),
    ensures
        run(state, events).wf(),
    decreases events.len(),
{
    if events.len() > 0 {
        lemma_run_keeps_wf(state, events.drop_last());
    }
}

/// No event brings an ended session back: once the flag is clear it stays
/// clear.
pub proof fn lemma_ended_stays_ended(state: RecorderState, events: Seq<Event>)
    requires
        !state.recording,
    ensures
        !run(state, events).recording,
    decreases events.len(),
{
    if events.len() > 0 {
        lemma_ended_stays_ended(state, events.drop_last());
    }
}

/// A course of events can be cut in two: what the second part does starts
/// from where the first part ended.
pub proof fn lemma_run_split(state: RecorderState, events: Seq<Event>, at: int)
    requires
        0 <= at <= events.len(),
    ensures
        run(state, events) == run(
            run(state, events.subrange(0, at)),
            events.subrange(at, events.len() as int),
        ),
        finalize_count(state, events) == finalize_count(state, events.subrange(0, at))
            + finalize_count(
            run(state, events.subrange(0, at)),
            events.subrange(at, events.len() as int),
        ),
    decreases events.len() - at,
{
    let head = events.subrange(0, at);
    let tail = events.subrange(at, events.len() as int);
    if at == events.len() {
        assert(head =~= events);
        assert(tail.len() == 0);
    } else {
        lemma_run_split(state, events.drop_last(), at);
        assert(events.drop_last().subrange(0, at) =~= head);
        assert(events.drop_last().subrange(at, events.len() - 1) =~= tail.drop_last());
        assert(tail.last() == events.last());
    }
}

/// The writer of a session is closed once at most, however stop requests,
/// the watchdog and the buffers interleave: each closing takes one open
/// writer away, and nothing opens one.
pub proof fn lemma_finalize_at_most_once(state: RecorderState, events: Seq<Event>)
    requires
        state.wf(),
    ensures
        finalize_count(state, events) + open_writers(run(state, events)) == open_writers(state),
        finalize_count(state, events) <= 1,
    decreases events.len(),
{
    if events.len() > 0 {
        lemma_finalize_at_most_once(state, events.drop_last());
        lemma_run_keeps_wf(state, events.drop_last());
    }
}

/// The writer of a session is closed exactly once as soon as a buffer
/// arrives, or the stream is torn down, after the session was ended, by a
/// stop request or by the watchdog, whatever else happens before, between and
/// after the two.
pub proof fn lemma_finalize_exactly_once(
    state: RecorderState,
    events: Seq<Event>,
    ended_at: int,
    buffer_at: int,
)
    requires
        state.wf(),
        state.writer_open,
        0 <= ended_at < buffer_at < events.len(),
        events[ended_at] is Stop || events[ended_at] is WatchdogStop,
        events[buffer_at] is Buffer || events[buffer_at] is StreamClosed,
    ensures
        finalize_count(state, events) == 1,
        !run(state, events).writer_open,
{
    let upto_end = events.subrange(0, ended_at + 1);
    let upto_buffer = events.subrange(0, buffer_at + 1);
    let between = upto_buffer.drop_last().subrange(ended_at + 1, buffer_at);
    // After the ending event the flag is clear, and it stays so until the buffer.
    assert(upto_end.drop_last() =~= events.subrange(0, ended_at));
    assert(upto_end.last() == events[ended_at]);
    assert(!run(state, upto_end).recording);
    lemma_run_split(state, upto_buffer.drop_last(), ended_at + 1);
    assert(upto_buffer.drop_last().subrange(0, ended_at + 1) =~= upto_end);
    lemma_ended_stays_ended(run(state, upto_end), between);
    let before_buffer = run(state, upto_buffer.drop_last());
    assert(!before_buffer.recording);
    // So the buffer finds the writer closed already, or closes it.
    assert(upto_buffer.last() == events[buffer_at]);
    assert(!run(state, upto_buffer).writer_open);
    lemma_finalize_at_most_once(state, upto_buffer);
    // Nothing opens it again.
    lemma_run_split(state, events, buffer_at + 1);
    lemma_run_keeps_wf(state, upto_buffer);
    lemma_finalize_at_most_once(
        run(state, upto_buffer),
        events.subrange(buffer_at + 1, events.len() as int),
    );
}

/// Over every sequence of buffers of a recording session, each buffer sets
/// the time of the last activity to its own time if it counts as activity,
/// and leaves it as it was if not.
pub proof fn lemma_activity_follows_buffers(state: RecorderState, buffers: Seq<Event>, i: int)
    requires
        state.recording,
        only_buffers(buffers),
        0 <= i < buffers.len(),
    ensures
        run(state, buffers.take(i + 1)).last_active == if buffers[i]->active {
            buffers[i]->Buffer_now_secs
        } else {
            run(state, buffers.take(i)).last_active
        },
        run(state, buffers.take(i + 1)).recording,
{
    lemma_buffers_keep_recording(state, buffers.take(i));
    assert(buffers.take(i + 1).drop_last() =~= buffers.take(i));
    assert(buffers.take(i + 1).last() == buffers[i]);
}

/// Buffers alone never end a session.
pub proof fn lemma_buffers_keep_recording(state: RecorderState, buffers: Seq<Event>)
    requires
        state.recording,
        only_buffers(buffers),
    ensures
        run(state, buffers).recording,
    decreases buffers.len(),
{
    if buffers.len() > 0 {
        lemma_buffers_keep_recording(state, buffers.drop_last());
    }
}

/// During the warm-up every tick of a watchdog with silence detection on
/// refreshes the time of the last activity, whatever was heard; after it no
/// tick does.
pub proof fn lemma_warmup_always_refreshes(
    elapsed_secs: u64,
    now_secs: u64,
    last_active_secs: u64,
)
    ensures
        tick_decision(elapsed_secs, false, now_secs, last_active_secs) is Refresh <==> elapsed_secs
            < WARMUP_SECS,
{
}

/// After a stop, a second stop finds no session: it returns no path and
/// changes nothing, the writer included.
pub proof fn lemma_second_stop_does_nothing(state: RecorderState)
    ensures
        state.stopped().stop_result() is None,
        state.stopped().stopped() == state.stopped(),
        state.stopped().writer_open == state.writer_open,
{
}

/// The time carried by an event, if it carries one.
pub open spec fn event_time(event: Event) -> Option<u64> {
    match event {
        Event::Buffer { now_secs, .. } => Some(now_secs),
        Event::WatchdogRefresh { now_secs } => Some(now_secs),
        _ => None,
    }
}

/// While the clock that the events read does not run backwards, the time of
/// the last activity does not either.
pub proof fn lemma_last_activity_is_monotonic(state: RecorderState, events: Seq<Event>)
    requires
        forall|i: int|
            0 <= i < events.len() ==> (event_time(#[trigger] events[i]) matches Some(t) ==> t
                >= state.last_active),
    ensures
        run(state, events).last_active >= state.last_active,
    decreases events.len(),
{
    if events.len() > 0 {
        assert forall|i: int| 0 <= i < events.drop_last().len() implies (event_time(
            #[trigger] events.drop_last()[i],
        ) matches Some(t) ==> t >= state.last_active) by {
            assert(events.drop_last()[i] == events[i]);
        }
        lemma_last_activity_is_monotonic(state, events.drop_last());
        let last = events[events.len() - 1];
        assert(event_time(last) matches Some(t) ==> t >= state.last_active);
    }
}

/// Whether the event writes samples when it happens in this state.
pub open spec fn writes(state: RecorderState, event: Event) -> bool {
    event is Buffer && state.sink_step() == SinkStep::Write
}

/// Once a session is over, nothing is written any more, whatever follows.
pub proof fn lemma_no_write_after_end(state: RecorderState, events: Seq<Event>, i: int)
    requires
        !state.recording,
        0 <= i < events.len(),
    ensures
        !writes(run(state, events.take(i)), events[i]),
{
    lemma_ended_stays_ended(state, events.take(i));
}

/// For the flag, the writer and the capture sink, a session that the
/// watchdog ends is ended as by a request to stop.
pub proof fn lemma_watchdog_stop_is_a_stop(state: RecorderState)
    ensures
        !state.halted().recording,
        !state.stopped().recording,
        state.halted().writer_open == state.stopped().writer_open,
        state.halted().last_active == state.stopped().last_active,
        state.halted().sink_step() == state.stopped().sink_step(),
        state.halted().teardown_step() == state.stopped().teardown_step(),
{
}

/// A session stays as it was created until a request to stop discards it:
/// no buffer, no act of the watchdog and no teardown changes it.
pub proof fn lemma_session_is_immutable(state: RecorderState, events: Seq<Event>)
    requires
        forall|i: int| 0 <= i < events.len() ==> !((#[trigger] events[i]) is Stop),
    ensures
        run(state, events).session == state.session,
    decreases events.len(),
{
    if events.len() > 0 {
        assert forall|i: int| 0 <= i < events.drop_last().len() implies !((
        #[trigger] events.drop_last()[i]) is Stop) by {
            assert(events.drop_last()[i] == events[i]);
        }
        lemma_session_is_immutable(state, events.drop_last());
        assert(!(events[events.len() - 1] is Stop));
    }
}

/// A request to stop discards the session that records and returns its
/// output file.
pub proof fn lemma_stop_discards_the_session(state: RecorderState)
    requires
        state.wf(),
        state.recording,
    ensures
        state.stopped().session is None,
        state.stop_result() == Some(state.session->0.output_file),
{
}

} // verus!
