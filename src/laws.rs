//! Laws of the ride lifecycle, over every ride and every sequence of events.

use vstd::prelude::*;

use crate::ride::{is_edge, is_terminal, run, RideError, RideEvent, RideState, RideView};

verus! {

/// An accepted event moves the ride along an edge of the lifecycle or keeps
/// its state; a settled or disputed ride accepts no event at all.
pub proof fn lemma_transitions_follow_edges(v: RideView, e: RideEvent)
    ensures
        v.next(e) matches Ok(n) ==> n.state == v.state || is_edge(v.state, n.state),
        is_terminal(v.state) ==> v.next(e) is Err,
{
}

/// Once assigned, the driver and the start time stay as they are through any
/// event, and another attempt to set them is rejected as a conflict.
pub proof fn lemma_single_write_fields(v: RideView, e: RideEvent)
    ensures
        v.driver is Some ==> v.after(e).driver == v.driver,
        v.start_time is Some ==> v.after(e).start_time == v.start_time,
        v.driver is Some ==> (e matches RideEvent::PassengerAccepted(_) ==> v.next(e) == Err::<
            RideView,
            RideError,
        >(RideError::DriverAlreadyAssigned)),
        v.start_time is Some ==> (e matches RideEvent::DriverArrived(_) ==> v.next(e) == Err::<
            RideView,
            RideError,
        >(RideError::StartTimeAlreadySet)),
{
}

/// Once assigned, the driver and the start time stay as they are through
/// any sequence of events.
pub proof fn lemma_single_write_fields_run(v: RideView, events: Seq<RideEvent>)
    ensures
        v.driver is Some ==> run(v, events).driver == v.driver,
        v.start_time is Some ==> run(v, events).start_time == v.start_time,
    decreases events.len(),
{
    if events.len() > 0 {
        lemma_single_write_fields(v, events[0]);
        lemma_single_write_fields_run(v.after(events[0]), events.drop_first());
    }
}

/// The presence log is only appended to, and only while the trip is in
/// progress: an event that lengthens it finds and leaves the ride in
/// progress.
pub proof fn lemma_log_append_only(v: RideView, e: RideEvent)
    ensures
        v.after(e).log.len() >= v.log.len(),
        v.after(e).log.subrange(0, v.log.len() as int) == v.log,
        v.after(e).log.len() > v.log.len() ==> v.state is InProgress && v.after(e).state
            is InProgress,
{
    assert(v.log.push(seq![]).subrange(0, v.log.len() as int) =~= v.log);
    assert(v.log.subrange(0, v.log.len() as int) =~= v.log);
    match e {
        RideEvent::PresenceToken(t) => {
            assert(v.log.push(t@).subrange(0, v.log.len() as int) =~= v.log);
        },
        _ => {},
    }
}

/// Over any sequence of events the presence log never shrinks and keeps
/// what it held.
pub proof fn lemma_log_append_only_run(v: RideView, events: Seq<RideEvent>)
    ensures
        run(v, events).log.len() >= v.log.len(),
        run(v, events).log.subrange(0, v.log.len() as int) == v.log,
    decreases events.len(),
{
    if events.len() == 0 {
        assert(v.log.subrange(0, v.log.len() as int) =~= v.log);
    } else {
        let w = v.after(events[0]);
        lemma_log_append_only(v, events[0]);
        lemma_log_append_only_run(w, events.drop_first());
        let f = run(w, events.drop_first()).log;
        assert(f.subrange(0, v.log.len() as int) =~= f.subrange(0, w.log.len() as int).subrange(
            0,
            v.log.len() as int,
        ));
    }
}

/// Every state the lifecycle reaches is well formed.
pub proof fn lemma_events_preserve_wf(v: RideView, e: RideEvent)
    requires
        v.wf(),
    ensures
        v.after(e).wf(),
{
}

/// Every state reached by a sequence of events from a well-formed ride is
/// well formed.
pub proof fn lemma_run_preserves_wf(v: RideView, events: Seq<RideEvent>)
    requires
        v.wf(),
    ensures
        run(v, events).wf(),
    decreases events.len(),
{
    if events.len() > 0 {
        lemma_events_preserve_wf(v, events[0]);
        lemma_run_preserves_wf(v.after(events[0]), events.drop_first());
    }
}

/// Of two attempts to assign a driver to a ride with an offer pending,
/// exactly the first succeeds and the second is rejected as a conflict.
pub proof fn lemma_driver_assigned_once(v: RideView, first: Seq<char>, second: Seq<char>)
    requires
        v.state is Offered,
        v.driver is None,
    ensures
        v.accept(first) is Ok,
        v.accept(first)->Ok_0.driver == Some(first),
        v.accept(first)->Ok_0.accept(second) == Err::<RideView, RideError>(
            RideError::DriverAlreadyAssigned,
        ),
{
}

} // verus!
