//! Whole runs of the driver: the actions that a script of events draws from
//! it, and the state it is left in.

use vstd::prelude::*;
use crate::driver::{
    expects, is_terminal, step, step_model, Action, ActionView, AdvanceRequest,
    AdvanceRequestView, DriverState, Event, EventView,
};
use crate::encoder::ENCODING_OVERHEAD;
use crate::registry::CallbackRegistry;

verus! {

/// The state after the driver, starting in `state`, has been handed `events`
/// one by one. Events that follow the end of the advance are not looked at.
pub open spec fn state_after(
    state: DriverState,
    events: Seq<EventView>,
    request: AdvanceRequestView,
    registered: Set<u32>,
) -> DriverState
    decreases events.len(),
{
    if events.len() == 0 || state == DriverState::Terminal {
        state
    } else {
        state_after(
            step_model(state, events[0], request, registered).0,
            events.drop_first(),
            request,
            registered,
        )
    }
}

/// The actions that the driver, starting in `state`, answers `events` with,
/// in order: one for each event up to the end of the advance.
pub open spec fn trace_of(
    state: DriverState,
    events: Seq<EventView>,
    request: AdvanceRequestView,
    registered: Set<u32>,
) -> Seq<ActionView>
    decreases events.len(),
{
    if events.len() == 0 || state == DriverState::Terminal {
        Seq::empty()
    } else {
        let next = step_model(state, events[0], request, registered);
        seq![next.1] + trace_of(next.0, events.drop_first(), request, registered)
    }
}

/// Whether each event of the script is of the shape that the driver waits
/// for when it arrives, and none arrives after the advance is over.
pub open spec fn admissible(
    state: DriverState,
    events: Seq<EventView>,
    request: AdvanceRequestView,
    registered: Set<u32>,
) -> bool
    decreases events.len(),
{
    events.len() == 0 || (expects(state, events[0]) && admissible(
        step_model(state, events[0], request, registered).0,
        events.drop_first(),
        request,
        registered,
    ))
}

/// The events of a script, each by its view.
pub open spec fn event_views(events: Seq<Event>) -> Seq<EventView> {
    events.map_values(|e: Event| e@)
}

/// The actions of a trace, each by its view.
pub open spec fn action_views(actions: Seq<Action>) -> Seq<ActionView> {
    actions.map_values(|a: Action| a@)
}

/// Runs the driver from `state` over a script of events and hands out the
/// state it ends in with the actions it answered, in order. The run stops at
/// the end of the script or of the advance, whichever comes first.
pub fn replay<S, A>(
    state: DriverState,
    events: Vec<Event>,
    request: &AdvanceRequest,
    registry: &CallbackRegistry<S, A>,
) -> (run: (DriverState, Vec<Action>))
    requires
        request.payload.len() + ENCODING_OVERHEAD <= usize::MAX,
    ensures
        run.0 == state_after(state, event_views(events@), request@, registry.registered()),
        action_views(run.1@) == trace_of(
            state,
            event_views(events@),
            request@,
            registry.registered(),
        ),
{
    let ghost request_view = request@;
    let ghost registered = registry.registered();
    let ghost script = event_views(events@);
    let mut events = events;
    let mut current = state;
    let mut trace: Vec<Action> = Vec::new();
    assert(action_views(trace@) =~= Seq::<ActionView>::empty());
    while events.len() > 0 && !is_terminal(current)
        invariant
            request.payload.len() + ENCODING_OVERHEAD <= usize::MAX,
            request_view == request@,
            registered == registry.registered(),
            state_after(state, script, request_view, registered) == state_after(
                current,
                event_views(events@),
                request_view,
                registered,
            ),
            trace_of(state, script, request_view, registered) == action_views(trace@) + trace_of(
                current,
                event_views(events@),
                request_view,
                registered,
            ),
        decreases events.len(),
    {
        let ghost before = event_views(events@);
        let ghost done = action_views(trace@);
        let event = events.remove(0);
        assert(event@ == before[0]);
        assert(event_views(events@) =~= before.drop_first());
        let next = step(current, event, request, registry);
        current = next.0;
        trace.push(next.1);
        assert(action_views(trace@) =~= done + seq![next.1@]);
        let ghost rest = trace_of(current, event_views(events@), request_view, registered);
        assert(done + (seq![next.1@] + rest) =~= action_views(trace@) + rest);
    }
    assert(trace_of(current, event_views(events@), request_view, registered) =~= Seq::<
        ActionView,
    >::empty());
    assert(action_views(trace@) + Seq::<ActionView>::empty() =~= action_views(trace@));
    (current, trace)
}

} // verus!
