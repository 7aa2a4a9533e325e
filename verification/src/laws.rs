//! What holds of every run of the driver and of every encoded input.

use vstd::prelude::*;
use crate::driver::{
    classify_model, expects, load_action, start_model, step_model, ActionView, AdvanceRequestView,
    DriverState, EventView, Handler,
};
use crate::encoder::{
    byte_of, call_header, call_tail, evm_advance_call, evm_advance_input, word, zeros,
};
use crate::lambda_state::binding_of;
use crate::outcome::{
    category_of, is_initial_accept, kind_of, outcome_of, AdvanceError, ResponseCategory,
    YieldEventView, YieldKind,
};
use crate::replay::{admissible, state_after, trace_of};

verus! {

/// Whether a state lies behind the opening of the advance: the preparation
/// is done and the first yield has been answered.
pub open spec fn is_under_way(state: DriverState) -> bool {
    !(state is CloningLambdaState || state is LoadingMachine || state is MeasuringCheckpoint
        || state is BindingLambdaState || state is AwaitingInitialAccept)
}

/// Whether an action ends the advance.
pub open spec fn is_final(action: ActionView) -> bool {
    action is Complete || action is Abort
}

/// Whether an action invokes the finish handler.
pub open spec fn invokes_finish(action: ActionView) -> bool {
    action is Invoke && action->handler == Handler::Finish
}

/// Whether an action invokes a registered callback.
pub open spec fn serves(action: ActionView) -> bool {
    action is Invoke && action->handler == Handler::Registered
}

/// How often a trace invokes the finish handler.
pub open spec fn finish_invocations(trace: Seq<ActionView>) -> nat
    decreases trace.len(),
{
    if trace.len() == 0 {
        0
    } else {
        (if invokes_finish(trace[0]) { 1nat } else { 0nat }) + finish_invocations(
            trace.drop_first(),
        )
    }
}

/// The handler invocations of a trace, in order.
pub open spec fn invocations(trace: Seq<ActionView>) -> Seq<ActionView>
    decreases trace.len(),
{
    if trace.len() == 0 {
        Seq::empty()
    } else {
        (if trace[0] is Invoke { seq![trace[0]] } else { Seq::empty() }) + invocations(
            trace.drop_first(),
        )
    }
}

/// The handler invocations that the yields among `events` are owed, in the
/// order of the yields: for each yield that has a handler, the invocation of
/// that handler with the yield's reason and bytes.
pub open spec fn owed(events: Seq<EventView>, registered: Set<u32>) -> Seq<ActionView>
    decreases events.len(),
{
    if events.len() == 0 {
        Seq::empty()
    } else {
        (match events[0] {
            EventView::Yielded(y) => if classify_model(y, registered).1 is Invoke {
                seq![classify_model(y, registered).1]
            } else {
                Seq::empty()
            },
            _ => Seq::empty(),
        }) + owed(events.drop_first(), registered)
    }
}

proof fn lemma_run_ends_once(
    state: DriverState,
    events: Seq<EventView>,
    request: AdvanceRequestView,
    registered: Set<u32>,
)
    ensures
        ({
            let t = trace_of(state, events, request, registered);
            let s = state_after(state, events, request, registered);
            &&& t.len() <= events.len()
            &&& forall|i: int| 0 <= i < t.len() - 1 ==> !is_final(#[trigger] t[i])
            &&& (s == DriverState::Terminal) <==> (state == DriverState::Terminal || (t.len() > 0
                && is_final(t.last())))
            &&& finish_invocations(t) <= (if state is Finishing || state is Terminal {
                0nat
            } else {
                1nat
            })
            &&& (t.len() > 0 && t.last() is Complete) ==> finish_invocations(t) + (if state
                is Finishing {
                1nat
            } else {
                0nat
            }) == 1
        }),
    decreases events.len(),
{
    let t = trace_of(state, events, request, registered);
    if events.len() == 0 || state == DriverState::Terminal {
        assert(t.len() == 0);
    } else {
        let next = step_model(state, events[0], request, registered);
        let rest = trace_of(next.0, events.drop_first(), request, registered);
        lemma_run_ends_once(next.0, events.drop_first(), request, registered);
        assert(t =~= seq![next.1] + rest);
        assert(t.drop_first() =~= rest);
        assert(t[0] == next.1);
        assert forall|i: int| 0 <= i < t.len() - 1 implies !is_final(#[trigger] t[i]) by {
            if i > 0 {
                assert(t[i] == rest[i - 1]);
            }
        }
        if rest.len() > 0 {
            assert(t.last() == rest.last());
        }
    }
}

/// Every run ends at most once, and a run that completes has told the finish
/// handler exactly once. Of a run from the start of an advance, whatever the
/// script: no action but the last ends the advance; the driver is in its
/// terminal state exactly when the last action ended the advance; the finish
/// handler is invoked at most once, and exactly once where the run completes
/// with an outcome.
pub proof fn law_single_outcome(
    events: Seq<EventView>,
    request: AdvanceRequestView,
    registered: Set<u32>,
)
    ensures
        ({
            let t = trace_of(start_model(request).0, events, request, registered);
            let s = state_after(start_model(request).0, events, request, registered);
            &&& forall|i: int| 0 <= i < t.len() - 1 ==> !is_final(#[trigger] t[i])
            &&& (s == DriverState::Terminal) <==> (t.len() > 0 && is_final(t.last()))
            &&& finish_invocations(t) <= 1
            &&& (t.len() > 0 && t.last() is Complete) ==> finish_invocations(t) == 1
        }),
{
    lemma_run_ends_once(start_model(request).0, events, request, registered);
}

proof fn lemma_first_step(
    state: DriverState,
    events: Seq<EventView>,
    request: AdvanceRequestView,
    registered: Set<u32>,
)
    requires
        events.len() > 0,
        state != DriverState::Terminal,
    ensures
        trace_of(state, events, request, registered) == seq![
            step_model(state, events[0], request, registered).1,
        ] + trace_of(
            step_model(state, events[0], request, registered).0,
            events.drop_first(),
            request,
            registered,
        ),
        state_after(state, events, request, registered) == state_after(
            step_model(state, events[0], request, registered).0,
            events.drop_first(),
            request,
            registered,
        ),
{
}

/// The events that take the driver through the preparation where nothing
/// fails: with a lambda state the working file is made (reflinked, or copied
/// in `copied` bytes), the machine is loaded, the checkpoint is found to have
/// `size` bytes, and the working file is bound; without one the machine is
/// loaded.
pub open spec fn preparation_events(
    request: AdvanceRequestView,
    copied: Option<u64>,
    size: u64,
) -> Seq<EventView> {
    if request.lambda_state_paths is Some {
        seq![
            EventView::Cloned(copied),
            EventView::Done,
            EventView::Measured(size),
            EventView::Done,
        ]
    } else {
        seq![EventView::Done]
    }
}

/// The actions that answer [`preparation_events`]: the last of them reads
/// the first yield, and with a lambda state the one before it binds the
/// working file at the reserved address with exactly the measured size.
pub open spec fn preparation_actions(request: AdvanceRequestView, size: u64) -> Seq<ActionView> {
    match request.lambda_state_paths {
        Some(paths) => seq![
            load_action(request),
            ActionView::MeasureCheckpoint { path: paths.previous },
            ActionView::BindLambdaState(binding_of(paths, size)),
            ActionView::ReceiveYield,
        ],
        None => seq![ActionView::ReceiveYield],
    }
}

/// The preparation comes first, and the machine sees the lambda state before
/// any input reaches it. Where nothing fails, a run from the start of an
/// advance answers the events of the preparation with its actions, ends the
/// preparation by reading the first yield, and goes on from there with the
/// rest of the script.
pub proof fn law_preparation_comes_first(
    request: AdvanceRequestView,
    copied: Option<u64>,
    size: u64,
    rest: Seq<EventView>,
    registered: Set<u32>,
)
    ensures
        trace_of(
            start_model(request).0,
            preparation_events(request, copied, size) + rest,
            request,
            registered,
        ) == preparation_actions(request, size) + trace_of(
            DriverState::AwaitingInitialAccept,
            rest,
            request,
            registered,
        ),
        state_after(
            start_model(request).0,
            preparation_events(request, copied, size) + rest,
            request,
            registered,
        ) == state_after(DriverState::AwaitingInitialAccept, rest, request, registered),
{
    let events = preparation_events(request, copied, size) + rest;
    let tail = trace_of(DriverState::AwaitingInitialAccept, rest, request, registered);
    let e1 = events.drop_first();
    match request.lambda_state_paths {
        Some(paths) => {
            let e2 = e1.drop_first();
            let e3 = e2.drop_first();
            let e4 = e3.drop_first();
            assert(events[0] == EventView::Cloned(copied));
            assert(e1[0] == EventView::Done);
            assert(e2[0] == EventView::Measured(size));
            assert(e3[0] == EventView::Done);
            assert(e4 =~= rest);
            lemma_first_step(DriverState::CloningLambdaState, events, request, registered);
            lemma_first_step(DriverState::LoadingMachine, e1, request, registered);
            lemma_first_step(DriverState::MeasuringCheckpoint, e2, request, registered);
            lemma_first_step(DriverState::BindingLambdaState, e3, request, registered);
            assert(seq![load_action(request)] + (seq![
                ActionView::MeasureCheckpoint { path: paths.previous },
            ] + (seq![ActionView::BindLambdaState(binding_of(paths, size))] + (seq![
                ActionView::ReceiveYield,
            ] + tail))) =~= preparation_actions(request, size) + tail);
        },
        None => {
            assert(events[0] == EventView::Done);
            assert(e1 =~= rest);
            lemma_first_step(DriverState::LoadingMachine, events, request, registered);
        },
    }
}

/// A machine that is not ready is never run. Where the first yield is not
/// the manual yield of a machine ready for input, the whole run consists of
/// the preparation and the one action that reports the protocol violation
/// with the yield's reason: nothing is sent, no handler is invoked and the
/// machine is not resumed, whatever the script goes on with.
pub proof fn law_unready_machine_is_never_run(
    request: AdvanceRequestView,
    copied: Option<u64>,
    size: u64,
    y: YieldEventView,
    rest: Seq<EventView>,
    registered: Set<u32>,
)
    requires
        !is_initial_accept(y.class, y.reason),
    ensures
        trace_of(
            start_model(request).0,
            preparation_events(request, copied, size) + (seq![EventView::Yielded(y)] + rest),
            request,
            registered,
        ) == preparation_actions(request, size) + seq![
            ActionView::Abort(AdvanceError::ProtocolViolation(y.reason)),
        ],
        forall|i: int|
            0 <= i < preparation_actions(request, size).len() ==> {
                let action = #[trigger] preparation_actions(request, size)[i];
                action != ActionView::Resume && !(action is SendResponse) && !(action is Invoke)
            },
{
    let script = seq![EventView::Yielded(y)] + rest;
    law_preparation_comes_first(request, copied, size, script, registered);
    law_first_yield_must_accept(y, script, request, registered);
}

/// A working file that cannot be made is fatal: the run from the start ends
/// with the one action that reports the failure, before the machine is even
/// loaded.
pub proof fn law_clone_failure_is_fatal(
    request: AdvanceRequestView,
    events: Seq<EventView>,
    registered: Set<u32>,
)
    requires
        request.lambda_state_paths is Some,
        events.len() >= 1,
        events[0] == EventView::CloneFailed,
    ensures
        trace_of(start_model(request).0, events, request, registered) == seq![
            ActionView::Abort(AdvanceError::IoError),
        ],
        state_after(start_model(request).0, events, request, registered)
            == DriverState::Terminal,
{
    lemma_first_step(DriverState::CloningLambdaState, events, request, registered);
    assert(trace_of(DriverState::Terminal, events.drop_first(), request, registered)
        =~= Seq::empty());
    assert(trace_of(DriverState::CloningLambdaState, events, request, registered) =~= seq![
        ActionView::Abort(AdvanceError::IoError),
    ]);
}

/// The handler that a yield of a given kind is owed.
pub open spec fn handler_for(kind: YieldKind) -> Handler {
    match kind {
        YieldKind::Report => Handler::Report,
        YieldKind::Output => Handler::Output,
        YieldKind::Accepted | YieldKind::Rejected | YieldKind::Exception => Handler::Finish,
        YieldKind::OtherAutomatic | YieldKind::GenericIo => Handler::Registered,
    }
}

/// An invocation carries the yield that caused it: where a yield is answered
/// by the invocation of a handler, it is the handler of the yield's kind,
/// under the yield's reason, with the yield's bytes, or with none for a
/// rejected input. A yield is answered otherwise only where its handler
/// would be a registered callback and none is registered under its reason.
pub proof fn law_invocation_carries_the_yield(y: YieldEventView, registered: Set<u32>)
    ensures
        ({
            let kind = kind_of(y.class, y.reason);
            let answer = classify_model(y, registered).1;
            &&& answer is Invoke ==> answer == (ActionView::Invoke {
                handler: handler_for(kind),
                reason: y.reason,
                data: if kind == YieldKind::Rejected {
                    Seq::empty()
                } else {
                    y.data
                },
            })
            &&& !(answer is Invoke) <==> handler_for(kind) == Handler::Registered
                && !registered.contains(y.reason as u32)
            &&& !(answer is Invoke) ==> answer is Abort
        }),
{
}

/// A first yield that is not the manual yield of a machine ready for input
/// aborts the advance at once: the run consists of the one action that
/// reports the protocol violation with the yield's reason, so the machine is
/// never resumed and nothing is sent to it.
pub proof fn law_first_yield_must_accept(
    y: YieldEventView,
    events: Seq<EventView>,
    request: AdvanceRequestView,
    registered: Set<u32>,
)
    requires
        events.len() > 0,
        events[0] == EventView::Yielded(y),
        !is_initial_accept(y.class, y.reason),
    ensures
        trace_of(DriverState::AwaitingInitialAccept, events, request, registered) == seq![
            ActionView::Abort(AdvanceError::ProtocolViolation(y.reason)),
        ],
        state_after(DriverState::AwaitingInitialAccept, events, request, registered)
            == DriverState::Terminal,
        forall|i: int|
            0 <= i < trace_of(DriverState::AwaitingInitialAccept, events, request, registered).len()
                ==> #[trigger] trace_of(
                DriverState::AwaitingInitialAccept,
                events,
                request,
                registered,
            )[i] != ActionView::Resume,
{
    let next = step_model(DriverState::AwaitingInitialAccept, events[0], request, registered);
    assert(next.0 == DriverState::Terminal);
    assert(trace_of(next.0, events.drop_first(), request, registered) =~= Seq::empty());
    assert(state_after(next.0, events.drop_first(), request, registered) == DriverState::Terminal);
    assert(trace_of(DriverState::AwaitingInitialAccept, events, request, registered) =~= seq![
        ActionView::Abort(AdvanceError::ProtocolViolation(y.reason)),
    ]);
}

/// A generic request for which no callback is registered aborts the advance
/// with `UnknownCallback`: the run from the state that reads the yield
/// consists of that one action, so no response is sent for the yield.
pub proof fn law_unknown_callback_aborts(
    y: YieldEventView,
    events: Seq<EventView>,
    request: AdvanceRequestView,
    registered: Set<u32>,
)
    requires
        events.len() > 0,
        events[0] == EventView::Yielded(y),
        kind_of(y.class, y.reason) == YieldKind::GenericIo,
        !registered.contains(y.reason as u32),
    ensures
        trace_of(DriverState::AwaitingClassification, events, request, registered) == seq![
            ActionView::Abort(AdvanceError::UnknownCallback(y.reason)),
        ],
        state_after(DriverState::AwaitingClassification, events, request, registered)
            == DriverState::Terminal,
        forall|i: int|
            0 <= i < trace_of(DriverState::AwaitingClassification, events, request, registered).len()
                ==> !(#[trigger] trace_of(
                DriverState::AwaitingClassification,
                events,
                request,
                registered,
            )[i] is SendResponse),
{
    let next = step_model(DriverState::AwaitingClassification, events[0], request, registered);
    assert(next.0 == DriverState::Terminal);
    assert(trace_of(next.0, events.drop_first(), request, registered) =~= Seq::empty());
    assert(state_after(next.0, events.drop_first(), request, registered) == DriverState::Terminal);
    assert(trace_of(DriverState::AwaitingClassification, events, request, registered) =~= seq![
        ActionView::Abort(AdvanceError::UnknownCallback(y.reason)),
    ]);
}

proof fn lemma_resume_follows_clear(
    state: DriverState,
    events: Seq<EventView>,
    request: AdvanceRequestView,
    registered: Set<u32>,
)
    ensures
        ({
            let t = trace_of(state, events, request, registered);
            forall|i: int|
                0 <= i < t.len() && #[trigger] t[i] == ActionView::Resume ==> if i == 0 {
                    state == DriverState::ClearingFlag
                } else {
                    t[i - 1] == ActionView::ClearYieldFlag
                }
        }),
    decreases events.len(),
{
    let t = trace_of(state, events, request, registered);
    if events.len() == 0 || state == DriverState::Terminal {
        assert(t.len() == 0);
    } else {
        let next = step_model(state, events[0], request, registered);
        let rest = trace_of(next.0, events.drop_first(), request, registered);
        lemma_resume_follows_clear(next.0, events.drop_first(), request, registered);
        assert(t =~= seq![next.1] + rest);
        assert forall|i: int| 0 <= i < t.len() && #[trigger] t[i] == ActionView::Resume implies if i
            == 0 {
            state == DriverState::ClearingFlag
        } else {
            t[i - 1] == ActionView::ClearYieldFlag
        } by {
            if i > 0 {
                assert(t[i] == rest[i - 1]);
                if i > 1 {
                    assert(t[i - 1] == rest[i - 2]);
                } else {
                    assert(t[0] == next.1);
                }
            }
        }
    }
}

/// The machine is never resumed on a stale yield: in every run from the
/// start of an advance, each action that resumes the machine comes directly
/// after the action that clears the yield flag.
pub proof fn law_resume_follows_clear(
    events: Seq<EventView>,
    request: AdvanceRequestView,
    registered: Set<u32>,
)
    ensures
        ({
            let t = trace_of(start_model(request).0, events, request, registered);
            forall|i: int|
                0 <= i < t.len() && #[trigger] t[i] == ActionView::Resume ==> i > 0 && t[i - 1]
                    == ActionView::ClearYieldFlag
        }),
{
    lemma_resume_follows_clear(start_model(request).0, events, request, registered);
}

proof fn lemma_invocations_follow_yields(
    state: DriverState,
    events: Seq<EventView>,
    request: AdvanceRequestView,
    registered: Set<u32>,
)
    requires
        is_under_way(state),
        admissible(state, events, request, registered),
    ensures
        trace_of(state, events, request, registered).len() == events.len(),
        invocations(trace_of(state, events, request, registered)) == owed(events, registered),
    decreases events.len(),
{
    let t = trace_of(state, events, request, registered);
    if events.len() == 0 {
        assert(t.len() == 0);
    } else {
        let next = step_model(state, events[0], request, registered);
        let rest = trace_of(next.0, events.drop_first(), request, registered);
        lemma_invocations_follow_yields(next.0, events.drop_first(), request, registered);
        assert(t =~= seq![next.1] + rest);
        assert(t.drop_first() =~= rest);
        assert(t[0] == next.1);
    }
}

/// Handlers are invoked in the order of the yields, each once. In a run from
/// the reading of the first yield, over a script that the driver takes to
/// its end, the handler invocations are, one for one and in order, those owed
/// to the yields that follow the first.
pub proof fn law_invocations_follow_yields(
    events: Seq<EventView>,
    request: AdvanceRequestView,
    registered: Set<u32>,
)
    requires
        events.len() > 0,
        admissible(DriverState::AwaitingInitialAccept, events, request, registered),
    ensures
        trace_of(DriverState::AwaitingInitialAccept, events, request, registered).len()
            == events.len(),
        invocations(trace_of(DriverState::AwaitingInitialAccept, events, request, registered))
            == owed(events.drop_first(), registered),
{
    let t = trace_of(DriverState::AwaitingInitialAccept, events, request, registered);
    let next = step_model(DriverState::AwaitingInitialAccept, events[0], request, registered);
    let rest = trace_of(next.0, events.drop_first(), request, registered);
    lemma_invocations_follow_yields(next.0, events.drop_first(), request, registered);
    assert(t =~= seq![next.1] + rest);
    assert(t.drop_first() =~= rest);
    assert(t[0] == next.1);
    assert(!(next.1 is Invoke));
    assert(invocations(t) =~= invocations(rest));
}

proof fn lemma_response_at(
    state: DriverState,
    events: Seq<EventView>,
    request: AdvanceRequestView,
    registered: Set<u32>,
    i: int,
)
    requires
        is_under_way(state),
        0 <= i < trace_of(state, events, request, registered).len(),
        trace_of(state, events, request, registered)[i] is SendResponse,
    ensures
        ({
            let t = trace_of(state, events, request, registered);
            &&& i < events.len()
            &&& events[i] == EventView::HandlerReturned(t[i]->SendResponse_data)
            &&& i == 0 ==> state is Serving && category_of(state->Serving_reason) == Some(
                t[i]->category,
            )
            &&& i > 0 ==> serves(t[i - 1]) && category_of(t[i - 1]->reason) == Some(
                t[i]->category,
            )
        }),
    decreases events.len(),
{
    let t = trace_of(state, events, request, registered);
    let next = step_model(state, events[0], request, registered);
    let rest = trace_of(next.0, events.drop_first(), request, registered);
    assert(t =~= seq![next.1] + rest);
    assert(t[0] == next.1);
    if i > 0 {
        assert(t[i] == rest[i - 1]);
        lemma_response_at(next.0, events.drop_first(), request, registered, i - 1);
        assert(events[i] == events.drop_first()[i - 1]);
        if i > 1 {
            assert(t[i - 1] == rest[i - 2]);
        }
    }
}

/// At most one response goes out for a yield, and only where one is owed.
/// In every run from the reading of the first yield, a response is either
/// the first action, which answers the opening yield with the input of the
/// advance, or it directly follows the invocation of a registered callback,
/// carries the bytes that the callback returned, and goes out under the
/// category of the yield's reason.
pub proof fn law_responses_answer_yields(
    events: Seq<EventView>,
    request: AdvanceRequestView,
    registered: Set<u32>,
)
    ensures
        ({
            let t = trace_of(DriverState::AwaitingInitialAccept, events, request, registered);
            forall|i: int|
                0 <= i < t.len() && #[trigger] t[i] is SendResponse ==> if i == 0 {
                    t[0] == (ActionView::SendResponse {
                        category: ResponseCategory::Advance,
                        data: evm_advance_input(request.payload),
                    })
                } else {
                    &&& serves(t[i - 1])
                    &&& category_of(t[i - 1]->reason) == Some(t[i]->category)
                    &&& events[i] == EventView::HandlerReturned(t[i]->SendResponse_data)
                }
        }),
{
    let state = DriverState::AwaitingInitialAccept;
    let t = trace_of(state, events, request, registered);
    assert forall|i: int| 0 <= i < t.len() && #[trigger] t[i] is SendResponse implies if i == 0 {
        t[0] == (ActionView::SendResponse {
            category: ResponseCategory::Advance,
            data: evm_advance_input(request.payload),
        })
    } else {
        &&& serves(t[i - 1])
        &&& category_of(t[i - 1]->reason) == Some(t[i]->category)
        &&& events[i] == EventView::HandlerReturned(t[i]->SendResponse_data)
    } by {
        let next = step_model(state, events[0], request, registered);
        let rest = trace_of(next.0, events.drop_first(), request, registered);
        assert(t =~= seq![next.1] + rest);
        assert(t[0] == next.1);
        if i > 0 {
            assert(t[i] == rest[i - 1]);
            lemma_response_at(next.0, events.drop_first(), request, registered, i - 1);
            assert(events[i] == events.drop_first()[i - 1]);
            if i > 1 {
                assert(t[i - 1] == rest[i - 2]);
            }
        }
    }
}

/// What may follow the invocation of a handler: the end of the advance, the
/// clearing of the yield flag, or a response.
pub open spec fn settles(action: ActionView) -> bool {
    is_final(action) || action == ActionView::ClearYieldFlag || action is SendResponse
}

proof fn lemma_yield_at(
    state: DriverState,
    events: Seq<EventView>,
    request: AdvanceRequestView,
    registered: Set<u32>,
    i: int,
)
    requires
        is_under_way(state),
        admissible(state, events, request, registered),
        0 <= i < trace_of(state, events, request, registered).len(),
        i < events.len(),
        events[i] is Yielded,
    ensures
        ({
            let t = trace_of(state, events, request, registered);
            t[i] is Abort || (t[i] is Invoke && t[i]->reason == events[i]->Yielded_0.reason && (i
                + 1 < t.len() ==> settles(t[i + 1])))
        }),
    decreases events.len(),
{
    let t = trace_of(state, events, request, registered);
    let next = step_model(state, events[0], request, registered);
    let rest_events = events.drop_first();
    let rest = trace_of(next.0, rest_events, request, registered);
    assert(t =~= seq![next.1] + rest);
    assert(t[0] == next.1);
    if i > 0 {
        assert(t[i] == rest[i - 1]);
        assert(events[i] == rest_events[i - 1]);
        lemma_yield_at(next.0, rest_events, request, registered, i - 1);
        if i + 1 < t.len() {
            assert(t[i + 1] == rest[i]);
        }
    } else if 1 < t.len() {
        assert(t[1] == rest[0]);
        let after = step_model(next.0, rest_events[0], request, registered);
        assert(rest =~= seq![after.1] + trace_of(
            after.0,
            rest_events.drop_first(),
            request,
            registered,
        ));
        assert(rest[0] == after.1);
    }
}

/// No yield is left unanswered. In a run from the reading of the first yield
/// over a script that the driver takes to its end, the first yield is
/// answered by the input or ends the advance; every later yield either ends
/// the advance or has its handler invoked, under the yield's own reason, and
/// what follows that invocation is the end of the advance, the clearing of
/// the yield flag, or the one response.
pub proof fn law_every_yield_is_answered(
    events: Seq<EventView>,
    request: AdvanceRequestView,
    registered: Set<u32>,
    i: int,
)
    requires
        admissible(DriverState::AwaitingInitialAccept, events, request, registered),
        0 <= i < trace_of(DriverState::AwaitingInitialAccept, events, request, registered).len(),
        i < events.len(),
        events[i] is Yielded,
    ensures
        ({
            let t = trace_of(DriverState::AwaitingInitialAccept, events, request, registered);
            if i == 0 {
                t[0] is Abort || t[0] is SendResponse
            } else {
                t[i] is Abort || (t[i] is Invoke && t[i]->reason == events[i]->Yielded_0.reason
                    && (i + 1 < t.len() ==> settles(t[i + 1])))
            }
        }),
{
    let state = DriverState::AwaitingInitialAccept;
    let t = trace_of(state, events, request, registered);
    let next = step_model(state, events[0], request, registered);
    let rest_events = events.drop_first();
    let rest = trace_of(next.0, rest_events, request, registered);
    assert(t =~= seq![next.1] + rest);
    assert(t[0] == next.1);
    if i > 0 {
        assert(t[i] == rest[i - 1]);
        assert(events[i] == rest_events[i - 1]);
        lemma_yield_at(next.0, rest_events, request, registered, i - 1);
        if i + 1 < t.len() {
            assert(t[i + 1] == rest[i]);
        }
    }
}

proof fn lemma_invocation_at(
    state: DriverState,
    events: Seq<EventView>,
    request: AdvanceRequestView,
    registered: Set<u32>,
    i: int,
)
    requires
        admissible(state, events, request, registered),
        0 <= i < trace_of(state, events, request, registered).len(),
        trace_of(state, events, request, registered)[i] is Invoke,
        i + 1 < events.len(),
    ensures
        events[i + 1] is HandlerReturned || events[i + 1] is HandlerFailed,
    decreases events.len(),
{
    let t = trace_of(state, events, request, registered);
    let next = step_model(state, events[0], request, registered);
    let rest_events = events.drop_first();
    let rest = trace_of(next.0, rest_events, request, registered);
    assert(t =~= seq![next.1] + rest);
    assert(t[0] == next.1);
    assert(events[i + 1] == rest_events[i]);
    if i > 0 {
        assert(t[i] == rest[i - 1]);
        lemma_invocation_at(next.0, rest_events, request, registered, i - 1);
    } else {
        assert(admissible(next.0, rest_events, request, registered));
        assert(expects(next.0, rest_events[0]));
    }
}

/// Nothing happens while a handler is pending. In a run from the start of an
/// advance over a script that the driver takes to its end, the event that follows the invocation of a
/// handler is the result of that handler: no machine primitive and no other
/// handler comes in between.
pub proof fn law_handlers_run_alone(
    events: Seq<EventView>,
    request: AdvanceRequestView,
    registered: Set<u32>,
    i: int,
)
    requires
        admissible(start_model(request).0, events, request, registered),
        0 <= i < trace_of(start_model(request).0, events, request, registered).len(),
        trace_of(start_model(request).0, events, request, registered)[i] is Invoke,
        i + 1 < events.len(),
    ensures
        events[i + 1] is HandlerReturned || events[i + 1] is HandlerFailed,
{
    lemma_invocation_at(start_model(request).0, events, request, registered, i);
}

/// The encoded call splits into a header that is the same for every payload
/// and a tail that the payload alone decides: two payloads differ only behind
/// the first 260 bytes.
pub proof fn law_header_is_fixed(digest: Seq<u8>, first: Seq<u8>, second: Seq<u8>)
    requires
        digest.len() == 32,
    ensures
        call_header(digest).len() == 260,
        evm_advance_call(digest, first).subrange(0, 260) == call_header(digest),
        evm_advance_call(digest, first).subrange(0, 260) == evm_advance_call(
            digest,
            second,
        ).subrange(0, 260),
        evm_advance_call(digest, first).subrange(
            260,
            evm_advance_call(digest, first).len() as int,
        ) == call_tail(first),
{
    assert(call_header(digest).len() == 260);
    assert(evm_advance_call(digest, first).subrange(0, 260) =~= call_header(digest));
    assert(evm_advance_call(digest, second).subrange(0, 260) =~= call_header(digest));
    assert(evm_advance_call(digest, first).subrange(
        260,
        evm_advance_call(digest, first).len() as int,
    ) =~= call_tail(first));
}

/// A word holds its number big-endian: the first 24 bytes are zero, and the
/// byte `k` places from the end is the digit of weight `256^k`.
pub proof fn law_word_is_big_endian(n: u64)
    ensures
        word(n).len() == 32,
        forall|i: int| 0 <= i < 24 ==> word(n)[i] == 0,
        word(n)[31] == n % 256,
        word(n)[30] == (n / 0x100) % 256,
        word(n)[29] == (n / 0x1_0000) % 256,
        word(n)[28] == (n / 0x100_0000) % 256,
        word(n)[27] == (n / 0x1_0000_0000) % 256,
        word(n)[26] == (n / 0x100_0000_0000) % 256,
        word(n)[25] == (n / 0x1_0000_0000_0000) % 256,
        word(n)[24] == (n / 0x100_0000_0000_0000) % 256,
{
    assert((n >> 0u64) & 0xff == n % 256) by (bit_vector);
    assert((n >> 8u64) & 0xff == (n / 0x100) % 256) by (bit_vector);
    assert((n >> 16u64) & 0xff == (n / 0x1_0000) % 256) by (bit_vector);
    assert((n >> 24u64) & 0xff == (n / 0x100_0000) % 256) by (bit_vector);
    assert((n >> 32u64) & 0xff == (n / 0x1_0000_0000) % 256) by (bit_vector);
    assert((n >> 40u64) & 0xff == (n / 0x100_0000_0000) % 256) by (bit_vector);
    assert((n >> 48u64) & 0xff == (n / 0x1_0000_0000_0000) % 256) by (bit_vector);
    assert((n >> 56u64) & 0xff == (n / 0x100_0000_0000_0000) % 256) by (bit_vector);
    assert(byte_of(n, 0) == n % 256);
    assert(byte_of(n, 1) == (n / 0x100) % 256);
    assert(byte_of(n, 2) == (n / 0x1_0000) % 256);
    assert(byte_of(n, 3) == (n / 0x100_0000) % 256);
    assert(byte_of(n, 4) == (n / 0x1_0000_0000) % 256);
    assert(byte_of(n, 5) == (n / 0x100_0000_0000) % 256);
    assert(byte_of(n, 6) == (n / 0x1_0000_0000_0000) % 256);
    assert(byte_of(n, 7) == (n / 0x100_0000_0000_0000) % 256);
}

/// The encoded call is a whole number of 32-byte words behind its four-byte
/// selector, and carries the payload unchanged from byte 292 on.
pub proof fn law_call_shape(digest: Seq<u8>, payload: Seq<u8>)
    requires
        digest.len() == 32,
    ensures
        evm_advance_call(digest, payload).len() >= 292 + payload.len(),
        (evm_advance_call(digest, payload).len() - 4) % 32 == 0,
        evm_advance_call(digest, payload).len() < 324 + payload.len(),
        evm_advance_call(digest, payload).subrange(292, 292 + payload.len() as int) == payload,
        evm_advance_call(digest, payload).subrange(4, 228) == zeros(224),
        evm_advance_call(digest, payload).subrange(228, 260) == word(256),
{
    assert(evm_advance_call(digest, payload).subrange(292, 292 + payload.len() as int) =~= payload);
    assert(evm_advance_call(digest, payload).subrange(4, 228) =~= zeros(224));
    assert(evm_advance_call(digest, payload).subrange(228, 260) =~= word(256));
}

} // verus!
