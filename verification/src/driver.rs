//! The suspend/resume protocol of one advance, as a state machine.
//!
//! The driver never touches the machine, a file or a handler. It answers each
//! [`Event`] with the next [`Action`] for the surrounding program to perform:
//! one step of the preparation, one machine primitive, one handler
//! invocation, or the end of the advance. The preparation makes the working
//! file of the lambda state, loads the machine and binds the file into it,
//! all before the first yield is read.
//! Whoever performs the actions in the order given sends at most one response
//! per yield, clears the yield flag before every resume, and invokes no two
//! handlers at once.
//!
//! Two decisions of this driver are choices, not necessities:
//!
//! * An automatic yield that is neither a report nor an output is handed to
//!   the callback registered under its reason, like a generic request, and
//!   what the callback returns is dropped. Only where no callback is
//!   registered is such a yield a protocol violation. A driver that aborted
//!   on every such yield would be as defensible; this one dispatches, because
//!   it then needs no change when the machine learns a new automatic reason.
//! * The response to a generic request is tagged by the reason under which
//!   the request was raised: advance or inspect. The callback runs before the
//!   tag is looked at, so a request raised under any other reason has its
//!   callback invoked and then aborts the advance as a protocol violation.

use vstd::prelude::*;
use crate::encoder::{encode_evm_advance, evm_advance_input, ENCODING_OVERHEAD};
use crate::lambda_state::{
    binding_of, lambda_state_binding, load_options, runtime_options, LambdaStatePathsView,
    MemoryBinding, MemoryBindingView, RunAdvanceLambdaStatePaths, RuntimeOptions,
};
use crate::outcome::{
    category_of, classify, is_initial_accept, kind_of, response_category, AdvanceError,
    ResponseCategory, YieldClass, YieldEvent, YieldEventView, YieldKind, YieldManualReason,
};
use crate::registry::CallbackRegistry;

verus! {

/// What one advance is asked to do: the snapshot to load the machine from,
/// the lambda state to carry over, if there is one, the payload to deliver,
/// and whether the machine's console is silenced.
#[derive(Debug, PartialEq, Eq)]
pub struct AdvanceRequest {
    pub machine_snapshot: String,
    pub lambda_state_paths: Option<RunAdvanceLambdaStatePaths>,
    pub payload: Vec<u8>,
    pub no_console_putchar: bool,
}

/// An [`AdvanceRequest`] with its texts and bytes as sequences.
pub struct AdvanceRequestView {
    pub machine_snapshot: Seq<char>,
    pub lambda_state_paths: Option<LambdaStatePathsView>,
    pub payload: Seq<u8>,
    pub no_console_putchar: bool,
}

impl View for AdvanceRequest {
    type V = AdvanceRequestView;

    open spec fn view(&self) -> AdvanceRequestView {
        AdvanceRequestView {
            machine_snapshot: self.machine_snapshot@,
            lambda_state_paths: match self.lambda_state_paths {
                Some(paths) => Some(paths@),
                None => None,
            },
            payload: self.payload@,
            no_console_putchar: self.no_console_putchar,
        }
    }
}

/// Which handler an invocation is for.
#[derive(Clone, Copy, Debug, PartialEq, Eq, Structural)]
pub enum Handler {
    /// The report handler.
    Report,
    /// The output handler.
    Output,
    /// The finish handler.
    Finish,
    /// The callback registered under the yield's reason.
    Registered,
}

/// Where the driver stands. Each state but `Terminal` waits for the event
/// that answers the action last handed out.
#[derive(Clone, Copy, Debug, PartialEq, Eq, Structural)]
pub enum DriverState {
    /// The working file of the lambda state is being made.
    CloningLambdaState,
    /// The machine is being loaded from its snapshot.
    LoadingMachine,
    /// The checkpoint file of the lambda state is being measured.
    MeasuringCheckpoint,
    /// The working file is being bound into the machine's memory.
    BindingLambdaState,
    /// The first pending yield is being read, without resuming the machine.
    AwaitingInitialAccept,
    /// A response is being sent to the machine.
    Responding,
    /// The yield flag is being cleared.
    ClearingFlag,
    /// The machine is being resumed.
    Running,
    /// The next pending yield is being read.
    AwaitingClassification,
    /// A handler is informed of an automatic yield; what it returns is dropped.
    Reporting { reason: u16 },
    /// A registered callback serves a generic request; what it returns is the response.
    Serving { reason: u16 },
    /// The finish handler is told of the outcome.
    Finishing { outcome: YieldManualReason, reason: u16 },
    /// The advance is over.
    Terminal,
}

/// What came back from the action last handed out.
#[derive(Debug, PartialEq, Eq)]
pub enum Event {
    /// The working file was made: reflinked, or copied in so many bytes.
    Cloned(Option<u64>),
    /// The working file could not be made.
    CloneFailed,
    /// The checkpoint file has this many bytes.
    Measured(u64),
    /// The pending yield that was read.
    Yielded(YieldEvent),
    /// A machine primitive without a result has completed.
    Done,
    /// The handler returned these bytes.
    HandlerReturned(Vec<u8>),
    /// The handler returned an error.
    HandlerFailed,
}

/// An [`Event`] with its bytes as sequences.
pub enum EventView {
    Cloned(Option<u64>),
    CloneFailed,
    Measured(u64),
    Yielded(YieldEventView),
    Done,
    HandlerReturned(Seq<u8>),
    HandlerFailed,
}

impl View for Event {
    type V = EventView;

    open spec fn view(&self) -> EventView {
        match self {
            Event::Cloned(copied) => EventView::Cloned(*copied),
            Event::CloneFailed => EventView::CloneFailed,
            Event::Measured(size) => EventView::Measured(*size),
            Event::Yielded(y) => EventView::Yielded(y@),
            Event::Done => EventView::Done,
            Event::HandlerReturned(bytes) => EventView::HandlerReturned(bytes@),
            Event::HandlerFailed => EventView::HandlerFailed,
        }
    }
}

/// What the surrounding program is to do next.
#[derive(Debug, PartialEq, Eq)]
pub enum Action {
    /// Make the working file `next` from the checkpoint file `previous`: as a
    /// copy-on-write clone if that can be had, as a full copy if not.
    CloneLambdaState { previous: String, next: String },
    /// Load the machine from the snapshot with these options.
    LoadMachine { snapshot: String, options: RuntimeOptions },
    /// Measure the file at `path`.
    MeasureCheckpoint { path: String },
    /// Replace the region of the machine's memory by the file.
    BindLambdaState(MemoryBinding),
    /// Read the machine's pending yield.
    ReceiveYield,
    /// Send `data` to the machine as the response of the given category.
    SendResponse { category: ResponseCategory, data: Vec<u8> },
    /// Clear the machine's yield flag.
    ClearYieldFlag,
    /// Unless the yield flag is set, run the machine up to the cycle bound.
    Resume,
    /// Invoke a handler with the yield's reason and these bytes, and wait for it.
    Invoke { handler: Handler, reason: u16, data: Vec<u8> },
    /// The advance has run to completion with this outcome.
    Complete(YieldManualReason),
    /// The advance is aborted with this error.
    Abort(AdvanceError),
}

/// An [`Action`] with its bytes as sequences.
pub enum ActionView {
    CloneLambdaState { previous: Seq<char>, next: Seq<char> },
    LoadMachine { snapshot: Seq<char>, options: RuntimeOptions },
    MeasureCheckpoint { path: Seq<char> },
    BindLambdaState(MemoryBindingView),
    ReceiveYield,
    SendResponse { category: ResponseCategory, data: Seq<u8> },
    ClearYieldFlag,
    Resume,
    Invoke { handler: Handler, reason: u16, data: Seq<u8> },
    Complete(YieldManualReason),
    Abort(AdvanceError),
}

impl View for Action {
    type V = ActionView;

    open spec fn view(&self) -> ActionView {
        match self {
            Action::CloneLambdaState { previous, next } => ActionView::CloneLambdaState {
                previous: previous@,
                next: next@,
            },
            Action::LoadMachine { snapshot, options } => ActionView::LoadMachine {
                snapshot: snapshot@,
                options: *options,
            },
            Action::MeasureCheckpoint { path } => ActionView::MeasureCheckpoint { path: path@ },
            Action::BindLambdaState(binding) => ActionView::BindLambdaState(binding@),
            Action::ReceiveYield => ActionView::ReceiveYield,
            Action::SendResponse { category, data } => ActionView::SendResponse {
                category: *category,
                data: data@,
            },
            Action::ClearYieldFlag => ActionView::ClearYieldFlag,
            Action::Resume => ActionView::Resume,
            Action::Invoke { handler, reason, data } => ActionView::Invoke {
                handler: *handler,
                reason: *reason,
                data: data@,
            },
            Action::Complete(outcome) => ActionView::Complete(*outcome),
            Action::Abort(error) => ActionView::Abort(*error),
        }
    }
}

/// Whether `state` waits for an event of the shape of `event`.
pub open spec fn expects(state: DriverState, event: EventView) -> bool {
    match state {
        DriverState::CloningLambdaState => event is Cloned || event is CloneFailed,
        DriverState::MeasuringCheckpoint => event is Measured,
        DriverState::AwaitingInitialAccept | DriverState::AwaitingClassification => event is Yielded,
        DriverState::LoadingMachine | DriverState::BindingLambdaState | DriverState::Responding
        | DriverState::ClearingFlag | DriverState::Running => event is Done,
        DriverState::Reporting { .. } | DriverState::Serving { .. } | DriverState::Finishing {
            ..
        } => event is HandlerReturned || event is HandlerFailed,
        DriverState::Terminal => false,
    }
}

/// The answer to an event that the driver does not wait for.
pub open spec fn out_of_turn() -> (DriverState, ActionView) {
    (DriverState::Terminal, ActionView::Abort(AdvanceError::ProtocolViolation(0)))
}

/// The action that loads the machine for a request.
pub open spec fn load_action(request: AdvanceRequestView) -> ActionView {
    ActionView::LoadMachine {
        snapshot: request.machine_snapshot,
        options: load_options(request.no_console_putchar),
    }
}

/// The state in which an advance starts and the action that opens it. With a
/// lambda state the working file is made first; without one the machine is
/// loaded at once.
pub open spec fn start_model(request: AdvanceRequestView) -> (DriverState, ActionView) {
    match request.lambda_state_paths {
        Some(paths) => (
            DriverState::CloningLambdaState,
            ActionView::CloneLambdaState { previous: paths.previous, next: paths.next },
        ),
        None => (DriverState::LoadingMachine, load_action(request)),
    }
}

/// The answer to the completion of a step that has no result. Once the
/// machine is loaded, the lambda state is bound if there is one: first the
/// checkpoint file is measured. Then, and after the binding, the first
/// pending yield is read. After a response the yield flag is cleared, after
/// that the machine is resumed, and after that the next yield is read.
pub open spec fn done_model(state: DriverState, request: AdvanceRequestView) -> (
    DriverState,
    ActionView,
) {
    match state {
        DriverState::LoadingMachine => match request.lambda_state_paths {
            Some(paths) => (
                DriverState::MeasuringCheckpoint,
                ActionView::MeasureCheckpoint { path: paths.previous },
            ),
            None => (DriverState::AwaitingInitialAccept, ActionView::ReceiveYield),
        },
        DriverState::BindingLambdaState => (
            DriverState::AwaitingInitialAccept,
            ActionView::ReceiveYield,
        ),
        DriverState::Responding => (DriverState::ClearingFlag, ActionView::ClearYieldFlag),
        DriverState::ClearingFlag => (DriverState::Running, ActionView::Resume),
        DriverState::Running => (DriverState::AwaitingClassification, ActionView::ReceiveYield),
        _ => out_of_turn(),
    }
}

/// The answer to the size of the checkpoint file: the working file is bound
/// at the reserved address with exactly that size.
pub open spec fn measured_model(state: DriverState, request: AdvanceRequestView, size: u64) -> (
    DriverState,
    ActionView,
) {
    match (state, request.lambda_state_paths) {
        (DriverState::MeasuringCheckpoint, Some(paths)) => (
            DriverState::BindingLambdaState,
            ActionView::BindLambdaState(binding_of(paths, size)),
        ),
        _ => out_of_turn(),
    }
}

/// The answer to the outcome of the cloning: a working file, reflinked or
/// copied, lets the machine be loaded; none is fatal.
pub open spec fn cloned_model(state: DriverState, request: AdvanceRequestView, made: bool) -> (
    DriverState,
    ActionView,
) {
    match state {
        DriverState::CloningLambdaState => if made {
            (DriverState::LoadingMachine, load_action(request))
        } else {
            (DriverState::Terminal, ActionView::Abort(AdvanceError::IoError))
        },
        _ => out_of_turn(),
    }
}

/// The answer to the first pending yield: the input goes out if the machine
/// is ready for it, and the advance is aborted if it is not.
pub open spec fn open_model(y: YieldEventView, input: Seq<u8>) -> (DriverState, ActionView) {
    if is_initial_accept(y.class, y.reason) {
        (
            DriverState::Responding,
            ActionView::SendResponse { category: ResponseCategory::Advance, data: input },
        )
    } else {
        (DriverState::Terminal, ActionView::Abort(AdvanceError::ProtocolViolation(y.reason)))
    }
}

/// The answer to a yield raised while the advance runs: the invocation of
/// the handler that the yield is owed, or the end of the advance where it is
/// owed none. The finish handler of a rejected input receives no bytes.
pub open spec fn classify_model(y: YieldEventView, registered: Set<u32>) -> (
    DriverState,
    ActionView,
) {
    match kind_of(y.class, y.reason) {
        YieldKind::Report => (
            DriverState::Reporting { reason: y.reason },
            ActionView::Invoke { handler: Handler::Report, reason: y.reason, data: y.data },
        ),
        YieldKind::Output => (
            DriverState::Reporting { reason: y.reason },
            ActionView::Invoke { handler: Handler::Output, reason: y.reason, data: y.data },
        ),
        YieldKind::OtherAutomatic => if registered.contains(y.reason as u32) {
            (
                DriverState::Reporting { reason: y.reason },
                ActionView::Invoke { handler: Handler::Registered, reason: y.reason, data: y.data },
            )
        } else {
            (DriverState::Terminal, ActionView::Abort(AdvanceError::ProtocolViolation(y.reason)))
        },
        YieldKind::Accepted => (
            DriverState::Finishing { outcome: YieldManualReason::Accepted, reason: y.reason },
            ActionView::Invoke { handler: Handler::Finish, reason: y.reason, data: y.data },
        ),
        YieldKind::Rejected => (
            DriverState::Finishing { outcome: YieldManualReason::Rejected, reason: y.reason },
            ActionView::Invoke { handler: Handler::Finish, reason: y.reason, data: Seq::empty() },
        ),
        YieldKind::Exception => (
            DriverState::Finishing { outcome: YieldManualReason::Exception, reason: y.reason },
            ActionView::Invoke { handler: Handler::Finish, reason: y.reason, data: y.data },
        ),
        YieldKind::GenericIo => if registered.contains(y.reason as u32) {
            (
                DriverState::Serving { reason: y.reason },
                ActionView::Invoke { handler: Handler::Registered, reason: y.reason, data: y.data },
            )
        } else {
            (DriverState::Terminal, ActionView::Abort(AdvanceError::UnknownCallback(y.reason)))
        },
    }
}

/// The answer to the result of a handler: `Some` with the bytes it returned,
/// `None` where it failed. After a report, an output or an automatic yield
/// the advance goes on; after a generic request the bytes go back to the
/// machine; after the finish handler the advance is complete. A failure
/// aborts the advance with the reason of the yield.
pub open spec fn handler_model(state: DriverState, returned: Option<Seq<u8>>) -> (
    DriverState,
    ActionView,
) {
    match state {
        DriverState::Reporting { reason } => match returned {
            Some(_) => (DriverState::ClearingFlag, ActionView::ClearYieldFlag),
            None => (DriverState::Terminal, ActionView::Abort(AdvanceError::HandlerFailure(reason))),
        },
        DriverState::Serving { reason } => match returned {
            Some(bytes) => match category_of(reason) {
                Some(category) => (
                    DriverState::Responding,
                    ActionView::SendResponse { category, data: bytes },
                ),
                None => (
                    DriverState::Terminal,
                    ActionView::Abort(AdvanceError::ProtocolViolation(reason)),
                ),
            },
            None => (DriverState::Terminal, ActionView::Abort(AdvanceError::HandlerFailure(reason))),
        },
        DriverState::Finishing { outcome, reason } => match returned {
            Some(_) => (DriverState::Terminal, ActionView::Complete(outcome)),
            None => (DriverState::Terminal, ActionView::Abort(AdvanceError::HandlerFailure(reason))),
        },
        _ => out_of_turn(),
    }
}

/// The transition function: the state that follows `state` on `event`, and
/// the action that goes with it. `registered` holds the reason identifiers
/// that have a callback. It is meant for the events that `state` expects; an
/// event out of turn aborts the advance as a protocol violation, under
/// reason 0 for want of a yield to blame.
pub open spec fn step_model(
    state: DriverState,
    event: EventView,
    request: AdvanceRequestView,
    registered: Set<u32>,
) -> (DriverState, ActionView) {
    match event {
        EventView::Cloned(_) => cloned_model(state, request, true),
        EventView::CloneFailed => cloned_model(state, request, false),
        EventView::Measured(size) => measured_model(state, request, size),
        EventView::Done => done_model(state, request),
        EventView::Yielded(y) => match state {
            DriverState::AwaitingInitialAccept => open_model(
                y,
                evm_advance_input(request.payload),
            ),
            DriverState::AwaitingClassification => classify_model(y, registered),
            _ => out_of_turn(),
        },
        EventView::HandlerReturned(bytes) => handler_model(state, Some(bytes)),
        EventView::HandlerFailed => handler_model(state, None),
    }
}

/// The state in which an advance starts, and the action that opens it.
pub fn start(request: &AdvanceRequest) -> (first: (DriverState, Action))
    ensures
        (first.0, first.1@) == start_model(request@),
{
    match &request.lambda_state_paths {
        Some(paths) => (
            DriverState::CloningLambdaState,
            Action::CloneLambdaState {
                previous: paths.lambda_state_previous_path.clone(),
                next: paths.lambda_state_next_path.clone(),
            },
        ),
        None => (DriverState::LoadingMachine, load_machine(request)),
    }
}

fn load_machine(request: &AdvanceRequest) -> (action: Action)
    ensures
        action@ == load_action(request@),
{
    Action::LoadMachine {
        snapshot: request.machine_snapshot.clone(),
        options: runtime_options(request.no_console_putchar),
    }
}

fn aborted_out_of_turn() -> (next: (DriverState, Action))
    ensures
        (next.0, next.1@) == out_of_turn(),
{
    (DriverState::Terminal, Action::Abort(AdvanceError::ProtocolViolation(0)))
}

/// Answers the outcome of the cloning of the lambda state: `made` says
/// whether there is a working file now.
pub fn lambda_state_cloned(state: DriverState, request: &AdvanceRequest, made: bool) -> (next: (
    DriverState,
    Action,
))
    ensures
        (next.0, next.1@) == cloned_model(state, request@, made),
{
    match state {
        DriverState::CloningLambdaState => {
            if made {
                (DriverState::LoadingMachine, load_machine(request))
            } else {
                (DriverState::Terminal, Action::Abort(AdvanceError::IoError))
            }
        },
        _ => aborted_out_of_turn(),
    }
}

/// Answers the size of the checkpoint file with the binding of the working
/// file.
pub fn checkpoint_measured(state: DriverState, request: &AdvanceRequest, size: u64) -> (next: (
    DriverState,
    Action,
))
    ensures
        (next.0, next.1@) == measured_model(state, request@, size),
{
    match state {
        DriverState::MeasuringCheckpoint => match &request.lambda_state_paths {
            Some(paths) => (
                DriverState::BindingLambdaState,
                Action::BindLambdaState(lambda_state_binding(paths, size)),
            ),
            None => aborted_out_of_turn(),
        },
        _ => aborted_out_of_turn(),
    }
}

/// Answers the completion of a step that has no result with the step that
/// comes next.
pub fn primitive_done(state: DriverState, request: &AdvanceRequest) -> (next: (
    DriverState,
    Action,
))
    ensures
        (next.0, next.1@) == done_model(state, request@),
{
    match state {
        DriverState::LoadingMachine => match &request.lambda_state_paths {
            Some(paths) => (
                DriverState::MeasuringCheckpoint,
                Action::MeasureCheckpoint { path: paths.lambda_state_previous_path.clone() },
            ),
            None => (DriverState::AwaitingInitialAccept, Action::ReceiveYield),
        },
        DriverState::BindingLambdaState => (DriverState::AwaitingInitialAccept, Action::ReceiveYield),
        DriverState::Responding => (DriverState::ClearingFlag, Action::ClearYieldFlag),
        DriverState::ClearingFlag => (DriverState::Running, Action::Resume),
        DriverState::Running => (DriverState::AwaitingClassification, Action::ReceiveYield),
        _ => aborted_out_of_turn(),
    }
}

/// Whether `state` waits for an event of the shape of `event`.
pub fn accepts(state: DriverState, event: &Event) -> (r: bool)
    ensures
        r == expects(state, event@),
{
    match state {
        DriverState::CloningLambdaState => match event {
            Event::Cloned(_) => true,
            Event::CloneFailed => true,
            _ => false,
        },
        DriverState::MeasuringCheckpoint => match event {
            Event::Measured(_) => true,
            _ => false,
        },
        DriverState::AwaitingInitialAccept | DriverState::AwaitingClassification => match event {
            Event::Yielded(_) => true,
            _ => false,
        },
        DriverState::LoadingMachine | DriverState::BindingLambdaState | DriverState::Responding
        | DriverState::ClearingFlag | DriverState::Running => match event {
            Event::Done => true,
            _ => false,
        },
        DriverState::Reporting { .. } | DriverState::Serving { .. } | DriverState::Finishing {
            ..
        } => match event {
            Event::HandlerReturned(_) => true,
            Event::HandlerFailed => true,
            _ => false,
        },
        DriverState::Terminal => false,
    }
}

/// Whether the advance is over in `state`.
pub fn is_terminal(state: DriverState) -> (r: bool)
    ensures
        r == (state == DriverState::Terminal),
{
    match state {
        DriverState::Terminal => true,
        _ => false,
    }
}

/// Answers the first pending yield. Only a manual yield that reports the
/// machine ready opens the advance: the encoded payload then goes out as the
/// advance-state response. On any other yield the advance is aborted with a
/// protocol violation that carries the yield's reason.
pub fn open_advance(y: YieldEvent, payload: &Vec<u8>) -> (next: (DriverState, Action))
    requires
        payload.len() + ENCODING_OVERHEAD <= usize::MAX,
    ensures
        (next.0, next.1@) == open_model(y@, evm_advance_input(payload@)),
{
    let ready = match y.class {
        YieldClass::Manual => y.reason == crate::constants::MANUAL_RX_ACCEPTED,
        YieldClass::Automatic => false,
    };
    if ready {
        let data = encode_evm_advance(payload);
        (DriverState::Responding, Action::SendResponse { category: ResponseCategory::Advance, data })
    } else {
        (DriverState::Terminal, Action::Abort(AdvanceError::ProtocolViolation(y.reason)))
    }
}

/// Answers a yield raised while the advance runs: names the handler that the
/// yield is owed, with the bytes it is to receive, or aborts where the yield
/// has no handler.
pub fn classify_yield<S, A>(y: YieldEvent, registry: &CallbackRegistry<S, A>) -> (next: (
    DriverState,
    Action,
))
    ensures
        (next.0, next.1@) == classify_model(y@, registry.registered()),
{
    let reason = y.reason;
    match classify(y.class, reason) {
        YieldKind::Report => (
            DriverState::Reporting { reason },
            Action::Invoke { handler: Handler::Report, reason, data: y.data },
        ),
        YieldKind::Output => (
            DriverState::Reporting { reason },
            Action::Invoke { handler: Handler::Output, reason, data: y.data },
        ),
        YieldKind::OtherAutomatic => {
            if registry.contains(reason as u32) {
                (
                    DriverState::Reporting { reason },
                    Action::Invoke { handler: Handler::Registered, reason, data: y.data },
                )
            } else {
                (DriverState::Terminal, Action::Abort(AdvanceError::ProtocolViolation(reason)))
            }
        },
        YieldKind::Accepted => (
            DriverState::Finishing { outcome: YieldManualReason::Accepted, reason },
            Action::Invoke { handler: Handler::Finish, reason, data: y.data },
        ),
        YieldKind::Rejected => (
            DriverState::Finishing { outcome: YieldManualReason::Rejected, reason },
            Action::Invoke { handler: Handler::Finish, reason, data: Vec::new() },
        ),
        YieldKind::Exception => (
            DriverState::Finishing { outcome: YieldManualReason::Exception, reason },
            Action::Invoke { handler: Handler::Finish, reason, data: y.data },
        ),
        YieldKind::GenericIo => {
            if registry.contains(reason as u32) {
                (
                    DriverState::Serving { reason },
                    Action::Invoke { handler: Handler::Registered, reason, data: y.data },
                )
            } else {
                (DriverState::Terminal, Action::Abort(AdvanceError::UnknownCallback(reason)))
            }
        },
    }
}

/// Answers the result of the handler that `state` waits for: `Some` with the
/// bytes it returned, `None` where it failed.
pub fn handler_finished(state: DriverState, returned: Option<Vec<u8>>) -> (next: (
    DriverState,
    Action,
))
    ensures
        (next.0, next.1@) == handler_model(
            state,
            match returned {
                Some(bytes) => Some(bytes@),
                None => None,
            },
        ),
{
    match state {
        DriverState::Reporting { reason } => match returned {
            Some(_) => (DriverState::ClearingFlag, Action::ClearYieldFlag),
            None => (DriverState::Terminal, Action::Abort(AdvanceError::HandlerFailure(reason))),
        },
        DriverState::Serving { reason } => match returned {
            Some(bytes) => match response_category(reason) {
                Some(category) => (
                    DriverState::Responding,
                    Action::SendResponse { category, data: bytes },
                ),
                None => (
                    DriverState::Terminal,
                    Action::Abort(AdvanceError::ProtocolViolation(reason)),
                ),
            },
            None => (DriverState::Terminal, Action::Abort(AdvanceError::HandlerFailure(reason))),
        },
        DriverState::Finishing { outcome, reason } => match returned {
            Some(_) => (DriverState::Terminal, Action::Complete(outcome)),
            None => (DriverState::Terminal, Action::Abort(AdvanceError::HandlerFailure(reason))),
        },
        _ => aborted_out_of_turn(),
    }
}

/// One step of the advance: takes the event that answers the last action and
/// gives the next state with the next action. An event that `state` does not
/// wait for aborts the advance.
pub fn step<S, A>(
    state: DriverState,
    event: Event,
    request: &AdvanceRequest,
    registry: &CallbackRegistry<S, A>,
) -> (next: (DriverState, Action))
    requires
        request.payload.len() + ENCODING_OVERHEAD <= usize::MAX,
    ensures
        (next.0, next.1@) == step_model(state, event@, request@, registry.registered()),
{
    match event {
        Event::Cloned(_) => lambda_state_cloned(state, request, true),
        Event::CloneFailed => lambda_state_cloned(state, request, false),
        Event::Measured(size) => checkpoint_measured(state, request, size),
        Event::Done => primitive_done(state, request),
        Event::Yielded(y) => match state {
            DriverState::AwaitingInitialAccept => open_advance(y, &request.payload),
            DriverState::AwaitingClassification => classify_yield(y, registry),
            _ => aborted_out_of_turn(),
        },
        Event::HandlerReturned(bytes) => handler_finished(state, Some(bytes)),
        Event::HandlerFailed => handler_finished(state, None),
    }
}

} // verus!
