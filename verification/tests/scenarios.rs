use advance_runner::driver::{start, step};
use advance_runner::encoder::encode_evm_advance;
use advance_runner::replay::replay;
use advance_runner::{
    Action, AdvanceError, AdvanceRequest, Callback, CallbackRegistry, DriverState, Event, Handler,
    MemoryBinding, ResponseCategory, RunAdvanceLambdaStatePaths, YieldClass, YieldEvent,
    YieldManualReason,
};

type Served = fn(u16, Vec<u8>) -> Result<Vec<u8>, String>;

/// A machine that raises a fixed sequence of yields and records what is done to it.
struct ScriptedMachine {
    yields: Vec<YieldEvent>,
    next: usize,
    flag_set: bool,
    runs: usize,
    responses: Vec<(ResponseCategory, Vec<u8>)>,
    stale_resumes: usize,
    loaded_from: Option<String>,
    bound: Option<MemoryBinding>,
    bound_before_first_read: bool,
    reads: usize,
    checkpoint_size: u64,
    clone_fails: bool,
}

impl ScriptedMachine {
    fn new(yields: Vec<YieldEvent>) -> Self {
        ScriptedMachine {
            yields,
            next: 0,
            flag_set: true,
            runs: 0,
            responses: Vec::new(),
            stale_resumes: 0,
            loaded_from: None,
            bound: None,
            bound_before_first_read: false,
            reads: 0,
            checkpoint_size: 4096,
            clone_fails: false,
        }
    }

    fn receive(&mut self) -> YieldEvent {
        if self.reads == 0 {
            self.bound_before_first_read = self.bound.is_some();
        }
        self.reads += 1;
        let y = &self.yields[self.next];
        YieldEvent { class: y.class, reason: y.reason, data: y.data.clone() }
    }

    fn clear(&mut self) {
        self.flag_set = false;
    }

    fn resume(&mut self) {
        if self.flag_set {
            self.stale_resumes += 1;
        } else {
            self.runs += 1;
            self.next += 1;
            self.flag_set = true;
        }
    }
}

/// What the handlers saw, in order.
struct Calls {
    log: Vec<(Handler, u16, Vec<u8>)>,
    fail_on: Option<Handler>,
}

fn request_for(payload: &Vec<u8>) -> AdvanceRequest {
    AdvanceRequest {
        machine_snapshot: String::from("/snapshots/base"),
        lambda_state_paths: None,
        payload: payload.clone(),
        no_console_putchar: false,
    }
}

fn advance(
    machine: &mut ScriptedMachine,
    payload: &Vec<u8>,
    registry: &CallbackRegistry<Served, Served>,
    calls: &mut Calls,
) -> Result<YieldManualReason, AdvanceError> {
    run(machine, &request_for(payload), registry, calls)
}

fn run(
    machine: &mut ScriptedMachine,
    request: &AdvanceRequest,
    registry: &CallbackRegistry<Served, Served>,
    calls: &mut Calls,
) -> Result<YieldManualReason, AdvanceError> {
    let (mut state, mut action) = start(request);
    loop {
        let event = match action {
            Action::CloneLambdaState { .. } => {
                if machine.clone_fails {
                    Event::CloneFailed
                } else {
                    Event::Cloned(Some(machine.checkpoint_size))
                }
            }
            Action::LoadMachine { snapshot, .. } => {
                machine.loaded_from = Some(snapshot);
                Event::Done
            }
            Action::MeasureCheckpoint { .. } => Event::Measured(machine.checkpoint_size),
            Action::BindLambdaState(binding) => {
                machine.bound = Some(binding);
                Event::Done
            }
            Action::ReceiveYield => Event::Yielded(machine.receive()),
            Action::SendResponse { category, data } => {
                machine.responses.push((category, data));
                Event::Done
            }
            Action::ClearYieldFlag => {
                machine.clear();
                Event::Done
            }
            Action::Resume => {
                machine.resume();
                Event::Done
            }
            Action::Invoke { handler, reason, data } => {
                calls.log.push((handler, reason, data.clone()));
                if calls.fail_on == Some(handler) {
                    Event::HandlerFailed
                } else if handler == Handler::Registered {
                    match registry.dispatch(reason) {
                        Ok(Callback::Sync(f)) | Ok(Callback::Async(f)) => match f(reason, data) {
                            Ok(bytes) => Event::HandlerReturned(bytes),
                            Err(_) => Event::HandlerFailed,
                        },
                        Err(_) => panic!("the driver asked for a callback that is not there"),
                    }
                } else {
                    Event::HandlerReturned(Vec::new())
                }
            }
            Action::Complete(outcome) => return Ok(outcome),
            Action::Abort(error) => return Err(error),
        };
        let next = step(state, event, request, registry);
        state = next.0;
        action = next.1;
    }
}

fn ready() -> YieldEvent {
    YieldEvent { class: YieldClass::Manual, reason: 1, data: vec![0u8; 32] }
}

fn automatic(reason: u16, data: &[u8]) -> YieldEvent {
    YieldEvent { class: YieldClass::Automatic, reason, data: data.to_vec() }
}

fn manual(reason: u16, data: &[u8]) -> YieldEvent {
    YieldEvent { class: YieldClass::Manual, reason, data: data.to_vec() }
}

fn shout(_reason: u16, data: Vec<u8>) -> Result<Vec<u8>, String> {
    Ok(data.to_ascii_uppercase())
}

fn refuse(_reason: u16, _data: Vec<u8>) -> Result<Vec<u8>, String> {
    Err(String::from("no"))
}

fn no_calls() -> Calls {
    Calls { log: Vec::new(), fail_on: None }
}

#[test]
fn immediate_accept_finishes_with_the_hash() {
    let hash: Vec<u8> = (100u8..132).collect();
    let mut machine = ScriptedMachine::new(vec![ready(), manual(1, &hash)]);
    let registry = CallbackRegistry::new();
    let mut calls = no_calls();
    let payload = vec![0x01, 0x02];
    let result = advance(&mut machine, &payload, &registry, &mut calls);
    assert_eq!(result, Ok(YieldManualReason::Accepted));
    assert_eq!(calls.log, vec![(Handler::Finish, 1, hash)]);
    assert_eq!(machine.responses, vec![(ResponseCategory::Advance, encode_evm_advance(&payload))]);
    assert_eq!(machine.runs, 1);
    assert_eq!(machine.stale_resumes, 0);
}

#[test]
fn report_then_reject_calls_report_once_and_finishes_empty() {
    let mut machine =
        ScriptedMachine::new(vec![ready(), automatic(4, b"log"), manual(2, b"dropped")]);
    let registry = CallbackRegistry::new();
    let mut calls = no_calls();
    let result = advance(&mut machine, &vec![0x01, 0x02], &registry, &mut calls);
    assert_eq!(result, Ok(YieldManualReason::Rejected));
    assert_eq!(
        calls.log,
        vec![(Handler::Report, 4, b"log".to_vec()), (Handler::Finish, 2, Vec::new())]
    );
    assert_eq!(machine.responses.len(), 1);
    assert_eq!(machine.runs, 2);
    assert_eq!(machine.stale_resumes, 0);
}

#[test]
fn lambda_state_is_bound_before_the_first_yield_is_read() {
    let mut machine = ScriptedMachine::new(vec![ready(), manual(1, &[9u8; 32])]);
    machine.checkpoint_size = 12345;
    let registry = CallbackRegistry::new();
    let mut calls = no_calls();
    let request = AdvanceRequest {
        machine_snapshot: String::from("/snapshots/with-state"),
        lambda_state_paths: Some(RunAdvanceLambdaStatePaths {
            lambda_state_previous_path: String::from("/state/previous.bin"),
            lambda_state_next_path: String::from("/state/next.bin"),
        }),
        payload: vec![0x01, 0x02],
        no_console_putchar: true,
    };
    let result = run(&mut machine, &request, &registry, &mut calls);
    assert_eq!(result, Ok(YieldManualReason::Accepted));
    assert_eq!(machine.loaded_from, Some(String::from("/snapshots/with-state")));
    assert!(machine.bound_before_first_read);
    assert_eq!(
        machine.bound,
        Some(MemoryBinding {
            start: 0x90000000000000,
            length: 12345,
            shared: true,
            backing_file: String::from("/state/next.bin"),
        })
    );
}

#[test]
fn lambda_state_that_cannot_be_cloned_ends_the_advance_before_the_machine_loads() {
    let mut machine = ScriptedMachine::new(vec![ready(), manual(1, &[9u8; 32])]);
    machine.clone_fails = true;
    let registry = CallbackRegistry::new();
    let mut calls = no_calls();
    let request = AdvanceRequest {
        machine_snapshot: String::from("/snapshots/with-state"),
        lambda_state_paths: Some(RunAdvanceLambdaStatePaths {
            lambda_state_previous_path: String::from("/state/missing.bin"),
            lambda_state_next_path: String::from("/state/next.bin"),
        }),
        payload: vec![],
        no_console_putchar: false,
    };
    let result = run(&mut machine, &request, &registry, &mut calls);
    assert_eq!(result, Err(AdvanceError::IoError));
    assert_eq!(machine.loaded_from, None);
    assert_eq!(machine.reads, 0);
    assert!(calls.log.is_empty());
}

#[test]
fn replay_from_the_start_covers_the_preparation() {
    let registry: CallbackRegistry<Served, Served> = CallbackRegistry::new();
    let request = request_for(&vec![7]);
    let (state, first) = start(&request);
    let events = vec![Event::Done, Event::Yielded(manual(2, b""))];
    let (end, trace) = replay(state, events, &request, &registry);
    assert_eq!(end, DriverState::Terminal);
    assert!(matches!(first, Action::LoadMachine { .. }));
    assert_eq!(
        trace,
        vec![Action::ReceiveYield, Action::Abort(AdvanceError::ProtocolViolation(2))]
    );
}

#[test]
fn exception_finishes_with_the_message() {
    let mut machine = ScriptedMachine::new(vec![ready(), manual(4, b"out of gas")]);
    let registry = CallbackRegistry::new();
    let mut calls = no_calls();
    let result = advance(&mut machine, &vec![], &registry, &mut calls);
    assert_eq!(result, Ok(YieldManualReason::Exception));
    assert_eq!(calls.log, vec![(Handler::Finish, 4, b"out of gas".to_vec())]);
}

#[test]
fn first_yield_that_is_not_an_accept_never_runs_the_machine() {
    for first in [manual(2, b""), manual(4, b"e"), manual(0, b""), automatic(4, b"r"), automatic(1, b"")]
    {
        let reason = first.reason;
        let mut machine = ScriptedMachine::new(vec![first, manual(1, &[0u8; 32])]);
        let registry = CallbackRegistry::new();
        let mut calls = no_calls();
        let result = advance(&mut machine, &vec![1], &registry, &mut calls);
        assert_eq!(result, Err(AdvanceError::ProtocolViolation(reason)));
        assert_eq!(machine.runs, 0);
        assert!(machine.responses.is_empty());
        assert!(calls.log.is_empty());
    }
}

#[test]
fn handlers_are_called_in_the_order_of_the_yields() {
    let mut registry: CallbackRegistry<Served, Served> = CallbackRegistry::new();
    assert!(registry.register(0, Callback::Sync(shout)));
    assert!(registry.register(9, Callback::Async(shout)));
    let mut machine = ScriptedMachine::new(vec![
        ready(),
        automatic(2, b"o1"),
        automatic(4, b"r1"),
        manual(0, b"ask"),
        automatic(9, b"note"),
        automatic(4, b"r2"),
        automatic(2, b"o2"),
        manual(1, &[5u8; 32]),
    ]);
    let mut calls = no_calls();
    let payload = vec![3, 1, 4];
    let result = advance(&mut machine, &payload, &registry, &mut calls);
    assert_eq!(result, Ok(YieldManualReason::Accepted));
    assert_eq!(
        calls.log,
        vec![
            (Handler::Output, 2, b"o1".to_vec()),
            (Handler::Report, 4, b"r1".to_vec()),
            (Handler::Registered, 0, b"ask".to_vec()),
            (Handler::Registered, 9, b"note".to_vec()),
            (Handler::Report, 4, b"r2".to_vec()),
            (Handler::Output, 2, b"o2".to_vec()),
            (Handler::Finish, 1, vec![5u8; 32]),
        ]
    );
    assert_eq!(
        machine.responses,
        vec![
            (ResponseCategory::Advance, encode_evm_advance(&payload)),
            (ResponseCategory::Advance, b"ASK".to_vec()),
        ]
    );
    assert_eq!(machine.runs, 7);
    assert_eq!(machine.stale_resumes, 0);
}

#[test]
fn unregistered_generic_request_aborts_without_a_response() {
    let mut machine = ScriptedMachine::new(vec![ready(), manual(0x2a, b"ask"), manual(1, b"")]);
    let registry = CallbackRegistry::new();
    let mut calls = no_calls();
    let result = advance(&mut machine, &vec![1], &registry, &mut calls);
    assert_eq!(result, Err(AdvanceError::UnknownCallback(0x2a)));
    assert_eq!(machine.responses.len(), 1);
    assert_eq!(machine.responses[0].0, ResponseCategory::Advance);
    assert!(calls.log.is_empty());
    assert_eq!(machine.runs, 1);
}

#[test]
fn unregistered_automatic_reason_is_a_protocol_violation() {
    let mut machine = ScriptedMachine::new(vec![ready(), automatic(1, b""), manual(1, b"")]);
    let registry = CallbackRegistry::new();
    let mut calls = no_calls();
    let result = advance(&mut machine, &vec![1], &registry, &mut calls);
    assert_eq!(result, Err(AdvanceError::ProtocolViolation(1)));
    assert!(calls.log.is_empty());
}

#[test]
fn failing_handlers_abort_the_advance() {
    for (failing, reason) in [(Handler::Report, 4u16), (Handler::Finish, 1)] {
        let mut machine =
            ScriptedMachine::new(vec![ready(), automatic(4, b"log"), manual(1, &[0u8; 32])]);
        let registry = CallbackRegistry::new();
        let mut calls = Calls { log: Vec::new(), fail_on: Some(failing) };
        let result = advance(&mut machine, &vec![1], &registry, &mut calls);
        assert_eq!(result, Err(AdvanceError::HandlerFailure(reason)));
    }
    let mut registry: CallbackRegistry<Served, Served> = CallbackRegistry::new();
    assert!(registry.register(0, Callback::Sync(refuse)));
    let mut machine = ScriptedMachine::new(vec![ready(), manual(0, b"ask"), manual(1, b"")]);
    let mut calls = no_calls();
    let result = advance(&mut machine, &vec![1], &registry, &mut calls);
    assert_eq!(result, Err(AdvanceError::HandlerFailure(0)));
    assert_eq!(machine.responses.len(), 1);
}

#[test]
fn every_completed_advance_tells_the_finish_handler_once() {
    for (reason, outcome) in [
        (1u16, YieldManualReason::Accepted),
        (2, YieldManualReason::Rejected),
        (4, YieldManualReason::Exception),
    ] {
        let mut machine = ScriptedMachine::new(vec![
            ready(),
            automatic(4, b"a"),
            automatic(2, b"b"),
            manual(reason, b"end"),
        ]);
        let registry = CallbackRegistry::new();
        let mut calls = no_calls();
        let result = advance(&mut machine, &vec![1, 2], &registry, &mut calls);
        assert_eq!(result, Ok(outcome));
        let finishes = calls.log.iter().filter(|c| c.0 == Handler::Finish).count();
        assert_eq!(finishes, 1);
        assert_eq!(calls.log.last().map(|c| c.0), Some(Handler::Finish));
    }
}

#[test]
fn replay_gives_the_trace_of_a_recorded_advance() {
    let registry: CallbackRegistry<Served, Served> = CallbackRegistry::new();
    let payload = vec![0x01, 0x02];
    let events = vec![
        Event::Yielded(ready()),
        Event::Done,
        Event::Done,
        Event::Done,
        Event::Yielded(automatic(4, b"log")),
        Event::HandlerReturned(vec![]),
        Event::Done,
        Event::Done,
        Event::Yielded(manual(2, b"")),
        Event::HandlerReturned(vec![]),
        Event::Done,
    ];
    let (state, trace) =
        replay(DriverState::AwaitingInitialAccept, events, &request_for(&payload), &registry);
    assert_eq!(state, DriverState::Terminal);
    assert_eq!(
        trace,
        vec![
            Action::SendResponse {
                category: ResponseCategory::Advance,
                data: encode_evm_advance(&payload)
            },
            Action::ClearYieldFlag,
            Action::Resume,
            Action::ReceiveYield,
            Action::Invoke { handler: Handler::Report, reason: 4, data: b"log".to_vec() },
            Action::ClearYieldFlag,
            Action::Resume,
            Action::ReceiveYield,
            Action::Invoke { handler: Handler::Finish, reason: 2, data: vec![] },
            Action::Complete(YieldManualReason::Rejected),
        ]
    );
}

#[test]
fn replay_of_a_script_cut_short_stops_where_the_script_does() {
    let registry: CallbackRegistry<Served, Served> = CallbackRegistry::new();
    let (state, trace) = replay(
        DriverState::AwaitingInitialAccept,
        vec![Event::Yielded(ready()), Event::Done],
        &request_for(&vec![]),
        &registry,
    );
    assert_eq!(state, DriverState::ClearingFlag);
    assert_eq!(trace.len(), 2);
    assert_eq!(trace[1], Action::ClearYieldFlag);
    let (idle, none) =
        replay(DriverState::AwaitingInitialAccept, vec![], &request_for(&vec![]), &registry);
    assert_eq!(idle, DriverState::AwaitingInitialAccept);
    assert!(none.is_empty());
}

#[test]
fn resume_always_comes_right_after_clearing_the_flag() {
    let mut registry: CallbackRegistry<Served, Served> = CallbackRegistry::new();
    assert!(registry.register(0, Callback::Sync(shout)));
    let events = vec![
        Event::Yielded(ready()),
        Event::Done,
        Event::Done,
        Event::Done,
        Event::Yielded(manual(0, b"q")),
        Event::HandlerReturned(b"a".to_vec()),
        Event::Done,
        Event::Done,
        Event::Done,
        Event::Yielded(manual(1, b"")),
    ];
    let (_, trace) =
        replay(DriverState::AwaitingInitialAccept, events, &request_for(&vec![]), &registry);
    let mut resumes = 0;
    for (i, action) in trace.iter().enumerate() {
        if *action == Action::Resume {
            resumes += 1;
            assert!(i > 0);
            assert_eq!(trace[i - 1], Action::ClearYieldFlag);
        }
    }
    assert_eq!(resumes, 2);
}
