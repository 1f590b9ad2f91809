//! The session controller for one unit: it opens the two remote sessions,
//! polls the terminal for the dispatch announcement, injects the dispatch
//! script once, and tears the sessions down when the operation is cancelled.

use crate::command::{
    environment_request, environment_request_line, exit_instruction, exit_line, injection,
    injection_line, TERMINAL_COLUMNS, TERMINAL_ROWS,
};
use crate::detect::{finding, first_hook, Detection, DetectionBuffer, Finding};
use crate::script::{dispatch_script, synthesize};
use crate::session::{action_views, Action, ActionView, Event, EventView, Failure};
use crate::text::{texts, widened};
use crate::topology::{resolution, resolve, Operation, ValidationError};
use vstd::prelude::*;

verus! {

/// The milliseconds that a cancellable controller lets the remote sessions settle.
pub const TRACE_SETTLE_MILLIS: u64 = 5000;

/// The milliseconds that a controller without cancellation lets the remote
/// sessions settle.
pub const DEBUG_SETTLE_MILLIS: u64 = 10000;

/// The milliseconds between two polls of the terminal.
pub const POLL_INTERVAL_MILLIS: u64 = 100;

/// The milliseconds before the polling starts afresh after a failed write.
pub const RETRY_DELAY_MILLIS: u64 = 5000;

/// How a unit is traced.
#[derive(Debug, Clone, Copy, PartialEq, Eq, Structural)]
pub enum Mode {
    /// The cancellation signal is consulted before every poll.
    Trace,
    /// No cancellation signal is consulted.
    Debug,
}

/// The remote sessions that a controller has opened.
#[derive(Debug, Clone, Copy, PartialEq, Eq, Structural)]
pub struct Sessions {
    /// The hook-interceptor session.
    pub interceptor: bool,
    /// The driving shell.
    pub shell: bool,
}

/// Where a controller stands, by the action that it waits for.
#[derive(Debug, Clone, Copy, PartialEq, Eq, Structural)]
pub enum Phase {
    /// Opening the hook-interceptor session.
    OpeningInterceptor,
    /// Opening the driving shell.
    OpeningShell,
    /// Letting the remote sessions settle.
    Settling,
    /// Asking whether the cancellation signal has fired.
    CheckingCancel,
    /// Asking the terminal to print the remote environment.
    Requesting,
    /// Reading what the terminal printed.
    Reading,
    /// Waiting for the next poll.
    Idling,
    /// Waiting after a failed write, before the polling starts afresh.
    Backoff,
    /// Writing the dispatch script.
    Injecting,
    /// The dispatch script was written.
    Dispatched,
    /// Tearing the sessions down after the cancellation.
    TearingDown,
    /// The sessions were torn down.
    Cancelled,
    /// The controller gave up.
    Failed(Failure),
}

/// The stages of the interception protocol.
#[derive(Debug, Clone, Copy, PartialEq, Eq, Structural)]
pub enum Stage {
    /// The sessions are being opened and left to settle.
    Starting,
    /// The terminal is polled for the announcement.
    Polling,
    /// A hook was detected; its dispatch script is being written or was written.
    Dispatched,
    /// The cancellation was seen; the sessions are being torn down or were.
    Cancelled,
    /// The controller gave up.
    Failed,
}

/// The stage that a phase belongs to.
pub open spec fn stage_of(phase: Phase) -> Stage {
    match phase {
        Phase::OpeningInterceptor | Phase::OpeningShell | Phase::Settling => Stage::Starting,
        Phase::CheckingCancel
        | Phase::Requesting
        | Phase::Reading
        | Phase::Idling
        | Phase::Backoff => Stage::Polling,
        Phase::Injecting | Phase::Dispatched => Stage::Dispatched,
        Phase::TearingDown | Phase::Cancelled => Stage::Cancelled,
        Phase::Failed(_) => Stage::Failed,
    }
}

/// The abstract state of a controller.
pub struct TraceState {
    /// The unit that is traced.
    pub unit: Seq<char>,
    /// How it is traced.
    pub mode: Mode,
    /// The source of the tracing harness.
    pub harness: Seq<char>,
    /// Where the controller stands.
    pub phase: Phase,
    /// What the terminal printed since the polling last started afresh.
    pub buffer: Seq<char>,
    /// The hook that was detected, once one was.
    pub hook: Seq<char>,
    /// The sessions that were opened.
    pub sessions: Sessions,
    /// The number of teardown actions that were performed.
    pub progress: nat,
}

/// The milliseconds that the remote sessions are given to settle.
pub open spec fn settle_millis(mode: Mode) -> u64 {
    match mode {
        Mode::Trace => TRACE_SETTLE_MILLIS,
        Mode::Debug => DEBUG_SETTLE_MILLIS,
    }
}

/// The phase at the top of a poll: the cancellation signal is consulted where
/// there is one.
pub open spec fn poll_top(mode: Mode) -> Phase {
    match mode {
        Mode::Trace => Phase::CheckingCancel,
        Mode::Debug => Phase::Requesting,
    }
}

/// The teardown of the sessions of `unit`, in order: the driving shell is told
/// to exit and terminated, the hook-interceptor session is terminated, the
/// multiplexer session is killed and the held hook is marked as resolved. What
/// was never opened is not terminated.
pub open spec fn teardown_plan(unit: Seq<char>, sessions: Sessions) -> Seq<ActionView> {
    (if sessions.shell {
        seq![ActionView::WriteShell { text: exit_line() }, ActionView::KillShell]
    } else {
        Seq::<ActionView>::empty()
    }) + (if sessions.interceptor {
        seq![ActionView::KillInterceptor { index: 0 }]
    } else {
        Seq::<ActionView>::empty()
    }) + seq![ActionView::KillSession { unit }, ActionView::Resolve { unit }]
}

/// The state in which a controller starts.
pub open spec fn initial_state(unit: Seq<char>, harness: Seq<char>, mode: Mode) -> TraceState {
    TraceState {
        unit,
        mode,
        harness,
        phase: Phase::OpeningInterceptor,
        buffer: Seq::empty(),
        hook: Seq::empty(),
        sessions: Sessions { interceptor: false, shell: false },
        progress: 0,
    }
}

/// The state `s` in the phase `phase`.
pub open spec fn at_phase(s: TraceState, phase: Phase) -> TraceState {
    TraceState { phase, ..s }
}

/// The action that a controller in the state `s` waits for.
pub open spec fn pending_action(s: TraceState) -> ActionView {
    match s.phase {
        Phase::OpeningInterceptor => ActionView::OpenInterceptor {
            unit: s.unit,
            rows: TERMINAL_ROWS,
            columns: TERMINAL_COLUMNS,
        },
        Phase::OpeningShell => ActionView::OpenShell { unit: s.unit },
        Phase::Settling => ActionView::Sleep { millis: settle_millis(s.mode) },
        Phase::CheckingCancel => ActionView::PollCancel,
        Phase::Requesting => ActionView::WriteShell { text: environment_request_line(s.unit) },
        Phase::Reading => ActionView::ReadTerminal,
        Phase::Idling => ActionView::Sleep { millis: POLL_INTERVAL_MILLIS },
        Phase::Backoff => ActionView::Sleep { millis: RETRY_DELAY_MILLIS },
        Phase::Injecting => ActionView::WriteShell {
            text: injection_line(s.unit, dispatch_script(s.hook, s.harness)),
        },
        Phase::TearingDown => {
            let plan = teardown_plan(s.unit, s.sessions);
            if s.progress < plan.len() {
                plan[s.progress as int]
            } else {
                ActionView::Finish
            }
        },
        Phase::Dispatched | Phase::Cancelled => ActionView::Finish,
        Phase::Failed(failure) => ActionView::Abort { failure },
    }
}

/// The state after the driver has reported `event` to a controller in the state
/// `s`.
pub open spec fn next_state(s: TraceState, event: EventView) -> TraceState {
    match s.phase {
        Phase::OpeningInterceptor => match event {
            EventView::Done => TraceState {
                phase: Phase::OpeningShell,
                sessions: Sessions { interceptor: true, shell: s.sessions.shell },
                ..s
            },
            EventView::Failed => at_phase(s, Phase::Failed(Failure::SessionStart)),
            _ => at_phase(s, Phase::Failed(Failure::Protocol)),
        },
        Phase::OpeningShell => match event {
            EventView::Done => TraceState {
                phase: Phase::Settling,
                sessions: Sessions { interceptor: s.sessions.interceptor, shell: true },
                ..s
            },
            EventView::Failed => at_phase(s, Phase::Failed(Failure::SessionStart)),
            _ => at_phase(s, Phase::Failed(Failure::Protocol)),
        },
        Phase::Settling => match event {
            EventView::Done => at_phase(s, poll_top(s.mode)),
            _ => at_phase(s, Phase::Failed(Failure::Protocol)),
        },
        Phase::CheckingCancel => match event {
            EventView::Cancel { fired } => if fired {
                TraceState { phase: Phase::TearingDown, progress: 0, ..s }
            } else {
                at_phase(s, Phase::Requesting)
            },
            _ => at_phase(s, Phase::Failed(Failure::Protocol)),
        },
        Phase::Requesting => match event {
            EventView::Done => at_phase(s, Phase::Reading),
            EventView::Failed => at_phase(s, Phase::Backoff),
            _ => at_phase(s, Phase::Failed(Failure::Protocol)),
        },
        Phase::Reading => match event {
            EventView::Output { bytes } => {
                let buffer = s.buffer + widened(bytes);
                match finding(buffer) {
                    Finding::Hook(name) => TraceState {
                        phase: Phase::Injecting,
                        buffer,
                        hook: name,
                        ..s
                    },
                    _ => TraceState { phase: Phase::Idling, buffer, ..s },
                }
            },
            EventView::Failed => at_phase(s, poll_top(s.mode)),
            _ => at_phase(s, Phase::Failed(Failure::Protocol)),
        },
        Phase::Idling => match event {
            EventView::Done => at_phase(s, poll_top(s.mode)),
            _ => at_phase(s, Phase::Failed(Failure::Protocol)),
        },
        Phase::Backoff => match event {
            EventView::Done => TraceState { phase: poll_top(s.mode), buffer: Seq::empty(), ..s },
            _ => at_phase(s, Phase::Failed(Failure::Protocol)),
        },
        Phase::Injecting => match event {
            EventView::Done => at_phase(s, Phase::Dispatched),
            EventView::Failed => at_phase(s, Phase::Failed(Failure::Injection)),
            _ => at_phase(s, Phase::Failed(Failure::Protocol)),
        },
        Phase::TearingDown => match event {
            EventView::Done => if s.progress + 1 >= teardown_plan(s.unit, s.sessions).len() {
                at_phase(s, Phase::Cancelled)
            } else {
                TraceState { progress: s.progress + 1, ..s }
            },
            EventView::Failed => at_phase(s, Phase::Failed(Failure::Teardown)),
            _ => at_phase(s, Phase::Failed(Failure::Protocol)),
        },
        Phase::Dispatched | Phase::Cancelled | Phase::Failed(_) => s,
    }
}

/// The state after the driver has reported the events of `events`, one after
/// another.
pub open spec fn run(s: TraceState, events: Seq<EventView>) -> TraceState
    decreases events.len(),
{
    if events.len() == 0 {
        s
    } else {
        next_state(run(s, events.drop_last()), events.last())
    }
}

/// The teardown of the sessions of `unit`, in order.
pub fn teardown_actions(unit: &str, sessions: Sessions) -> (plan: Vec<Action>)
    ensures
        action_views(plan@) == teardown_plan(unit@, sessions),
{
    let mut plan: Vec<Action> = Vec::new();
    if sessions.shell {
        plan.push(Action::WriteShell { text: exit_instruction() });
        plan.push(Action::KillShell);
    }
    if sessions.interceptor {
        plan.push(Action::KillInterceptor { index: 0 });
    }
    plan.push(Action::KillSession { unit: unit.to_owned() });
    plan.push(Action::Resolve { unit: unit.to_owned() });
    assert(action_views(plan@) =~= teardown_plan(unit@, sessions));
    plan
}

/// The session controller of one unit.
pub struct TraceController {
    unit: String,
    mode: Mode,
    harness: String,
    phase: Phase,
    buffer: DetectionBuffer,
    hook: String,
    sessions: Sessions,
    progress: usize,
}

impl View for TraceController {
    type V = TraceState;

    closed spec fn view(&self) -> TraceState {
        TraceState {
            unit: self.unit@,
            mode: self.mode,
            harness: self.harness@,
            phase: self.phase,
            buffer: self.buffer@,
            hook: self.hook@,
            sessions: self.sessions,
            progress: self.progress as nat,
        }
    }
}

/// A controller for `unit_name` that has opened nothing yet.
pub fn trace_unit(unit_name: &str, harness: &str, mode: Mode) -> (controller: TraceController)
    ensures
        controller@ == initial_state(unit_name@, harness@, mode),
{
    TraceController {
        unit: unit_name.to_owned(),
        mode,
        harness: harness.to_owned(),
        phase: Phase::OpeningInterceptor,
        buffer: DetectionBuffer::new(),
        hook: String::new(),
        sessions: Sessions { interceptor: false, shell: false },
        progress: 0,
    }
}

impl TraceController {
    /// The unit that is traced.
    pub fn unit(&self) -> (unit: &String)
        ensures
            unit@ == self@.unit,
    {
        &self.unit
    }

    /// Where the controller stands.
    pub fn phase(&self) -> (phase: Phase)
        ensures
            phase == self@.phase,
    {
        self.phase
    }

    /// The stage of the protocol that the controller is in.
    pub fn stage(&self) -> (stage: Stage)
        ensures
            stage == stage_of(self@.phase),
    {
        match self.phase {
            Phase::OpeningInterceptor | Phase::OpeningShell | Phase::Settling => Stage::Starting,
            Phase::CheckingCancel
            | Phase::Requesting
            | Phase::Reading
            | Phase::Idling
            | Phase::Backoff => Stage::Polling,
            Phase::Injecting | Phase::Dispatched => Stage::Dispatched,
            Phase::TearingDown | Phase::Cancelled => Stage::Cancelled,
            Phase::Failed(_) => Stage::Failed,
        }
    }

    /// The hook that was detected; empty until one was.
    pub fn hook(&self) -> (hook: &String)
        ensures
            hook@ == self@.hook,
    {
        &self.hook
    }

    /// The sessions that were opened.
    pub fn sessions(&self) -> (sessions: Sessions)
        ensures
            sessions == self@.sessions,
    {
        self.sessions
    }

    /// The number of characters in the detection buffer.
    pub fn buffered(&self) -> (n: usize)
        ensures
            n == self@.buffer.len(),
    {
        self.buffer.len()
    }

    /// The action that the controller waits for.
    pub fn pending(&self) -> (action: Action)
        ensures
            action@ == pending_action(self@),
    {
        match self.phase {
            Phase::OpeningInterceptor => Action::OpenInterceptor {
                unit: self.unit.clone(),
                rows: TERMINAL_ROWS,
                columns: TERMINAL_COLUMNS,
            },
            Phase::OpeningShell => Action::OpenShell { unit: self.unit.clone() },
            Phase::Settling => Action::Sleep {
                millis: match self.mode {
                    Mode::Trace => TRACE_SETTLE_MILLIS,
                    Mode::Debug => DEBUG_SETTLE_MILLIS,
                },
            },
            Phase::CheckingCancel => Action::PollCancel,
            Phase::Requesting => Action::WriteShell {
                text: environment_request(self.unit.as_str()),
            },
            Phase::Reading => Action::ReadTerminal,
            Phase::Idling => Action::Sleep { millis: POLL_INTERVAL_MILLIS },
            Phase::Backoff => Action::Sleep { millis: RETRY_DELAY_MILLIS },
            Phase::Injecting => {
                let script = synthesize(self.hook.as_str(), self.harness.as_str());
                Action::WriteShell { text: injection(self.unit.as_str(), script.as_str()) }
            },
            Phase::TearingDown => {
                let mut plan = teardown_actions(self.unit.as_str(), self.sessions);
                if self.progress < plan.len() {
                    let ghost views = action_views(plan@);
                    let action = plan.remove(self.progress);
                    assert(action@ == views[self.progress as int]);
                    action
                } else {
                    Action::Finish
                }
            },
            Phase::Dispatched | Phase::Cancelled => Action::Finish,
            Phase::Failed(failure) => Action::Abort { failure },
        }
    }

    /// Takes the driver's report of the pending action, moves on, and returns
    /// the action that is pending then.
    pub fn step(&mut self, event: Event) -> (action: Action)
        ensures
            final(self)@ == next_state(old(self)@, event@),
            action@ == pending_action(final(self)@),
    {
        match self.phase {
            Phase::OpeningInterceptor => match event {
                Event::Done => {
                    self.sessions.interceptor = true;
                    self.phase = Phase::OpeningShell;
                },
                Event::Failed => {
                    self.phase = Phase::Failed(Failure::SessionStart);
                },
                _ => {
                    self.phase = Phase::Failed(Failure::Protocol);
                },
            },
            Phase::OpeningShell => match event {
                Event::Done => {
                    self.sessions.shell = true;
                    self.phase = Phase::Settling;
                },
                Event::Failed => {
                    self.phase = Phase::Failed(Failure::SessionStart);
                },
                _ => {
                    self.phase = Phase::Failed(Failure::Protocol);
                },
            },
            Phase::Settling | Phase::Idling => match event {
                Event::Done => {
                    self.phase = self.top();
                },
                _ => {
                    self.phase = Phase::Failed(Failure::Protocol);
                },
            },
            Phase::CheckingCancel => match event {
                Event::Cancel { fired } => {
                    if fired {
                        self.progress = 0;
                        self.phase = Phase::TearingDown;
                    } else {
                        self.phase = Phase::Requesting;
                    }
                },
                _ => {
                    self.phase = Phase::Failed(Failure::Protocol);
                },
            },
            Phase::Requesting => match event {
                Event::Done => {
                    self.phase = Phase::Reading;
                },
                Event::Failed => {
                    self.phase = Phase::Backoff;
                },
                _ => {
                    self.phase = Phase::Failed(Failure::Protocol);
                },
            },
            Phase::Reading => match event {
                Event::Output { bytes } => {
                    self.buffer.append(bytes.as_slice());
                    match self.buffer.detect() {
                        Detection::Hook(name) => {
                            self.hook = name;
                            self.phase = Phase::Injecting;
                        },
                        _ => {
                            self.phase = Phase::Idling;
                        },
                    }
                },
                Event::Failed => {
                    self.phase = self.top();
                },
                _ => {
                    self.phase = Phase::Failed(Failure::Protocol);
                },
            },
            Phase::Backoff => match event {
                Event::Done => {
                    self.buffer = DetectionBuffer::new();
                    self.phase = self.top();
                },
                _ => {
                    self.phase = Phase::Failed(Failure::Protocol);
                },
            },
            Phase::Injecting => match event {
                Event::Done => {
                    self.phase = Phase::Dispatched;
                },
                Event::Failed => {
                    self.phase = Phase::Failed(Failure::Injection);
                },
                _ => {
                    self.phase = Phase::Failed(Failure::Protocol);
                },
            },
            Phase::TearingDown => match event {
                Event::Done => {
                    let plan = teardown_actions(self.unit.as_str(), self.sessions);
                    let steps = plan.len();
                    assert(action_views(plan@).len() == steps);
                    if self.progress >= steps || self.progress + 1 >= steps {
                        self.phase = Phase::Cancelled;
                    } else {
                        self.progress = self.progress + 1;
                    }
                },
                Event::Failed => {
                    self.phase = Phase::Failed(Failure::Teardown);
                },
                _ => {
                    self.phase = Phase::Failed(Failure::Protocol);
                },
            },
            Phase::Dispatched | Phase::Cancelled | Phase::Failed(_) => {},
        }
        self.pending()
    }

    /// The phase at the top of a poll.
    fn top(&self) -> (phase: Phase)
        ensures
            phase == poll_top(self@.mode),
    {
        match self.mode {
            Mode::Trace => Phase::CheckingCancel,
            Mode::Debug => Phase::Requesting,
        }
    }
}

/// The operation that a controller in the mode `mode` carries out.
pub open spec fn operation_of(mode: Mode) -> Operation {
    match mode {
        Mode::Trace => Operation::Trace,
        Mode::Debug => Operation::Debug,
    }
}

/// A controller for the one unit of `application`, where `applications` are the
/// applications of the topology and `units` the units of `application`. An
/// unknown application is refused, and so is one that has no unit or more than
/// one; for exactly one unit the controller stands at the start of the protocol.
pub fn trace(
    application: &str,
    applications: &Vec<String>,
    units: Vec<String>,
    harness: &str,
    mode: Mode,
) -> (controller: Result<TraceController, ValidationError>)
    ensures
        match controller {
            Ok(started) => {
                &&& resolution(
                    operation_of(mode),
                    application@,
                    texts(applications@),
                    texts(units@),
                ) is Ok
                &&& units.len() == 1
                &&& started@ == initial_state(units[0]@, harness@, mode)
                &&& stage_of(started@.phase) == Stage::Starting
            },
            Err(error) => resolution(
                operation_of(mode),
                application@,
                texts(applications@),
                texts(units@),
            ) == Err::<Seq<Seq<char>>, ValidationError>(error),
        },
{
    let operation = match mode {
        Mode::Trace => Operation::Trace,
        Mode::Debug => Operation::Debug,
    };
    match resolve(operation, application, applications, units) {
        Ok(targets) => Ok(trace_unit(targets[0].as_str(), harness, mode)),
        Err(error) => Err(error),
    }
}

/// What holds of every state that a controller can reach: the polling starts
/// only when both sessions are open, the teardown has an action left while it
/// lasts, and the hook that is injected is the one that the buffer names.
pub open spec fn consistent(s: TraceState) -> bool {
    &&& s.phase == Phase::OpeningShell ==> s.sessions.interceptor
    &&& (s.phase == Phase::Settling || stage_of(s.phase) == Stage::Polling || stage_of(s.phase)
        == Stage::Dispatched || stage_of(s.phase) == Stage::Cancelled) ==> s.sessions.interceptor
        && s.sessions.shell
    &&& s.phase == Phase::TearingDown ==> s.progress < teardown_plan(s.unit, s.sessions).len()
    &&& stage_of(s.phase) == Stage::Dispatched ==> first_hook(s.buffer) == Some(s.hook)
}

/// A controller starts in a consistent state, at the start of the protocol.
pub proof fn lemma_initial_consistent(unit: Seq<char>, harness: Seq<char>, mode: Mode)
    ensures
        consistent(initial_state(unit, harness, mode)),
        stage_of(initial_state(unit, harness, mode).phase) == Stage::Starting,
{
}

/// Every event leaves a consistent state consistent, and never changes the
/// unit, the mode or the harness.
pub proof fn lemma_step_consistent(s: TraceState, event: EventView)
    requires
        consistent(s),
    ensures
        consistent(next_state(s, event)),
        next_state(s, event).unit == s.unit,
        next_state(s, event).mode == s.mode,
        next_state(s, event).harness == s.harness,
{
}

/// Every run of events leaves a consistent state consistent.
pub proof fn lemma_run_consistent(s: TraceState, events: Seq<EventView>)
    requires
        consistent(s),
    ensures
        consistent(run(s, events)),
        run(s, events).unit == s.unit,
        run(s, events).mode == s.mode,
        run(s, events).harness == s.harness,
    decreases events.len(),
{
    if events.len() > 0 {
        lemma_run_consistent(s, events.drop_last());
        lemma_step_consistent(run(s, events.drop_last()), events.last());
    }
}

/// The dispatch script is injected only for the hook that the buffer names, and
/// only from the poll that read the announcement.
pub proof fn lemma_injection_follows_detection(s: TraceState, event: EventView)
    requires
        next_state(s, event).phase == Phase::Injecting,
        s.phase != Phase::Injecting,
    ensures
        s.phase == Phase::Reading,
        event is Output,
        finding(s.buffer + widened(event->bytes)) == Finding::Hook(next_state(s, event).hook),
{
}

/// Where the marker stands in the buffer without a whole announcement, or does
/// not stand in it, the poll goes on: the controller waits and polls again.
pub proof fn lemma_incomplete_polls_on(s: TraceState, bytes: Seq<u8>)
    requires
        s.phase == Phase::Reading,
        !(finding(s.buffer + widened(bytes)) is Hook),
    ensures
        next_state(s, EventView::Output { bytes }).phase == Phase::Idling,
        next_state(s, EventView::Output { bytes }).buffer == s.buffer + widened(bytes),
{
}

/// Within one polling cycle the buffer only grows at its end: but for the fresh
/// start after a failed write, what the buffer held stays at its front.
pub proof fn lemma_buffer_only_grows(s: TraceState, event: EventView)
    requires
        s.phase != Phase::Backoff,
    ensures
        s.buffer.is_prefix_of(next_state(s, event).buffer),
{
    match event {
        EventView::Output { bytes } => {
            assert((s.buffer + widened(bytes)).subrange(0, s.buffer.len() as int) =~= s.buffer);
        },
        _ => {},
    }
    assert(s.buffer.subrange(0, s.buffer.len() as int) =~= s.buffer);
}

/// When the cancellation check finds the signal fired, the teardown begins at
/// once: nothing more is written for that poll, and no dispatch script is made.
pub proof fn lemma_cancel_begins_teardown(s: TraceState)
    requires
        s.phase == Phase::CheckingCancel,
    ensures
        next_state(s, EventView::Cancel { fired: true }).phase == Phase::TearingDown,
        next_state(s, EventView::Cancel { fired: true }).progress == 0,
        next_state(s, EventView::Cancel { fired: true }).buffer == s.buffer,
        next_state(s, EventView::Cancel { fired: true }).hook == s.hook,
{
}

/// Once the teardown has begun, no event leads to an injection: the controller
/// stays in the teardown, has finished it, or has given up.
pub proof fn lemma_no_injection_after_cancel(s: TraceState, events: Seq<EventView>)
    requires
        stage_of(s.phase) == Stage::Cancelled,
    ensures
        stage_of(run(s, events).phase) == Stage::Cancelled || stage_of(run(s, events).phase)
            == Stage::Failed,
        run(s, events).hook == s.hook,
    decreases events.len(),
{
    if events.len() > 0 {
        lemma_no_injection_after_cancel(s, events.drop_last());
    }
}

/// Once a dispatch script is being injected, no event leads to a teardown or
/// to another detection: the controller writes the script, has written it, or
/// has given up, and the hook stays the one that was detected.
pub proof fn lemma_no_teardown_after_dispatch(s: TraceState, events: Seq<EventView>)
    requires
        stage_of(s.phase) == Stage::Dispatched,
    ensures
        stage_of(run(s, events).phase) == Stage::Dispatched || stage_of(run(s, events).phase)
            == Stage::Failed,
        run(s, events).hook == s.hook,
    decreases events.len(),
{
    if events.len() > 0 {
        lemma_no_teardown_after_dispatch(s, events.drop_last());
    }
}

/// A controller that has given up stays so.
pub proof fn lemma_failure_is_final(s: TraceState, events: Seq<EventView>)
    requires
        stage_of(s.phase) == Stage::Failed,
    ensures
        run(s, events) == s,
    decreases events.len(),
{
    if events.len() > 0 {
        lemma_failure_is_final(s, events.drop_last());
    }
}

/// A controller that has written the dispatch script or finished the teardown
/// has nothing left to do, whatever is reported to it: finishing twice is
/// finishing once.
pub proof fn lemma_finished_is_final(s: TraceState, events: Seq<EventView>)
    requires
        s.phase == Phase::Dispatched || s.phase == Phase::Cancelled,
    ensures
        run(s, events) == s,
        pending_action(run(s, events)) == ActionView::Finish,
    decreases events.len(),
{
    if events.len() > 0 {
        lemma_finished_is_final(s, events.drop_last());
    }
}

/// When the cancellation check of a consistent controller finds the signal
/// fired and every action of the teardown is performed, the controller asks in
/// turn for the exit instruction, the end of the driving shell, the end of the
/// hook-interceptor session, the killing of the multiplexer session and the
/// resolving of the hook, and is then cancelled.
pub proof fn lemma_cancel_reaches_cancelled(s: TraceState)
    requires
        consistent(s),
        s.phase == Phase::CheckingCancel,
    ensures
        ({
            let t0 = next_state(s, EventView::Cancel { fired: true });
            let t1 = next_state(t0, EventView::Done);
            let t2 = next_state(t1, EventView::Done);
            let t3 = next_state(t2, EventView::Done);
            let t4 = next_state(t3, EventView::Done);
            let t5 = next_state(t4, EventView::Done);
            &&& pending_action(t0) == ActionView::WriteShell { text: exit_line() }
            &&& pending_action(t1) == ActionView::KillShell
            &&& pending_action(t2) == ActionView::KillInterceptor { index: 0 }
            &&& pending_action(t3) == ActionView::KillSession { unit: s.unit }
            &&& pending_action(t4) == ActionView::Resolve { unit: s.unit }
            &&& t5.phase == Phase::Cancelled
            &&& pending_action(t5) == ActionView::Finish
        }),
{
    let plan = teardown_plan(s.unit, s.sessions);
    assert(plan =~= seq![
        ActionView::WriteShell { text: exit_line() },
        ActionView::KillShell,
        ActionView::KillInterceptor { index: 0 },
        ActionView::KillSession { unit: s.unit },
        ActionView::Resolve { unit: s.unit },
    ]);
}

/// The teardown can be asked for whatever was opened: where no session was
/// ever opened it terminates no process, and only kills the multiplexer session
/// and resolves the hook; where the hook-interceptor session was not opened, no
/// action terminates it.
pub proof fn lemma_teardown_of_unopened(unit: Seq<char>, sessions: Sessions)
    ensures
        teardown_plan(unit, Sessions { interceptor: false, shell: false }) == seq![
            ActionView::KillSession { unit },
            ActionView::Resolve { unit },
        ],
        !sessions.interceptor ==> forall|k: int|
            0 <= k < teardown_plan(unit, sessions).len() ==> !(#[trigger] teardown_plan(
                unit,
                sessions,
            )[k] is KillInterceptor),
        teardown_plan(unit, sessions).len() >= 2,
{
    assert(teardown_plan(unit, Sessions { interceptor: false, shell: false }) =~= seq![
        ActionView::KillSession { unit },
        ActionView::Resolve { unit },
    ]);
}

/// In the cancellable mode a poll comes back to the cancellation check within
/// three events, unless it has left the polling: a fired signal is seen after
/// one poll at most.
pub proof fn lemma_cancel_is_consulted(s: TraceState, a: EventView, b: EventView, c: EventView)
    requires
        s.mode == Mode::Trace,
        stage_of(s.phase) == Stage::Polling,
    ensures
        ({
            let s1 = next_state(s, a);
            let s2 = next_state(s1, b);
            let s3 = next_state(s2, c);
            ||| s.phase == Phase::CheckingCancel
            ||| s1.phase == Phase::CheckingCancel || stage_of(s1.phase) != Stage::Polling
            ||| s2.phase == Phase::CheckingCancel || stage_of(s2.phase) != Stage::Polling
            ||| s3.phase == Phase::CheckingCancel || stage_of(s3.phase) != Stage::Polling
        }),
{
}

/// The stages follow one another in one direction: the start leads to the
/// polling, the polling to the dispatch or to the cancellation, and each of them
/// only to itself or to a failure.
pub proof fn lemma_stages_in_order(s: TraceState, event: EventView)
    ensures
        ({
            let before = stage_of(s.phase);
            let after = stage_of(next_state(s, event).phase);
            match before {
                Stage::Starting => after == Stage::Starting || after == Stage::Polling || after
                    == Stage::Failed,
                Stage::Polling => after != Stage::Starting,
                Stage::Dispatched => after == Stage::Dispatched || after == Stage::Failed,
                Stage::Cancelled => after == Stage::Cancelled || after == Stage::Failed,
                Stage::Failed => after == Stage::Failed,
            }
        }),
{
}

/// A controller without cancellation never asks for the cancellation signal and
/// never tears down: whatever is reported to it, it starts, polls, dispatches or
/// gives up.
pub proof fn lemma_debug_never_cancels(
    unit: Seq<char>,
    harness: Seq<char>,
    events: Seq<EventView>,
)
    ensures
        run(initial_state(unit, harness, Mode::Debug), events).phase != Phase::CheckingCancel,
        stage_of(run(initial_state(unit, harness, Mode::Debug), events).phase)
            != Stage::Cancelled,
        run(initial_state(unit, harness, Mode::Debug), events).mode == Mode::Debug,
    decreases events.len(),
{
    if events.len() > 0 {
        lemma_debug_never_cancels(unit, harness, events.drop_last());
    }
}

} // verus!
