//! What a session controller asks of its driver and what the driver answers:
//! a controller decides, the driver performs the action and reports the event.

use vstd::prelude::*;

verus! {

/// Why a controller gave up.
#[derive(Debug, Clone, Copy, PartialEq, Eq, Structural)]
pub enum Failure {
    /// A remote session could not be opened.
    SessionStart,
    /// The dispatch script could not be written to the driving shell.
    Injection,
    /// A step of the teardown failed.
    Teardown,
    /// The driver reported an event that does not answer the pending action.
    Protocol,
}

/// One step that the driver performs for a controller.
#[derive(Debug, Clone, PartialEq, Eq)]
pub enum Action {
    /// Open the hook-interceptor session of the unit on a fresh pseudo-terminal
    /// of this many rows and columns.
    OpenInterceptor { unit: String, rows: u16, columns: u16 },
    /// Open the driving shell on the unit.
    OpenShell { unit: String },
    /// Wait for this many milliseconds.
    Sleep { millis: u64 },
    /// Report whether the cancellation signal has fired.
    PollCancel,
    /// Wait until the cancellation signal has fired.
    AwaitCancel,
    /// Write the text to the driving shell's input.
    WriteShell { text: String },
    /// Read what the pseudo-terminal holds at this moment.
    ReadTerminal,
    /// Terminate the driving shell.
    KillShell,
    /// Terminate the hook-interceptor session that was opened as the `index`th.
    KillInterceptor { index: usize },
    /// Kill the multiplexer session named after the unit.
    KillSession { unit: String },
    /// Mark the held hook of the unit as resolved.
    Resolve { unit: String },
    /// Nothing is left to do.
    Finish,
    /// Give up for this reason.
    Abort { failure: Failure },
}

/// The abstract value of an action, its texts as sequences of characters.
pub enum ActionView {
    OpenInterceptor { unit: Seq<char>, rows: u16, columns: u16 },
    OpenShell { unit: Seq<char> },
    Sleep { millis: u64 },
    PollCancel,
    AwaitCancel,
    WriteShell { text: Seq<char> },
    ReadTerminal,
    KillShell,
    KillInterceptor { index: usize },
    KillSession { unit: Seq<char> },
    Resolve { unit: Seq<char> },
    Finish,
    Abort { failure: Failure },
}

impl View for Action {
    type V = ActionView;

    open spec fn view(&self) -> ActionView {
        match self {
            Action::OpenInterceptor { unit, rows, columns } => ActionView::OpenInterceptor {
                unit: unit@,
                rows: *rows,
                columns: *columns,
            },
            Action::OpenShell { unit } => ActionView::OpenShell { unit: unit@ },
            Action::Sleep { millis } => ActionView::Sleep { millis: *millis },
            Action::PollCancel => ActionView::PollCancel,
            Action::AwaitCancel => ActionView::AwaitCancel,
            Action::WriteShell { text } => ActionView::WriteShell { text: text@ },
            Action::ReadTerminal => ActionView::ReadTerminal,
            Action::KillShell => ActionView::KillShell,
            Action::KillInterceptor { index } => ActionView::KillInterceptor { index: *index },
            Action::KillSession { unit } => ActionView::KillSession { unit: unit@ },
            Action::Resolve { unit } => ActionView::Resolve { unit: unit@ },
            Action::Finish => ActionView::Finish,
            Action::Abort { failure } => ActionView::Abort { failure: *failure },
        }
    }
}

/// The abstract values of `actions`, in order.
pub open spec fn action_views(actions: Seq<Action>) -> Seq<ActionView> {
    Seq::new(actions.len(), |i: int| actions[i]@)
}

/// What the driver reports of the action that it performed.
#[derive(Debug, Clone, PartialEq, Eq)]
pub enum Event {
    /// The action was performed.
    Done,
    /// The action raised an error.
    Failed,
    /// Whether the cancellation signal has fired.
    Cancel { fired: bool },
    /// The bytes that were read from the pseudo-terminal.
    Output { bytes: Vec<u8> },
}

/// The abstract value of an event.
pub enum EventView {
    Done,
    Failed,
    Cancel { fired: bool },
    Output { bytes: Seq<u8> },
}

impl View for Event {
    type V = EventView;

    open spec fn view(&self) -> EventView {
        match self {
            Event::Done => EventView::Done,
            Event::Failed => EventView::Failed,
            Event::Cancel { fired } => EventView::Cancel { fired: *fired },
            Event::Output { bytes } => EventView::Output { bytes: bytes@ },
        }
    }
}

/// A copy of `action`.
pub fn copy_action(action: &Action) -> (copy: Action)
    ensures
        copy@ == action@,
{
    match action {
        Action::OpenInterceptor { unit, rows, columns } => Action::OpenInterceptor {
            unit: unit.clone(),
            rows: *rows,
            columns: *columns,
        },
        Action::OpenShell { unit } => Action::OpenShell { unit: unit.clone() },
        Action::Sleep { millis } => Action::Sleep { millis: *millis },
        Action::PollCancel => Action::PollCancel,
        Action::AwaitCancel => Action::AwaitCancel,
        Action::WriteShell { text } => Action::WriteShell { text: text.clone() },
        Action::ReadTerminal => Action::ReadTerminal,
        Action::KillShell => Action::KillShell,
        Action::KillInterceptor { index } => Action::KillInterceptor { index: *index },
        Action::KillSession { unit } => Action::KillSession { unit: unit.clone() },
        Action::Resolve { unit } => Action::Resolve { unit: unit.clone() },
        Action::Finish => Action::Finish,
        Action::Abort { failure } => Action::Abort { failure: *failure },
    }
}

/// The message that tells the operator of `failure`.
pub open spec fn failure_text(failure: Failure) -> Seq<char> {
    match failure {
        Failure::SessionStart => "a remote session could not be opened"@,
        Failure::Injection => "the dispatch script could not be sent"@,
        Failure::Teardown => "the remote cleanup failed"@,
        Failure::Protocol => "an action was answered by an event that does not belong to it"@,
    }
}

impl Failure {
    /// The message that tells the operator of the failure.
    pub fn message(&self) -> (text: String)
        ensures
            text@ == failure_text(*self),
    {
        match self {
            Failure::SessionStart => "a remote session could not be opened".to_owned(),
            Failure::Injection => "the dispatch script could not be sent".to_owned(),
            Failure::Teardown => "the remote cleanup failed".to_owned(),
            Failure::Protocol =>
                "an action was answered by an event that does not belong to it".to_owned(),
        }
    }
}

} // verus!
