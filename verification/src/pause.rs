//! The session controller that holds every unit of an application before its
//! next hook, until the operation is cancelled, and then lets them go.

use crate::command::{TERMINAL_COLUMNS, TERMINAL_ROWS};
use crate::session::{action_views, copy_action, Action, ActionView, Event, EventView, Failure};
use crate::text::texts;
use crate::topology::{resolution, resolve, Operation, ValidationError};
use vstd::prelude::*;

verus! {

/// The milliseconds between the opening of two hook-interceptor sessions.
pub const PAUSE_SPACING_MILLIS: u64 = 1000;

/// The opening of the sessions: for each unit in order, its hook-interceptor
/// session is opened, and then the controller waits.
pub open spec fn setup_plan(units: Seq<Seq<char>>) -> Seq<ActionView> {
    Seq::new(
        2 * units.len(),
        |k: int|
            if k % 2 == 0 {
                ActionView::OpenInterceptor {
                    unit: units[k / 2],
                    rows: TERMINAL_ROWS,
                    columns: TERMINAL_COLUMNS,
                }
            } else {
                ActionView::Sleep { millis: PAUSE_SPACING_MILLIS }
            },
    )
}

/// The end of the hook-interceptor sessions, in the order of their opening.
pub open spec fn release_plan(units: Seq<Seq<char>>) -> Seq<ActionView> {
    Seq::new(units.len(), |k: int| ActionView::KillInterceptor { index: k as usize })
}

/// The remote cleanup: for each unit in order, its multiplexer session is
/// killed, and then its held hook is marked as resolved.
pub open spec fn cleanup_plan(units: Seq<Seq<char>>) -> Seq<ActionView> {
    Seq::new(
        2 * units.len(),
        |k: int|
            if k % 2 == 0 {
                ActionView::KillSession { unit: units[k / 2] }
            } else {
                ActionView::Resolve { unit: units[k / 2] }
            },
    )
}

/// The teardown: every hook-interceptor session is ended, then the units are
/// cleaned up one after another.
pub open spec fn pause_teardown_plan(units: Seq<Seq<char>>) -> Seq<ActionView> {
    release_plan(units) + cleanup_plan(units)
}

/// Everything that is done to pause the units `units` and to let them go: the
/// sessions are opened, the cancellation is awaited, and the teardown follows.
pub open spec fn pause_plan(units: Seq<Seq<char>>) -> Seq<ActionView> {
    setup_plan(units).push(ActionView::AwaitCancel) + pause_teardown_plan(units)
}

/// The abstract state of a pause controller.
pub struct PauseState {
    /// The units that are paused, in the order of the topology.
    pub units: Seq<Seq<char>>,
    /// The number of actions of the plan that were performed.
    pub position: nat,
    /// Why the controller gave up, if it did.
    pub failure: Option<Failure>,
}

/// The state in which a pause controller starts.
pub open spec fn pause_start(units: Seq<Seq<char>>) -> PauseState {
    PauseState { units, position: 0, failure: None }
}

/// The action that a pause controller in the state `s` waits for.
pub open spec fn pause_pending(s: PauseState) -> ActionView {
    match s.failure {
        Some(failure) => ActionView::Abort { failure },
        None => if s.position < pause_plan(s.units).len() {
            pause_plan(s.units)[s.position as int]
        } else {
            ActionView::Finish
        },
    }
}

/// The state `s` after one more action was performed.
pub open spec fn advanced(s: PauseState) -> PauseState {
    PauseState { position: s.position + 1, ..s }
}

/// The state `s` after the controller gave up.
pub open spec fn given_up(s: PauseState, failure: Failure) -> PauseState {
    PauseState { failure: Some(failure), ..s }
}

/// The state after the driver has reported `event` to a pause controller in the
/// state `s`. A session that cannot be opened and a teardown action that fails
/// make the controller give up; while the cancellation signal has not fired the
/// controller goes on waiting for it.
pub open spec fn pause_next(s: PauseState, event: EventView) -> PauseState {
    if s.failure is Some || s.position >= pause_plan(s.units).len() {
        s
    } else {
        match pause_plan(s.units)[s.position as int] {
            ActionView::AwaitCancel => match event {
                EventView::Cancel { fired } => if fired {
                    advanced(s)
                } else {
                    s
                },
                _ => given_up(s, Failure::Protocol),
            },
            ActionView::Sleep { .. } => match event {
                EventView::Done => advanced(s),
                _ => given_up(s, Failure::Protocol),
            },
            ActionView::OpenInterceptor { .. } => match event {
                EventView::Done => advanced(s),
                EventView::Failed => given_up(s, Failure::SessionStart),
                _ => given_up(s, Failure::Protocol),
            },
            ActionView::KillInterceptor { .. }
            | ActionView::KillSession { .. }
            | ActionView::Resolve { .. } => match event {
                EventView::Done => advanced(s),
                EventView::Failed => given_up(s, Failure::Teardown),
                _ => given_up(s, Failure::Protocol),
            },
            _ => given_up(s, Failure::Protocol),
        }
    }
}

/// The state after the driver has reported the events of `events`, one after
/// another.
pub open spec fn pause_run(s: PauseState, events: Seq<EventView>) -> PauseState
    decreases events.len(),
{
    if events.len() == 0 {
        s
    } else {
        pause_next(pause_run(s, events.drop_last()), events.last())
    }
}

/// The event that reports that `action` was performed.
pub open spec fn completion(action: ActionView) -> EventView {
    match action {
        ActionView::AwaitCancel => EventView::Cancel { fired: true },
        _ => EventView::Done,
    }
}

/// The events that report that the first `count` actions of the plan for
/// `units` were performed.
pub open spec fn completions(units: Seq<Seq<char>>, count: nat) -> Seq<EventView> {
    Seq::new(count, |k: int| completion(pause_plan(units)[k]))
}

/// Everything that is done to pause the units `units` and to let them go.
pub fn pause_actions(units: &Vec<String>) -> (plan: Vec<Action>)
    ensures
        action_views(plan@) == pause_plan(texts(units@)),
{
    let ghost names = texts(units@);
    let mut plan: Vec<Action> = Vec::new();
    let mut i: usize = 0;
    while i < units.len()
        invariant
            i <= units.len(),
            names == texts(units@),
            action_views(plan@) == setup_plan(names.take(i as int)),
        decreases units.len() - i,
    {
        let ghost before = action_views(plan@);
        plan.push(
            Action::OpenInterceptor {
                unit: units[i].clone(),
                rows: TERMINAL_ROWS,
                columns: TERMINAL_COLUMNS,
            },
        );
        plan.push(Action::Sleep { millis: PAUSE_SPACING_MILLIS });
        assert(action_views(plan@) =~= before.push(
            ActionView::OpenInterceptor {
                unit: names[i as int],
                rows: TERMINAL_ROWS,
                columns: TERMINAL_COLUMNS,
            },
        ).push(ActionView::Sleep { millis: PAUSE_SPACING_MILLIS }));
        assert(setup_plan(names.take(i + 1)) =~= setup_plan(names.take(i as int)).push(
            ActionView::OpenInterceptor {
                unit: names[i as int],
                rows: TERMINAL_ROWS,
                columns: TERMINAL_COLUMNS,
            },
        ).push(ActionView::Sleep { millis: PAUSE_SPACING_MILLIS }));
        i += 1;
    }
    assert(names.take(units.len() as int) =~= names);
    let ghost setup = action_views(plan@);
    plan.push(Action::AwaitCancel);
    assert(action_views(plan@) =~= setup.push(ActionView::AwaitCancel));
    let ghost held = action_views(plan@);
    i = 0;
    while i < units.len()
        invariant
            i <= units.len(),
            names == texts(units@),
            action_views(plan@) == held + release_plan(names.take(i as int)),
        decreases units.len() - i,
    {
        let ghost before = action_views(plan@);
        plan.push(Action::KillInterceptor { index: i });
        assert(action_views(plan@) =~= before.push(ActionView::KillInterceptor { index: i }));
        assert(release_plan(names.take(i + 1)) =~= release_plan(names.take(i as int)).push(
            ActionView::KillInterceptor { index: i },
        ));
        assert(held + release_plan(names.take(i + 1)) =~= (held + release_plan(
            names.take(i as int),
        )).push(ActionView::KillInterceptor { index: i }));
        i += 1;
    }
    let ghost released = action_views(plan@);
    i = 0;
    assert(released + cleanup_plan(names.take(0)) =~= released);
    while i < units.len()
        invariant
            i <= units.len(),
            names == texts(units@),
            action_views(plan@) == released + cleanup_plan(names.take(i as int)),
        decreases units.len() - i,
    {
        let ghost before = action_views(plan@);
        plan.push(Action::KillSession { unit: units[i].clone() });
        plan.push(Action::Resolve { unit: units[i].clone() });
        assert(action_views(plan@) =~= before.push(
            ActionView::KillSession { unit: names[i as int] },
        ).push(ActionView::Resolve { unit: names[i as int] }));
        assert(cleanup_plan(names.take(i + 1)) =~= cleanup_plan(names.take(i as int)).push(
            ActionView::KillSession { unit: names[i as int] },
        ).push(ActionView::Resolve { unit: names[i as int] }));
        assert(released + cleanup_plan(names.take(i + 1)) =~= (released + cleanup_plan(
            names.take(i as int),
        )).push(ActionView::KillSession { unit: names[i as int] }).push(
            ActionView::Resolve { unit: names[i as int] },
        ));
        i += 1;
    }
    assert(action_views(plan@) =~= pause_plan(names));
    plan
}

/// The session controller of a paused application.
pub struct PauseController {
    units: Vec<String>,
    plan: Vec<Action>,
    position: usize,
    failure: Option<Failure>,
}

impl View for PauseController {
    type V = PauseState;

    closed spec fn view(&self) -> PauseState {
        PauseState {
            units: texts(self.units@),
            position: self.position as nat,
            failure: self.failure,
        }
    }
}

impl PauseController {
    #[verifier::type_invariant]
    spec fn planned(self) -> bool {
        action_views(self.plan@) == pause_plan(texts(self.units@))
    }

    /// The units that are paused, in the order of the topology.
    pub fn units(&self) -> (units: &Vec<String>)
        ensures
            texts(units@) == self@.units,
    {
        &self.units
    }

    /// The number of actions that were performed.
    pub fn position(&self) -> (position: usize)
        ensures
            position == self@.position,
    {
        self.position
    }

    /// Why the controller gave up, if it did.
    pub fn failure(&self) -> (failure: Option<Failure>)
        ensures
            failure == self@.failure,
    {
        self.failure
    }

    /// The action that the controller waits for.
    pub fn pending(&self) -> (action: Action)
        ensures
            action@ == pause_pending(self@),
    {
        proof {
            use_type_invariant(self);
        }
        match self.failure {
            Some(failure) => Action::Abort { failure },
            None => {
                if self.position < self.plan.len() {
                    assert(action_views(self.plan@)[self.position as int]
                        == self.plan@[self.position as int]@);
                    copy_action(&self.plan[self.position])
                } else {
                    Action::Finish
                }
            },
        }
    }

    /// Takes the driver's report of the pending action, moves on, and returns
    /// the action that is pending then.
    pub fn step(&mut self, event: Event) -> (action: Action)
        ensures
            final(self)@ == pause_next(old(self)@, event@),
            action@ == pause_pending(final(self)@),
    {
        proof {
            use_type_invariant(&*self);
        }
        if self.failure.is_none() && self.position < self.plan.len() {
            assert(action_views(self.plan@)[self.position as int]
                == self.plan@[self.position as int]@);
            let outcome: Result<bool, Failure> = match &self.plan[self.position] {
                Action::AwaitCancel => match event {
                    Event::Cancel { fired } => Ok(fired),
                    _ => Err(Failure::Protocol),
                },
                Action::Sleep { .. } => match event {
                    Event::Done => Ok(true),
                    _ => Err(Failure::Protocol),
                },
                Action::OpenInterceptor { .. } => match event {
                    Event::Done => Ok(true),
                    Event::Failed => Err(Failure::SessionStart),
                    _ => Err(Failure::Protocol),
                },
                Action::KillInterceptor { .. }
                | Action::KillSession { .. }
                | Action::Resolve { .. } => match event {
                    Event::Done => Ok(true),
                    Event::Failed => Err(Failure::Teardown),
                    _ => Err(Failure::Protocol),
                },
                _ => Err(Failure::Protocol),
            };
            match outcome {
                Ok(true) => {
                    self.position = self.position + 1;
                },
                Ok(false) => {},
                Err(failure) => {
                    self.failure = Some(failure);
                },
            }
        }
        self.pending()
    }
}

/// A controller that pauses every unit of `application`, where `applications`
/// are the applications of the topology and `units` the units of `application`.
pub fn pause(application: &str, applications: &Vec<String>, units: Vec<String>) -> (controller:
    Result<PauseController, ValidationError>)
    ensures
        match controller {
            Ok(started) => {
                &&& resolution(
                    Operation::Pause,
                    application@,
                    texts(applications@),
                    texts(units@),
                ) is Ok
                &&& started@ == pause_start(texts(units@))
            },
            Err(error) => resolution(
                Operation::Pause,
                application@,
                texts(applications@),
                texts(units@),
            ) == Err::<Seq<Seq<char>>, ValidationError>(error),
        },
{
    match resolve(Operation::Pause, application, applications, units) {
        Ok(targets) => {
            let plan = pause_actions(&targets);
            Ok(PauseController { units: targets, plan, position: 0, failure: None })
        },
        Err(error) => Err(error),
    }
}

/// The plan for some units has an action to open each session and one to
/// wait after it, the wait for the cancellation, an action to end each session,
/// and two actions to clean each unit up.
pub proof fn lemma_plan_shape(units: Seq<Seq<char>>)
    ensures
        pause_plan(units).len() == 5 * units.len() + 1,
        pause_plan(units)[2 * units.len() as int] == ActionView::AwaitCancel,
        forall|i: int|
            0 <= i < units.len() ==> {
                &&& #[trigger] pause_plan(units)[2 * i] == ActionView::OpenInterceptor {
                    unit: units[i],
                    rows: TERMINAL_ROWS,
                    columns: TERMINAL_COLUMNS,
                }
                &&& pause_plan(units)[2 * i + 1] == ActionView::Sleep {
                    millis: PAUSE_SPACING_MILLIS,
                }
            },
{
}

/// The units are cleaned up one after another, in the order of the topology:
/// the multiplexer session of a unit is killed and its hook is resolved before
/// either is begun for any unit after it, and after every hook-interceptor
/// session was ended.
pub proof fn lemma_teardown_in_order(units: Seq<Seq<char>>, i: int, j: int)
    requires
        0 <= i < j < units.len(),
    ensures
        ({
            let plan = pause_teardown_plan(units);
            let n = units.len() as int;
            &&& plan.len() == 3 * n
            &&& plan[n + 2 * i] == ActionView::KillSession { unit: units[i] }
            &&& plan[n + 2 * i + 1] == ActionView::Resolve { unit: units[i] }
            &&& plan[n + 2 * j] == ActionView::KillSession { unit: units[j] }
            &&& plan[n + 2 * j + 1] == ActionView::Resolve { unit: units[j] }
            &&& n + 2 * i < n + 2 * i + 1 < n + 2 * j < n + 2 * j + 1
            &&& forall|k: int| 0 <= k < n ==> #[trigger] plan[k] is KillInterceptor
        }),
{
}

/// The teardown is the end of the plan, after the wait for the cancellation.
pub proof fn lemma_teardown_follows_cancel(units: Seq<Seq<char>>, k: int)
    requires
        0 <= k < pause_teardown_plan(units).len(),
    ensures
        pause_plan(units)[2 * units.len() as int + 1 + k] == pause_teardown_plan(units)[k],
{
}

/// While every action is performed, the controller asks for the actions of the
/// plan one after another, and has nothing left to do after the last.
pub proof fn lemma_plan_is_followed(units: Seq<Seq<char>>, count: nat)
    requires
        count <= pause_plan(units).len(),
    ensures
        pause_run(pause_start(units), completions(units, count)) == (PauseState {
            units,
            position: count,
            failure: None,
        }),
        count < pause_plan(units).len() ==> pause_pending(
            pause_run(pause_start(units), completions(units, count)),
        ) == pause_plan(units)[count as int],
        count == pause_plan(units).len() ==> pause_pending(
            pause_run(pause_start(units), completions(units, count)),
        ) == ActionView::Finish,
    decreases count,
{
    if count > 0 {
        let before = (count - 1) as nat;
        lemma_plan_is_followed(units, before);
        assert(completions(units, count).drop_last() =~= completions(units, before));
        lemma_plan_actions(units, before as int);
    }
}

/// Every action of the plan opens a session, waits, awaits the cancellation,
/// ends a session, kills a multiplexer session or resolves a hook.
pub proof fn lemma_plan_actions(units: Seq<Seq<char>>, k: int)
    requires
        0 <= k < pause_plan(units).len(),
    ensures
        ({
            let action = pause_plan(units)[k];
            ||| action is OpenInterceptor
            ||| action is Sleep
            ||| action is AwaitCancel
            ||| action is KillInterceptor
            ||| action is KillSession
            ||| action is Resolve
        }),
{
}

/// Until the cancellation signal has fired the controller holds the units: it
/// goes on waiting, and begins no teardown.
pub proof fn lemma_holds_until_cancelled(s: PauseState)
    requires
        s.failure is None,
        s.position < pause_plan(s.units).len(),
        pause_plan(s.units)[s.position as int] == ActionView::AwaitCancel,
    ensures
        pause_next(s, EventView::Cancel { fired: false }) == s,
        pause_next(s, EventView::Cancel { fired: true }) == advanced(s),
{
}

/// A pause controller that gave up or has performed its plan stays as it is,
/// whatever is reported to it.
pub proof fn lemma_pause_end_is_final(s: PauseState, events: Seq<EventView>)
    requires
        s.failure is Some || s.position >= pause_plan(s.units).len(),
    ensures
        pause_run(s, events) == s,
    decreases events.len(),
{
    if events.len() > 0 {
        lemma_pause_end_is_final(s, events.drop_last());
    }
}

} // verus!
