use hook_tracer::pause::{pause, pause_actions, PAUSE_SPACING_MILLIS};
use hook_tracer::session::{Action, Event, Failure};
use hook_tracer::topology::ValidationError;

fn names(list: &[&str]) -> Vec<String> {
    list.iter().map(|name| name.to_string()).collect()
}

fn open(unit: &str) -> Action {
    Action::OpenInterceptor { unit: unit.to_string(), rows: 24, columns: 80 }
}

fn kill_session(unit: &str) -> Action {
    Action::KillSession { unit: unit.to_string() }
}

fn resolve(unit: &str) -> Action {
    Action::Resolve { unit: unit.to_string() }
}

fn wait() -> Action {
    Action::Sleep { millis: 1000 }
}

#[test]
fn sessions_are_opened_one_second_apart() {
    assert_eq!(PAUSE_SPACING_MILLIS, 1000);
}

#[test]
fn plan_for_two_units() {
    assert_eq!(
        pause_actions(&names(&["u1", "u2"])),
        vec![
            open("u1"),
            wait(),
            open("u2"),
            wait(),
            Action::AwaitCancel,
            Action::KillInterceptor { index: 0 },
            Action::KillInterceptor { index: 1 },
            kill_session("u1"),
            resolve("u1"),
            kill_session("u2"),
            resolve("u2"),
        ]
    );
}

#[test]
fn plan_for_no_unit_only_awaits_cancellation() {
    assert_eq!(pause_actions(&Vec::new()), vec![Action::AwaitCancel]);
}

#[test]
fn each_unit_is_torn_down_before_the_next() {
    let units = names(&["app/0", "app/1", "app/2", "app/3"]);
    let plan = pause_actions(&units);
    assert_eq!(plan.len(), 5 * units.len() + 1);
    let place = |action: &Action| plan.iter().position(|other| other == action).unwrap();
    let cancel = place(&Action::AwaitCancel);
    for (i, unit) in units.iter().enumerate() {
        assert!(place(&open(unit)) < cancel);
        assert!(cancel < place(&Action::KillInterceptor { index: i }));
        assert!(place(&Action::KillInterceptor { index: i }) < place(&kill_session(&units[0])));
        assert_eq!(place(&kill_session(unit)) + 1, place(&resolve(unit)));
        if i + 1 < units.len() {
            assert!(place(&open(unit)) < place(&open(&units[i + 1])));
            assert!(place(&resolve(unit)) < place(&kill_session(&units[i + 1])));
        }
    }
}

#[test]
fn pause_of_an_unknown_application_is_refused() {
    let applications = names(&["mysql"]);
    let refused = pause("redis", &applications, names(&["redis/0"]));
    assert_eq!(refused.err(), Some(ValidationError::UnknownApplication));
    let refused = pause("redis", &Vec::new(), Vec::new());
    assert_eq!(refused.err(), Some(ValidationError::UnknownApplication));
}

#[test]
fn pause_walks_its_plan() {
    let applications = names(&["mysql", "wordpress"]);
    let units = names(&["mysql/0", "mysql/1"]);
    let mut controller = pause("mysql", &applications, units.clone()).ok().unwrap();
    assert_eq!(controller.units(), &units);
    assert_eq!(controller.position(), 0);
    assert_eq!(controller.failure(), None);
    let plan = pause_actions(&units);
    let mut action = controller.pending();
    for expected in plan {
        assert_eq!(action, expected);
        action = match action {
            Action::AwaitCancel => controller.step(Event::Cancel { fired: true }),
            _ => controller.step(Event::Done),
        };
    }
    assert_eq!(action, Action::Finish);
    assert_eq!(controller.position(), 11);
    assert_eq!(controller.step(Event::Done), Action::Finish);
    assert_eq!(controller.step(Event::Failed), Action::Finish);
    assert_eq!(controller.position(), 11);
    assert_eq!(controller.failure(), None);
}

#[test]
fn pause_holds_until_the_signal_has_fired() {
    let applications = names(&["mysql"]);
    let mut controller = pause("mysql", &applications, names(&["mysql/0"])).ok().unwrap();
    assert_eq!(controller.step(Event::Done), wait());
    assert_eq!(controller.step(Event::Done), Action::AwaitCancel);
    assert_eq!(controller.step(Event::Cancel { fired: false }), Action::AwaitCancel);
    assert_eq!(controller.step(Event::Cancel { fired: false }), Action::AwaitCancel);
    assert_eq!(controller.position(), 2);
    assert_eq!(
        controller.step(Event::Cancel { fired: true }),
        Action::KillInterceptor { index: 0 }
    );
    assert_eq!(controller.step(Event::Done), kill_session("mysql/0"));
    assert_eq!(controller.step(Event::Done), resolve("mysql/0"));
    assert_eq!(controller.step(Event::Done), Action::Finish);
}

#[test]
fn pause_of_an_application_without_units_waits_and_finishes() {
    let applications = names(&["mysql"]);
    let mut controller = pause("mysql", &applications, Vec::new()).ok().unwrap();
    assert_eq!(controller.pending(), Action::AwaitCancel);
    assert_eq!(controller.step(Event::Cancel { fired: true }), Action::Finish);
    assert_eq!(controller.step(Event::Cancel { fired: true }), Action::Finish);
}

#[test]
fn pause_gives_up_when_a_session_cannot_be_opened() {
    let applications = names(&["mysql"]);
    let mut controller = pause("mysql", &applications, names(&["mysql/0", "mysql/1"])).ok().unwrap();
    controller.step(Event::Done);
    assert_eq!(controller.step(Event::Done), open("mysql/1"));
    assert_eq!(controller.step(Event::Failed), Action::Abort { failure: Failure::SessionStart });
    assert_eq!(controller.failure(), Some(Failure::SessionStart));
    assert_eq!(controller.position(), 2);
    assert_eq!(controller.step(Event::Done), Action::Abort { failure: Failure::SessionStart });
    assert_eq!(controller.position(), 2);
}

#[test]
fn pause_gives_up_when_the_teardown_fails() {
    let applications = names(&["mysql"]);
    for failing in 3..6 {
        let mut controller = pause("mysql", &applications, names(&["mysql/0"])).ok().unwrap();
        controller.step(Event::Done);
        controller.step(Event::Done);
        controller.step(Event::Cancel { fired: true });
        for _ in 3..failing {
            controller.step(Event::Done);
        }
        assert_eq!(controller.position(), failing);
        assert_eq!(controller.step(Event::Failed), Action::Abort { failure: Failure::Teardown });
    }
}

#[test]
fn pause_gives_up_on_an_event_that_answers_nothing() {
    let applications = names(&["mysql"]);
    let start = || pause("mysql", &applications, names(&["mysql/0"])).ok().unwrap();
    let protocol = Action::Abort { failure: Failure::Protocol };
    let mut controller = start();
    assert_eq!(controller.step(Event::Cancel { fired: true }), protocol);
    let mut controller = start();
    assert_eq!(controller.step(Event::Output { bytes: vec![1] }), protocol);
    let mut controller = start();
    controller.step(Event::Done);
    assert_eq!(controller.step(Event::Failed), protocol);
    let mut controller = start();
    controller.step(Event::Done);
    controller.step(Event::Done);
    assert_eq!(controller.step(Event::Done), protocol);
    let mut controller = start();
    controller.step(Event::Done);
    controller.step(Event::Done);
    assert_eq!(controller.step(Event::Failed), protocol);
}
