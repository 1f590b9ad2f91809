use hook_tracer::topology::Operation;
use hook_tracer::usage::{operation_from, parse_arguments, Request, UsageError};

fn words(list: &[&str]) -> Vec<String> {
    list.iter().map(|word| word.to_string()).collect()
}

#[test]
fn operations_by_name() {
    assert_eq!(operation_from("pause"), Some(Operation::Pause));
    assert_eq!(operation_from("trace"), Some(Operation::Trace));
    assert_eq!(operation_from("debug"), Some(Operation::Debug));
    assert_eq!(operation_from("Pause"), None);
    assert_eq!(operation_from("resume"), None);
    assert_eq!(operation_from(""), None);
}

#[test]
fn a_whole_command_line_is_a_request() {
    assert_eq!(
        parse_arguments(&words(&["juju", "pause", "mysql"])),
        Ok(Request { operation: Operation::Pause, application: "mysql".to_string() })
    );
    assert_eq!(
        parse_arguments(&words(&["juju", "trace", "wordpress", "more"])),
        Ok(Request { operation: Operation::Trace, application: "wordpress".to_string() })
    );
    assert_eq!(
        parse_arguments(&words(&["juju", "debug", "mysql"])),
        Ok(Request { operation: Operation::Debug, application: "mysql".to_string() })
    );
}

#[test]
fn what_is_missing_is_told_in_order() {
    assert_eq!(parse_arguments(&words(&[])), Err(UsageError::MissingEngine));
    assert_eq!(parse_arguments(&words(&["juju"])), Err(UsageError::MissingOperation));
    assert_eq!(parse_arguments(&words(&["juju", "trace"])), Err(UsageError::MissingApplication));
    assert_eq!(parse_arguments(&words(&["k8s", "what"])), Err(UsageError::MissingApplication));
}

#[test]
fn an_unknown_engine_or_operation_is_refused() {
    assert_eq!(
        parse_arguments(&words(&["k8s", "trace", "mysql"])),
        Err(UsageError::UnknownEngine)
    );
    assert_eq!(
        parse_arguments(&words(&["k8s", "what", "mysql"])),
        Err(UsageError::UnknownEngine)
    );
    assert_eq!(
        parse_arguments(&words(&["juju", "what", "mysql"])),
        Err(UsageError::UnknownOperation)
    );
}

#[test]
fn usage_messages() {
    assert_eq!(
        UsageError::MissingEngine.message("", ""),
        "no engine given (should be one of: juju)"
    );
    assert_eq!(
        UsageError::MissingOperation.message("juju", ""),
        "no operation given (should be one of: pause, trace, debug)"
    );
    assert_eq!(UsageError::MissingApplication.message("juju", "trace"), "no application given");
    assert_eq!(UsageError::UnknownEngine.message("k8s", "trace"), "unknown engine: k8s");
    assert_eq!(UsageError::UnknownOperation.message("juju", "what"), "unknown operation: what");
}
