use hook_tracer::topology::{resolve, validate_application, Operation, ValidationError};

fn names(list: &[&str]) -> Vec<String> {
    list.iter().map(|name| name.to_string()).collect()
}

const OPERATIONS: [Operation; 3] = [Operation::Pause, Operation::Trace, Operation::Debug];

#[test]
fn an_unknown_application_is_refused_in_every_mode() {
    let applications = names(&["mysql", "wordpress"]);
    for operation in OPERATIONS {
        for units in [names(&[]), names(&["redis/0"]), names(&["redis/0", "redis/1"])] {
            assert_eq!(
                resolve(operation, "redis", &applications, units),
                Err(ValidationError::UnknownApplication)
            );
        }
        assert_eq!(
            resolve(operation, "mysql", &Vec::new(), names(&["mysql/0"])),
            Err(ValidationError::UnknownApplication)
        );
        assert_eq!(
            resolve(operation, "mysq", &applications, names(&["mysql/0"])),
            Err(ValidationError::UnknownApplication)
        );
    }
}

#[test]
fn tracing_wants_exactly_one_unit() {
    let applications = names(&["mysql", "wordpress"]);
    for operation in [Operation::Trace, Operation::Debug] {
        assert_eq!(
            resolve(operation, "mysql", &applications, names(&[])),
            Err(ValidationError::NoUnitsFound)
        );
        assert_eq!(
            resolve(operation, "mysql", &applications, names(&["mysql/0", "mysql/1"])),
            Err(ValidationError::AmbiguousUnit)
        );
        assert_eq!(
            resolve(operation, "mysql", &applications, names(&["mysql/0", "mysql/1", "mysql/2"])),
            Err(ValidationError::AmbiguousUnit)
        );
        assert_eq!(
            resolve(operation, "wordpress", &applications, names(&["wordpress/3"])),
            Ok(names(&["wordpress/3"]))
        );
    }
}

#[test]
fn pausing_takes_every_unit() {
    let applications = names(&["mysql"]);
    assert_eq!(resolve(Operation::Pause, "mysql", &applications, names(&[])), Ok(names(&[])));
    assert_eq!(
        resolve(Operation::Pause, "mysql", &applications, names(&["mysql/1", "mysql/0"])),
        Ok(names(&["mysql/1", "mysql/0"]))
    );
}

#[test]
fn messages_name_the_application() {
    assert_eq!(
        ValidationError::UnknownApplication.message("redis"),
        "unknown application: redis"
    );
    assert_eq!(
        ValidationError::NoUnitsFound.message("mysql"),
        "no units found for application: mysql"
    );
    assert_eq!(
        ValidationError::AmbiguousUnit.message("mysql"),
        "multiple units found for application: mysql"
    );
}

#[test]
fn an_application_is_known_if_the_topology_lists_it() {
    let applications = names(&["mysql", "wordpress"]);
    assert_eq!(validate_application("mysql", &applications), Ok(()));
    assert_eq!(validate_application("wordpress", &applications), Ok(()));
    assert_eq!(
        validate_application("redis", &applications),
        Err(ValidationError::UnknownApplication)
    );
    assert_eq!(
        validate_application("mysql", &Vec::new()),
        Err(ValidationError::UnknownApplication)
    );
}
