use hook_tracer::status::{
    juju_status, list_applications, list_units, EnvironmentError, StatusError,
};

const STATUS: &str = "{\"model\": {\"name\": \"test\"}, \"applications\": {\"wordpress\": {\"charm\": \"wordpress\", \"units\": {\"wordpress/1\": {\"machine\": \"2\"}, \"wordpress/0\": {\"machine\": \"1\"}}}, \"mysql\": {\"units\": {\"mysql/0\": {}}}, \"haproxy\": {\"charm\": \"haproxy\"}, \"empty\": {\"units\": {}}, \"broken\": {\"units\": [\"broken/0\"]}}}";

fn names(list: &[&str]) -> Vec<String> {
    list.iter().map(|name| name.to_string()).collect()
}

#[test]
fn applications_are_the_keys_of_the_application_mapping() {
    let status = juju_status(STATUS).unwrap();
    let mut applications = list_applications(&status).unwrap();
    applications.sort();
    assert_eq!(applications, names(&["broken", "empty", "haproxy", "mysql", "wordpress"]));
}

#[test]
fn units_are_the_keys_of_the_unit_mapping() {
    let status = juju_status(STATUS).unwrap();
    let mut units = list_units(&status, "wordpress").unwrap();
    units.sort();
    assert_eq!(units, names(&["wordpress/0", "wordpress/1"]));
    assert_eq!(list_units(&status, "mysql"), Ok(names(&["mysql/0"])));
}

#[test]
fn an_application_without_units_has_none() {
    let status = juju_status(STATUS).unwrap();
    assert_eq!(list_units(&status, "haproxy"), Ok(Vec::new()));
    assert_eq!(list_units(&status, "empty"), Ok(Vec::new()));
}

#[test]
fn an_application_that_is_missing_has_no_units() {
    let status = juju_status(STATUS).unwrap();
    assert_eq!(list_units(&status, "redis"), Ok(Vec::new()));
    assert_eq!(list_units(&status, ""), Ok(Vec::new()));
    assert_eq!(list_units(&status, "units"), Ok(Vec::new()));
}

#[test]
fn units_that_are_no_mapping_are_refused() {
    let status = juju_status(STATUS).unwrap();
    assert_eq!(list_units(&status, "broken"), Err(StatusError::UnexpectedForm));
}

#[test]
fn a_report_that_is_no_json_is_refused() {
    assert_eq!(juju_status("ERROR no controller").err(), Some(StatusError::NotJson));
    assert_eq!(juju_status("").err(), Some(StatusError::NotJson));
    assert_eq!(juju_status("{\"applications\": {").err(), Some(StatusError::NotJson));
}

#[test]
fn a_report_without_applications_is_refused() {
    for text in ["{}", "[]", "null", "{\"applications\": [1]}", "{\"applications\": null}", "3"] {
        let status = juju_status(text).unwrap();
        assert_eq!(list_applications(&status), Err(StatusError::UnexpectedForm), "{}", text);
        assert_eq!(list_units(&status, "mysql"), Err(StatusError::UnexpectedForm), "{}", text);
    }
}

#[test]
fn a_report_with_no_application_lists_none() {
    let status = juju_status("{\"applications\": {}}").unwrap();
    assert_eq!(list_applications(&status), Ok(Vec::new()));
    assert_eq!(list_units(&status, "mysql"), Ok(Vec::new()));
}

#[test]
fn the_report_is_read_as_json() {
    let status = juju_status(" {\"applications\" : {\"a\\u0062\": {\"units\": {\"ab/0\": 1}}}} ");
    let status = status.unwrap();
    assert_eq!(status["applications"]["ab"]["units"]["ab/0"], serde_json::Value::from(1));
    assert_eq!(list_applications(&status), Ok(names(&["ab"])));
    assert_eq!(list_units(&status, "ab"), Ok(names(&["ab/0"])));
}

#[test]
fn a_key_given_twice_is_listed_once() {
    let status = juju_status("{\"applications\": {\"a\": {}, \"b\": {}, \"a\": {\"units\": {\"a/0\": {}}}}}");
    let status = status.unwrap();
    let mut applications = list_applications(&status).unwrap();
    applications.sort();
    assert_eq!(applications, names(&["a", "b"]));
    assert_eq!(list_units(&status, "a"), Ok(names(&["a/0"])));
}

#[test]
fn a_missing_tool_is_told_apart_from_other_failures() {
    assert_eq!(EnvironmentError::NotFound.message(), "`juju` was not found in your PATH");
    assert_eq!(EnvironmentError::Unreachable.message(), "some strange error occurred");
    assert_ne!(EnvironmentError::NotFound.message(), EnvironmentError::Unreachable.message());
}

#[test]
fn status_messages() {
    assert_eq!(StatusError::NotJson.message(), "the status report is no JSON document");
    assert_eq!(
        StatusError::UnexpectedForm.message(),
        "the status report names no applications and units"
    );
}
