//! The topology client: the platform's status report, read as JSON, and the
//! applications and units that it names.

use crate::text::texts;
use vstd::prelude::*;

verus! {

/// A JSON value of `serde_json`. Nothing inside it is visible here: what the
/// library reads of it is named by `json_objects`.
#[verifier::external_type_specification]
#[verifier::external_body]
pub struct ExValue(serde_json::Value);

/// The error of `serde_json`.
#[verifier::external_type_specification]
#[verifier::external_body]
pub struct ExError(serde_json::Error);

/// The objects inside the JSON value `value`: each path of keys that leads from
/// `value` to an object is mapped to the keys of that object, in the order in
/// which the object hands them out. The empty path leads to `value` itself.
pub uninterp spec fn json_objects(value: serde_json::Value) -> Map<
    Seq<Seq<char>>,
    Seq<Seq<char>>,
>;

/// The objects inside the value that `serde_json::from_str` reads from `text`,
/// where `text` is a JSON document.
pub uninterp spec fn json_document(text: Seq<char>) -> Option<
    Map<Seq<Seq<char>>, Seq<Seq<char>>>,
>;

/// The path `path` leads to an object.
pub open spec fn is_object(
    objects: Map<Seq<Seq<char>>, Seq<Seq<char>>>,
    path: Seq<Seq<char>>,
) -> bool {
    objects.contains_key(path)
}

/// The path `path` leads to an object that has a member under `key`.
pub open spec fn has_member(
    objects: Map<Seq<Seq<char>>, Seq<Seq<char>>>,
    path: Seq<Seq<char>>,
    key: Seq<char>,
) -> bool {
    objects.contains_key(path) && objects[path].contains(key)
}

/// The objects as they are seen from the member under `key`: every path that
/// begins with `key`, without that beginning.
pub open spec fn below(objects: Map<Seq<Seq<char>>, Seq<Seq<char>>>, key: Seq<char>) -> Map<
    Seq<Seq<char>>,
    Seq<Seq<char>>,
> {
    Map::new(
        |path: Seq<Seq<char>>| objects.contains_key(seq![key] + path),
        |path: Seq<Seq<char>>| objects[seq![key] + path],
    )
}

/// `serde_json::from_str` for a `serde_json::Value`: whether `text` can be read
/// is a function of `text`, and so are the objects inside the value that is read.
#[verifier::external_body]
fn read_json(text: &str) -> (read: Result<serde_json::Value, serde_json::Error>)
    ensures
        read is Ok <==> json_document(text@) is Some,
        read matches Ok(value) ==> json_document(text@) == Some(json_objects(value)),
{
    serde_json::from_str::<serde_json::Value>(text)
}

/// `serde_json::Value::get` with a text as the index: the member of an object
/// under that key, and nothing for a missing key or a value that is no object.
/// The objects inside the member are those that the value holds below the key.
#[verifier::external_body]
fn member<'a>(value: &'a serde_json::Value, key: &str) -> (found: Option<&'a serde_json::Value>)
    ensures
        found is Some <==> has_member(json_objects(*value), Seq::empty(), key@),
        found matches Some(inner) ==> json_objects(*inner) == below(json_objects(*value), key@),
{
    value.get(key)
}

/// `serde_json::Value::as_object` and the `keys` of the map that it returns: the
/// keys of an object, each once, and nothing for a value that is no object.
#[verifier::external_body]
fn member_names(value: &serde_json::Value) -> (names: Option<Vec<String>>)
    ensures
        names is Some <==> is_object(json_objects(*value), Seq::empty()),
        names matches Some(list) ==> {
            &&& texts(list@) == json_objects(*value)[Seq::empty()]
            &&& texts(list@).no_duplicates()
        },
{
    match value.as_object() {
        Some(object) => Some(object.keys().cloned().collect()),
        None => None,
    }
}

/// Why a status report cannot be used.
#[derive(Debug, Clone, Copy, PartialEq, Eq, Structural)]
pub enum StatusError {
    /// The report is no JSON document.
    NotJson,
    /// The report is JSON, but not of the expected form: it has no object of
    /// applications, or the units of the application are no object.
    UnexpectedForm,
}

/// The path to the object of applications.
pub open spec fn applications_path() -> Seq<Seq<char>> {
    seq!["applications"@]
}

/// The path to the entry of `application`.
pub open spec fn entry_path(application: Seq<char>) -> Seq<Seq<char>> {
    seq!["applications"@, application]
}

/// The path to the object of units of `application`.
pub open spec fn units_path(application: Seq<char>) -> Seq<Seq<char>> {
    seq!["applications"@, application, "units"@]
}

/// The status is an object whose member `applications` is an object.
pub open spec fn has_applications(objects: Map<Seq<Seq<char>>, Seq<Seq<char>>>) -> bool {
    has_member(objects, Seq::empty(), "applications"@) && is_object(objects, applications_path())
}

/// The names of the applications in a status report with the objects
/// `objects`: the keys of its object of applications.
pub open spec fn application_names(objects: Map<Seq<Seq<char>>, Seq<Seq<char>>>) -> Result<
    Seq<Seq<char>>,
    StatusError,
> {
    if has_applications(objects) {
        Ok(objects[applications_path()])
    } else {
        Err(StatusError::UnexpectedForm)
    }
}

/// The names of the units of `application` in a status report with the objects
/// `objects`: the keys of its object of units, and none where the application
/// is missing or has no units.
pub open spec fn unit_names(
    objects: Map<Seq<Seq<char>>, Seq<Seq<char>>>,
    application: Seq<char>,
) -> Result<Seq<Seq<char>>, StatusError> {
    if !has_applications(objects) {
        Err(StatusError::UnexpectedForm)
    } else if !has_member(objects, applications_path(), application) {
        Ok(Seq::empty())
    } else if !has_member(objects, entry_path(application), "units"@) {
        Ok(Seq::empty())
    } else if !is_object(objects, units_path(application)) {
        Err(StatusError::UnexpectedForm)
    } else {
        Ok(objects[units_path(application)])
    }
}

/// The status report `output` as a JSON value.
pub fn juju_status(output: &str) -> (status: Result<serde_json::Value, StatusError>)
    ensures
        match status {
            Ok(value) => json_document(output@) == Some(json_objects(value)),
            Err(error) => error == StatusError::NotJson && json_document(output@) is None,
        },
{
    match read_json(output) {
        Ok(value) => Ok(value),
        Err(_) => Err(StatusError::NotJson),
    }
}

/// The names of the applications in `status`: exactly the keys of its object of
/// applications, each once.
pub fn list_applications(status: &serde_json::Value) -> (names: Result<Vec<String>, StatusError>)
    ensures
        match names {
            Ok(list) => {
                &&& application_names(json_objects(*status)) == Ok::<
                    Seq<Seq<char>>,
                    StatusError,
                >(texts(list@))
                &&& texts(list@).no_duplicates()
            },
            Err(error) => application_names(json_objects(*status)) == Err::<
                Seq<Seq<char>>,
                StatusError,
            >(error),
        },
{
    match member(status, "applications") {
        None => Err(StatusError::UnexpectedForm),
        Some(applications) => {
            assert(seq!["applications"@] + Seq::<Seq<char>>::empty() =~= applications_path());
            match member_names(applications) {
                None => Err(StatusError::UnexpectedForm),
                Some(list) => Ok(list),
            }
        },
    }
}

/// The names of the units of `application` in `status`: exactly the keys of its
/// object of units, each once, and none where the application is missing or has
/// no units.
pub fn list_units(status: &serde_json::Value, application: &str) -> (names: Result<
    Vec<String>,
    StatusError,
>)
    ensures
        match names {
            Ok(list) => {
                &&& unit_names(json_objects(*status), application@) == Ok::<
                    Seq<Seq<char>>,
                    StatusError,
                >(texts(list@))
                &&& texts(list@).no_duplicates()
            },
            Err(error) => unit_names(json_objects(*status), application@) == Err::<
                Seq<Seq<char>>,
                StatusError,
            >(error),
        },
{
    let ghost none = Seq::<Seq<char>>::empty();
    let applications = match member(status, "applications") {
        None => {
            return Err(StatusError::UnexpectedForm);
        },
        Some(applications) => applications,
    };
    assert(seq!["applications"@] + none =~= applications_path());
    if member_names(applications).is_none() {
        return Err(StatusError::UnexpectedForm);
    }
    let empty: Vec<String> = Vec::new();
    assert(texts(empty@) =~= none);
    match member(applications, application) {
        None => Ok(empty),
        Some(entry) => {
            assert(seq![application@] + none =~= seq![application@]);
            assert(seq!["applications"@] + seq![application@] =~= entry_path(application@));
            match member(entry, "units") {
                None => Ok(empty),
                Some(units) => {
                    assert(seq!["units"@] + none =~= seq!["units"@]);
                    assert(seq![application@] + seq!["units"@] =~= seq![application@, "units"@]);
                    assert(seq!["applications"@] + seq![application@, "units"@] =~= units_path(
                        application@,
                    ));
                    match member_names(units) {
                        None => Err(StatusError::UnexpectedForm),
                        Some(list) => Ok(list),
                    }
                },
            }
        },
    }
}

/// Why the platform's command-line tool could not be called.
#[derive(Debug, Clone, Copy, PartialEq, Eq, Structural)]
pub enum EnvironmentError {
    /// The tool is not installed where the operator's shell finds it.
    NotFound,
    /// The tool is there, but could not be started.
    Unreachable,
}

/// The message that tells the operator of `error`.
pub open spec fn environment_text(error: EnvironmentError) -> Seq<char> {
    match error {
        EnvironmentError::NotFound => "`juju` was not found in your PATH"@,
        EnvironmentError::Unreachable => "some strange error occurred"@,
    }
}

impl EnvironmentError {
    /// The message that tells the operator of the error.
    pub fn message(&self) -> (text: String)
        ensures
            text@ == environment_text(*self),
    {
        match self {
            EnvironmentError::NotFound => "`juju` was not found in your PATH".to_owned(),
            EnvironmentError::Unreachable => "some strange error occurred".to_owned(),
        }
    }
}

/// The message that tells the operator of `error`.
pub open spec fn status_text(error: StatusError) -> Seq<char> {
    match error {
        StatusError::NotJson => "the status report is no JSON document"@,
        StatusError::UnexpectedForm => "the status report names no applications and units"@,
    }
}

impl StatusError {
    /// The message that tells the operator of the error.
    pub fn message(&self) -> (text: String)
        ensures
            text@ == status_text(*self),
    {
        match self {
            StatusError::NotJson => "the status report is no JSON document".to_owned(),
            StatusError::UnexpectedForm =>
                "the status report names no applications and units".to_owned(),
        }
    }
}

} // verus!
