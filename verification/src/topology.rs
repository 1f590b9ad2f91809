//! Resolution of the target application to the units that an operation works
//! on.

use crate::text::{holds_name, texts};
use vstd::prelude::*;

verus! {

/// What is done to the units of an application.
#[derive(Debug, Clone, Copy, PartialEq, Eq, Structural)]
pub enum Operation {
    /// Every unit is held before its next hook.
    Pause,
    /// The next hook of the one unit is traced, until it ran or the operation
    /// is cancelled.
    Trace,
    /// The next hook of the one unit is traced, without cancellation.
    Debug,
}

/// Why an application cannot be worked on.
#[derive(Debug, Clone, Copy, PartialEq, Eq, Structural)]
pub enum ValidationError {
    /// The topology holds no application of that name.
    UnknownApplication,
    /// The application has no unit, where exactly one is required.
    NoUnitsFound,
    /// The application has several units, where exactly one is required.
    AmbiguousUnit,
}

/// Whether the operation works on exactly one unit.
pub open spec fn wants_single_unit(operation: Operation) -> bool {
    operation != Operation::Pause
}

/// The units that `operation` works on, where `applications` are the
/// applications of the topology and `units` the units of `application`.
pub open spec fn resolution(
    operation: Operation,
    application: Seq<char>,
    applications: Seq<Seq<char>>,
    units: Seq<Seq<char>>,
) -> Result<Seq<Seq<char>>, ValidationError> {
    if !applications.contains(application) {
        Err(ValidationError::UnknownApplication)
    } else if !wants_single_unit(operation) {
        Ok(units)
    } else if units.len() == 0 {
        Err(ValidationError::NoUnitsFound)
    } else if units.len() > 1 {
        Err(ValidationError::AmbiguousUnit)
    } else {
        Ok(units)
    }
}

/// Whether the topology holds `application`: an application that is not among
/// `applications` is refused.
pub fn validate_application(application: &str, applications: &Vec<String>) -> (checked: Result<
    (),
    ValidationError,
>)
    ensures
        checked is Ok <==> texts(applications@).contains(application@),
        checked is Err ==> checked == Err::<(), ValidationError>(
            ValidationError::UnknownApplication,
        ),
{
    if holds_name(applications, application) {
        Ok(())
    } else {
        Err(ValidationError::UnknownApplication)
    }
}

/// The units that `operation` works on.
pub fn resolve(
    operation: Operation,
    application: &str,
    applications: &Vec<String>,
    units: Vec<String>,
) -> (resolved: Result<Vec<String>, ValidationError>)
    ensures
        match resolved {
            Ok(targets) => targets == units && resolution(
                operation,
                application@,
                texts(applications@),
                texts(units@),
            ) == Ok::<Seq<Seq<char>>, ValidationError>(texts(units@)),
            Err(error) => resolution(operation, application@, texts(applications@), texts(units@))
                == Err::<Seq<Seq<char>>, ValidationError>(error),
        },
{
    if validate_application(application, applications).is_err() {
        return Err(ValidationError::UnknownApplication);
    }
    match operation {
        Operation::Pause => Ok(units),
        _ => {
            if units.len() == 0 {
                Err(ValidationError::NoUnitsFound)
            } else if units.len() > 1 {
                Err(ValidationError::AmbiguousUnit)
            } else {
                Ok(units)
            }
        },
    }
}

/// An application that the topology does not hold is refused, whatever the
/// operation and whatever units are handed in.
pub proof fn lemma_unknown_application_refused(
    operation: Operation,
    application: Seq<char>,
    applications: Seq<Seq<char>>,
    units: Seq<Seq<char>>,
)
    requires
        !applications.contains(application),
    ensures
        resolution(operation, application, applications, units) == Err::<
            Seq<Seq<char>>,
            ValidationError,
        >(ValidationError::UnknownApplication),
{
}

/// Where exactly one unit is required, a known application without units is
/// refused for having none, one with several for being ambiguous, and one with
/// exactly one unit resolves to it.
pub proof fn lemma_single_unit_required(
    operation: Operation,
    application: Seq<char>,
    applications: Seq<Seq<char>>,
    units: Seq<Seq<char>>,
)
    requires
        applications.contains(application),
        operation == Operation::Trace || operation == Operation::Debug,
    ensures
        units.len() == 0 ==> resolution(operation, application, applications, units) == Err::<
            Seq<Seq<char>>,
            ValidationError,
        >(ValidationError::NoUnitsFound),
        units.len() >= 2 ==> resolution(operation, application, applications, units) == Err::<
            Seq<Seq<char>>,
            ValidationError,
        >(ValidationError::AmbiguousUnit),
        units.len() == 1 ==> resolution(operation, application, applications, units) == Ok::<
            Seq<Seq<char>>,
            ValidationError,
        >(units),
{
}

/// The message that tells the operator of `error` for `application`.
pub open spec fn message_text(error: ValidationError, application: Seq<char>) -> Seq<char> {
    match error {
        ValidationError::UnknownApplication => "unknown application: "@ + application,
        ValidationError::NoUnitsFound => "no units found for application: "@ + application,
        ValidationError::AmbiguousUnit => "multiple units found for application: "@
            + application,
    }
}

impl ValidationError {
    /// The message that tells the operator of the error for `application`.
    pub fn message(&self, application: &str) -> (text: String)
        ensures
            text@ == message_text(*self, application@),
    {
        let mut text = match self {
            ValidationError::UnknownApplication => "unknown application: ".to_owned(),
            ValidationError::NoUnitsFound => "no units found for application: ".to_owned(),
            ValidationError::AmbiguousUnit => "multiple units found for application: ".to_owned(),
        };
        text.append(application);
        text
    }
}

} // verus!
