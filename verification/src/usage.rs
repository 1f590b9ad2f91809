//! The command line: which operation is asked for, and on which application.

use crate::text::{same_text, texts};
use crate::topology::Operation;
use vstd::prelude::*;

verus! {

/// Why a command line cannot be served.
#[derive(Debug, Clone, Copy, PartialEq, Eq, Structural)]
pub enum UsageError {
    /// No engine was given.
    MissingEngine,
    /// No operation was given.
    MissingOperation,
    /// No application was given.
    MissingApplication,
    /// The engine is not one that is supported.
    UnknownEngine,
    /// The operation is not one that is supported.
    UnknownOperation,
}

/// What a command line asks for.
#[derive(Debug, Clone, PartialEq, Eq)]
pub struct Request {
    /// The operation.
    pub operation: Operation,
    /// The application that it works on.
    pub application: String,
}

/// The operation that `word` names.
pub open spec fn operation_named(word: Seq<char>) -> Option<Operation> {
    if word == "pause"@ {
        Some(Operation::Pause)
    } else if word == "trace"@ {
        Some(Operation::Trace)
    } else if word == "debug"@ {
        Some(Operation::Debug)
    } else {
        None
    }
}

/// What the arguments `args` ask for: the engine, the operation and the
/// application, in this order. What follows them is not read.
pub open spec fn request_of(args: Seq<Seq<char>>) -> Result<(Operation, Seq<char>), UsageError> {
    if args.len() < 1 {
        Err(UsageError::MissingEngine)
    } else if args.len() < 2 {
        Err(UsageError::MissingOperation)
    } else if args.len() < 3 {
        Err(UsageError::MissingApplication)
    } else if args[0] != "juju"@ {
        Err(UsageError::UnknownEngine)
    } else {
        match operation_named(args[1]) {
            Some(operation) => Ok((operation, args[2])),
            None => Err(UsageError::UnknownOperation),
        }
    }
}

/// The operation that `word` names.
pub fn operation_from(word: &str) -> (operation: Option<Operation>)
    ensures
        operation == operation_named(word@),
{
    if same_text(word, "pause") {
        Some(Operation::Pause)
    } else if same_text(word, "trace") {
        Some(Operation::Trace)
    } else if same_text(word, "debug") {
        Some(Operation::Debug)
    } else {
        None
    }
}

/// What the arguments `args` ask for, the program's own name left out.
pub fn parse_arguments(args: &Vec<String>) -> (request: Result<Request, UsageError>)
    ensures
        match request {
            Ok(asked) => request_of(texts(args@)) == Ok::<(Operation, Seq<char>), UsageError>(
                (asked.operation, asked.application@),
            ),
            Err(error) => request_of(texts(args@)) == Err::<(Operation, Seq<char>), UsageError>(
                error,
            ),
        },
{
    if args.len() < 1 {
        return Err(UsageError::MissingEngine);
    }
    if args.len() < 2 {
        return Err(UsageError::MissingOperation);
    }
    if args.len() < 3 {
        return Err(UsageError::MissingApplication);
    }
    assert(texts(args@)[0] == args@[0]@ && texts(args@)[1] == args@[1]@ && texts(args@)[2]
        == args@[2]@);
    if !same_text(args[0].as_str(), "juju") {
        return Err(UsageError::UnknownEngine);
    }
    match operation_from(args[1].as_str()) {
        Some(operation) => Ok(Request { operation, application: args[2].clone() }),
        None => Err(UsageError::UnknownOperation),
    }
}

/// The message that tells the operator of `error`, where `engine` and
/// `operation` are the words that were given for them.
pub open spec fn usage_text(error: UsageError, engine: Seq<char>, operation: Seq<char>) -> Seq<
    char,
> {
    match error {
        UsageError::MissingEngine => "no engine given (should be one of: juju)"@,
        UsageError::MissingOperation =>
            "no operation given (should be one of: pause, trace, debug)"@,
        UsageError::MissingApplication => "no application given"@,
        UsageError::UnknownEngine => "unknown engine: "@ + engine,
        UsageError::UnknownOperation => "unknown operation: "@ + operation,
    }
}

impl UsageError {
    /// The message that tells the operator of the error, where `engine` and
    /// `operation` are the words that were given for them.
    pub fn message(&self, engine: &str, operation: &str) -> (text: String)
        ensures
            text@ == usage_text(*self, engine@, operation@),
    {
        match self {
            UsageError::MissingEngine => "no engine given (should be one of: juju)".to_owned(),
            UsageError::MissingOperation =>
                "no operation given (should be one of: pause, trace, debug)".to_owned(),
            UsageError::MissingApplication => "no application given".to_owned(),
            UsageError::UnknownEngine => {
                let mut text = "unknown engine: ".to_owned();
                text.append(engine);
                text
            },
            UsageError::UnknownOperation => {
                let mut text = "unknown operation: ".to_owned();
                text.append(operation);
                text
            },
        }
    }
}

} // verus!
