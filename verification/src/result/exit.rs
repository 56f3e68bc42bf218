//! Results at a point that a program passes only with a value: what is
//! written, and with which status the program ends, where there is none.

use crate::error::{joined, CausalError, DisplayError};
use crate::result::{Level, LogOwned};
use vstd::prelude::*;
use vstd::string::*;

verus! {

/// The exit status of a program that ends on an error. It is not 1, so
/// that a script can tell this end from other failures.
pub const EXIT_STATUS: i32 = 2;

/// What is to happen at such a point: the program goes on with the value,
/// or writes the line to the error stream and ends with [`EXIT_STATUS`].
pub enum OrExit<T> {
    Value(T),
    Exit(String),
}

/// The line for an error and its causes: `Error: `, then the messages set
/// apart by `": "`.
pub fn exit_line<E: CausalError>(error: &E) -> (line: String)
    ensures
        line@ == "Error: "@ + joined(error.chain(), ": "@),
{
    let mut line = "Error: ".to_owned();
    line.append(error.join_sources(": ").render().as_str());
    line
}

/// The line for an error without its causes: `Error: `, then its message.
pub fn exit_line_display<E: CausalError>(error: &E) -> (line: String)
    ensures
        line@ == "Error: "@ + error.chain()[0],
{
    let mut line = "Error: ".to_owned();
    line.append(error.message().as_str());
    line
}

/// A success goes on with its value. A failure ends the program with the
/// line of the error and its causes.
pub fn or_exit<T, E: CausalError>(result: Result<T, E>) -> (step: OrExit<T>)
    ensures
        match result {
            Ok(value) => step == OrExit::Value(value),
            Err(error) => step matches OrExit::Exit(line) && line@ == "Error: "@ + joined(
                error.chain(),
                ": "@,
            ),
        },
{
    match result {
        Ok(value) => OrExit::Value(value),
        Err(error) => OrExit::Exit(exit_line(&error)),
    }
}

/// As [`or_exit`], with the line of the error alone.
pub fn or_exit_display<T, E: CausalError>(result: Result<T, E>) -> (step: OrExit<T>)
    ensures
        match result {
            Ok(value) => step == OrExit::Value(value),
            Err(error) => step matches OrExit::Exit(line) && line@ == "Error: "@
                + error.chain()[0],
        },
{
    match result {
        Ok(value) => OrExit::Value(value),
        Err(error) => OrExit::Exit(exit_line_display(&error)),
    }
}

/// A success goes on with its value. A failure is handed to `printer`, and
/// `None` tells the caller to end the program.
pub fn or_exit_custom<T, E, F: FnOnce(E)>(result: Result<T, E>, printer: F) -> (value: Option<T>)
    requires
        result matches Err(error) ==> call_requires(printer, (error,)),
    ensures
        match result {
            Ok(v) => value == Some(v),
            Err(error) => value is None && call_ensures(printer, (error,), ()),
        },
{
    match result {
        Ok(v) => Some(v),
        Err(error) => {
            printer(error);
            None
        },
    }
}

/// A success goes on with its value and leaves the logger alone. A failure
/// is given to the logger as an error, with the message `Error`, and `None`
/// tells the caller to end the program.
pub fn or_exit_log<T, E: CausalError, L: LogOwned>(
    result: Result<T, E>,
    logger: &mut L,
) -> (value: Option<T>)
    ensures
        match result {
            Ok(v) => value == Some(v) && *final(logger) == *old(logger),
            Err(error) => value is None && old(logger).takes(
                final(logger),
                Level::Error,
                "Error"@,
                error.chain(),
            ),
        },
{
    match result {
        Ok(v) => Some(v),
        Err(error) => {
            logger.log_error_owned("Error", error);
            None
        },
    }
}

} // verus!
