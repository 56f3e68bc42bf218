//! Results whose errors are logged on their way, replaced by plainer ones,
//! or reported where the program ends.

pub mod exit;
pub mod laws;
pub mod memory;

use crate::error::{joined, CausalError, DisplayError};
use vstd::prelude::*;
use vstd::string::*;

verus! {

/// How severe a logged event is.
#[derive(Clone, Copy, PartialEq, Eq, Structural, Debug)]
pub enum Level {
    Error,
    Warning,
    Info,
    Debug,
    Trace,
}

/// A logger that looks at an error and leaves it with the caller.
///
/// `observes` says what one call may do to the logger: whether it can go
/// from `self` to `after` when it is given a message and an error with the
/// given chain, at the given level. A logger whose effect lies outside
/// itself keeps the default, which allows every step.
pub trait Log {
    open spec fn observes(
        &self,
        after: &Self,
        level: Level,
        message: Seq<char>,
        chain: Seq<Seq<char>>,
    ) -> bool {
        true
    }

    fn log_error<E: CausalError>(&mut self, message: &str, error: &E)
        ensures
            old(self).observes(final(self), Level::Error, message@, error.chain()),
    ;

    fn log_warning<E: CausalError>(&mut self, message: &str, error: &E)
        ensures
            old(self).observes(final(self), Level::Warning, message@, error.chain()),
    ;

    fn log_info<E: CausalError>(&mut self, message: &str, error: &E)
        ensures
            old(self).observes(final(self), Level::Info, message@, error.chain()),
    ;

    fn log_debug<E: CausalError>(&mut self, message: &str, error: &E)
        ensures
            old(self).observes(final(self), Level::Debug, message@, error.chain()),
    ;

    fn log_trace<E: CausalError>(&mut self, message: &str, error: &E)
        ensures
            old(self).observes(final(self), Level::Trace, message@, error.chain()),
    ;
}

/// A logger that takes the error for good, as one that hands it on to
/// another thread must.
///
/// `takes` is to this trait what `observes` is to [`Log`].
pub trait LogOwned {
    open spec fn takes(
        &self,
        after: &Self,
        level: Level,
        message: Seq<char>,
        chain: Seq<Seq<char>>,
    ) -> bool {
        true
    }

    fn log_error_owned<E: CausalError>(&mut self, message: &str, error: E)
        ensures
            old(self).takes(final(self), Level::Error, message@, error.chain()),
    ;

    fn log_warning_owned<E: CausalError>(&mut self, message: &str, error: E)
        ensures
            old(self).takes(final(self), Level::Warning, message@, error.chain()),
    ;

    fn log_info_owned<E: CausalError>(&mut self, message: &str, error: E)
        ensures
            old(self).takes(final(self), Level::Info, message@, error.chain()),
    ;

    fn log_debug_owned<E: CausalError>(&mut self, message: &str, error: E)
        ensures
            old(self).takes(final(self), Level::Debug, message@, error.chain()),
    ;

    fn log_trace_owned<E: CausalError>(&mut self, message: &str, error: E)
        ensures
            old(self).takes(final(self), Level::Trace, message@, error.chain()),
    ;
}

/// A logger that can look at an error can also take one: it looks at it and
/// lets it go. What it does with an error is the same either way.
impl<T: Log> LogOwned for T {
    open spec fn takes(
        &self,
        after: &Self,
        level: Level,
        message: Seq<char>,
        chain: Seq<Seq<char>>,
    ) -> bool {
        self.observes(after, level, message, chain)
    }

    fn log_error_owned<E: CausalError>(&mut self, message: &str, error: E) {
        self.log_error(message, &error);
    }

    fn log_warning_owned<E: CausalError>(&mut self, message: &str, error: E) {
        self.log_warning(message, &error);
    }

    fn log_info_owned<E: CausalError>(&mut self, message: &str, error: E) {
        self.log_info(message, &error);
    }

    fn log_debug_owned<E: CausalError>(&mut self, message: &str, error: E) {
        self.log_debug(message, &error);
    }

    fn log_trace_owned<E: CausalError>(&mut self, message: &str, error: E) {
        self.log_trace(message, &error);
    }
}

/// Shows `error` to `logger`, at a level that is chosen when the program
/// runs.
pub fn log_at<L: Log, E: CausalError>(logger: &mut L, level: Level, message: &str, error: &E)
    ensures
        old(logger).observes(final(logger), level, message@, error.chain()),
{
    match level {
        Level::Error => logger.log_error(message, error),
        Level::Warning => logger.log_warning(message, error),
        Level::Info => logger.log_info(message, error),
        Level::Debug => logger.log_debug(message, error),
        Level::Trace => logger.log_trace(message, error),
    }
}

/// Gives `error` to `logger`, at a level that is chosen when the program
/// runs.
pub fn log_owned_at<L: LogOwned, E: CausalError>(
    logger: &mut L,
    level: Level,
    message: &str,
    error: E,
)
    ensures
        old(logger).takes(final(logger), level, message@, error.chain()),
{
    match level {
        Level::Error => logger.log_error_owned(message, error),
        Level::Warning => logger.log_warning_owned(message, error),
        Level::Info => logger.log_info_owned(message, error),
        Level::Debug => logger.log_debug_owned(message, error),
        Level::Trace => logger.log_trace_owned(message, error),
    }
}

/// The line that a logger without fields for errors writes: the message,
/// then the error and its causes, all set apart by `": "`.
pub fn log_line<E: CausalError>(message: &str, error: &E) -> (line: String)
    ensures
        line@ == message@ + ": "@ + joined(error.chain(), ": "@),
{
    let mut line = message.to_owned();
    line.append(": ");
    line.append(error.join_sources(": ").render().as_str());
    line
}

/// A value that is a result, or stands for one.
pub trait IntoResult: Sized {
    type Value;

    type Error;

    /// The result that this value is.
    spec fn result_spec(self) -> Result<Self::Value, Self::Error>;

    fn internal_into_result(self) -> (result: Result<Self::Value, Self::Error>)
        ensures
            result == self.result_spec(),
    ;

    /// Lets `fun` see the error, if there is one, and returns the result as
    /// it was.
    fn with_err<F: FnOnce(&Self::Error)>(
        self,
        fun: F,
    ) -> (result: Result<Self::Value, Self::Error>)
        requires
            self.result_spec() matches Err(e) ==> call_requires(fun, (&e,)),
        ensures
            result == self.result_spec(),
            self.result_spec() matches Err(e) ==> call_ensures(fun, (&e,), ()),
    {
        match self.internal_into_result() {
            Ok(value) => Ok(value),
            Err(error) => {
                fun(&error);
                Err(error)
            },
        }
    }
}

impl<T, E> IntoResult for Result<T, E> {
    type Value = T;

    type Error = E;

    open spec fn result_spec(self) -> Result<T, E> {
        self
    }

    fn internal_into_result(self) -> (result: Self) {
        self
    }
}

/// What logging by reference does: the result stays as it was; a success
/// leaves the logger alone, a failure is shown to it once.
pub open spec fn shown<T, E: CausalError, L: Log>(
    before: Result<T, E>,
    after: Result<T, E>,
    logger: &L,
    logger_after: &L,
    level: Level,
    message: Seq<char>,
) -> bool {
    &&& after == before
    &&& match before {
        Ok(_) => *logger_after == *logger,
        Err(error) => logger.observes(logger_after, level, message, error.chain()),
    }
}

/// What logging with a replacement does: a success stays as it was and
/// leaves the logger alone; a failure is given to the logger once, and the
/// replacement is returned in its place.
pub open spec fn replaced<T, E: CausalError, R, L: LogOwned>(
    before: Result<T, E>,
    after: Result<T, R>,
    logger: &L,
    logger_after: &L,
    level: Level,
    message: Seq<char>,
    replacement: R,
) -> bool {
    match before {
        Ok(value) => after == Ok::<T, R>(value) && *logger_after == *logger,
        Err(error) => after == Err::<T, R>(replacement) && logger.takes(
            logger_after,
            level,
            message,
            error.chain(),
        ),
    }
}

/// What logging with a computed replacement does: as [`replaced`], where
/// the replacement is what `convert` returns for the error.
pub open spec fn converted<T, E: CausalError, R, F: FnOnce(&E) -> R, L: LogOwned>(
    before: Result<T, E>,
    after: Result<T, R>,
    logger: &L,
    logger_after: &L,
    level: Level,
    message: Seq<char>,
    convert: F,
) -> bool {
    match before {
        Ok(value) => after == Ok::<T, R>(value) && *logger_after == *logger,
        Err(error) => {
            &&& after matches Err(replacement)
            &&& call_ensures(convert, (&error,), replacement)
            &&& logger.takes(logger_after, level, message, error.chain())
        },
    }
}

/// Logging the error of a result on its way.
///
/// * `log_<level>` shows the error to the logger and returns the result as
///   it was.
/// * `log_<level>_and_replace` gives the error to the logger and returns
///   the replacement in its place.
/// * `log_<level>_and_replace_with` computes the replacement from the
///   error, then gives the error to the logger.
///
/// The last two let a program turn every error into one of a few kinds that
/// it answers with, while the log still holds what went wrong.
pub trait LogResult: IntoResult where <Self as IntoResult>::Error: CausalError {
    /// Computes the replacement from the error, then lets `consume` have
    /// the error.
    fn convert_and_consume_err<E, ConvF, ConsF>(
        self,
        convert: ConvF,
        consume: ConsF,
    ) -> (result: Result<Self::Value, E>) where
        ConvF: FnOnce(&Self::Error) -> E,
        ConsF: FnOnce(Self::Error),

        requires
            self.result_spec() matches Err(e) ==> call_requires(convert, (&e,)) && call_requires(
                consume,
                (e,),
            ),
        ensures
            match self.result_spec() {
                Ok(value) => result == Ok::<Self::Value, E>(value),
                Err(error) => {
                    &&& result matches Err(replacement)
                    &&& call_ensures(convert, (&error,), replacement)
                    &&& call_ensures(consume, (error,), ())
                },
            },
    {
        match self.internal_into_result() {
            Ok(value) => Ok(value),
            Err(error) => {
                let converted = convert(&error);
                consume(error);
                Err(converted)
            },
        }
    }

    /// `log_<level>` for a level that is chosen when the program runs.
    fn log_at_level<L: Log>(
        self,
        logger: &mut L,
        level: Level,
        message: &str,
    ) -> (result: Result<Self::Value, Self::Error>)
        ensures
            shown(self.result_spec(), result, old(logger), final(logger), level, message@),
    {
        match self.internal_into_result() {
            Ok(value) => Ok(value),
            Err(error) => {
                log_at(logger, level, message, &error);
                Err(error)
            },
        }
    }

    /// `log_<level>_and_replace_with` for a level that is chosen when the
    /// program runs.
    fn log_at_level_and_replace_with<E, F, L: LogOwned>(
        self,
        logger: &mut L,
        level: Level,
        message: &str,
        convert: F,
    ) -> (result: Result<Self::Value, E>) where F: FnOnce(&Self::Error) -> E
        requires
            self.result_spec() matches Err(e) ==> call_requires(convert, (&e,)),
        ensures
            converted(
                self.result_spec(),
                result,
                old(logger),
                final(logger),
                level,
                message@,
                convert,
            ),
    {
        match self.internal_into_result() {
            Ok(value) => Ok(value),
            Err(error) => {
                let replacement = convert(&error);
                log_owned_at(logger, level, message, error);
                Err(replacement)
            },
        }
    }

    /// `log_<level>_and_replace` for a level that is chosen when the
    /// program runs.
    fn log_at_level_and_replace<E, L: LogOwned>(
        self,
        logger: &mut L,
        level: Level,
        message: &str,
        replacement: E,
    ) -> (result: Result<Self::Value, E>)
        ensures
            replaced(
                self.result_spec(),
                result,
                old(logger),
                final(logger),
                level,
                message@,
                replacement,
            ),
    {
        match self.internal_into_result() {
            Ok(value) => Ok(value),
            Err(error) => {
                log_owned_at(logger, level, message, error);
                Err(replacement)
            },
        }
    }

    fn log_error<L: Log>(
        self,
        logger: &mut L,
        message: &str,
    ) -> (result: Result<Self::Value, Self::Error>)
        ensures
            shown(self.result_spec(), result, old(logger), final(logger), Level::Error, message@),
    {
        self.log_at_level(logger, Level::Error, message)
    }

    fn log_warning<L: Log>(
        self,
        logger: &mut L,
        message: &str,
    ) -> (result: Result<Self::Value, Self::Error>)
        ensures
            shown(self.result_spec(), result, old(logger), final(logger), Level::Warning, message@),
    {
        self.log_at_level(logger, Level::Warning, message)
    }

    fn log_info<L: Log>(
        self,
        logger: &mut L,
        message: &str,
    ) -> (result: Result<Self::Value, Self::Error>)
        ensures
            shown(self.result_spec(), result, old(logger), final(logger), Level::Info, message@),
    {
        self.log_at_level(logger, Level::Info, message)
    }

    fn log_debug<L: Log>(
        self,
        logger: &mut L,
        message: &str,
    ) -> (result: Result<Self::Value, Self::Error>)
        ensures
            shown(self.result_spec(), result, old(logger), final(logger), Level::Debug, message@),
    {
        self.log_at_level(logger, Level::Debug, message)
    }

    fn log_trace<L: Log>(
        self,
        logger: &mut L,
        message: &str,
    ) -> (result: Result<Self::Value, Self::Error>)
        ensures
            shown(self.result_spec(), result, old(logger), final(logger), Level::Trace, message@),
    {
        self.log_at_level(logger, Level::Trace, message)
    }

    fn log_error_and_replace<E, L: LogOwned>(
        self,
        logger: &mut L,
        message: &str,
        replacement: E,
    ) -> (result: Result<Self::Value, E>)
        ensures
            replaced(
                self.result_spec(),
                result,
                old(logger),
                final(logger),
                Level::Error,
                message@,
                replacement,
            ),
    {
        self.log_at_level_and_replace(logger, Level::Error, message, replacement)
    }

    fn log_warning_and_replace<E, L: LogOwned>(
        self,
        logger: &mut L,
        message: &str,
        replacement: E,
    ) -> (result: Result<Self::Value, E>)
        ensures
            replaced(
                self.result_spec(),
                result,
                old(logger),
                final(logger),
                Level::Warning,
                message@,
                replacement,
            ),
    {
        self.log_at_level_and_replace(logger, Level::Warning, message, replacement)
    }

    fn log_info_and_replace<E, L: LogOwned>(
        self,
        logger: &mut L,
        message: &str,
        replacement: E,
    ) -> (result: Result<Self::Value, E>)
        ensures
            replaced(
                self.result_spec(),
                result,
                old(logger),
                final(logger),
                Level::Info,
                message@,
                replacement,
            ),
    {
        self.log_at_level_and_replace(logger, Level::Info, message, replacement)
    }

    fn log_debug_and_replace<E, L: LogOwned>(
        self,
        logger: &mut L,
        message: &str,
        replacement: E,
    ) -> (result: Result<Self::Value, E>)
        ensures
            replaced(
                self.result_spec(),
                result,
                old(logger),
                final(logger),
                Level::Debug,
                message@,
                replacement,
            ),
    {
        self.log_at_level_and_replace(logger, Level::Debug, message, replacement)
    }

    fn log_trace_and_replace<E, L: LogOwned>(
        self,
        logger: &mut L,
        message: &str,
        replacement: E,
    ) -> (result: Result<Self::Value, E>)
        ensures
            replaced(
                self.result_spec(),
                result,
                old(logger),
                final(logger),
                Level::Trace,
                message@,
                replacement,
            ),
    {
        self.log_at_level_and_replace(logger, Level::Trace, message, replacement)
    }

    fn log_error_and_replace_with<E, F, L: LogOwned>(
        self,
        logger: &mut L,
        message: &str,
        convert: F,
    ) -> (result: Result<Self::Value, E>) where F: FnOnce(&Self::Error) -> E
        requires
            self.result_spec() matches Err(e) ==> call_requires(convert, (&e,)),
        ensures
            converted(
                self.result_spec(),
                result,
                old(logger),
                final(logger),
                Level::Error,
                message@,
                convert,
            ),
    {
        self.log_at_level_and_replace_with(logger, Level::Error, message, convert)
    }

    fn log_warning_and_replace_with<E, F, L: LogOwned>(
        self,
        logger: &mut L,
        message: &str,
        convert: F,
    ) -> (result: Result<Self::Value, E>) where F: FnOnce(&Self::Error) -> E
        requires
            self.result_spec() matches Err(e) ==> call_requires(convert, (&e,)),
        ensures
            converted(
                self.result_spec(),
                result,
                old(logger),
                final(logger),
                Level::Warning,
                message@,
                convert,
            ),
    {
        self.log_at_level_and_replace_with(logger, Level::Warning, message, convert)
    }

    fn log_info_and_replace_with<E, F, L: LogOwned>(
        self,
        logger: &mut L,
        message: &str,
        convert: F,
    ) -> (result: Result<Self::Value, E>) where F: FnOnce(&Self::Error) -> E
        requires
            self.result_spec() matches Err(e) ==> call_requires(convert, (&e,)),
        ensures
            converted(
                self.result_spec(),
                result,
                old(logger),
                final(logger),
                Level::Info,
                message@,
                convert,
            ),
    {
        self.log_at_level_and_replace_with(logger, Level::Info, message, convert)
    }

    fn log_debug_and_replace_with<E, F, L: LogOwned>(
        self,
        logger: &mut L,
        message: &str,
        convert: F,
    ) -> (result: Result<Self::Value, E>) where F: FnOnce(&Self::Error) -> E
        requires
            self.result_spec() matches Err(e) ==> call_requires(convert, (&e,)),
        ensures
            converted(
                self.result_spec(),
                result,
                old(logger),
                final(logger),
                Level::Debug,
                message@,
                convert,
            ),
    {
        self.log_at_level_and_replace_with(logger, Level::Debug, message, convert)
    }

    fn log_trace_and_replace_with<E, F, L: LogOwned>(
        self,
        logger: &mut L,
        message: &str,
        convert: F,
    ) -> (result: Result<Self::Value, E>) where F: FnOnce(&Self::Error) -> E
        requires
            self.result_spec() matches Err(e) ==> call_requires(convert, (&e,)),
        ensures
            converted(
                self.result_spec(),
                result,
                old(logger),
                final(logger),
                Level::Trace,
                message@,
                convert,
            ),
    {
        self.log_at_level_and_replace_with(logger, Level::Trace, message, convert)
    }
}

impl<T, E: CausalError> LogResult for Result<T, E> {
}

} // verus!
