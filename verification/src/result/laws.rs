//! What holds of logging a result, whatever the result and the logger.

use crate::error::CausalError;
use crate::result::memory::MemoryLogger;
use crate::result::{converted, replaced, shown, Level, Log, LogOwned};
use vstd::prelude::*;

verus! {

/// Logging by reference never touches a success: the value comes back as
/// it was, and the logger is as it was before.
pub proof fn lemma_success_is_not_logged<T, E: CausalError, L: Log>(
    before: Result<T, E>,
    after: Result<T, E>,
    logger: &L,
    logger_after: &L,
    level: Level,
    message: Seq<char>,
)
    requires
        shown(before, after, logger, logger_after, level, message),
        before is Ok,
    ensures
        after == before,
        *logger_after == *logger,
{
}

/// Logging by reference shows a failure to the logger once, with the error
/// that the result holds, and returns the same failure.
pub proof fn lemma_failure_is_shown_once<T, E: CausalError, L: Log>(
    before: Result<T, E>,
    after: Result<T, E>,
    logger: &L,
    logger_after: &L,
    level: Level,
    message: Seq<char>,
)
    requires
        shown(before, after, logger, logger_after, level, message),
        before is Err,
    ensures
        after == before,
        logger.observes(logger_after, level, message, before->Err_0.chain()),
{
}

/// With a logger that keeps its records, a failure adds exactly one record
/// and a success none.
pub proof fn lemma_shown_in_memory<T, E: CausalError>(
    before: Result<T, E>,
    after: Result<T, E>,
    logger: &MemoryLogger,
    logger_after: &MemoryLogger,
    level: Level,
    message: Seq<char>,
)
    requires
        shown(before, after, logger, logger_after, level, message),
    ensures
        after == before,
        logger_after@ == match before {
            Ok(_) => logger@,
            Err(error) => logger@.push((level, message, error.chain())),
        },
        logger_after@.len() == logger@.len() + if before is Err {
            1nat
        } else {
            0nat
        },
{
}

/// The replacement of a failure is what `convert` returns for the error of
/// that failure: where `convert` can return only `expected` for it, the
/// result is a failure with `expected`. The error itself goes to the
/// logger.
pub proof fn lemma_replacement_comes_from_the_error<
    T,
    E: CausalError,
    R,
    F: FnOnce(&E) -> R,
    L: LogOwned,
>(
    before: Result<T, E>,
    after: Result<T, R>,
    logger: &L,
    logger_after: &L,
    level: Level,
    message: Seq<char>,
    convert: F,
    expected: R,
)
    requires
        converted(before, after, logger, logger_after, level, message, convert),
        before is Err,
        forall|replacement: R|
            call_ensures(convert, (&before->Err_0,), replacement) ==> replacement == expected,
    ensures
        after == Err::<T, R>(expected),
        logger.takes(logger_after, level, message, before->Err_0.chain()),
{
}

/// A logger that can look at an error does the same with an error that it
/// is given for good: replacing through it shows it the error once.
pub proof fn lemma_borrowing_logger_takes_as_it_observes<T, E: CausalError, R, L: Log>(
    before: Result<T, E>,
    after: Result<T, R>,
    logger: &L,
    logger_after: &L,
    level: Level,
    message: Seq<char>,
    replacement: R,
)
    requires
        replaced(before, after, logger, logger_after, level, message, replacement),
        before is Err,
    ensures
        after == Err::<T, R>(replacement),
        logger.observes(logger_after, level, message, before->Err_0.chain()),
{
}

} // verus!
