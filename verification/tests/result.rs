use result_tools::error::{BoxedError, CausalError};
use result_tools::ops::{ArithmeticTryOps, OverflowError};
use result_tools::result::exit::{
    exit_line, exit_line_display, or_exit, or_exit_custom, or_exit_display, or_exit_log, OrExit,
    EXIT_STATUS,
};
use result_tools::result::memory::MemoryLogger;
use result_tools::result::{
    log_at, log_line, log_owned_at, IntoResult, Level, Log, LogOwned, LogResult,
};

fn chain_of(texts: &[&str]) -> BoxedError {
    let mut error: Option<BoxedError> = None;
    for text in texts.iter().rev() {
        error = Some(BoxedError::from_parts(text.to_string(), error));
    }
    error.unwrap()
}

fn failure(texts: &[&str]) -> Result<u32, BoxedError> {
    Err(chain_of(texts))
}

/// Counts the calls of each kind and keeps the lines.
struct Counting {
    borrowed: usize,
    lines: Vec<String>,
}

impl Counting {
    fn new() -> Self {
        Counting { borrowed: 0, lines: Vec::new() }
    }

    fn see<E: CausalError>(&mut self, level: &str, message: &str, error: &E) {
        self.borrowed += 1;
        self.lines.push(format!("{} {}", level, log_line(message, error)));
    }
}

impl Log for Counting {
    fn log_error<E: CausalError>(&mut self, message: &str, error: &E) {
        self.see("error", message, error);
    }

    fn log_warning<E: CausalError>(&mut self, message: &str, error: &E) {
        self.see("warning", message, error);
    }

    fn log_info<E: CausalError>(&mut self, message: &str, error: &E) {
        self.see("info", message, error);
    }

    fn log_debug<E: CausalError>(&mut self, message: &str, error: &E) {
        self.see("debug", message, error);
    }

    fn log_trace<E: CausalError>(&mut self, message: &str, error: &E) {
        self.see("trace", message, error);
    }
}

/// Takes errors for good and keeps them without their type.
struct Taking {
    taken: Vec<(String, String, BoxedError)>,
}

impl Taking {
    fn take<E: CausalError>(&mut self, level: &str, message: &str, error: E) {
        self.taken.push((level.to_string(), message.to_string(), BoxedError::new(error)));
    }
}

impl LogOwned for Taking {
    fn log_error_owned<E: CausalError>(&mut self, message: &str, error: E) {
        self.take("error", message, error);
    }

    fn log_warning_owned<E: CausalError>(&mut self, message: &str, error: E) {
        self.take("warning", message, error);
    }

    fn log_info_owned<E: CausalError>(&mut self, message: &str, error: E) {
        self.take("info", message, error);
    }

    fn log_debug_owned<E: CausalError>(&mut self, message: &str, error: E) {
        self.take("debug", message, error);
    }

    fn log_trace_owned<E: CausalError>(&mut self, message: &str, error: E) {
        self.take("trace", message, error);
    }
}

#[test]
fn log_error_leaves_a_success_alone() {
    let mut logger = Counting::new();
    let result: Result<u32, BoxedError> = Ok(7);
    let result = result.log_error(&mut logger, "ctx");
    assert_eq!(result.ok(), Some(7));
    assert_eq!(logger.borrowed, 0);
    assert!(logger.lines.is_empty());
}

#[test]
fn log_error_shows_a_failure_once() {
    let mut logger = Counting::new();
    let result = failure(&["outer", "inner"]).log_error(&mut logger, "ctx");
    assert_eq!(logger.borrowed, 1);
    assert_eq!(logger.lines, vec!["error ctx: outer: inner"]);
    let error = result.unwrap_err();
    assert_eq!(error.message(), "outer");
    assert_eq!(error.source().unwrap().message(), "inner");
}

#[test]
fn log_error_keeps_the_error_it_was_given() {
    let mut logger = MemoryLogger::new();
    let result: Result<u8, OverflowError<u8, u8>> = 255u8.try_add(1);
    let result = result.log_error(&mut logger, "adding");
    assert_eq!(result.unwrap_err().message(), "operation 255 + 1 overflowed");
    let records = logger.records();
    assert_eq!(records.len(), 1);
    assert_eq!(records[0].level, Level::Error);
    assert_eq!(records[0].message, "adding");
    assert_eq!(records[0].chain, vec!["operation 255 + 1 overflowed"]);
}

#[test]
fn each_level_reaches_its_own_call() {
    let mut logger = Counting::new();
    let _ = failure(&["e"]).log_error(&mut logger, "a");
    let _ = failure(&["e"]).log_warning(&mut logger, "b");
    let _ = failure(&["e"]).log_info(&mut logger, "c");
    let _ = failure(&["e"]).log_debug(&mut logger, "d");
    let _ = failure(&["e"]).log_trace(&mut logger, "f");
    assert_eq!(
        logger.lines,
        vec!["error a: e", "warning b: e", "info c: e", "debug d: e", "trace f: e"]
    );
    let mut memory = MemoryLogger::new();
    let _ = failure(&["e"]).log_error(&mut memory, "a");
    let _ = failure(&["e"]).log_warning(&mut memory, "b");
    let _ = failure(&["e"]).log_info(&mut memory, "c");
    let _ = failure(&["e"]).log_debug(&mut memory, "d");
    let _ = failure(&["e"]).log_trace(&mut memory, "f");
    let _ = Ok::<u32, BoxedError>(1).log_trace(&mut memory, "g");
    let levels: Vec<Level> = memory.records().iter().map(|r| r.level).collect();
    assert_eq!(
        levels,
        vec![Level::Error, Level::Warning, Level::Info, Level::Debug, Level::Trace]
    );
    let texts: Vec<&str> = memory.records().iter().map(|r| r.message.as_str()).collect();
    assert_eq!(texts, vec!["a", "b", "c", "d", "f"]);
}

#[test]
fn level_chosen_at_run_time() {
    let mut logger = Counting::new();
    let result = failure(&["x", "y"]).log_at_level(&mut logger, Level::Info, "late");
    assert!(result.is_err());
    log_at(&mut logger, Level::Trace, "direct", &chain_of(&["z"]));
    log_owned_at(&mut logger, Level::Warning, "owned", chain_of(&["w"]));
    assert_eq!(
        logger.lines,
        vec!["info late: x: y", "trace direct: z", "warning owned: w"]
    );
}

#[test]
fn replace_with_sees_the_error_before_the_logger_takes_it() {
    let mut logger = Taking { taken: Vec::new() };
    let result = failure(&["not found", "no such file"])
        .log_error_and_replace_with(&mut logger, "ctx", |error| error.message().len());
    assert_eq!(result, Err(9));
    assert_eq!(logger.taken.len(), 1);
    assert_eq!(logger.taken[0].0, "error");
    assert_eq!(logger.taken[0].1, "ctx");
    assert_eq!(logger.taken[0].2.message(), "not found");
    assert_eq!(logger.taken[0].2.source().unwrap().message(), "no such file");
}

/// Writes down when it is given an error, in a list that others write to as
/// well.
struct Ordered<'a> {
    events: &'a std::cell::RefCell<Vec<String>>,
}

impl LogOwned for Ordered<'_> {
    fn log_error_owned<E: CausalError>(&mut self, message: &str, error: E) {
        self.events.borrow_mut().push(format!("error {} {}", message, error.message()));
    }

    fn log_warning_owned<E: CausalError>(&mut self, message: &str, error: E) {
        self.events.borrow_mut().push(format!("warning {} {}", message, error.message()));
    }

    fn log_info_owned<E: CausalError>(&mut self, message: &str, error: E) {
        self.events.borrow_mut().push(format!("info {} {}", message, error.message()));
    }

    fn log_debug_owned<E: CausalError>(&mut self, message: &str, error: E) {
        self.events.borrow_mut().push(format!("debug {} {}", message, error.message()));
    }

    fn log_trace_owned<E: CausalError>(&mut self, message: &str, error: E) {
        self.events.borrow_mut().push(format!("trace {} {}", message, error.message()));
    }
}

#[test]
fn replacement_is_computed_first_and_the_error_logged_after() {
    let events = std::cell::RefCell::new(Vec::new());
    let mut logger = Ordered { events: &events };
    let result = failure(&["boom"]).log_error_and_replace_with(&mut logger, "ctx", |error| {
        events.borrow_mut().push(format!("convert {}", error.message()));
        error.message()
    });
    assert_eq!(result, Err("boom".to_string()));
    assert_eq!(*events.borrow(), vec!["convert boom", "error ctx boom"]);
    let result = failure(&["bang"]).log_info_and_replace(&mut logger, "again", 1);
    assert_eq!(result, Err(1));
    assert_eq!(events.borrow().len(), 3);
    assert_eq!(events.borrow()[2], "info again bang");
}

#[test]
fn replace_with_leaves_a_success_alone() {
    let mut logger = Taking { taken: Vec::new() };
    let result: Result<u32, BoxedError> = Ok(3);
    let mut called = false;
    let result = result.log_error_and_replace_with(&mut logger, "ctx", |_| {
        called = true;
        404u16
    });
    assert_eq!(result, Ok(3));
    assert!(!called);
    assert!(logger.taken.is_empty());
}

#[test]
fn replace_with_at_each_level() {
    let mut logger = Taking { taken: Vec::new() };
    assert_eq!(failure(&["e"]).log_error_and_replace_with(&mut logger, "a", |_| 1), Err(1));
    assert_eq!(failure(&["e"]).log_warning_and_replace_with(&mut logger, "b", |_| 2), Err(2));
    assert_eq!(failure(&["e"]).log_info_and_replace_with(&mut logger, "c", |_| 3), Err(3));
    assert_eq!(failure(&["e"]).log_debug_and_replace_with(&mut logger, "d", |_| 4), Err(4));
    assert_eq!(failure(&["e"]).log_trace_and_replace_with(&mut logger, "f", |_| 5), Err(5));
    let levels: Vec<&str> = logger.taken.iter().map(|t| t.0.as_str()).collect();
    assert_eq!(levels, vec!["error", "warning", "info", "debug", "trace"]);
}

#[test]
fn replace_at_each_level() {
    let mut logger = Taking { taken: Vec::new() };
    assert_eq!(failure(&["e"]).log_error_and_replace(&mut logger, "a", "r1"), Err("r1"));
    assert_eq!(failure(&["e"]).log_warning_and_replace(&mut logger, "b", "r2"), Err("r2"));
    assert_eq!(failure(&["e"]).log_info_and_replace(&mut logger, "c", "r3"), Err("r3"));
    assert_eq!(failure(&["e"]).log_debug_and_replace(&mut logger, "d", "r4"), Err("r4"));
    assert_eq!(failure(&["e"]).log_trace_and_replace(&mut logger, "f", "r5"), Err("r5"));
    assert_eq!(Ok::<u32, BoxedError>(9).log_error_and_replace(&mut logger, "g", "r6"), Ok(9));
    let levels: Vec<&str> = logger.taken.iter().map(|t| t.0.as_str()).collect();
    assert_eq!(levels, vec!["error", "warning", "info", "debug", "trace"]);
    let texts: Vec<&str> = logger.taken.iter().map(|t| t.1.as_str()).collect();
    assert_eq!(texts, vec!["a", "b", "c", "d", "f"]);
}

#[test]
fn a_borrowing_logger_also_takes() {
    let mut counting = Counting::new();
    let result = failure(&["outer", "inner"]).log_warning_and_replace(&mut counting, "ctx", 500);
    assert_eq!(result, Err(500));
    assert_eq!(counting.lines, vec!["warning ctx: outer: inner"]);
    counting.log_error_owned("a", chain_of(&["e"]));
    counting.log_warning_owned("b", chain_of(&["e"]));
    counting.log_info_owned("c", chain_of(&["e"]));
    counting.log_debug_owned("d", chain_of(&["e"]));
    counting.log_trace_owned("f", chain_of(&["e"]));
    assert_eq!(
        counting.lines[1..],
        ["error a: e", "warning b: e", "info c: e", "debug d: e", "trace f: e"]
    );
    assert_eq!(counting.borrowed, 6);
    let mut memory = MemoryLogger::new();
    let result = failure(&["outer", "inner"]).log_debug_and_replace_with(&mut memory, "m", |e| {
        e.source().is_some()
    });
    assert_eq!(result, Err(true));
    assert_eq!(memory.records().len(), 1);
    assert_eq!(memory.records()[0].level, Level::Debug);
    assert_eq!(memory.records()[0].chain, vec!["outer", "inner"]);
}

#[test]
fn with_err_returns_the_result_as_it_was() {
    let mut seen = Vec::new();
    let result = failure(&["boom"]).with_err(|error| seen.push(error.message()));
    assert_eq!(result.unwrap_err().message(), "boom");
    assert_eq!(seen, vec!["boom"]);
    let mut calls = 0;
    let result = Ok::<u32, BoxedError>(5).with_err(|_| calls += 1);
    assert_eq!(result.ok(), Some(5));
    assert_eq!(calls, 0);
    assert_eq!(Ok::<u32, BoxedError>(5).internal_into_result().ok(), Some(5));
}

#[test]
fn convert_and_consume_in_that_order() {
    let mut order = Vec::new();
    let log = std::cell::RefCell::new(&mut order);
    let result = failure(&["boom"]).convert_and_consume_err(
        |error| {
            log.borrow_mut().push(format!("convert {}", error.message()));
            17u8
        },
        |error| log.borrow_mut().push(format!("consume {}", error.message())),
    );
    assert_eq!(result, Err(17));
    assert_eq!(order, vec!["convert boom", "consume boom"]);
    let result = Ok::<u32, BoxedError>(5).convert_and_consume_err(|_| 1u8, |_| ());
    assert_eq!(result, Ok(5));
}

#[test]
fn log_line_format() {
    assert_eq!(log_line("ctx", &chain_of(&["a"])), "ctx: a");
    assert_eq!(log_line("ctx", &chain_of(&["a", "b", "c"])), "ctx: a: b: c");
    assert_eq!(log_line("", &chain_of(&["a"])), ": a");
}

#[test]
fn exit_lines() {
    assert_eq!(exit_line(&chain_of(&["a"])), "Error: a");
    assert_eq!(exit_line(&chain_of(&["a", "b", "c"])), "Error: a: b: c");
    assert_eq!(exit_line_display(&chain_of(&["a", "b", "c"])), "Error: a");
    assert_eq!(EXIT_STATUS, 2);
}

#[test]
fn or_exit_goes_on_with_a_value() {
    match or_exit(Ok::<u32, BoxedError>(11)) {
        OrExit::Value(value) => assert_eq!(value, 11),
        OrExit::Exit(_) => panic!("a success must not end the program"),
    }
    match or_exit_display(Ok::<u32, BoxedError>(12)) {
        OrExit::Value(value) => assert_eq!(value, 12),
        OrExit::Exit(_) => panic!("a success must not end the program"),
    }
    let mut printed = false;
    assert_eq!(or_exit_custom(Ok::<u32, BoxedError>(13), |_| printed = true), Some(13));
    assert!(!printed);
    let mut logger = Taking { taken: Vec::new() };
    assert_eq!(or_exit_log(Ok::<u32, BoxedError>(14), &mut logger), Some(14));
    assert!(logger.taken.is_empty());
}

#[test]
fn or_exit_ends_on_a_failure() {
    match or_exit(failure(&["cannot read", "permission denied"])) {
        OrExit::Value(_) => panic!("a failure must end the program"),
        OrExit::Exit(line) => assert_eq!(line, "Error: cannot read: permission denied"),
    }
    match or_exit_display(failure(&["cannot read", "permission denied"])) {
        OrExit::Value(_) => panic!("a failure must end the program"),
        OrExit::Exit(line) => assert_eq!(line, "Error: cannot read"),
    }
    let mut printed = Vec::new();
    let value = or_exit_custom(failure(&["x", "y"]), |error| printed.push(error.message()));
    assert_eq!(value, None);
    assert_eq!(printed, vec!["x"]);
    let mut logger = Taking { taken: Vec::new() };
    assert_eq!(or_exit_log(failure(&["x", "y"]), &mut logger), None);
    assert_eq!(logger.taken.len(), 1);
    assert_eq!(logger.taken[0].0, "error");
    assert_eq!(logger.taken[0].1, "Error");
    assert_eq!(logger.taken[0].2.source().unwrap().message(), "y");
}
