use result_tools::error::{
    messages, BoxedError, CausalError, DisplayError, MultilineTerminator, TerminatingError,
    TerminationInfo,
};
use result_tools::ops::ArithmeticTryOps;

fn chain_of(texts: &[&str]) -> BoxedError {
    let mut error: Option<BoxedError> = None;
    for text in texts.iter().rev() {
        error = Some(BoxedError::from_parts(text.to_string(), error));
    }
    error.unwrap()
}

#[test]
fn chain_of_one_is_its_message() {
    let error = chain_of(&["only"]);
    assert_eq!(error.join_sources("; ").render(), "only");
    assert_eq!(error.join_sources("").render(), "only");
    assert_eq!(error.join_sources("only").render(), "only");
}

#[test]
fn chain_of_three_is_joined() {
    let error = chain_of(&["m0", "m1", "m2"]);
    assert_eq!(error.join_sources("; ").render(), "m0; m1; m2");
    assert_eq!(error.join_sources(": ").render(), "m0: m1: m2");
    assert_eq!(error.join_sources("").render(), "m0m1m2");
}

#[test]
fn deep_chain_is_joined_without_trailing_separator() {
    let texts: Vec<String> = (0..200).map(|i| format!("e{}", i)).collect();
    let names: Vec<&str> = texts.iter().map(|t| t.as_str()).collect();
    let error = chain_of(&names);
    let text = error.join_sources(" <- ").render();
    assert_eq!(text, texts.join(" <- "));
    assert!(text.starts_with("e0 <- e1"));
    assert!(text.ends_with("e198 <- e199"));
}

#[test]
fn empty_messages_are_kept() {
    let error = chain_of(&["", "", ""]);
    assert_eq!(error.join_sources("+").render(), "++");
}

#[test]
fn boxed_error_has_message_and_cause() {
    let error = chain_of(&["outer", "middle", "inner"]);
    assert_eq!(error.message(), "outer");
    let middle = error.source().unwrap();
    assert_eq!(middle.message(), "middle");
    let inner = middle.source().unwrap();
    assert_eq!(inner.message(), "inner");
    assert!(inner.source().is_none());
}

#[test]
fn boxing_keeps_the_whole_chain() {
    let error = chain_of(&["outer", "middle", "inner"]);
    let boxed = BoxedError::new(error);
    assert_eq!(messages(&boxed), vec!["outer", "middle", "inner"]);
    let again = BoxedError::new(boxed);
    assert_eq!(again.join_sources(": ").render(), "outer: middle: inner");
    let overflow = BoxedError::new(255u8.try_add(1).unwrap_err());
    assert_eq!(overflow.message(), "operation 255 + 1 overflowed");
    assert!(overflow.source().is_none());
}

#[test]
fn messages_lists_the_chain() {
    assert_eq!(messages(&chain_of(&["a"])), vec!["a"]);
    assert_eq!(messages(&chain_of(&["a", "b", "c"])), vec!["a", "b", "c"]);
    assert_eq!(
        messages(&1u8.try_div(0).unwrap_err()),
        vec!["attempted to divide 1 by zero"]
    );
}

#[test]
fn multiline_policy() {
    assert_eq!(
        MultilineTerminator::write_prefix(Some("prog")),
        "Application prog failed: "
    );
    assert_eq!(MultilineTerminator::write_prefix(None), "Application failed: ");
    assert_eq!(MultilineTerminator::write_prefix(Some("")), "Application  failed: ");
    assert_eq!(MultilineTerminator::error_separator(), "\n\tcaused by: ");
}

#[test]
fn terminating_error_report() {
    let error: TerminatingError<MultilineTerminator, BoxedError> =
        TerminatingError::from(chain_of(&["cannot start", "no config", "file missing"]));
    assert_eq!(
        error.render(Some("/usr/bin/tool")),
        "Application /usr/bin/tool failed: cannot start\n\tcaused by: no config\n\tcaused by: file missing"
    );
    assert_eq!(
        error.render(None),
        "Application failed: cannot start\n\tcaused by: no config\n\tcaused by: file missing"
    );
    let single: TerminatingError<MultilineTerminator, BoxedError> =
        TerminatingError::from(1u8.try_div(0).unwrap_err());
    assert_eq!(
        single.render(Some("calc")),
        "Application calc failed: attempted to divide 1 by zero"
    );
}

fn halve_then_add(a: u8, b: u8) -> Result<u8, TerminatingError<MultilineTerminator, BoxedError>> {
    let half = a.try_div(2)?;
    let sum = half.try_add(b)?;
    Ok(sum)
}

#[test]
fn question_mark_converts_any_error() {
    assert_eq!(halve_then_add(10, 1).ok(), Some(6));
    let error = halve_then_add(10, 255).err().unwrap();
    assert_eq!(
        error.render(Some("sum")),
        "Application sum failed: operation 5 + 255 overflowed"
    );
}
