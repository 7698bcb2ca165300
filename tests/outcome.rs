use lua_repl::buffer::SessionBuffer;
use lua_repl::outcome::{one_shot_verdict, render_values, EvalFailure, Outcome};
use lua_repl::text::join_with;

#[test]
fn render_no_values_is_empty_line() {
    assert_eq!(render_values(&vec![]), "");
}

#[test]
fn render_one_value_is_unchanged() {
    assert_eq!(render_values(&vec!["2".to_string()]), "2");
}

#[test]
fn render_values_joins_with_tabs() {
    let vs = vec!["a".to_string(), "".to_string(), "c".to_string()];
    assert_eq!(render_values(&vs), "a\t\tc");
}

#[test]
fn join_with_longer_separator() {
    let vs = vec!["x".to_string(), "y".to_string()];
    assert_eq!(join_with(&vs, ", "), "x, y");
}

#[test]
fn classify_success_keeps_values() {
    match Outcome::classify(Ok(vec!["1".to_string(), "2".to_string()])) {
        Outcome::Values(vs) => assert_eq!(vs, vec!["1".to_string(), "2".to_string()]),
        _ => panic!("expected values"),
    }
}

#[test]
fn classify_incomplete_prefix() {
    let f = EvalFailure { incomplete_input: true, message: "'end' expected near <eof>".to_string() };
    assert!(matches!(Outcome::classify(Err(f)), Outcome::Incomplete));
}

#[test]
fn classify_other_failure_keeps_message() {
    let f = EvalFailure { incomplete_input: false, message: "runtime error: boom".to_string() };
    match Outcome::classify(Err(f)) {
        Outcome::Failed(m) => assert_eq!(m, "runtime error: boom"),
        _ => panic!("expected a failure"),
    }
}

#[test]
fn one_shot_success() {
    assert_eq!(one_shot_verdict(Ok(())), Ok(()));
}

#[test]
fn one_shot_error_is_fatal_with_message() {
    let f = EvalFailure { incomplete_input: false, message: "runtime error: [string \"?\"]:1: boom".to_string() };
    let v = one_shot_verdict(Err(f));
    assert!(v.unwrap_err().contains("boom"));
}

#[test]
fn one_shot_incomplete_is_fatal() {
    let f = EvalFailure { incomplete_input: true, message: "unfinished".to_string() };
    assert_eq!(one_shot_verdict(Err(f)), Err("unfinished".to_string()));
}

#[test]
fn buffer_joins_lines_and_resets() {
    let mut b = SessionBuffer::new();
    assert!(b.is_empty());
    assert_eq!(b.contents(), "");
    b.append("a".to_string());
    assert_eq!(b.contents(), "a");
    b.append("".to_string());
    b.append("c".to_string());
    assert_eq!(b.contents(), "a\n\nc");
    assert!(!b.is_empty());
    b.reset();
    assert!(b.is_empty());
    assert_eq!(b.contents(), "");
}
