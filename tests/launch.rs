use lua_repl::launch::{plan, Flags, Step};

fn flags(version: bool, script: Option<&str>, execute: Option<&str>, interactive: Option<&str>) -> Flags {
    Flags {
        version,
        script: script.map(|s| s.to_string()),
        execute: execute.map(|s| s.to_string()),
        interactive: interactive.map(|s| s.to_string()),
    }
}

fn describe(steps: Vec<Step>) -> Vec<String> {
    steps
        .into_iter()
        .map(|s| match s {
            Step::PrintVersion => "version".to_string(),
            Step::RunFile(p) => format!("file {}", p),
            Step::RunInline(t) => format!("run {}", t),
            Step::Interactive => "repl".to_string(),
        })
        .collect()
}

#[test]
fn no_flags_starts_session() {
    assert_eq!(describe(plan(flags(false, None, None, None))), vec!["repl"]);
}

#[test]
fn version_ignores_other_flags() {
    assert_eq!(describe(plan(flags(true, Some("a.lua"), Some("x()"), Some("y()")))), vec!["version"]);
}

#[test]
fn execute_alone_runs_and_stops() {
    assert_eq!(describe(plan(flags(false, None, Some("error('boom')"), None))), vec!["run error('boom')"]);
}

#[test]
fn interactive_runs_then_starts_session() {
    assert_eq!(describe(plan(flags(false, None, None, Some("x = 1")))), vec!["run x = 1", "repl"]);
}

#[test]
fn execute_wins_over_interactive() {
    assert_eq!(describe(plan(flags(false, None, Some("a()"), Some("b()")))), vec!["run a()"]);
}

#[test]
fn script_runs_first_then_session() {
    assert_eq!(describe(plan(flags(false, Some("m.lua"), None, None))), vec!["file m.lua", "repl"]);
}

#[test]
fn script_then_execute() {
    assert_eq!(describe(plan(flags(false, Some("m.lua"), Some("f()"), None))), vec!["file m.lua", "run f()"]);
}
