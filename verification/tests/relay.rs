use pake_registry::error::BuildError;
use pake_registry::relay::{relay_all, relay_step, Outcome, ProcessEvent};

#[test]
fn output_lines_are_tagged_by_stream() {
    let out = relay_step(ProcessEvent::Stdout("building".to_string()));
    assert_eq!(out.line, Some("stdout: building".to_string()));
    assert!(matches!(out.outcome, Outcome::Continue));
    let err = relay_step(ProcessEvent::Stderr("warning".to_string()));
    assert_eq!(err.line, Some("stderr: warning".to_string()));
    assert!(matches!(err.outcome, Outcome::Continue));
}

#[test]
fn an_error_is_relayed_and_ends_the_run() {
    let step = relay_step(ProcessEvent::Error("broken pipe".to_string()));
    assert_eq!(step.line, Some("error: broken pipe".to_string()));
    assert!(matches!(step.outcome, Outcome::Failed(BuildError::Command(c)) if c == "broken pipe"));
}

#[test]
fn exit_codes_decide_the_end() {
    let zero = relay_step(ProcessEvent::Terminated(Some(0)));
    assert_eq!(zero.line, None);
    assert!(matches!(zero.outcome, Outcome::Done));
    let none = relay_step(ProcessEvent::Terminated(None));
    assert!(matches!(none.outcome, Outcome::Done));
    let one = relay_step(ProcessEvent::Terminated(Some(1)));
    assert_eq!(one.line, None);
    assert!(matches!(one.outcome, Outcome::Failed(BuildError::NonZeroExit)));
    let negative = relay_step(ProcessEvent::Terminated(Some(-1)));
    assert!(matches!(negative.outcome, Outcome::Failed(BuildError::NonZeroExit)));
}

#[test]
fn other_events_change_nothing() {
    let step = relay_step(ProcessEvent::Other);
    assert_eq!(step.line, None);
    assert!(matches!(step.outcome, Outcome::Continue));
}

#[test]
fn exit_code_one_fails_after_all_lines() {
    let report = relay_all(vec![
        ProcessEvent::Stdout("one".to_string()),
        ProcessEvent::Stderr("two".to_string()),
        ProcessEvent::Other,
        ProcessEvent::Stdout("three".to_string()),
        ProcessEvent::Terminated(Some(1)),
    ]);
    assert_eq!(report.taken, 5);
    assert_eq!(report.lines, vec!["stdout: one", "stderr: two", "stdout: three"]);
    assert!(matches!(report.failure, Some(BuildError::NonZeroExit)));
}

#[test]
fn nothing_is_relayed_after_the_end() {
    let report = relay_all(vec![
        ProcessEvent::Stdout("one".to_string()),
        ProcessEvent::Terminated(Some(0)),
        ProcessEvent::Stdout("late".to_string()),
    ]);
    assert_eq!(report.taken, 2);
    assert_eq!(report.lines, vec!["stdout: one"]);
    assert!(report.failure.is_none());
}

#[test]
fn an_error_event_stops_the_relay() {
    let report = relay_all(vec![
        ProcessEvent::Stdout("one".to_string()),
        ProcessEvent::Error("boom".to_string()),
        ProcessEvent::Terminated(Some(0)),
    ]);
    assert_eq!(report.taken, 2);
    assert_eq!(report.lines, vec!["stdout: one", "error: boom"]);
    assert!(matches!(report.failure, Some(BuildError::Command(c)) if c == "boom"));
}

#[test]
fn a_run_without_an_end_has_ended_well() {
    let report = relay_all(vec![ProcessEvent::Stderr("x".to_string())]);
    assert_eq!(report.taken, 1);
    assert_eq!(report.lines, vec!["stderr: x"]);
    assert!(report.failure.is_none());
    let empty = relay_all(Vec::new());
    assert_eq!(empty.taken, 0);
    assert!(empty.lines.is_empty());
    assert!(empty.failure.is_none());
}
