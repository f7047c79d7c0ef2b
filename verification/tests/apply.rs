use declare_schema::apply::{advance, begin, next_action, Action, Outcome, Progress, LOCK_TIMEOUT_MS};
use declare_schema::cli::{confirmed, is_yes, Args, Commands, LogLevel, NextStep};

fn migrate(execute: bool, apply_execute: bool) -> Args {
    Args {
        command: Commands::Migrate { execute, apply_execute, to: "schema.sql".to_string() },
        log_level: LogLevel::Debug,
        log_json: false,
    }
}

#[test]
fn lock_timeout_is_five_seconds() {
    assert_eq!(LOCK_TIMEOUT_MS, 5000);
}

#[test]
fn lock_timeout_comes_first_then_statements_in_order() {
    let mut state = begin();
    assert_eq!(next_action(state), Action::SetLockTimeout(5000));

    state = advance(3, state, Outcome::Succeeded);
    assert_eq!(state, Progress::Running { done: 0 });
    assert_eq!(next_action(state), Action::Execute(0));

    state = advance(3, state, Outcome::Succeeded);
    assert_eq!(next_action(state), Action::Execute(1));

    state = advance(3, state, Outcome::Succeeded);
    assert_eq!(next_action(state), Action::Execute(2));

    state = advance(3, state, Outcome::Succeeded);
    assert_eq!(state, Progress::Finished);
    assert_eq!(next_action(state), Action::Done);
}

#[test]
fn empty_plan_finishes_once_the_lock_timeout_is_set() {
    let state = advance(0, begin(), Outcome::Succeeded);

    assert_eq!(state, Progress::Finished);
    assert_eq!(next_action(state), Action::Done);
}

#[test]
fn failing_lock_timeout_sends_no_statement() {
    let state = advance(2, begin(), Outcome::Failed);

    assert_eq!(state, Progress::NotStarted);
    assert_eq!(next_action(state), Action::Done);
}

#[test]
fn first_failing_statement_stops_the_plan() {
    let mut state = advance(3, begin(), Outcome::Succeeded);
    state = advance(3, state, Outcome::Succeeded);
    state = advance(3, state, Outcome::Failed);

    assert_eq!(state, Progress::Stopped { at: 1 });
    assert_eq!(next_action(state), Action::Done);
    assert_eq!(advance(3, state, Outcome::Succeeded), Progress::Stopped { at: 1 });
}

#[test]
fn last_statement_at_the_largest_place_does_not_overflow() {
    let state = Progress::Running { done: usize::MAX };

    assert_eq!(advance(usize::MAX, state, Outcome::Succeeded), Progress::Finished);
    assert_eq!(advance(0, state, Outcome::Succeeded), Progress::Finished);
}

#[test]
fn plan_is_only_shown_unless_execute_is_set() {
    assert_eq!(migrate(false, false).after_plan(), NextStep::Stop);
    assert_eq!(migrate(false, true).after_plan(), NextStep::Stop);
}

#[test]
fn execution_is_confirmed_unless_apply_execute_is_set() {
    assert_eq!(migrate(true, false).after_plan(), NextStep::Confirm);
    assert_eq!(migrate(true, true).after_plan(), NextStep::Execute);
}

#[test]
fn dump_runs_nothing() {
    let args = Args { command: Commands::Dump, log_level: LogLevel::Info, log_json: true };

    assert_eq!(args.after_plan(), NextStep::Stop);
}

#[test]
fn only_y_confirms() {
    assert!(confirmed("y"));
    assert!(confirmed("Y\n"));
    assert!(confirmed("  y \r\n"));
    assert!(!confirmed(""));
    assert!(!confirmed("\n"));
    assert!(!confirmed("n"));
    assert!(!confirmed("yes"));
    assert!(!confirmed("y y"));
}

#[test]
fn yes_is_the_single_letter() {
    assert!(is_yes("y"));
    assert!(!is_yes("Y"));
    assert!(!is_yes(" y"));
    assert!(!is_yes(""));
}
