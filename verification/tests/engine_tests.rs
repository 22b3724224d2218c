use std::cell::RefCell;
use system_monitor::command::{CommandLine, Platform, RawCommandResult, RunOutcome, Strategy};
use system_monitor::engine::{
    advance, begin, judge, pending_strategy, resolve_with, Conclusion, Failure, Progress,
};
use system_monitor::text::Extraction;
use system_monitor::validity::Validity;

fn strategy(name: &str) -> Strategy {
    Strategy {
        name: name.to_string(),
        command: CommandLine::bare(name, Platform::Other),
        extraction: Extraction::Plain,
    }
}

fn chain_of(names: &[&str]) -> Vec<Strategy> {
    names.iter().map(|name| strategy(name)).collect()
}

fn printed(stdout: &str) -> RunOutcome {
    RunOutcome::Completed(RawCommandResult {
        exit_success: true,
        stdout: stdout.to_string(),
        stderr: String::new(),
    })
}

fn failed(stdout: &str, stderr: &str) -> RunOutcome {
    RunOutcome::Completed(RawCommandResult {
        exit_success: false,
        stdout: stdout.to_string(),
        stderr: stderr.to_string(),
    })
}

#[test]
fn a_success_keeps_later_strategies_from_running() {
    let chain = chain_of(&["first", "second", "third", "fourth"]);
    let calls: RefCell<Vec<String>> = RefCell::new(Vec::new());
    let resolution = resolve_with(&chain, Validity::NonEmpty, |s: &Strategy| {
        calls.borrow_mut().push(s.name.clone());
        match s.name.as_str() {
            "first" => RunOutcome::ExecutionFailure,
            "second" => printed(" value-2 \n"),
            _ => printed("later"),
        }
    });
    assert_eq!(*calls.borrow(), vec!["first".to_string(), "second".to_string()]);
    assert_eq!(
        resolution.conclusion,
        Conclusion::Resolved { by: 1, value: "value-2".to_string() }
    );
    assert_eq!(resolution.attempts, vec![RunOutcome::ExecutionFailure, printed(" value-2 \n")]);
}

#[test]
fn a_success_of_the_first_strategy_runs_nothing_else() {
    let chain = chain_of(&["first", "second", "third"]);
    let calls: RefCell<usize> = RefCell::new(0);
    let resolution = resolve_with(&chain, Validity::NonEmpty, |_s: &Strategy| {
        *calls.borrow_mut() += 1;
        printed("x")
    });
    assert_eq!(*calls.borrow(), 1);
    assert_eq!(resolution.conclusion, Conclusion::Resolved { by: 0, value: "x".to_string() });
}

#[test]
fn every_strategy_is_tried_in_order_before_exhaustion() {
    let chain = chain_of(&["first", "second", "third"]);
    let calls: RefCell<Vec<String>> = RefCell::new(Vec::new());
    let resolution = resolve_with(&chain, Validity::NonEmpty, |s: &Strategy| {
        calls.borrow_mut().push(s.name.clone());
        match s.name.as_str() {
            "first" => RunOutcome::ExecutionFailure,
            "second" => failed("ignored", "boom"),
            _ => printed("   "),
        }
    });
    assert_eq!(
        *calls.borrow(),
        vec!["first".to_string(), "second".to_string(), "third".to_string()]
    );
    assert_eq!(resolution.conclusion, Conclusion::Exhausted(Failure::Rejected));
    assert_eq!(resolution.attempts.len(), 3);
}

#[test]
fn exhaustion_reports_how_the_last_strategy_failed() {
    let chain = chain_of(&["first", "second"]);
    let not_spawned = resolve_with(&chain, Validity::Any, |s: &Strategy| {
        if s.name == "first" {
            failed("", "")
        } else {
            RunOutcome::ExecutionFailure
        }
    });
    assert_eq!(not_spawned.conclusion, Conclusion::Exhausted(Failure::NotSpawned));
    let exit_failure = resolve_with(&chain, Validity::Any, |s: &Strategy| {
        if s.name == "first" {
            RunOutcome::ExecutionFailure
        } else {
            failed("text", "")
        }
    });
    assert_eq!(exit_failure.conclusion, Conclusion::Exhausted(Failure::ExitFailure));
}

#[test]
fn an_empty_chain_is_exhausted_without_a_run() {
    let chain: Vec<Strategy> = Vec::new();
    let calls: RefCell<usize> = RefCell::new(0);
    let resolution = resolve_with(&chain, Validity::Any, |_s: &Strategy| {
        *calls.borrow_mut() += 1;
        printed("x")
    });
    assert_eq!(*calls.borrow(), 0);
    assert_eq!(resolution.conclusion, Conclusion::Exhausted(Failure::NoStrategy));
    assert!(resolution.attempts.is_empty());
    assert_eq!(begin(&chain), Progress::Finished(Conclusion::Exhausted(Failure::NoStrategy)));
}

#[test]
fn an_exit_status_without_success_is_judged_not_raised() {
    let s = strategy("tool");
    assert_eq!(judge(&s, Validity::Any, &failed("useful", "")), Err(Failure::ExitFailure));
    assert_eq!(judge(&s, Validity::Any, &RunOutcome::ExecutionFailure), Err(Failure::NotSpawned));
    assert_eq!(judge(&s, Validity::NonEmpty, &printed(" \n")), Err(Failure::Rejected));
    assert_eq!(judge(&s, Validity::NonEmpty, &printed(" v \n")), Ok("v".to_string()));
    assert_eq!(judge(&s, Validity::Any, &printed(" \n")), Ok(String::new()));
    assert_eq!(judge(&s, Validity::SerialNumber, &printed("0\n")), Err(Failure::Rejected));
}

#[test]
fn the_machine_asks_for_one_strategy_at_a_time() {
    let chain = chain_of(&["first", "second", "third"]);
    let state = begin(&chain);
    assert_eq!(state, Progress::Next(0));
    assert_eq!(pending_strategy(&chain, &state).map(|s| s.name.as_str()), Some("first"));
    let state = advance(&chain, Validity::NonEmpty, state, &RunOutcome::ExecutionFailure);
    assert_eq!(state, Progress::Next(1));
    assert_eq!(pending_strategy(&chain, &state).map(|s| s.name.as_str()), Some("second"));
    let state = advance(&chain, Validity::NonEmpty, state, &printed("found"));
    assert_eq!(
        state,
        Progress::Finished(Conclusion::Resolved { by: 1, value: "found".to_string() })
    );
    assert_eq!(pending_strategy(&chain, &state), None);
}

#[test]
fn a_finished_machine_ignores_what_is_fed_to_it() {
    let chain = chain_of(&["first", "second"]);
    let resolved = advance(&chain, Validity::NonEmpty, begin(&chain), &printed("one"));
    let again = advance(&chain, Validity::NonEmpty, resolved.clone(), &printed("two"));
    assert_eq!(again, resolved);
    let exhausted = Progress::Finished(Conclusion::Exhausted(Failure::ExitFailure));
    let again = advance(&chain, Validity::NonEmpty, exhausted.clone(), &printed("two"));
    assert_eq!(again, exhausted);
}

#[test]
fn the_machine_ends_exhausted_after_the_last_strategy() {
    let chain = chain_of(&["first", "second"]);
    let state = advance(&chain, Validity::NonEmpty, begin(&chain), &printed(""));
    assert_eq!(state, Progress::Next(1));
    let state = advance(&chain, Validity::NonEmpty, state, &failed("", "denied"));
    assert_eq!(state, Progress::Finished(Conclusion::Exhausted(Failure::ExitFailure)));
}

#[test]
fn a_state_beyond_the_chain_asks_for_nothing() {
    let chain = chain_of(&["only"]);
    let state = Progress::Next(5);
    assert_eq!(pending_strategy(&chain, &state), None);
    assert_eq!(advance(&chain, Validity::Any, state, &printed("x")), Progress::Next(5));
}

#[test]
fn the_same_answers_give_the_same_resolution() {
    let chain = chain_of(&["first", "second", "third"]);
    let runner = |s: &Strategy| match s.name.as_str() {
        "first" => failed("", "no"),
        "second" => printed(""),
        _ => printed("third-value"),
    };
    let one = resolve_with(&chain, Validity::NonEmpty, runner);
    let two = resolve_with(&chain, Validity::NonEmpty, runner);
    assert_eq!(one, two);
    assert_eq!(one.conclusion, Conclusion::Resolved { by: 2, value: "third-value".to_string() });
}

#[test]
fn a_conclusion_gives_its_value_or_the_default() {
    let resolved = Conclusion::Resolved { by: 0, value: "v".to_string() };
    let exhausted = Conclusion::Exhausted(Failure::Rejected);
    assert!(resolved.is_resolved());
    assert!(!exhausted.is_resolved());
    assert_eq!(resolved.clone().into_value_or("Unknown"), "v");
    assert_eq!(exhausted.clone().into_value_or("Unknown"), "Unknown");
    assert_eq!(resolved.into_result(), Ok("v".to_string()));
    assert_eq!(exhausted.into_result(), Err(Failure::Rejected));
}

#[test]
fn keyed_strategies_read_their_line() {
    let keyed = Strategy {
        name: "keyed".to_string(),
        command: CommandLine::bare("tool", Platform::Other),
        extraction: Extraction::Keyed("SerialNumber".to_string()),
    };
    let output = printed("\r\nCaption=x\r\nSerialNumber= PF12 \r\n");
    assert_eq!(judge(&keyed, Validity::SerialNumber, &output), Ok("PF12".to_string()));
    assert_eq!(
        judge(&keyed, Validity::SerialNumber, &printed("PF12")),
        Err(Failure::Rejected)
    );
}
