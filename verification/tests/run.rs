use proxy_checker::candidates::candidates_from_lines;
use proxy_checker::identity::{Failure, FailureKind, IdentityRecord};
use proxy_checker::outcome::ValidationOutcome;
use proxy_checker::run::{conclude, start, step, Ending, RunAction, RunEvent, RunState};

fn lines(text: &[&str]) -> Vec<String> {
    text.iter().map(|s| s.to_string()).collect()
}

fn baseline() -> IdentityRecord {
    IdentityRecord {
        ip: "1.2.3.4".to_string(),
        country: Some("ID".to_string()),
        organization: Some("Home".to_string()),
    }
}

fn alive(candidate: &str, ip: &str) -> ValidationOutcome {
    ValidationOutcome::Alive {
        candidate: candidate.to_string(),
        observed_ip: ip.to_string(),
        country: "US".to_string(),
        organization: "Net".to_string(),
    }
}

fn errored() -> ValidationOutcome {
    ValidationOutcome::Errored {
        reason: Failure { kind: FailureKind::Construction, detail: "bad".to_string() },
    }
}

fn after_baseline() -> RunState {
    let (state, _) = start();
    let (state, action) = step(state, RunEvent::BaselineFetched { answer: Ok(baseline()) });
    assert!(matches!(action, RunAction::ReadInput));
    state
}

fn after_input(text: &[&str]) -> (RunState, Vec<String>) {
    let (state, action) = step(after_baseline(), RunEvent::InputRead { lines: Ok(lines(text)) });
    match action {
        RunAction::Validate { baseline: handed, candidates } => {
            assert_eq!(handed.ip, baseline().ip);
            assert_eq!(handed.country, baseline().country);
            assert_eq!(handed.organization, baseline().organization);
            (state, candidates)
        }
        _ => panic!("no validation was launched"),
    }
}

#[test]
fn blank_lines_are_skipped_and_lines_trimmed() {
    let input = lines(&["", "  http://a:1  ", "\t", "b:2\r", " \u{a0} ", "socks5://c:3"]);
    assert_eq!(
        candidates_from_lines(&input),
        lines(&["http://a:1", "b:2", "socks5://c:3"])
    );
}

#[test]
fn repeated_lines_are_kept() {
    let input = lines(&["http://a:1", "http://a:1", " http://a:1"]);
    assert_eq!(
        candidates_from_lines(&input),
        lines(&["http://a:1", "http://a:1", "http://a:1"])
    );
}

#[test]
fn addresses_are_not_checked_when_read() {
    let input = lines(&["::::", "not a proxy"]);
    assert_eq!(candidates_from_lines(&input), lines(&["::::", "not a proxy"]));
}

#[test]
fn no_lines_no_candidates() {
    assert!(candidates_from_lines(&Vec::new()).is_empty());
    assert!(candidates_from_lines(&lines(&["", "   "])).is_empty());
}

#[test]
fn run_starts_by_asking_for_the_baseline() {
    let (state, action) = start();
    assert!(matches!(state, RunState::AwaitingBaseline));
    assert!(matches!(action, RunAction::FetchBaseline));
}

#[test]
fn baseline_failure_ends_the_run_before_any_validation() {
    let (state, _) = start();
    let failure = Failure { kind: FailureKind::Network, detail: "unreachable".to_string() };
    let (state, action) = step(state, RunEvent::BaselineFetched { answer: Err(failure.clone()) });
    assert!(matches!(state, RunState::Finished));
    match action {
        RunAction::Finish { ending } => {
            assert_ne!(ending.exit_code(), 0);
            match ending {
                Ending::BaselineFailure { reason } => assert_eq!(reason, failure),
                _ => panic!("not a baseline failure"),
            }
        }
        _ => panic!("the run went on"),
    }
    // Whatever is reported next, nothing is launched.
    let (state, action) = step(state, RunEvent::InputRead { lines: Ok(lines(&["http://a:1"])) });
    assert!(matches!(state, RunState::Finished));
    assert!(matches!(action, RunAction::Finish { ending: Ending::OutOfTurn }));
}

#[test]
fn empty_input_ends_the_run_with_exit_code_zero() {
    for input in [Vec::new(), lines(&["", "  ", "\t"])] {
        let (state, action) = step(after_baseline(), RunEvent::InputRead { lines: Ok(input) });
        assert!(matches!(state, RunState::Finished));
        match action {
            RunAction::Finish { ending } => {
                assert_eq!(ending.exit_code(), 0);
                assert!(matches!(ending, Ending::EmptyInputList));
            }
            _ => panic!("the run went on"),
        }
    }
}

#[test]
fn missing_input_list_ends_the_run_with_a_failure() {
    let (state, action) = step(
        after_baseline(),
        RunEvent::InputRead { lines: Err("No such file or directory".to_string()) },
    );
    assert!(matches!(state, RunState::Finished));
    match action {
        RunAction::Finish { ending } => {
            assert_ne!(ending.exit_code(), 0);
            match ending {
                Ending::InputListMissing { reason } => {
                    assert_eq!(reason, "No such file or directory")
                }
                _ => panic!("not a missing input list"),
            }
        }
        _ => panic!("the run went on"),
    }
}

#[test]
fn candidates_are_validated_against_the_fetched_baseline() {
    let (state, candidates) = after_input(&["http://a:1", "", " http://b:2 ", "http://a:1"]);
    assert_eq!(candidates, lines(&["http://a:1", "http://b:2", "http://a:1"]));
    match state {
        RunState::AwaitingOutcomes { launched } => assert_eq!(launched, 3),
        _ => panic!("the run does not wait for the validations"),
    }
}

#[test]
fn run_with_alive_proxies_ends_with_a_report() {
    let (state, _) = after_input(&["http://a:1", "http://b:2", "http://c:3", "http://d:4"]);
    let outcomes = vec![
        alive("http://a:1", "5.5.5.5"),
        ValidationOutcome::Dead,
        errored(),
        alive("http://d:4", "6.6.6.6"),
    ];
    let (state, action) = step(state, RunEvent::ValidationsJoined { outcomes });
    assert!(matches!(state, RunState::Finished));
    match action {
        RunAction::Finish { ending } => {
            assert_eq!(ending.exit_code(), 0);
            match ending {
                Ending::ReportReady { report, alive } => {
                    assert_eq!(alive, 2);
                    assert_eq!(
                        report,
                        "Proxy Aktif: http://a:1 | IP: 5.5.5.5 | Negara: US | Organisasi: Net\n\
                         Proxy Aktif: http://d:4 | IP: 6.6.6.6 | Negara: US | Organisasi: Net\n"
                    );
                }
                _ => panic!("no report"),
            }
        }
        _ => panic!("the run went on"),
    }
}

#[test]
fn run_without_alive_proxies_ends_without_a_report() {
    let (state, _) = after_input(&["http://a:1", "http://b:2"]);
    let outcomes = vec![ValidationOutcome::Dead, errored()];
    let (state, action) = step(state, RunEvent::ValidationsJoined { outcomes });
    assert!(matches!(state, RunState::Finished));
    match action {
        RunAction::Finish { ending } => {
            assert_eq!(ending.exit_code(), 0);
            assert!(matches!(ending, Ending::NoAliveProxies));
        }
        _ => panic!("the run went on"),
    }
}

#[test]
fn join_that_misses_an_outcome_is_out_of_turn() {
    let (state, _) = after_input(&["http://a:1", "http://b:2"]);
    let (state, action) =
        step(state, RunEvent::ValidationsJoined { outcomes: vec![alive("http://a:1", "5.5.5.5")] });
    assert!(matches!(state, RunState::Finished));
    match action {
        RunAction::Finish { ending } => {
            assert_ne!(ending.exit_code(), 0);
            assert!(matches!(ending, Ending::OutOfTurn));
        }
        _ => panic!("the run went on"),
    }
}

#[test]
fn event_that_is_not_awaited_ends_the_run() {
    let (state, _) = start();
    let (state, action) = step(state, RunEvent::ValidationsJoined { outcomes: Vec::new() });
    assert!(matches!(state, RunState::Finished));
    assert!(matches!(action, RunAction::Finish { ending: Ending::OutOfTurn }));

    let (state, action) = step(after_baseline(), RunEvent::BaselineFetched { answer: Ok(baseline()) });
    assert!(matches!(state, RunState::Finished));
    assert!(matches!(action, RunAction::Finish { ending: Ending::OutOfTurn }));
}

#[test]
fn conclude_counts_the_alive_outcomes() {
    assert!(matches!(conclude(Vec::new()), Ending::NoAliveProxies));
    assert!(matches!(conclude(vec![errored(), ValidationOutcome::Dead]), Ending::NoAliveProxies));
    match conclude(vec![errored(), alive("x", "7.7.7.7")]) {
        Ending::ReportReady { report, alive } => {
            assert_eq!(alive, 1);
            assert_eq!(report, "Proxy Aktif: x | IP: 7.7.7.7 | Negara: US | Organisasi: Net\n");
        }
        _ => panic!("no report"),
    }
}

#[test]
fn exit_codes() {
    let failure = Failure { kind: FailureKind::Parse, detail: String::new() };
    assert_eq!(Ending::BaselineFailure { reason: failure }.exit_code(), 1);
    assert_eq!(Ending::InputListMissing { reason: String::new() }.exit_code(), 1);
    assert_eq!(Ending::OutOfTurn.exit_code(), 1);
    assert_eq!(Ending::EmptyInputList.exit_code(), 0);
    assert_eq!(Ending::NoAliveProxies.exit_code(), 0);
    assert_eq!(Ending::ReportReady { report: String::new(), alive: 0 }.exit_code(), 0);
}
