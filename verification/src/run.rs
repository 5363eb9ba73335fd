//! The validation orchestrator.
//!
//! A run alternates between work that only the caller can do (asking the
//! oracle, reading the input list, validating the candidates side by side)
//! and decisions. The decisions are the state machine of this module: the
//! caller performs the action it is handed and reports back with an event.

use crate::candidates::{candidate_list, candidates_from_lines, texts};
use crate::identity::{fetched_view, Failure, FailureView, IdentityRecord, IdentityView};
use crate::outcome::{OutcomeView, ValidationOutcome};
use crate::results::{alive_of, outcome_views, report_text, ResultSet};
use vstd::prelude::*;

verus! {

/// Where a run stands.
pub enum RunState {
    /// The baseline identity has been asked for.
    AwaitingBaseline,
    /// The baseline is known; the input list has been asked for.
    AwaitingInput { baseline: IdentityRecord },
    /// This many validations were launched; all of them are awaited.
    AwaitingOutcomes { launched: usize },
    /// The run is over.
    Finished,
}

/// What the caller reports back.
pub enum RunEvent {
    /// The answer to the request for the baseline identity.
    BaselineFetched { answer: Result<IdentityRecord, Failure> },
    /// The lines of the input list, or why it could not be opened.
    InputRead { lines: Result<Vec<String>, String> },
    /// Every launched validation has finished; these are their outcomes.
    ValidationsJoined { outcomes: Vec<ValidationOutcome> },
}

/// How a run ends.
pub enum Ending {
    /// No baseline identity could be had. Nothing was validated.
    BaselineFailure { reason: Failure },
    /// The input list could not be opened.
    InputListMissing { reason: String },
    /// The input list names no candidate. Nothing was validated.
    EmptyInputList,
    /// Every candidate was validated and none is alive. No report is due.
    NoAliveProxies,
    /// Every candidate was validated; the report holds a line for each of the
    /// `alive` that are alive.
    ReportReady { report: String, alive: usize },
    /// The caller reported an event that the run was not waiting for.
    OutOfTurn,
}

/// What the caller is to do next.
pub enum RunAction {
    /// Ask the oracle for the identity of the direct route.
    FetchBaseline,
    /// Read the lines of the input list.
    ReadInput,
    /// Validate every candidate against the baseline, all at once, and wait
    /// for all of them.
    Validate { baseline: IdentityRecord, candidates: Vec<String> },
    /// Stop.
    Finish { ending: Ending },
}

/// A state as mathematical data.
pub enum RunStateView {
    AwaitingBaseline,
    AwaitingInput { baseline: IdentityView },
    AwaitingOutcomes { launched: nat },
    Finished,
}

/// An event as mathematical data.
pub enum RunEventView {
    BaselineFetched { answer: Result<IdentityView, FailureView> },
    InputRead { lines: Result<Seq<Seq<char>>, Seq<char>> },
    ValidationsJoined { outcomes: Seq<OutcomeView> },
}

/// An ending as mathematical data.
pub enum EndingView {
    BaselineFailure { reason: FailureView },
    InputListMissing { reason: Seq<char> },
    EmptyInputList,
    NoAliveProxies,
    ReportReady { report: Seq<char>, alive: nat },
    OutOfTurn,
}

/// An action as mathematical data.
pub enum RunActionView {
    FetchBaseline,
    ReadInput,
    Validate { baseline: IdentityView, candidates: Seq<Seq<char>> },
    Finish { ending: EndingView },
}

impl View for RunState {
    type V = RunStateView;

    open spec fn view(&self) -> RunStateView {
        match self {
            RunState::AwaitingBaseline => RunStateView::AwaitingBaseline,
            RunState::AwaitingInput { baseline } => RunStateView::AwaitingInput {
                baseline: baseline@,
            },
            RunState::AwaitingOutcomes { launched } => RunStateView::AwaitingOutcomes {
                launched: *launched as nat,
            },
            RunState::Finished => RunStateView::Finished,
        }
    }
}

impl View for RunEvent {
    type V = RunEventView;

    open spec fn view(&self) -> RunEventView {
        match self {
            RunEvent::BaselineFetched { answer } => RunEventView::BaselineFetched {
                answer: fetched_view(*answer),
            },
            RunEvent::InputRead { lines } => RunEventView::InputRead {
                lines: match lines {
                    Ok(lines) => Ok(texts(lines@)),
                    Err(reason) => Err(reason@),
                },
            },
            RunEvent::ValidationsJoined { outcomes } => RunEventView::ValidationsJoined {
                outcomes: outcome_views(outcomes@),
            },
        }
    }
}

impl View for Ending {
    type V = EndingView;

    open spec fn view(&self) -> EndingView {
        match self {
            Ending::BaselineFailure { reason } => EndingView::BaselineFailure { reason: reason@ },
            Ending::InputListMissing { reason } => EndingView::InputListMissing {
                reason: reason@,
            },
            Ending::EmptyInputList => EndingView::EmptyInputList,
            Ending::NoAliveProxies => EndingView::NoAliveProxies,
            Ending::ReportReady { report, alive } => EndingView::ReportReady {
                report: report@,
                alive: *alive as nat,
            },
            Ending::OutOfTurn => EndingView::OutOfTurn,
        }
    }
}

impl View for RunAction {
    type V = RunActionView;

    open spec fn view(&self) -> RunActionView {
        match self {
            RunAction::FetchBaseline => RunActionView::FetchBaseline,
            RunAction::ReadInput => RunActionView::ReadInput,
            RunAction::Validate { baseline, candidates } => RunActionView::Validate {
                baseline: baseline@,
                candidates: texts(candidates@),
            },
            RunAction::Finish { ending } => RunActionView::Finish { ending: ending@ },
        }
    }
}

/// The ending of a run whose validations have all been joined.
pub open spec fn ending_of(outcomes: Seq<OutcomeView>) -> EndingView {
    let alive = alive_of(outcomes);
    if alive.len() == 0 {
        EndingView::NoAliveProxies
    } else {
        EndingView::ReportReady { report: report_text(alive), alive: alive.len() }
    }
}

/// The transition of a run: the state after `event` arrived in `state`, and
/// the action to take then.
pub open spec fn run_step(state: RunStateView, event: RunEventView) -> (
    RunStateView,
    RunActionView,
) {
    match (state, event) {
        (RunStateView::AwaitingBaseline, RunEventView::BaselineFetched { answer }) => match answer {
            Ok(baseline) => (RunStateView::AwaitingInput { baseline }, RunActionView::ReadInput),
            Err(reason) => (
                RunStateView::Finished,
                RunActionView::Finish { ending: EndingView::BaselineFailure { reason } },
            ),
        },
        (RunStateView::AwaitingInput { baseline }, RunEventView::InputRead { lines }) => match lines {
            Err(reason) => (
                RunStateView::Finished,
                RunActionView::Finish { ending: EndingView::InputListMissing { reason } },
            ),
            Ok(lines) => {
                let candidates = candidate_list(lines);
                if candidates.len() == 0 {
                    (
                        RunStateView::Finished,
                        RunActionView::Finish { ending: EndingView::EmptyInputList },
                    )
                } else {
                    (
                        RunStateView::AwaitingOutcomes { launched: candidates.len() },
                        RunActionView::Validate { baseline, candidates },
                    )
                }
            },
        },
        (
            RunStateView::AwaitingOutcomes { launched },
            RunEventView::ValidationsJoined { outcomes },
        ) => if outcomes.len() == launched {
            (RunStateView::Finished, RunActionView::Finish { ending: ending_of(outcomes) })
        } else {
            (RunStateView::Finished, RunActionView::Finish { ending: EndingView::OutOfTurn })
        },
        _ => (RunStateView::Finished, RunActionView::Finish { ending: EndingView::OutOfTurn }),
    }
}

/// The exit code of a process whose run ended with `ending`: zero for a run
/// that went its way, also where it found no candidate or no alive proxy.
pub open spec fn exit_code(ending: EndingView) -> u8 {
    match ending {
        EndingView::BaselineFailure { .. } => 1,
        EndingView::InputListMissing { .. } => 1,
        EndingView::OutOfTurn => 1,
        EndingView::EmptyInputList => 0,
        EndingView::NoAliveProxies => 0,
        EndingView::ReportReady { .. } => 0,
    }
}

impl Ending {
    /// The exit code for this ending.
    pub fn exit_code(&self) -> (code: u8)
        ensures
            code == exit_code(self@),
    {
        match self {
            Ending::BaselineFailure { .. } => 1,
            Ending::InputListMissing { .. } => 1,
            Ending::OutOfTurn => 1,
            Ending::EmptyInputList => 0,
            Ending::NoAliveProxies => 0,
            Ending::ReportReady { .. } => 0,
        }
    }
}

/// Begins a run: the first thing to do is to ask for the baseline identity.
/// No later step asks for it again.
pub fn start() -> (first: (RunState, RunAction))
    ensures
        first.0@ == RunStateView::AwaitingBaseline,
        first.1@ == RunActionView::FetchBaseline,
{
    (RunState::AwaitingBaseline, RunAction::FetchBaseline)
}

/// The ending for the outcomes of all validations of a run.
pub fn conclude(outcomes: Vec<ValidationOutcome>) -> (ending: Ending)
    ensures
        ending@ == ending_of(outcome_views(outcomes@)),
{
    let set = ResultSet::collect(outcomes);
    if set.is_empty() {
        Ending::NoAliveProxies
    } else {
        Ending::ReportReady { report: set.report(), alive: set.len() }
    }
}

/// Takes a run one step further: decides, from where the run stands and what
/// the caller reports, where it stands next and what the caller is to do.
pub fn step(state: RunState, event: RunEvent) -> (next: (RunState, RunAction))
    ensures
        (next.0@, next.1@) == run_step(state@, event@),
{
    match (state, event) {
        (RunState::AwaitingBaseline, RunEvent::BaselineFetched { answer }) => match answer {
            Ok(baseline) => (RunState::AwaitingInput { baseline }, RunAction::ReadInput),
            Err(reason) => (
                RunState::Finished,
                RunAction::Finish { ending: Ending::BaselineFailure { reason } },
            ),
        },
        (RunState::AwaitingInput { baseline }, RunEvent::InputRead { lines }) => match lines {
            Err(reason) => (
                RunState::Finished,
                RunAction::Finish { ending: Ending::InputListMissing { reason } },
            ),
            Ok(lines) => {
                let candidates = candidates_from_lines(&lines);
                if candidates.len() == 0 {
                    (RunState::Finished, RunAction::Finish { ending: Ending::EmptyInputList })
                } else {
                    (
                        RunState::AwaitingOutcomes { launched: candidates.len() },
                        RunAction::Validate { baseline, candidates },
                    )
                }
            },
        },
        (RunState::AwaitingOutcomes { launched }, RunEvent::ValidationsJoined { outcomes }) => {
            if outcomes.len() == launched {
                (RunState::Finished, RunAction::Finish { ending: conclude(outcomes) })
            } else {
                (RunState::Finished, RunAction::Finish { ending: Ending::OutOfTurn })
            }
        },
        _ => (RunState::Finished, RunAction::Finish { ending: Ending::OutOfTurn }),
    }
}

/// The actions that a run hands out when it stands in `state` and `events`
/// arrive in turn.
pub open spec fn run_actions(state: RunStateView, events: Seq<RunEventView>) -> Seq<RunActionView>
    decreases events.len(),
{
    if events.len() == 0 {
        Seq::empty()
    } else {
        let next = run_step(state, events.first());
        seq![next.1] + run_actions(next.0, events.drop_first())
    }
}

/// A run answers every event with one action: the first by the transition
/// from its state, the others as the run goes on from the state after it.
pub proof fn lemma_run_actions_unfold(state: RunStateView, events: Seq<RunEventView>)
    requires
        events.len() > 0,
    ensures
        run_actions(state, events).len() == events.len(),
        run_actions(state, events)[0] == run_step(state, events[0]).1,
        forall|i: int|
            1 <= i < events.len() ==> #[trigger] run_actions(state, events)[i] == run_actions(
                run_step(state, events[0]).0,
                events.drop_first(),
            )[i - 1],
    decreases events.len(),
{
    let next = run_step(state, events[0]);
    let rest = events.drop_first();
    if rest.len() > 0 {
        lemma_run_actions_unfold(next.0, rest);
    } else {
        assert(run_actions(next.0, rest).len() == 0);
    }
    assert(run_actions(state, events) == seq![next.1] + run_actions(next.0, rest));
}

/// A run that is over stays over: whatever is reported to it, it launches
/// nothing and asks for nothing.
pub proof fn lemma_finished_is_final(events: Seq<RunEventView>)
    ensures
        run_actions(RunStateView::Finished, events).len() == events.len(),
        forall|i: int|
            0 <= i < events.len() ==> #[trigger] run_actions(RunStateView::Finished, events)[i]
                == (RunActionView::Finish { ending: EndingView::OutOfTurn }),
    decreases events.len(),
{
    if events.len() > 0 {
        lemma_run_actions_unfold(RunStateView::Finished, events);
        lemma_finished_is_final(events.drop_first());
    }
}

/// No step asks for the baseline identity: it is asked for when the run
/// starts, and at no other time.
pub proof fn lemma_baseline_asked_once(state: RunStateView, events: Seq<RunEventView>, i: int)
    requires
        0 <= i < events.len(),
    ensures
        !(run_actions(state, events)[i] is FetchBaseline),
    decreases events.len(),
{
    lemma_run_actions_unfold(state, events);
    if i > 0 {
        lemma_baseline_asked_once(run_step(state, events[0]).0, events.drop_first(), i - 1);
    }
}

/// Candidates are validated only on the strength of a baseline: a run that
/// waits for its baseline and is told that none can be had ends there with
/// `BaselineFailure`, and whatever is reported afterwards, no validation is
/// launched.
pub proof fn lemma_baseline_failure_validates_nothing(
    reason: FailureView,
    events: Seq<RunEventView>,
    i: int,
)
    requires
        0 <= i < events.len(),
        events[0] == (RunEventView::BaselineFetched { answer: Err(reason) }),
    ensures
        run_actions(RunStateView::AwaitingBaseline, events)[0] == (RunActionView::Finish {
            ending: EndingView::BaselineFailure { reason },
        }),
        exit_code(EndingView::BaselineFailure { reason }) != 0,
        !(run_actions(RunStateView::AwaitingBaseline, events)[i] is Validate),
{
    lemma_run_actions_unfold(RunStateView::AwaitingBaseline, events);
    lemma_finished_is_final(events.drop_first());
}

/// An input list without a candidate ends the run as `EmptyInputList`, with
/// exit code zero and no report, and whatever is reported afterwards, no
/// validation is launched.
pub proof fn lemma_empty_input_validates_nothing(
    baseline: IdentityView,
    lines: Seq<Seq<char>>,
    events: Seq<RunEventView>,
    i: int,
)
    requires
        candidate_list(lines).len() == 0,
        0 <= i < events.len(),
        events[0] == (RunEventView::InputRead { lines: Ok(lines) }),
    ensures
        run_actions(RunStateView::AwaitingInput { baseline }, events)[0] == (RunActionView::Finish {
            ending: EndingView::EmptyInputList,
        }),
        exit_code(EndingView::EmptyInputList) == 0,
        !(run_actions(RunStateView::AwaitingInput { baseline }, events)[i] is Validate),
{
    lemma_run_actions_unfold(RunStateView::AwaitingInput { baseline }, events);
    lemma_finished_is_final(events.drop_first());
}

/// Every candidate gets one attempt: whatever the state and whatever is
/// reported, a run launches its validations at most once.
pub proof fn lemma_validates_at_most_once(
    state: RunStateView,
    events: Seq<RunEventView>,
    i: int,
    j: int,
)
    requires
        0 <= i < j < events.len(),
        run_actions(state, events)[i] is Validate,
    ensures
        !(run_actions(state, events)[j] is Validate),
    decreases events.len(),
{
    lemma_run_actions_unfold(state, events);
    let next = run_step(state, events[0]).0;
    let rest = events.drop_first();
    if i > 0 {
        lemma_validates_at_most_once(next, rest, i - 1, j - 1);
    } else {
        // The validations are awaited; the next event ends the run.
        lemma_run_actions_unfold(next, rest);
        if j > 1 {
            lemma_finished_is_final(rest.drop_first());
        }
    }
}

/// The course of a run that meets no failure: the baseline that was fetched
/// is the one that every validation is handed, the candidates are those of
/// the input list, and once as many outcomes are joined as validations were
/// launched, the run ends by what the alive ones among them are.
pub proof fn lemma_full_run(
    baseline: IdentityView,
    lines: Seq<Seq<char>>,
    outcomes: Seq<OutcomeView>,
)
    requires
        candidate_list(lines).len() > 0,
        outcomes.len() == candidate_list(lines).len(),
    ensures
        run_actions(
            RunStateView::AwaitingBaseline,
            seq![
                RunEventView::BaselineFetched { answer: Ok(baseline) },
                RunEventView::InputRead { lines: Ok(lines) },
                RunEventView::ValidationsJoined { outcomes },
            ],
        ) == seq![
            RunActionView::ReadInput,
            RunActionView::Validate { baseline, candidates: candidate_list(lines) },
            RunActionView::Finish { ending: ending_of(outcomes) },
        ],
        exit_code(ending_of(outcomes)) == 0,
{
    let events = seq![
        RunEventView::BaselineFetched { answer: Ok(baseline) },
        RunEventView::InputRead { lines: Ok(lines) },
        RunEventView::ValidationsJoined { outcomes },
    ];
    let after_baseline = RunStateView::AwaitingInput { baseline };
    let after_input = RunStateView::AwaitingOutcomes { launched: candidate_list(lines).len() };
    lemma_run_actions_unfold(RunStateView::AwaitingBaseline, events);
    lemma_run_actions_unfold(after_baseline, events.drop_first());
    lemma_run_actions_unfold(after_input, events.drop_first().drop_first());
    assert(run_actions(RunStateView::AwaitingBaseline, events) =~= seq![
        RunActionView::ReadInput,
        RunActionView::Validate { baseline, candidates: candidate_list(lines) },
        RunActionView::Finish { ending: ending_of(outcomes) },
    ]);
}

/// What a report says: a run ends with a report exactly where some outcome
/// is alive, and the report then counts the alive outcomes and holds their
/// lines and no others.
pub proof fn lemma_ending_of(outcomes: Seq<OutcomeView>)
    ensures
        ending_of(outcomes) is NoAliveProxies <==> alive_of(outcomes).len() == 0,
        ending_of(outcomes) is ReportReady <==> exists|i: int|
            0 <= i < outcomes.len() && #[trigger] outcomes[i] is Alive,
        ending_of(outcomes) matches EndingView::ReportReady { report, alive } ==> alive
            == alive_of(outcomes).len() && report == report_text(alive_of(outcomes)),
{
    broadcast use vstd::seq_lib::group_filter_ensures;

    let alive = alive_of(outcomes);
    if alive.len() > 0 {
        assert(crate::results::alive()(alive[0]));
        assert(alive.contains(alive[0]));
        outcomes.lemma_filter_contains_rev(crate::results::alive(), alive[0]);
        let k = choose|k: int| 0 <= k < outcomes.len() && outcomes[k] == alive[0];
        assert(outcomes[k] is Alive);
    }
    if exists|i: int| 0 <= i < outcomes.len() && #[trigger] outcomes[i] is Alive {
        let i = choose|i: int| 0 <= i < outcomes.len() && #[trigger] outcomes[i] is Alive;
        crate::results::lemma_alive_of_keeps(outcomes, i);
    }
}

} // verus!
