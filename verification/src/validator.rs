//! The candidate validator: one attempt per candidate, in two steps around
//! the request that the caller sends.

use crate::identity::{fetched_view, Failure, FailureKind, FailureView, IdentityRecord, IdentityView};
use crate::oracle::{build_client, prepared_failure};
use crate::outcome::{field_text, report_field, OutcomeView, ValidationOutcome, PLACEHOLDER};
use crate::sanitizer::{is_clean, lemma_sanitized_is_clean};
use vstd::prelude::*;

verus! {

/// The outcome for `candidate`, given the baseline address and the answer to
/// the request that went through the candidate.
pub open spec fn classified(
    candidate: Seq<char>,
    baseline_ip: Seq<char>,
    fetched: Result<IdentityView, FailureView>,
) -> OutcomeView {
    match fetched {
        Err(failure) => OutcomeView::Errored { reason: failure },
        Ok(observed) => if observed.ip == baseline_ip {
            OutcomeView::Dead
        } else {
            OutcomeView::Alive {
                candidate,
                observed_ip: observed.ip,
                country: field_text(observed.country),
                organization: field_text(observed.organization),
            }
        },
    }
}

/// Decides the outcome for `candidate` from the answer to the request that
/// went through it. A failed request gives `Errored` with the failure as it
/// came; an answer with the baseline's address gives `Dead`; any other answer
/// gives `Alive`, with the observed address as it came and both free-text
/// fields sanitized.
pub fn classify(
    candidate: &str,
    baseline: &IdentityRecord,
    fetched: Result<IdentityRecord, Failure>,
) -> (out: ValidationOutcome)
    ensures
        out@ == classified(candidate@, baseline@.ip, fetched_view(fetched)),
{
    match fetched {
        Err(failure) => ValidationOutcome::Errored { reason: failure },
        Ok(observed) => {
            if observed.same_ip(baseline) {
                ValidationOutcome::Dead
            } else {
                let country = report_field(&observed.country);
                let organization = report_field(&observed.organization);
                ValidationOutcome::Alive {
                    candidate: candidate.to_owned(),
                    observed_ip: observed.ip,
                    country,
                    organization,
                }
            }
        },
    }
}

/// The three outcomes and the answers that lead to them: a failed request is
/// `Errored`, an answer with the baseline's address is `Dead`, an answer with
/// any other address is `Alive`.
pub proof fn lemma_classified_cases(
    candidate: Seq<char>,
    baseline_ip: Seq<char>,
    fetched: Result<IdentityView, FailureView>,
)
    ensures
        classified(candidate, baseline_ip, fetched) is Errored <==> fetched is Err,
        classified(candidate, baseline_ip, fetched) is Dead <==> (fetched matches Ok(observed)
            && observed.ip == baseline_ip),
        classified(candidate, baseline_ip, fetched) is Alive <==> (fetched matches Ok(observed)
            && observed.ip != baseline_ip),
        classified(candidate, baseline_ip, fetched) matches OutcomeView::Alive {
            candidate: reported,
            observed_ip,
            country,
            organization,
        } ==> reported == candidate && observed_ip == fetched->Ok_0.ip && is_clean(country)
            && is_clean(organization),
{
    if let Ok(observed) = fetched {
        match observed.country {
            Some(text) => lemma_sanitized_is_clean(text),
            None => lemma_sanitized_is_clean(PLACEHOLDER@),
        }
        match observed.organization {
            Some(text) => lemma_sanitized_is_clean(text),
            None => lemma_sanitized_is_clean(PLACEHOLDER@),
        }
    }
}

/// What a validation does after its first step.
pub enum NextStep {
    /// Ask the oracle through this client, then classify the answer.
    Query { client: reqwest::Client },
    /// Nothing is sent: the validation is over, with this outcome.
    Finish { outcome: ValidationOutcome },
}

/// The step that follows the attempt to build a client: with a client the
/// oracle is asked through it; without one the validation ends at once as
/// `Errored`, with the failure as its reason, and nothing is sent.
pub fn after_construction(built: Result<reqwest::Client, Failure>) -> (next: NextStep)
    ensures
        match built {
            Ok(client) => next == (NextStep::Query { client }),
            Err(failure) => next matches NextStep::Finish { outcome } && outcome@ == (
            OutcomeView::Errored { reason: failure@ }),
        },
{
    match built {
        Ok(client) => NextStep::Query { client },
        Err(failure) => NextStep::Finish { outcome: ValidationOutcome::Errored { reason: failure } },
    }
}

/// The first step of a validation: builds the client that routes through the
/// candidate and decides by `after_construction`. An address that is not
/// taken as a proxy address ends the validation with the words of its
/// refusal; a client that cannot be set up ends it too. Either way the
/// outcome is `Errored` by a construction failure, and nothing is sent.
pub fn begin_validation(candidate: &str) -> (next: NextStep)
    ensures
        prepared_failure(Some(candidate@)) matches Some(failure) ==> (next matches NextStep::Finish {
            outcome,
        } && outcome@ == (OutcomeView::Errored { reason: failure })),
        next matches NextStep::Finish { outcome } ==> (outcome@ matches OutcomeView::Errored {
            reason,
        } && reason.kind == FailureKind::Construction),
{
    after_construction(build_client(Some(candidate)))
}

} // verus!
