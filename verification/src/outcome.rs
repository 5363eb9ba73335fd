//! The outcome of validating one candidate, and the rule that decides it.

use crate::identity::{text_view, Failure, FailureView};
use crate::sanitizer::{allowed, lemma_trimmed_fixed, retained, sanitize, sanitized};
use vstd::prelude::*;
use vstd::string::StringExecFns;

verus! {

/// Stands in for a field that the oracle left out.
pub const PLACEHOLDER: &'static str = "N/A";

/// What became of one candidate.
#[derive(Clone, Debug, PartialEq, Eq)]
pub enum ValidationOutcome {
    /// The oracle saw another address than the baseline: the proxy forwards.
    Alive { candidate: String, observed_ip: String, country: String, organization: String },
    /// The oracle answered and saw the baseline address.
    Dead,
    /// The candidate could not be used, or the oracle could not be asked.
    Errored { reason: Failure },
}

/// An outcome as mathematical data.
pub enum OutcomeView {
    Alive {
        candidate: Seq<char>,
        observed_ip: Seq<char>,
        country: Seq<char>,
        organization: Seq<char>,
    },
    Dead,
    Errored { reason: FailureView },
}

impl View for ValidationOutcome {
    type V = OutcomeView;

    open spec fn view(&self) -> OutcomeView {
        match self {
            ValidationOutcome::Alive { candidate, observed_ip, country, organization } => {
                OutcomeView::Alive {
                    candidate: candidate@,
                    observed_ip: observed_ip@,
                    country: country@,
                    organization: organization@,
                }
            },
            ValidationOutcome::Dead => OutcomeView::Dead,
            ValidationOutcome::Errored { reason } => OutcomeView::Errored { reason: reason@ },
        }
    }
}

/// The text that a report shows for a free-text field: the field, or the
/// placeholder where the oracle left it out, sanitized.
pub open spec fn field_text(field: Option<Seq<char>>) -> Seq<char> {
    match field {
        Some(text) => sanitized(text),
        None => sanitized(PLACEHOLDER@),
    }
}

/// A field that the oracle left out shows as `NA`: the placeholder, less the
/// stroke that the sanitizer takes out of it.
pub proof fn lemma_field_text_of_none()
    ensures
        field_text(None) == "NA"@,
{
    reveal_strlit("N/A");
    reveal_strlit("NA");
    let none = Seq::<char>::empty();
    assert(none.filter(allowed()) =~= none) by {
        reveal(Seq::filter);
    }
    none.lemma_filter_push('N', allowed());
    none.push('N').lemma_filter_push('/', allowed());
    none.push('N').push('/').lemma_filter_push('A', allowed());
    assert(PLACEHOLDER@ =~= none.push('N').push('/').push('A'));
    assert(retained(PLACEHOLDER@) =~= "NA"@);
    lemma_trimmed_fixed("NA"@);
}

/// The report line of an alive candidate.
pub open spec fn report_line(
    candidate: Seq<char>,
    observed_ip: Seq<char>,
    country: Seq<char>,
    organization: Seq<char>,
) -> Seq<char> {
    "Proxy Aktif: "@ + candidate + " | IP: "@ + observed_ip + " | Negara: "@ + country
        + " | Organisasi: "@ + organization
}

/// The text for one free-text field of a report line.
pub fn report_field(field: &Option<String>) -> (out: String)
    ensures
        out@ == field_text(text_view(*field)),
{
    match field {
        Some(text) => sanitize(text.as_str()),
        None => sanitize(PLACEHOLDER),
    }
}

impl ValidationOutcome {
    /// Whether the candidate was found alive.
    pub fn is_alive(&self) -> (alive: bool)
        ensures
            alive == (self@ is Alive),
    {
        match self {
            ValidationOutcome::Alive { .. } => true,
            _ => false,
        }
    }

    /// The line that the report holds for this outcome: one for an alive
    /// candidate, none for any other.
    pub fn report_line(&self) -> (line: Option<String>)
        ensures
            match self@ {
                OutcomeView::Alive { candidate, observed_ip, country, organization } => {
                    line matches Some(text) && text@ == report_line(
                        candidate,
                        observed_ip,
                        country,
                        organization,
                    )
                },
                _ => line is None,
            },
    {
        match self {
            ValidationOutcome::Alive { candidate, observed_ip, country, organization } => {
                let mut text = String::from_str("Proxy Aktif: ");
                text.append(candidate.as_str());
                text.append(" | IP: ");
                text.append(observed_ip.as_str());
                text.append(" | Negara: ");
                text.append(country.as_str());
                text.append(" | Organisasi: ");
                text.append(organization.as_str());
                Some(text)
            },
            _ => None,
        }
    }
}

} // verus!
