//! The identity that the oracle reports for a network path, and the ways in
//! which asking for it can fail.

use vstd::prelude::*;

verus! {

/// What the oracle reports: the address it saw, and free text about where
/// that address lives. Two records are compared by `same_ip`, and in no other
/// way.
#[derive(Clone, Debug)]
pub struct IdentityRecord {
    pub ip: String,
    pub country: Option<String>,
    pub organization: Option<String>,
}

/// An identity record as mathematical data.
pub struct IdentityView {
    pub ip: Seq<char>,
    pub country: Option<Seq<char>>,
    pub organization: Option<Seq<char>>,
}

/// An optional string as an optional sequence of characters.
pub open spec fn text_view(field: Option<String>) -> Option<Seq<char>> {
    match field {
        Some(text) => Some(text@),
        None => None,
    }
}

impl View for IdentityRecord {
    type V = IdentityView;

    open spec fn view(&self) -> IdentityView {
        IdentityView {
            ip: self.ip@,
            country: text_view(self.country),
            organization: text_view(self.organization),
        }
    }
}

impl IdentityRecord {
    /// Whether two records name the same address. Records are compared by
    /// their address alone.
    pub fn same_ip(&self, other: &IdentityRecord) -> (same: bool)
        ensures
            same == (self@.ip == other@.ip),
    {
        self.ip == other.ip
    }
}

/// The step at which an attempt to learn an identity failed.
#[derive(Clone, Copy, Debug, PartialEq, Eq, Structural)]
pub enum FailureKind {
    /// No client could be built for the route: the proxy address is
    /// malformed or of an unsupported scheme, or the client could not be set
    /// up.
    Construction,
    /// The request did not complete: no connection, a timeout, a TLS failure.
    Network,
    /// The oracle answered, but not with an identity record.
    Parse,
}

/// A failed attempt, with the collaborator's own words for it.
#[derive(Clone, Debug, PartialEq, Eq)]
pub struct Failure {
    pub kind: FailureKind,
    pub detail: String,
}

/// A failure as mathematical data.
pub struct FailureView {
    pub kind: FailureKind,
    pub detail: Seq<char>,
}

impl View for Failure {
    type V = FailureView;

    open spec fn view(&self) -> FailureView {
        FailureView { kind: self.kind, detail: self.detail@ }
    }
}

/// The answer to one request for an identity, as mathematical data.
pub open spec fn fetched_view(fetched: Result<IdentityRecord, Failure>) -> Result<
    IdentityView,
    FailureView,
> {
    match fetched {
        Ok(record) => Ok(record@),
        Err(failure) => Err(failure@),
    }
}

} // verus!
