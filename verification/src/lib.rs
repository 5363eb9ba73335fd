//! Finds the working proxies in a list of candidates.
//!
//! An identity oracle tells which address it sees a request come from. A
//! candidate is alive where the oracle, asked through it, sees another
//! address than it sees on the direct route, the baseline. This library holds
//! the rules of such a check: how a candidate's outcome is decided
//! (`validator`), what a report shows of it (`outcome`, `sanitizer`), which
//! outcomes a run keeps (`results`), which candidates an input list names
//! (`candidates`), and in which order a run goes about its work (`run`).
//! The client for the oracle is set up in `oracle`; sending requests, reading
//! and writing files and running the validations side by side are left to
//! the program around the library.

pub mod candidates;
pub mod identity;
pub mod oracle;
pub mod outcome;
pub mod results;
pub mod run;
pub mod sanitizer;
pub mod validator;
