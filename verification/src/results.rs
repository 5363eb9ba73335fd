//! The result set of a run: the alive outcomes, and nothing else.

use crate::outcome::{report_line, OutcomeView, ValidationOutcome};
use vstd::prelude::*;
use vstd::string::StringExecFns;

verus! {

/// A sequence of outcomes as mathematical data.
pub open spec fn outcome_views(outcomes: Seq<ValidationOutcome>) -> Seq<OutcomeView> {
    outcomes.map_values(|outcome: ValidationOutcome| outcome@)
}

/// Whether an outcome is `Alive`, as a predicate to filter by.
pub open spec fn alive() -> spec_fn(OutcomeView) -> bool {
    |outcome: OutcomeView| outcome is Alive
}

/// The alive outcomes among `outcomes`, in their order.
pub open spec fn alive_of(outcomes: Seq<OutcomeView>) -> Seq<OutcomeView> {
    outcomes.filter(alive())
}

/// Every outcome of `outcomes` is `Alive`.
pub open spec fn all_alive(outcomes: Seq<OutcomeView>) -> bool {
    forall|i: int| 0 <= i < outcomes.len() ==> #[trigger] outcomes[i] is Alive
}

/// The line that a report holds for an outcome of the result set.
pub open spec fn line_of(outcome: OutcomeView) -> Seq<char> {
    match outcome {
        OutcomeView::Alive { candidate, observed_ip, country, organization } => report_line(
            candidate,
            observed_ip,
            country,
            organization,
        ),
        _ => Seq::empty(),
    }
}

/// The report for `entries`: the line of each, closed by a newline.
pub open spec fn report_text(entries: Seq<OutcomeView>) -> Seq<char>
    decreases entries.len(),
{
    if entries.len() == 0 {
        Seq::empty()
    } else {
        report_text(entries.drop_last()) + line_of(entries.last()) + seq!['\n']
    }
}

/// The alive outcomes gathered during a run. Outcomes enter one at a time,
/// by `record` or `with`, which keep an alive one and drop any other.
pub struct ResultSet {
    entries: Vec<ValidationOutcome>,
}

impl View for ResultSet {
    type V = Seq<OutcomeView>;

    closed spec fn view(&self) -> Seq<OutcomeView> {
        outcome_views(self.entries@)
    }
}

impl ResultSet {
    #[verifier::type_invariant]
    spec fn only_alive(self) -> bool {
        forall|i: int| 0 <= i < self.entries.len() ==> (#[trigger] self.entries[i])@ is Alive
    }

    /// The empty result set.
    pub fn new() -> (set: ResultSet)
        ensures
            set@ == Seq::<OutcomeView>::empty(),
            all_alive(set@),
    {
        ResultSet { entries: Vec::new() }
    }

    /// The result set with one more outcome taken in: an alive outcome is
    /// appended, any other is dropped.
    pub fn with(self, outcome: ValidationOutcome) -> (set: ResultSet)
        ensures
            set@ == if outcome@ is Alive {
                self@.push(outcome@)
            } else {
                self@
            },
            all_alive(set@),
    {
        proof {
            use_type_invariant(&self);
        }
        let mut entries = self.entries;
        if outcome.is_alive() {
            entries.push(outcome);
            assert(outcome_views(entries@) =~= outcome_views(self.entries@).push(outcome@));
        }
        ResultSet { entries }
    }

    /// Takes in the outcome of one finished validation: an alive outcome is
    /// appended, any other is dropped. This is the one way in which a result
    /// set changes.
    pub fn record(&mut self, outcome: ValidationOutcome)
        ensures
            final(self)@ == if outcome@ is Alive {
                old(self)@.push(outcome@)
            } else {
                old(self)@
            },
            all_alive(final(self)@),
    {
        let mut held = ResultSet::new();
        std::mem::swap(self, &mut held);
        *self = held.with(outcome);
    }

    /// The result set of a whole run: the outcomes of all validations, taken
    /// in one by one.
    pub fn collect(outcomes: Vec<ValidationOutcome>) -> (set: ResultSet)
        ensures
            set@ == alive_of(outcome_views(outcomes@)),
            all_alive(set@),
    {
        let ghost all = outcome_views(outcomes@);
        let mut set = ResultSet::new();
        assert(alive_of(all.take(0)) =~= Seq::<OutcomeView>::empty()) by {
            reveal(Seq::filter);
        }
        for outcome in it: outcomes
            invariant
                all == outcome_views(it.seq()),
                set@ == alive_of(all.take(it.index() as int)),
        {
            proof {
                let done = all.take(it.index() as int);
                assert(all.take(it.index() + 1) =~= done.push(outcome@));
                done.lemma_filter_push(outcome@, alive());
            }
            set.record(outcome);
        }
        assert(all.take(all.len() as int) =~= all);
        proof {
            use_type_invariant(&set);
        }
        set
    }

    /// The outcomes held, in the order in which they were taken in. Each of
    /// them is alive.
    pub fn entries(&self) -> (held: &Vec<ValidationOutcome>)
        ensures
            outcome_views(held@) == self@,
            all_alive(self@),
    {
        proof {
            use_type_invariant(self);
        }
        &self.entries
    }

    /// The report: one line for each outcome held, each closed by a newline.
    pub fn report(&self) -> (text: String)
        ensures
            text@ == report_text(self@),
    {
        let mut text = String::new();
        let mut i: usize = 0;
        while i < self.entries.len()
            invariant
                i <= self.entries.len(),
                text@ == report_text(self@.take(i as int)),
            decreases self.entries.len() - i,
        {
            proof {
                reveal_strlit("\n");
                assert(self@.take(i + 1).drop_last() =~= self@.take(i as int));
                assert(self@.take(i + 1).last() == self.entries[i as int]@);
            }
            let ghost before = text@;
            match self.entries[i].report_line() {
                Some(line) => {
                    text.append(line.as_str());
                },
                None => {},
            }
            text.append("\n");
            assert(text@ =~= before + line_of(self@.take(i + 1).last()) + seq!['\n']);
            i += 1;
        }
        assert(self@.take(self@.len() as int) =~= self@);
        text
    }

    /// The number of alive outcomes held.
    pub fn len(&self) -> (n: usize)
        ensures
            n == self@.len(),
    {
        self.entries.len()
    }

    /// Whether no alive outcome is held.
    pub fn is_empty(&self) -> (empty: bool)
        ensures
            empty == (self@.len() == 0),
    {
        self.entries.len() == 0
    }
}

/// Among the alive outcomes of a list there is no other: the result set of a
/// run holds neither a dead nor an errored outcome.
pub proof fn lemma_alive_of_all_alive(outcomes: Seq<OutcomeView>)
    ensures
        all_alive(alive_of(outcomes)),
        alive_of(outcomes).len() <= outcomes.len(),
{
    broadcast use vstd::seq_lib::group_filter_ensures;

}

/// Every alive outcome of a list is among its alive outcomes, whatever else
/// the list holds.
pub proof fn lemma_alive_of_keeps(outcomes: Seq<OutcomeView>, i: int)
    requires
        0 <= i < outcomes.len(),
        outcomes[i] is Alive,
    ensures
        alive_of(outcomes).contains(outcomes[i]),
{
    broadcast use vstd::seq_lib::group_filter_ensures;

}

/// The alive outcomes of two lists, one after the other, are those of the
/// first followed by those of the second: what one part of a run yields does
/// not depend on the other.
pub proof fn lemma_alive_of_concat(first: Seq<OutcomeView>, second: Seq<OutcomeView>)
    ensures
        alive_of(first + second) == alive_of(first) + alive_of(second),
{
    Seq::filter_distributes_over_add(first, second, alive());
}

/// An outcome that is not alive leaves no trace: with it or without it, at
/// any place of the list, the alive outcomes are the same.
pub proof fn lemma_alive_of_without(
    before: Seq<OutcomeView>,
    outcome: OutcomeView,
    after: Seq<OutcomeView>,
)
    requires
        !(outcome is Alive),
    ensures
        alive_of(before + seq![outcome] + after) == alive_of(before + after),
{
    lemma_alive_of_concat(before + seq![outcome], after);
    lemma_alive_of_concat(before, seq![outcome]);
    lemma_alive_of_concat(before, after);
    assert(alive_of(seq![outcome]) =~= Seq::<OutcomeView>::empty()) by {
        assert(Seq::<OutcomeView>::empty().push(outcome) =~= seq![outcome]);
        Seq::<OutcomeView>::empty().lemma_filter_push(outcome, alive());
        reveal(Seq::filter);
    }
    assert(alive_of(before) + Seq::<OutcomeView>::empty() =~= alive_of(before));
}

/// As a multiset, the alive outcomes of a list are the alive members of the
/// list's multiset.
pub proof fn lemma_alive_of_multiset(outcomes: Seq<OutcomeView>)
    ensures
        alive_of(outcomes).to_multiset() == outcomes.to_multiset().filter(alive()),
    decreases outcomes.len(),
{
    broadcast use vstd::multiset::group_multiset_axioms;
    broadcast use vstd::seq_lib::group_to_multiset_ensures;

    if outcomes.len() == 0 {
        reveal(Seq::filter);
        assert(outcomes.to_multiset().filter(alive()) =~= alive_of(outcomes).to_multiset());
    } else {
        let head = outcomes.drop_last();
        let last = outcomes.last();
        lemma_alive_of_multiset(head);
        assert(head.push(last) =~= outcomes);
        head.lemma_filter_push(last, alive());
        assert(outcomes.to_multiset().filter(alive()) =~= alive_of(outcomes).to_multiset());
    }
}

/// The order in which outcomes arrive does not matter: two lists that hold
/// the same outcomes, each as often as the other, have the same alive
/// outcomes, each as often as the other.
pub proof fn lemma_alive_of_any_order(one: Seq<OutcomeView>, other: Seq<OutcomeView>)
    requires
        one.to_multiset() == other.to_multiset(),
    ensures
        alive_of(one).to_multiset() == alive_of(other).to_multiset(),
{
    lemma_alive_of_multiset(one);
    lemma_alive_of_multiset(other);
}

} // verus!
