//! The candidates of a run: one for every line of the input list that is not
//! blank, as the line stands without the whitespace around it.

use crate::sanitizer::{str_trim, trimmed};
use vstd::prelude::*;

verus! {

/// A sequence of strings as mathematical data.
pub open spec fn texts(strings: Seq<String>) -> Seq<Seq<char>> {
    strings.map_values(|text: String| text@)
}

/// Whether a trimmed line names a candidate, as a predicate to filter by.
pub open spec fn nonblank() -> spec_fn(Seq<char>) -> bool {
    |line: Seq<char>| line.len() > 0
}

/// Every line of `lines`, trimmed.
pub open spec fn trimmed_lines(lines: Seq<Seq<char>>) -> Seq<Seq<char>> {
    lines.map_values(|line: Seq<char>| trimmed(line))
}

/// The candidates that `lines` name: every line trimmed, blank lines left
/// out, the others in their order and as often as they occur.
pub open spec fn candidate_list(lines: Seq<Seq<char>>) -> Seq<Seq<char>> {
    trimmed_lines(lines).filter(nonblank())
}

/// Reads the candidates off the lines of an input list. No line is looked at
/// beyond its whitespace: whether a candidate is a usable address is found
/// out when it is validated.
pub fn candidates_from_lines(lines: &Vec<String>) -> (candidates: Vec<String>)
    ensures
        texts(candidates@) == candidate_list(texts(lines@)),
{
    let ghost all = trimmed_lines(texts(lines@));
    let mut candidates: Vec<String> = Vec::new();
    let mut i: usize = 0;
    assert(texts(candidates@) =~= all.take(0).filter(nonblank())) by {
        reveal(Seq::filter);
    }
    while i < lines.len()
        invariant
            i <= lines.len(),
            all == trimmed_lines(texts(lines@)),
            texts(candidates@) == all.take(i as int).filter(nonblank()),
        decreases lines.len() - i,
    {
        let line = str_trim(lines[i].as_str());
        proof {
            let done = all.take(i as int);
            assert(all.take(i + 1) =~= done.push(line@));
            done.lemma_filter_push(line@, nonblank());
        }
        if !line.is_empty() {
            let ghost before = texts(candidates@);
            candidates.push(line.to_owned());
            assert(texts(candidates@) =~= before.push(line@));
        }
        i += 1;
    }
    assert(all.take(all.len() as int) =~= all);
    candidates
}

/// One line names at most one candidate: none where it is blank, else the
/// line without the whitespace around it.
pub proof fn lemma_candidate_list_of_one(line: Seq<char>)
    ensures
        candidate_list(seq![line]) == if trimmed(line).len() > 0 {
            seq![trimmed(line)]
        } else {
            Seq::<Seq<char>>::empty()
        },
{
    let none = Seq::<Seq<char>>::empty();
    assert(trimmed_lines(seq![line]) =~= none.push(trimmed(line)));
    none.lemma_filter_push(trimmed(line), nonblank());
    assert(none.filter(nonblank()) =~= none) by {
        reveal(Seq::filter);
    }
    assert(none.push(trimmed(line)) =~= seq![trimmed(line)]);
}

/// The candidates of two lists of lines, one after the other, are those of
/// the first followed by those of the second. With the law for one line this
/// says that every line that is not blank gives its own candidate, a line
/// that occurs twice as well.
pub proof fn lemma_candidate_list_concat(first: Seq<Seq<char>>, second: Seq<Seq<char>>)
    ensures
        candidate_list(first + second) == candidate_list(first) + candidate_list(second),
{
    assert(trimmed_lines(first + second) =~= trimmed_lines(first) + trimmed_lines(second));
    Seq::filter_distributes_over_add(trimmed_lines(first), trimmed_lines(second), nonblank());
}

/// No candidate is blank, and none has whitespace around it.
pub proof fn lemma_candidate_list_trimmed(lines: Seq<Seq<char>>, i: int)
    requires
        0 <= i < candidate_list(lines).len(),
    ensures
        candidate_list(lines)[i].len() > 0,
        trimmed(candidate_list(lines)[i]) == candidate_list(lines)[i],
        candidate_list(lines).len() <= lines.len(),
{
    broadcast use vstd::seq_lib::group_filter_ensures;

    let all = trimmed_lines(lines);
    let candidate = candidate_list(lines)[i];
    assert(nonblank()(candidate));
    assert(all.filter(nonblank()).contains(candidate));
    all.lemma_filter_contains_rev(nonblank(), candidate);
    let j = choose|j: int| 0 <= j < all.len() && all[j] == candidate;
    crate::sanitizer::lemma_trimmed_bounds(lines[j]);
    crate::sanitizer::lemma_trimmed_fixed(candidate);
}

} // verus!
