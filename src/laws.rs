//! Properties of scoring, review selection and completion that hold for every
//! fact and lesson.
use vstd::prelude::*;
use crate::clock::span;
use crate::fact::{checked, FactView};
use crate::lesson::{compares_times, is_next, tie_at, total_score};

verus! {

/// A correct answer extends the streak by one.
pub proof fn correct_answer_extends_streak(f: FactView, at: i128)
    requires
        f.score < u32::MAX,
    ensures
        checked(f, f.answer, at).score == f.score + 1,
{
}

/// A wrong answer resets the streak to zero.
pub proof fn wrong_answer_resets_streak(f: FactView, r: Seq<char>, at: i128)
    requires
        r != f.answer,
    ensures
        checked(f, r, at).score == 0,
{
}

/// A check records its time, whether or not the answer was right.
pub proof fn check_records_time(f: FactView, r: Seq<char>, at: i128)
    ensures
        checked(f, r, at).last_checked == at,
        checked(f, r, at).prompt == f.prompt,
        checked(f, r, at).answer == f.answer,
{
}

/// The fact picked for review has the lowest score of the lesson.
pub proof fn next_has_lowest_score(facts: Seq<FactView>, i: int)
    requires
        is_next(facts, i),
    ensures
        forall|j: int| 0 <= j < facts.len() ==> facts[i].score <= #[trigger] facts[j].score,
{
    assert forall|j: int| 0 <= j < facts.len() implies facts[i].score <= #[trigger] facts[j].score by {
        assert(!crate::lesson::precedes(facts[j], facts[i]));
    }
}

/// Among the facts that share the lowest score, the one picked for review has
/// gone longest without a check, at any time `at`.
pub proof fn next_breaks_ties_by_oldest(facts: Seq<FactView>, i: int, at: i128)
    requires
        is_next(facts, i),
    ensures
        forall|j: int|
            0 <= j < facts.len() && #[trigger] facts[j].score == facts[i].score
                ==> span(facts[j].last_checked, at) <= span(facts[i].last_checked, at),
{
    assert forall|j: int|
        0 <= j < facts.len() && #[trigger] facts[j].score == facts[i].score
            implies span(facts[j].last_checked, at) <= span(facts[i].last_checked, at) by {
        assert(!crate::lesson::precedes(facts[j], facts[i]));
    }
}

/// When no two facts share a score, the scan for the next fact compares no
/// times, so the clock cannot decide or fail the choice.
pub proof fn distinct_scores_compare_no_times(facts: Seq<FactView>)
    requires
        forall|j: int, k: int|
            0 <= j < facts.len() && 0 <= k < facts.len() && j != k
                ==> #[trigger] facts[j].score != #[trigger] facts[k].score,
    ensures
        !compares_times(facts),
{
    assert forall|i: int, c: int| !#[trigger] tie_at(facts, i, c) by {
        if tie_at(facts, i, c) {
            assert(facts.take(i)[c] == facts[c]);
        }
    }
}

/// A lesson of one fact compares no times: that fact is picked whatever the
/// clock reads.
pub proof fn single_fact_compares_no_times(facts: Seq<FactView>)
    requires
        facts.len() == 1,
    ensures
        !compares_times(facts),
        is_next(facts, 0),
{
}

/// When every fact has reached the goal exactly, the scores add up to the
/// number of facts times the goal: completion is one.
pub proof fn full_scores_complete(facts: Seq<FactView>, goal: nat)
    requires
        forall|j: int| 0 <= j < facts.len() ==> #[trigger] facts[j].score == goal,
    ensures
        total_score(facts) == facts.len() * goal,
    decreases facts.len(),
{
    if facts.len() > 0 {
        let rest = facts.drop_last();
        assert forall|j: int| 0 <= j < rest.len() implies #[trigger] rest[j].score == goal by {
            assert(rest[j] == facts[j]);
        }
        full_scores_complete(rest, goal);
        assert(facts.last().score == goal);
        assert(rest.len() * goal + goal == facts.len() * goal) by (nonlinear_arith)
            requires rest.len() + 1 == facts.len();
    }
}

/// When every score is zero, so is their sum: completion is zero.
pub proof fn zero_scores_incomplete(facts: Seq<FactView>)
    requires
        forall|j: int| 0 <= j < facts.len() ==> #[trigger] facts[j].score == 0,
    ensures
        total_score(facts) == 0,
    decreases facts.len(),
{
    if facts.len() > 0 {
        let rest = facts.drop_last();
        assert forall|j: int| 0 <= j < rest.len() implies #[trigger] rest[j].score == 0 by {
            assert(rest[j] == facts[j]);
        }
        zero_scores_incomplete(rest);
        assert(facts.last().score == 0);
    }
}

} // verus!
