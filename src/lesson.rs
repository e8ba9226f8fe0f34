//! A lesson: an ordered group of facts with a mastery goal, and the choice of
//! which fact to review next.
use vstd::prelude::*;
use crate::clock::now;
use crate::error::FlashError;
use crate::fact::{Fact, FactView};

verus! {

/// The abstract state of a lesson.
pub ghost struct LessonView {
    pub name: Seq<char>,
    pub facts: Seq<FactView>,
    /// The score at which a fact counts as mastered.
    pub goal: nat,
}

#[derive(Debug)]
pub struct Lesson {
    name: String,
    facts: Vec<Fact>,
    goal: usize,
}

/// The abstract states of a vector of facts.
pub open spec fn fact_views(facts: Seq<Fact>) -> Seq<FactView> {
    facts.map_values(|f: Fact| f@)
}

proof fn lemma_views_update(facts: Seq<Fact>, i: int, f: Fact)
    requires
        0 <= i < facts.len(),
    ensures
        fact_views(facts.update(i, f)) == fact_views(facts).update(i, f@),
{
    assert(fact_views(facts.update(i, f)) =~= fact_views(facts).update(i, f@));
}

impl View for Lesson {
    type V = LessonView;

    closed spec fn view(&self) -> LessonView {
        LessonView { name: self.name@, facts: fact_views(self.facts@), goal: self.goal as nat }
    }
}

/// Whether `a` is due for review before `b`: it has a lower score, or the same
/// score and an older last check.
pub open spec fn precedes(a: FactView, b: FactView) -> bool {
    a.score < b.score || (a.score == b.score && a.last_checked < b.last_checked)
}

/// Whether position `i` is the one review selection picks: no fact is due
/// before it, and every fact ahead of it in the lesson is due after it.
pub open spec fn is_next(facts: Seq<FactView>, i: int) -> bool {
    &&& 0 <= i < facts.len()
    &&& forall|j: int| 0 <= j < facts.len() ==> !precedes(#[trigger] facts[j], facts[i])
    &&& forall|j: int| 0 <= j < i ==> precedes(facts[i], #[trigger] facts[j])
}

/// Whether the scan for the next fact meets a tie at position `i`: the best
/// fact before `i` is at `c`, and the fact at `i` has the same score, so the
/// times since their last checks are compared.
pub open spec fn tie_at(facts: Seq<FactView>, i: int, c: int) -> bool {
    &&& 0 < i < facts.len()
    &&& is_next(facts.take(i), c)
    &&& facts[i].score == facts[c].score
}

/// Whether the scan for the next fact compares any times at all.
pub open spec fn compares_times(facts: Seq<FactView>) -> bool {
    exists|i: int, c: int| #[trigger] tie_at(facts, i, c)
}

/// Whether a tie met by the scan involves a fact checked after `at`, so that
/// its time since the last check cannot be read at `at`.
pub open spec fn clock_fault(facts: Seq<FactView>, at: i128) -> bool {
    exists|i: int, c: int|
        #[trigger] tie_at(facts, i, c) && (facts[i].last_checked > at || facts[c].last_checked > at)
}

/// Review selection picks at most one position.
pub proof fn lemma_next_unique(facts: Seq<FactView>, a: int, b: int)
    requires
        is_next(facts, a),
        is_next(facts, b),
    ensures
        a == b,
{
    if a < b {
        assert(precedes(facts[b], facts[a]));
    } else if b < a {
        assert(precedes(facts[a], facts[b]));
    }
}

/// The scan's invariant, restated as selection over the first `i` facts.
proof fn lemma_next_in_prefix(facts: Seq<FactView>, i: int, next: int)
    requires
        0 <= next < i <= facts.len(),
        forall|j: int| 0 <= j < i ==> !precedes(#[trigger] facts[j], facts[next]),
        forall|j: int| 0 <= j < next ==> precedes(facts[next], #[trigger] facts[j]),
    ensures
        is_next(facts.take(i), next),
{
    let p = facts.take(i);
    assert forall|j: int| 0 <= j < p.len() implies !precedes(#[trigger] p[j], p[next]) by {
        assert(p[j] == facts[j]);
    }
    assert forall|j: int| 0 <= j < next implies precedes(p[next], #[trigger] p[j]) by {
        assert(p[j] == facts[j]);
    }
}

/// `l` with the fact at position `i` replaced by `f`.
pub open spec fn with_fact(l: LessonView, i: int, f: FactView) -> LessonView {
    LessonView { facts: l.facts.update(i, f), ..l }
}

/// The sum of the scores of `facts`.
pub open spec fn total_score(facts: Seq<FactView>) -> int
    decreases facts.len(),
{
    if facts.len() == 0 {
        0
    } else {
        total_score(facts.drop_last()) + facts.last().score
    }
}

impl Lesson {
    pub fn get_name(&self) -> (r: String)
        ensures
            r@ == self@.name,
    {
        self.name.clone()
    }

    /// A copy of every fact, in order.
    pub fn get_facts(&self) -> (r: Vec<Fact>)
        ensures
            fact_views(r@) == self@.facts,
    {
        let r = self.facts.clone();
        assert(fact_views(r@) =~= fact_views(self.facts@));
        r
    }

    /// Progress towards mastery as the pair (sum of all scores, number of
    /// facts times the goal); their quotient is the completion ratio, which is
    /// not capped at one. An empty lesson has no ratio.
    pub fn completion_parts(&self) -> (r: Result<(u128, u128), FlashError>)
        ensures
            self@.facts.len() == 0 ==> r == Err::<(u128, u128), FlashError>(FlashError::EmptyLesson),
            self@.facts.len() > 0 ==> (r matches Ok((sum, total)) && sum == total_score(self@.facts)
                && total == self@.facts.len() * self@.goal),
    {
        if self.facts.len() == 0 {
            return Err(FlashError::EmptyLesson);
        }
        let ghost facts = self@.facts;
        let mut sum: u128 = 0;
        let mut i: usize = 0;
        while i < self.facts.len()
            invariant
                facts == self@.facts,
                i <= facts.len(),
                sum == total_score(facts.take(i as int)),
                sum <= i * 4294967295,
            decreases facts.len() - i,
        {
            let score = self.facts[i].get_score();
            proof {
                assert(facts.take(i + 1).drop_last() =~= facts.take(i as int));
                assert(facts[i as int] == self.facts@[i as int]@);
                assert(i <= usize::MAX);
                assert(sum + score <= (i + 1) * 4294967295) by (nonlinear_arith)
                    requires sum <= i * 4294967295, score <= 4294967295;
                assert((i + 1) * 4294967295 <= 18446744073709551616 * 4294967295) by (nonlinear_arith)
                    requires i < 18446744073709551615nat;
            }
            sum = sum + score as u128;
            i = i + 1;
        }
        assert(facts.take(facts.len() as int) =~= facts);
        let n = self.facts.len() as u128;
        let goal = self.goal as u128;
        assert(n * goal <= 18446744073709551615 * 18446744073709551615) by (nonlinear_arith)
            requires n <= 18446744073709551615nat, goal <= 18446744073709551615nat;
        Ok((sum, n * goal))
    }

    /// The position of the fact to review next, as seen at time `at`. One
    /// pass keeps the best fact so far: a lower score replaces it, and on an
    /// equal score the fact that has gone longer since its last check at `at`
    /// replaces it; a tie on both keeps the earlier position. An empty lesson
    /// has nothing to pick, and a tie that meets a fact checked after `at`
    /// means the clock went backward.
    pub fn next_index_at(&self, at: i128) -> (r: Result<usize, FlashError>)
        ensures
            self@.facts.len() == 0 ==> r == Err::<usize, FlashError>(FlashError::EmptyLesson),
            self@.facts.len() > 0 && clock_fault(self@.facts, at)
                ==> r == Err::<usize, FlashError>(FlashError::Clock),
            self@.facts.len() > 0 && !clock_fault(self@.facts, at)
                ==> (r matches Ok(i) && is_next(self@.facts, i as int)),
    {
        if self.facts.len() == 0 {
            return Err(FlashError::EmptyLesson);
        }
        let ghost facts = self@.facts;
        let mut next: usize = 0;
        let mut min_score: u32 = self.facts[0].get_score();
        let mut i: usize = 1;
        while i < self.facts.len()
            invariant
                facts == self@.facts,
                next < i <= facts.len(),
                min_score == facts[next as int].score,
                forall|j: int| 0 <= j < i ==> !precedes(#[trigger] facts[j], facts[next as int]),
                forall|j: int| 0 <= j < next ==> precedes(facts[next as int], #[trigger] facts[j]),
                forall|k: int, c: int|
                    k < i && #[trigger] tie_at(facts, k, c)
                        ==> facts[k].last_checked <= at && facts[c].last_checked <= at,
            decreases facts.len() - i,
        {
            let f = &self.facts[i];
            let score = f.get_score();
            assert(facts[i as int] == f@ && facts[next as int] == self.facts@[next as int]@);
            proof {
                lemma_next_in_prefix(facts, i as int, next as int);
                assert forall|c: int| #[trigger] tie_at(facts, i as int, c) implies c == next by {
                    lemma_next_unique(facts.take(i as int), c, next as int);
                }
            }
            if score < min_score {
                min_score = score;
                next = i;
            } else if score == min_score {
                let lead = &self.facts[next];
                assert(tie_at(facts, i as int, next as int));
                match (f.duration_at(at), lead.duration_at(at)) {
                    (Ok(f_duration), Ok(lead_duration)) => {
                        if f_duration > lead_duration {
                            next = i;
                        }
                    },
                    _ => {
                        return Err(FlashError::Clock);
                    },
                }
            }
            i = i + 1;
        }
        Ok(next)
    }

    /// The position of the fact to review next, as seen now. The clock
    /// decides only where the scan compares times; elsewhere the result is
    /// the same whatever it reads.
    pub fn next_index(&self) -> (r: Result<usize, FlashError>)
        ensures
            self@.facts.len() == 0 ==> r == Err::<usize, FlashError>(FlashError::EmptyLesson),
            self@.facts.len() > 0 && !compares_times(self@.facts)
                ==> (r matches Ok(i) && is_next(self@.facts, i as int)),
            self@.facts.len() > 0 ==> (r matches Ok(i) ==> is_next(self@.facts, i as int)),
            self@.facts.len() > 0 ==> (r matches Err(e) ==> e == FlashError::Clock
                && compares_times(self@.facts)),
    {
        let at = now();
        self.next_index_at(at)
    }

    /// The fact to review next, as seen now, to read or check.
    pub fn next_fact(&mut self) -> (r: Result<&mut Fact, FlashError>)
        ensures
            old(self)@.facts.len() == 0 ==> (r matches Err(e) && e == FlashError::EmptyLesson),
            old(self)@.facts.len() > 0 && !compares_times(old(self)@.facts) ==> r is Ok,
            r matches Err(e) ==> *final(self) == *old(self),
            r matches Err(e) ==> (e == FlashError::EmptyLesson || e == FlashError::Clock),
            r matches Ok(f) ==> exists|i: int|
                #![trigger old(self)@.facts[i]]
                is_next(old(self)@.facts, i) && (*f)@ == old(self)@.facts[i]
                    && final(self)@ == with_fact(old(self)@, i, (*final(f))@),
    {
        match self.next_index() {
            Ok(i) => self.get_fact(i),
            Err(e) => Err(e),
        }
    }

    /// The fact at `index`, to read or check.
    pub fn get_fact(&mut self, index: usize) -> (r: Result<&mut Fact, FlashError>)
        ensures
            index >= old(self)@.facts.len() ==> (r matches Err(e) && e == FlashError::IndexOutOfRange
                && *final(self) == *old(self)),
            index < old(self)@.facts.len() ==> (r matches Ok(f) && (*f)@ == old(self)@.facts[index as int]
                && final(self)@ == with_fact(old(self)@, index as int, (*final(f))@)),
    {
        if index < self.facts.len() {
            let f = &mut self.facts[index];
            proof {
                lemma_views_update(old(self).facts@, index as int, *final(f));
            }
            Ok(f)
        } else {
            Err(FlashError::IndexOutOfRange)
        }
    }
}

/// Two lessons are equal when they have the same name.
impl PartialEq for Lesson {
    fn eq(&self, other: &Lesson) -> (r: bool) {
        self.name == other.name
    }
}

impl vstd::std_specs::cmp::PartialEqSpecImpl for Lesson {
    open spec fn obeys_eq_spec() -> bool {
        true
    }

    open spec fn eq_spec(&self, other: &Lesson) -> bool {
        self@.name == other@.name
    }
}

impl Clone for Lesson {
    fn clone(&self) -> (r: Lesson)
        ensures
            r@ == self@,
    {
        Lesson { name: self.name.clone(), facts: self.get_facts(), goal: self.goal }
    }
}

/// A lesson named `name` over `facts`, with the usual goal of three.
pub fn new_lesson(name: &str, facts: Vec<Fact>) -> (l: Lesson)
    ensures
        l@.name == name@,
        l@.facts == fact_views(facts@),
        l@.goal == 3,
{
    Lesson { name: name.to_owned(), facts, goal: 3 }
}

/// A lesson named `name` over `facts`, where a fact is mastered at score `goal`.
pub fn new_lesson_goal(name: &str, facts: Vec<Fact>, goal: usize) -> (l: Lesson)
    requires
        goal > 0,
    ensures
        l@.name == name@,
        l@.facts == fact_views(facts@),
        l@.goal == goal,
{
    Lesson { name: name.to_owned(), facts, goal }
}

} // verus!
