//! A single flashcard: a prompt, its expected answer, a streak score and the
//! time of the last review.
use vstd::prelude::*;
use crate::clock::{elapsed_between, is_clock_reading, now, span};
use crate::error::FlashError;

verus! {

/// The abstract state of a fact.
pub ghost struct FactView {
    pub prompt: Seq<char>,
    pub answer: Seq<char>,
    /// Correct answers in a row.
    pub score: u32,
    /// When the fact was last checked, in nanoseconds from the Unix epoch.
    pub last_checked: i128,
}

#[derive(Debug)]
pub struct Fact {
    prompt: String,
    answer: String,
    score: u32,
    last_checked: i128,
}

impl View for Fact {
    type V = FactView;

    closed spec fn view(&self) -> FactView {
        FactView {
            prompt: self.prompt@,
            answer: self.answer@,
            score: self.score,
            last_checked: self.last_checked,
        }
    }
}

/// The state of `f` after it was checked at time `at` with the response `r`.
pub open spec fn checked(f: FactView, r: Seq<char>, at: i128) -> FactView
    recommends
        r == f.answer ==> f.score < u32::MAX,
{
    FactView {
        score: if r == f.answer { (f.score + 1) as u32 } else { 0 },
        last_checked: at,
        ..f
    }
}

impl Fact {
    /// Checks the response `r` against the answer, as at time `at`: a match
    /// extends the streak by one, anything else resets it to zero. The time
    /// of the check is recorded either way.
    pub fn check_at(&mut self, r: String, at: i128) -> (correct: bool)
        requires
            r@ == old(self)@.answer ==> old(self)@.score < u32::MAX,
        ensures
            correct == (r@ == old(self)@.answer),
            final(self)@ == checked(old(self)@, r@, at),
    {
        self.last_checked = at;
        if r == self.answer {
            self.score = self.score + 1;
            true
        } else {
            self.score = 0;
            false
        }
    }

    /// Checks the response `r` against the answer now.
    pub fn check(&mut self, r: String) -> (correct: bool)
        requires
            r@ == old(self)@.answer ==> old(self)@.score < u32::MAX,
        ensures
            correct == (r@ == old(self)@.answer),
            is_clock_reading(final(self)@.last_checked as int),
            final(self)@ == checked(old(self)@, r@, final(self)@.last_checked),
    {
        let at = now();
        self.check_at(r, at)
    }

    pub fn get_score(&self) -> (s: u32)
        ensures
            s == self@.score,
    {
        self.score
    }

    /// Nanoseconds from the last check to the time `at`; a clock error when
    /// `at` comes before the last check.
    pub fn duration_at(&self, at: i128) -> (r: Result<u128, FlashError>)
        ensures
            at < self@.last_checked ==> r == Err::<u128, FlashError>(FlashError::Clock),
            self@.last_checked <= at ==> (r matches Ok(d) && d as int == span(self@.last_checked, at)),
    {
        elapsed_between(self.last_checked, at)
    }

    /// Nanoseconds since the last check; a clock error when the clock now
    /// reads a time before it.
    pub fn get_duration(&self) -> (r: Result<u128, FlashError>)
        ensures
            r matches Err(e) ==> e == FlashError::Clock,
            exists|t: i128|
                #![trigger is_clock_reading(t as int)]
                is_clock_reading(t as int) && (t < self@.last_checked
                    ==> r == Err::<u128, FlashError>(FlashError::Clock)) && (self@.last_checked <= t
                    ==> (r matches Ok(d) && d as int == span(self@.last_checked, t))),
    {
        let at = now();
        let r = self.duration_at(at);
        assert(is_clock_reading(at as int));
        r
    }
}

/// Two facts are equal when they ask the same question with the same answer.
impl PartialEq for Fact {
    fn eq(&self, other: &Fact) -> (r: bool) {
        self.prompt == other.prompt && self.answer == other.answer
    }
}

impl vstd::std_specs::cmp::PartialEqSpecImpl for Fact {
    open spec fn obeys_eq_spec() -> bool {
        true
    }

    open spec fn eq_spec(&self, other: &Fact) -> bool {
        self@.prompt == other@.prompt && self@.answer == other@.answer
    }
}

impl Clone for Fact {
    fn clone(&self) -> (r: Fact)
        ensures
            r@ == self@,
    {
        Fact {
            prompt: self.prompt.clone(),
            answer: self.answer.clone(),
            score: self.score,
            last_checked: self.last_checked,
        }
    }
}

/// A fact with the given prompt, answer and starting score, last checked now.
pub fn new_fact(prompt: &str, answer: &str, score: u32) -> (f: Fact)
    ensures
        f@.prompt == prompt@,
        f@.answer == answer@,
        f@.score == score,
        is_clock_reading(f@.last_checked as int),
{
    Fact {
        prompt: prompt.to_owned(),
        answer: answer.to_owned(),
        score,
        last_checked: now(),
    }
}

} // verus!
