use flasher::clock::now;
use flasher::{new_course, new_fact, new_lesson, new_lesson_goal, Fact, FlashError};

fn wait_millis(ms: i128) {
    let start = now();
    while now() - start < ms * 1_000_000 {}
}

#[test]
fn lesson_get_name_returns_name() {
    let f0 = new_fact("Test prompt0", "Test answer0", 0);
    let f1 = new_fact("Test prompt1", "Test answer1", 0);

    let mut lessons = Vec::new();
    lessons.push(f0);
    lessons.push(f1);

    let l = new_lesson("Test Lesson", lessons);
    assert_eq!(l.get_name(), "Test Lesson");
}

#[test]
fn lesson_next_fact_returns_lowest_score() {
    let f0 = new_fact("Test prompt0", "Test answer0", 2);
    let f1 = new_fact("Test prompt1", "Test answer1", 0);

    let mut facts = Vec::new();
    facts.push(f0.clone());
    facts.push(f1.clone());

    let mut l = new_lesson("Test Lesson", facts);
    assert_eq!(*l.next_fact().unwrap(), f1);
}

#[test]
fn lesson_next_fact_tie_returns_oldest() {
    let f0 = new_fact("Test prompt0", "Test answer0", 0);
    let f1 = new_fact("Test prompt1", "Test answer1", 1);

    let mut facts = Vec::new();
    facts.push(f0.clone());
    facts.push(f1.clone());

    let mut l = new_lesson("Test Lesson", facts);

    wait_millis(500);

    l.next_fact().unwrap().check(String::from("Test answer0"));

    assert_eq!(*l.next_fact().unwrap(), f1);
}

#[test]
fn facts_len_returns_len() {
    let f0 = new_fact("Test prompt0", "Test answer0", 0);
    let f1 = new_fact("Test prompt1", "Test answer1", 1);

    let mut facts = Vec::new();
    facts.push(f0.clone());
    facts.push(f1.clone());

    let l = new_lesson("Test Lesson", facts);

    assert_eq!(l.get_facts().len(), 2);
}

fn six_facts(score: u32) -> Vec<Fact> {
    let mut facts = Vec::new();
    facts.push(new_fact("Test prompt0", "Test answer0", score));
    facts.push(new_fact("Test prompt1", "Test answer1", score));
    facts.push(new_fact("Test prompt2", "Test answer2", score));
    facts.push(new_fact("Test prompt3", "Test answer3", score));
    facts.push(new_fact("Test prompt4", "Test answer4", score));
    facts.push(new_fact("Test prompt5", "Test answer5", score));
    facts
}

fn completion_of(sum: u128, total: u128) -> f32 {
    sum as f32 / total as f32
}

#[test]
fn lesson_completion_returns_complete() {
    let l = new_lesson("Test Lesson", six_facts(3));
    let (sum, total) = l.completion_parts().unwrap();

    assert_eq!(completion_of(sum, total).floor(), 1.0_f32.floor());
}

#[test]
fn lesson_completion_returns_empty() {
    let l = new_lesson("Test Lesson", six_facts(0));
    let (sum, total) = l.completion_parts().unwrap();

    assert_eq!(completion_of(sum, total).round(), 0.0_f32.round());
}

#[test]
fn completion_parts_exact_values() {
    let mut facts = Vec::new();
    facts.push(new_fact("a", "1", 1));
    facts.push(new_fact("b", "2", 4));
    facts.push(new_fact("c", "3", 0));
    let l = new_lesson_goal("L", facts, 2);
    assert_eq!(l.completion_parts(), Ok((5, 6)));
}

#[test]
fn completion_is_not_capped() {
    let mut facts = Vec::new();
    facts.push(new_fact("a", "1", 9));
    let l = new_lesson("L", facts);
    assert_eq!(l.completion_parts(), Ok((9, 3)));
}

#[test]
fn completion_full_and_zero_ratios() {
    let full = new_lesson_goal("L", six_facts(5), 5);
    let (sum, total) = full.completion_parts().unwrap();
    assert_eq!(sum, total);
    assert_eq!(completion_of(sum, total), 1.0);

    let none = new_lesson_goal("L", six_facts(0), 5);
    let (sum, total) = none.completion_parts().unwrap();
    assert_eq!((sum, total), (0, 30));
    assert_eq!(completion_of(sum, total), 0.0);
}

#[test]
fn empty_lesson_is_an_error() {
    let mut l = new_lesson("Empty", Vec::new());
    assert_eq!(l.completion_parts(), Err(FlashError::EmptyLesson));
    assert_eq!(l.next_index_at(0), Err(FlashError::EmptyLesson));
    assert_eq!(l.next_index(), Err(FlashError::EmptyLesson));
    assert!(matches!(l.next_fact(), Err(FlashError::EmptyLesson)));
}

#[test]
fn get_fact_out_of_range_is_an_error() {
    let mut facts = Vec::new();
    facts.push(new_fact("a", "1", 0));
    let mut l = new_lesson("L", facts);
    assert!(matches!(l.get_fact(1), Err(FlashError::IndexOutOfRange)));
    assert_eq!(l.get_fact(0).unwrap().get_score(), 0);
}

#[test]
fn get_fact_changes_the_lesson_in_place() {
    let mut facts = Vec::new();
    facts.push(new_fact("a", "1", 0));
    facts.push(new_fact("b", "2", 0));
    let mut l = new_lesson("L", facts);
    assert!(l.get_fact(1).unwrap().check(String::from("2")));
    assert_eq!(l.get_facts()[1].get_score(), 1);
    assert_eq!(l.get_facts()[0].get_score(), 0);
}

/// Facts with the given scores, checked at the given times.
fn lesson_at(entries: &[(u32, i128)]) -> flasher::Lesson {
    let mut facts = Vec::new();
    for (k, (score, at)) in entries.iter().enumerate() {
        let answer = format!("{k}");
        let mut f = new_fact("prompt", &answer, 0);
        f.check_at(String::from("wrong"), *at);
        for _ in 0..*score {
            f.check_at(answer.clone(), *at);
        }
        facts.push(f);
    }
    new_lesson("L", facts)
}

#[test]
fn next_index_picks_lowest_score() {
    let l = lesson_at(&[(2, 10), (0, 20), (1, 5)]);
    assert_eq!(l.next_index_at(100), Ok(1));
}

#[test]
fn next_index_tie_goes_to_oldest_check() {
    let l = lesson_at(&[(1, 10), (0, 30), (0, 20), (0, 25)]);
    assert_eq!(l.next_index_at(100), Ok(2));
}

#[test]
fn next_index_full_tie_goes_to_first() {
    let l = lesson_at(&[(3, 10), (1, 10), (1, 10)]);
    assert_eq!(l.next_index_at(100), Ok(1));
}

#[test]
fn next_index_unique_lowest_ignores_later_checks() {
    let l = lesson_at(&[(0, 10), (2, 500)]);
    assert_eq!(l.next_index_at(100), Ok(0));
}

#[test]
fn next_index_single_fact_ignores_clock() {
    let l = lesson_at(&[(4, 500)]);
    assert_eq!(l.next_index_at(100), Ok(0));
}

#[test]
fn next_index_tie_with_untied_later_check() {
    let l = lesson_at(&[(0, 10), (0, 20), (5, 500)]);
    assert_eq!(l.next_index_at(100), Ok(0));
}

#[test]
fn next_index_reports_clock_going_backward_on_tie() {
    let l = lesson_at(&[(0, 10), (0, 500)]);
    assert_eq!(l.next_index_at(100), Err(FlashError::Clock));
    assert_eq!(l.next_index_at(500), Ok(0));
}

#[test]
fn next_index_compares_times_on_any_tie_met() {
    // The two score-5 facts tie while the scan passes them, before it reaches
    // the lowest score, so their times are read.
    let l = lesson_at(&[(5, 500), (5, 10), (0, 10)]);
    assert_eq!(l.next_index_at(100), Err(FlashError::Clock));
    assert_eq!(l.next_index_at(600), Ok(2));
}

#[test]
fn next_fact_after_correct_check_moves_on() {
    let mut facts = Vec::new();
    facts.push(new_fact("p0", "a0", 0));
    facts.push(new_fact("p1", "a1", 1));
    let mut l = new_lesson("L", facts);
    let first = l.next_fact().unwrap();
    assert!(first.check(String::from("a0")));
    wait_millis(5);
    let next = l.next_fact().unwrap();
    assert!(*next == new_fact("p1", "a1", 0));
}

#[test]
fn lessons_equal_by_name() {
    let a = new_lesson("Same", six_facts(0));
    let b = new_lesson("Same", Vec::new());
    let c = new_lesson("Other", six_facts(0));
    assert!(a == b);
    assert!(a != c);
    let d = a.clone();
    assert_eq!(d.get_facts().len(), 6);
}

#[test]
fn course_get_lesson_returns_lesson() {
    let f0 = new_fact("Test prompt0", "Test answer0", 0);
    let f1 = new_fact("Test prompt1", "Test answer1", 1);

    let mut facts = Vec::new();
    facts.push(f0.clone());
    facts.push(f1.clone());

    let l0 = new_lesson("Test Lesson 0", facts.clone());
    let l1 = new_lesson("Test Lesson 1", facts.clone());
    let l2 = new_lesson("Test Lesson 2", facts);

    let mut lessons = Vec::new();
    lessons.push(l0.clone());
    lessons.push(l1.clone());
    lessons.push(l2.clone());

    let mut c = new_course("Test Course 0", lessons);

    assert_eq!(*c.get_lesson(0).unwrap(), l0);
}

#[test]
fn course_get_lesson_out_of_range() {
    let mut lessons = Vec::new();
    lessons.push(new_lesson("L0", six_facts(0)));
    lessons.push(new_lesson("L1", six_facts(0)));
    lessons.push(new_lesson("L2", six_facts(0)));
    let mut c = new_course("C", lessons);
    assert!(matches!(c.get_lesson(5), Err(FlashError::IndexOutOfRange)));
    assert!(matches!(c.get_lesson(3), Err(FlashError::IndexOutOfRange)));
    assert_eq!(c.get_lesson(2).unwrap().get_name(), "L2");
}
