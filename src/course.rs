//! A course: an ordered group of lessons.
use vstd::prelude::*;
use crate::error::FlashError;
use crate::lesson::{Lesson, LessonView};

verus! {

/// The abstract state of a course.
pub ghost struct CourseView {
    pub name: Seq<char>,
    pub lessons: Seq<LessonView>,
}

pub struct Course {
    name: String,
    lessons: Vec<Lesson>,
}

/// The abstract states of a vector of lessons.
pub open spec fn lesson_views(lessons: Seq<Lesson>) -> Seq<LessonView> {
    lessons.map_values(|l: Lesson| l@)
}

impl View for Course {
    type V = CourseView;

    closed spec fn view(&self) -> CourseView {
        CourseView { name: self.name@, lessons: lesson_views(self.lessons@) }
    }
}

/// `c` with the lesson at position `i` replaced by `l`.
pub open spec fn with_lesson(c: CourseView, i: int, l: LessonView) -> CourseView {
    CourseView { lessons: c.lessons.update(i, l), ..c }
}

proof fn lemma_views_update(lessons: Seq<Lesson>, i: int, l: Lesson)
    requires
        0 <= i < lessons.len(),
    ensures
        lesson_views(lessons.update(i, l)) == lesson_views(lessons).update(i, l@),
{
    assert(lesson_views(lessons.update(i, l)) =~= lesson_views(lessons).update(i, l@));
}

impl Course {
    /// The lesson at `index`, to read or work through.
    pub fn get_lesson(&mut self, index: usize) -> (r: Result<&mut Lesson, FlashError>)
        ensures
            index >= old(self)@.lessons.len() ==> (r matches Err(e) && e == FlashError::IndexOutOfRange
                && *final(self) == *old(self)),
            index < old(self)@.lessons.len() ==> (r matches Ok(l) && (*l)@ == old(self)@.lessons[index as int]
                && final(self)@ == with_lesson(old(self)@, index as int, (*final(l))@)),
    {
        if index < self.lessons.len() {
            let l = &mut self.lessons[index];
            proof {
                lemma_views_update(old(self).lessons@, index as int, *final(l));
            }
            Ok(l)
        } else {
            Err(FlashError::IndexOutOfRange)
        }
    }
}

/// A course named `name` over `lessons`.
pub fn new_course(name: &str, lessons: Vec<Lesson>) -> (c: Course)
    ensures
        c@.name == name@,
        c@.lessons == lesson_views(lessons@),
{
    Course { name: name.to_owned(), lessons }
}

} // verus!
