//! A spaced-repetition flashcard engine: facts grouped into lessons grouped
//! into courses, with streak scores and weakest-first review selection.

pub mod clock;
pub mod error;
pub mod fact;
pub mod lesson;
pub mod course;
pub mod laws;

pub use course::{new_course, Course};
pub use error::FlashError;
pub use fact::{new_fact, Fact};
pub use lesson::{new_lesson, new_lesson_goal, Lesson};
