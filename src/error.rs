use vstd::prelude::*;

verus! {

/// What can go wrong when reading the engine's state.
#[derive(Debug, Clone, Copy, PartialEq, Eq, Structural)]
pub enum FlashError {
    /// The clock reads a time before a fact's last review.
    Clock,
    /// A lesson has no facts to choose from.
    EmptyLesson,
    /// A position past the end of a lesson or a course.
    IndexOutOfRange,
}

} // verus!
