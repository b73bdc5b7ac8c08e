//! The errors that the store and the repository report.
use vstd::prelude::*;

verus! {

/// Why a repository operation or a page failed.
#[derive(Debug, PartialEq, Eq)]
pub enum DbError {
    /// The backing store could not be read, parsed or written.
    Store(String),
    /// No epic has the given id.
    InvalidEpicId,
    /// No story has the given id.
    InvalidStoryId,
    /// An epic lists a story id that the story map does not hold.
    IntegrityViolation,
    /// Every id that fits in the counter has been issued.
    IdsExhausted,
}

} // verus!
