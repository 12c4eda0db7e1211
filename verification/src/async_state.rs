//! The loading / empty / loaded / error state of any read behind the seam.

use vstd::prelude::*;
use crate::error::StudioError;

verus! {

/// Anything that can report emptiness, so a loaded-but-empty result is told
/// apart from a loaded result with data.
pub trait IsEmpty {
    /// Whether the value holds nothing.
    spec fn spec_is_empty(&self) -> bool;

    /// Whether the value holds nothing.
    fn is_empty(&self) -> (r: bool)
        ensures
            r == self.spec_is_empty(),
    ;
}

impl<T> IsEmpty for Vec<T> {
    open spec fn spec_is_empty(&self) -> bool {
        self@.len() == 0
    }

    fn is_empty(&self) -> (r: bool) {
        self.len() == 0
    }
}

/// The four UI states of a read.
#[derive(Debug)]
pub enum AsyncState<T> {
    Loading,
    Empty,
    Loaded(T),
    Error(StudioError),
}

/// The state a read result maps to.
pub open spec fn state_of<T: IsEmpty>(v: Option<Result<T, StudioError>>) -> AsyncState<T> {
    match v {
        None => AsyncState::Loading,
        Some(Err(e)) => AsyncState::Error(e),
        Some(Ok(t)) => if t.spec_is_empty() {
            AsyncState::Empty
        } else {
            AsyncState::Loaded(t)
        },
    }
}

impl<T: IsEmpty> AsyncState<T> {
    /// Maps a read: nothing yet is `Loading`, a failure is `Error`, an empty
    /// result is `Empty`, and a result with data is `Loaded`.
    pub fn from_value(v: Option<Result<T, StudioError>>) -> (r: Self)
        ensures
            r == state_of(v),
    {
        match v {
            None => AsyncState::Loading,
            Some(Err(e)) => AsyncState::Error(e),
            Some(Ok(t)) => if t.is_empty() {
                AsyncState::Empty
            } else {
                AsyncState::Loaded(t)
            },
        }
    }
}

} // verus!
