//! Failures as the window manager reports them to its caller.

use vstd::prelude::*;
use vstd::std_specs::convert::FromSpecImpl;

use crate::x11::X11Error;

verus! {

/// Anything that can go wrong in the window manager.
#[derive(Debug, Clone, Copy, PartialEq, Eq)]
pub enum YogaError {
    X11Error(X11Error),
}

impl From<X11Error> for YogaError {
    fn from(error: X11Error) -> (r: Self) {
        YogaError::X11Error(error)
    }
}

impl FromSpecImpl<X11Error> for YogaError {
    open spec fn obeys_from_spec() -> bool {
        true
    }

    open spec fn from_spec(error: X11Error) -> Self {
        YogaError::X11Error(error)
    }
}

pub type YogaResult<T> = Result<T, YogaError>;

} // verus!
