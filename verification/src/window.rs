//! A window as the window manager tracks it.

use vstd::prelude::*;

use crate::error::{YogaError, YogaResult};

verus! {

/// A managed window. Nothing is kept across refreshes yet.
#[derive(Debug, Clone, Copy, PartialEq, Eq)]
pub struct Window {}

impl Window {
    /// Brings the window up to date. There is nothing to bring up to date,
    /// so this always succeeds.
    pub fn refresh() -> (r: YogaResult<()>)
        ensures
            r == Ok::<(), YogaError>(()),
    {
        Ok(())
    }
}

} // verus!
