//! A screen as the window manager tracks it.

use vstd::prelude::*;

use crate::error::{YogaError, YogaResult};
use crate::window::Window;

verus! {

/// A managed screen: the windows on it.
#[derive(Debug)]
pub struct Screen {
    windows: Vec<Window>,
}

impl Screen {
    /// The windows on this screen, bottom-most first.
    pub closed spec fn windows(&self) -> Seq<Window> {
        self.windows@
    }

    /// A screen with these windows on it.
    pub fn new(windows: Vec<Window>) -> (r: Screen)
        ensures
            r.windows() == windows@,
    {
        Screen { windows }
    }

    /// Brings the screen up to date. The windows hold nothing that could be
    /// out of date, so this always succeeds.
    pub fn refresh(&self) -> (r: YogaResult<()>)
        ensures
            r == Ok::<(), YogaError>(()),
    {
        Ok(())
    }
}

} // verus!
