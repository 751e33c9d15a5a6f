//! The state of the window manager between two events.

use vstd::prelude::*;

use crate::error::{YogaError, YogaResult};
use crate::x11::X11Connection;

verus! {

/// What the window manager remembers. Inventories are rebuilt on every
/// refresh, so for now this is nothing.
#[derive(Debug, Clone, Copy, PartialEq, Eq)]
pub struct WindowManagerState {}

impl WindowManagerState {
    /// The state of a window manager that has just taken over a connection.
    pub fn new(connection: &X11Connection) -> (r: YogaResult<Self>)
        ensures
            r == Ok::<WindowManagerState, YogaError>(WindowManagerState {  }),
    {
        Ok(WindowManagerState {  })
    }

    /// Scans the windows on all screens. Always succeeds; the state is as
    /// it was.
    pub fn scan(&mut self) -> (r: YogaResult<()>)
        ensures
            r == Ok::<(), YogaError>(()),
            *final(self) == *old(self),
    {
        Ok(())
    }

    /// Brings the state up to date. Always succeeds; the state is as it
    /// was.
    pub fn refresh(&mut self) -> (r: YogaResult<()>)
        ensures
            r == Ok::<(), YogaError>(()),
            *final(self) == *old(self),
    {
        Ok(())
    }
}

} // verus!
