//! Core of a redirecting window manager for the X11 protocol.
//!
//! The crate decides; it never talks to the display server itself. Every
//! operation is split into the requests it wants on the wire and the
//! reading of what the server answered, so that the program around it only
//! has to move requests out and replies in.

use vstd::prelude::*;

pub mod error;
pub mod event;
pub mod screen;
pub mod state;
pub mod window;
pub mod x11;

pub use x11::prelude::{
    Outcome, Reply, Request, X11Connection, X11Result, X11Screen, X11ScreenNum, X11Window,
    X11WindowId,
};

use error::YogaResult;

verus! {

/// What a window manager built on this crate has to offer.
pub trait WindowManager {
    fn mount(&self) -> YogaResult<()>;

    fn handle_x11_event(&self) -> YogaResult<()>;

    fn handle_key_event(&self) -> YogaResult<()>;
}

} // verus!
