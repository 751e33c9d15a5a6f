//! The names that most users of the X11 layer need.

pub use super::request::{Outcome, Reply, Request};
pub use super::screens::{X11Screen, X11ScreenNum};
pub use super::windows::{X11Window, X11WindowId};
pub use super::{X11Connection, X11Result};
