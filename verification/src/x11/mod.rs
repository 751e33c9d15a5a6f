//! High-level model of the parts of the X11 protocol a window manager needs:
//! the error taxonomy, the requests and replies that cross the wire, the
//! screen directory and the window inventory.
//!
//! Nothing in here performs I/O. A function that wants something from the
//! display server returns the requests to send; a function that depends on
//! what the server said takes the outcomes of those requests, in the order in
//! which the requests were handed out.

use vstd::prelude::*;

pub mod error;
pub mod inventory;
pub mod prelude;
pub mod request;
pub mod screens;
pub mod windows;

pub use error::X11Error;

use error::ConnectError;
use screens::{X11Screen, X11ScreenNum};

verus! {

/// Result of any operation that depends on the display server.
pub type X11Result<T> = Result<T, X11Error>;

/// An established session with the display server: what the server
/// advertised when the session came up. The screen list never changes
/// afterwards.
#[derive(Debug)]
pub struct X11Connection {
    roots: Vec<X11Screen>,
}

impl X11Connection {
    /// The screens of the server, in the order in which it advertised them.
    pub closed spec fn screens(&self) -> Seq<X11Screen> {
        self.roots@
    }

    /// The cached screen list.
    pub fn roots(&self) -> (r: &Vec<X11Screen>)
        ensures
            r@ == self.screens(),
    {
        &self.roots
    }
}

/// Sets up the session from what the server sent during the handshake:
/// its screens and the number of the screen that the display names.
///
/// Fails with `ConnectError::InvalidScreen` exactly when the server has no
/// screen of that number.
pub fn connect(roots: Vec<X11Screen>, screen_num: X11ScreenNum) -> (r: X11Result<
    (X11Connection, X11ScreenNum),
>)
    ensures
        screen_num < roots.len() ==> (r matches Ok((connection, num)) && connection.screens()
            == roots@ && num == screen_num),
        screen_num >= roots.len() ==> r == Err::<(X11Connection, X11ScreenNum), X11Error>(
            X11Error::ConnectError(ConnectError::InvalidScreen),
        ),
{
    if screen_num < roots.len() {
        Ok((X11Connection { roots }, screen_num))
    } else {
        Err(X11Error::ConnectError(ConnectError::InvalidScreen))
    }
}

} // verus!
