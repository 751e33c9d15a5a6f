//! The screen directory, and how to become the window manager of a screen.

use vstd::prelude::*;
use vstd::std_specs::convert::FromSpecImpl;

use crate::x11::error::{ProtocolError, ReplyError, X11Error};
use crate::x11::request::{
    check, checked, substructure_masks, substructure_notify, substructure_redirect, Outcome,
    Request,
};
use crate::x11::windows::X11WindowId;
use crate::x11::X11Connection;

verus! {

/// One screen of the server, as advertised when the session came up.
#[derive(Debug, Clone, Copy, PartialEq, Eq)]
pub struct X11Screen {
    /// The root window: parent of every top-level window of the screen.
    pub root: X11WindowId,
    pub width_in_pixels: u16,
    pub height_in_pixels: u16,
    pub root_depth: u8,
    pub root_visual: u32,
}

/// Zero-based index into the screen list of a connection.
pub type X11ScreenNum = usize;

/// A screen number that the server does not have.
#[derive(Debug, Clone, Copy, PartialEq, Eq)]
pub struct IndexError {
    /// The number that was asked for.
    pub index: X11ScreenNum,
    /// How many screens there are.
    pub len: usize,
}

/// Why a screen could not be taken over.
#[derive(Debug, Clone, Copy, PartialEq, Eq)]
pub enum AcquisitionError {
    /// The server denied access to the root window: another client already
    /// redirects its children. Holds the server's error packet.
    AnotherManagerRunning(ProtocolError),
    /// Anything else.
    Failed(X11Error),
}

/// All screens of the server. No round-trip: the list was fetched when the
/// session came up.
pub fn get_all_screens(connection: &X11Connection) -> (r: &Vec<X11Screen>)
    ensures
        r@ == connection.screens(),
{
    connection.roots()
}

/// The screen with the given number, or an `IndexError` where the server has
/// no such screen.
pub fn get_screen(connection: &X11Connection, screen_num: X11ScreenNum) -> (r: Result<
    &X11Screen,
    IndexError,
>)
    ensures
        screen_num < connection.screens().len() ==> (r matches Ok(screen) && *screen
            == connection.screens()[screen_num as int]),
        screen_num >= connection.screens().len() ==> r == Err::<&X11Screen, IndexError>(
            IndexError { index: screen_num, len: connection.screens().len() as usize },
        ),
{
    let screens = get_all_screens(connection);
    if screen_num < screens.len() {
        Ok(&screens[screen_num])
    } else {
        Err(IndexError { index: screen_num, len: screens.len() })
    }
}

/// The events a window manager selects on a root window.
pub open spec fn manager_event_mask() -> u32 {
    substructure_redirect() | substructure_notify()
}

/// The request that claims a screen.
pub open spec fn manage_request(screen: X11Screen) -> Request {
    Request::ChangeWindowAttributes { window: screen.root, event_mask: manager_event_mask() }
}

/// Try to become the window manager of the given screen: one request that
/// selects substructure redirection and notification on its root window.
/// The server grants redirection to one client at a time, so the outcome of
/// this request, read by `manage_screen_result`, tells whether the screen is
/// ours.
pub fn manage_screen(screen: &X11Screen) -> (r: Request)
    ensures
        r == manage_request(*screen),
{
    let (redirect, notify) = substructure_masks();
    Request::ChangeWindowAttributes { window: screen.root, event_mask: redirect | notify }
}

/// Try to become the window manager of all available screens: the request of
/// `manage_screen` for every screen, in the order of the screen list.
pub fn manage_all_screens(connection: &X11Connection) -> (r: Vec<Request>)
    ensures
        r@ == connection.screens().map_values(|screen: X11Screen| manage_request(screen)),
{
    let screens = get_all_screens(connection);
    let mut requests: Vec<Request> = Vec::new();
    let mut i: usize = 0;
    while i < screens.len()
        invariant
            i <= screens.len(),
            screens@ == connection.screens(),
            requests@ == screens@.take(i as int).map_values(
                |screen: X11Screen| manage_request(screen),
            ),
        decreases screens.len() - i,
    {
        requests.push(manage_screen(&screens[i]));
        assert(screens@.take(i + 1) == screens@.take(i as int).push(screens@[i as int]));
        i += 1;
    }
    assert(screens@.take(i as int) == screens@);
    requests
}

/// How the claim on a screen ended, given the outcome of its request.
pub open spec fn acquisition(outcome: Outcome) -> Result<(), AcquisitionError> {
    match checked(outcome) {
        Ok(()) => Ok(()),
        Err(e) => match e.protocol_error() {
            Some(packet) if packet.access_denied() => Err(
                AcquisitionError::AnotherManagerRunning(packet),
            ),
            _ => Err(AcquisitionError::Failed(e)),
        },
    }
}

/// Reads the outcome of the request of `manage_screen`, resolved as checked.
///
/// The screen is ours exactly when the server carried the request out. Where
/// the server denied access, another manager is running; every other failure
/// is passed on as it came.
pub fn manage_screen_result(outcome: &Outcome) -> (r: Result<(), AcquisitionError>)
    ensures
        r == acquisition(*outcome),
{
    match check(outcome) {
        Ok(()) => Ok(()),
        Err(e) => match e.protocol_error() {
            Some(packet) => {
                if packet.is_access_denied() {
                    Err(AcquisitionError::AnotherManagerRunning(packet))
                } else {
                    Err(AcquisitionError::Failed(e))
                }
            },
            None => Err(AcquisitionError::Failed(e)),
        },
    }
}

impl From<AcquisitionError> for X11Error {
    fn from(error: AcquisitionError) -> (r: Self) {
        match error {
            AcquisitionError::AnotherManagerRunning(packet) => X11Error::ReplyError(
                ReplyError::X11Error(packet),
            ),
            AcquisitionError::Failed(e) => e,
        }
    }
}

impl FromSpecImpl<AcquisitionError> for X11Error {
    open spec fn obeys_from_spec() -> bool {
        true
    }

    open spec fn from_spec(error: AcquisitionError) -> Self {
        match error {
            AcquisitionError::AnotherManagerRunning(packet) => X11Error::ReplyError(
                ReplyError::X11Error(packet),
            ),
            AcquisitionError::Failed(e) => e,
        }
    }
}

} // verus!
