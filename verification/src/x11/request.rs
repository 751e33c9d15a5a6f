//! What crosses the wire: the requests the window manager asks to have sent,
//! and what the display server may answer to each of them.

use vstd::prelude::*;

use crate::x11::error::{ParseError, X11Error};
use crate::x11::windows::{
    X11GetGeometryReply, X11GetWindowAttributesReply, X11WindowId,
};
use crate::x11::X11Result;

verus! {

/// Whether a window is added to or removed from the save-set.
#[derive(Debug, Clone, Copy, PartialEq, Eq)]
pub enum SetMode {
    Insert,
    Delete,
}

/// The values of a configure-window request. A field that is `None` is left
/// as the server has it.
#[derive(Debug, Clone, Copy, PartialEq, Eq)]
pub struct ConfigureWindowAux {
    pub x: Option<i32>,
    pub y: Option<i32>,
    pub width: Option<u32>,
    pub height: Option<u32>,
}

/// One request to the display server.
#[derive(Debug, Clone, Copy, PartialEq, Eq)]
pub enum Request {
    ChangeWindowAttributes { window: X11WindowId, event_mask: u32 },
    QueryTree { window: X11WindowId },
    GetWindowAttributes { window: X11WindowId },
    GetGeometry { drawable: X11WindowId },
    /// Read the `WM_CLASS` property; errors of the server count as "absent".
    GetWmClass { window: X11WindowId },
    ConfigureWindow { window: X11WindowId, values: ConfigureWindowAux },
    ChangeSaveSet { mode: SetMode, window: X11WindowId },
    DestroyWindow { window: X11WindowId },
    DestroySubwindows { window: X11WindowId },
    MapWindow { window: X11WindowId },
    UnmapWindow { window: X11WindowId },
    MapSubwindows { window: X11WindowId },
    UnmapSubwindows { window: X11WindowId },
}

/// The direct children of a window, bottom-most first.
#[derive(Debug, Clone, PartialEq, Eq)]
pub struct QueryTreeReply {
    pub root: X11WindowId,
    pub parent: X11WindowId,
    pub children: Vec<X11WindowId>,
}

/// The two strings of a `WM_CLASS` property as the server stores them.
#[derive(Debug, Clone, PartialEq, Eq)]
pub struct WmClassReply {
    pub instance: Vec<u8>,
    pub class: Vec<u8>,
}

/// What the server answered to one request.
#[derive(Debug, Clone, PartialEq, Eq)]
pub enum Reply {
    /// The server carried out a request that has no reply of its own.
    Done,
    QueryTree(QueryTreeReply),
    GetWindowAttributes(X11GetWindowAttributesReply),
    GetGeometry(X11GetGeometryReply),
    /// `None` where the window has no `WM_CLASS` property.
    WmClass(Option<WmClassReply>),
}

/// How one request ended.
pub type Outcome = X11Result<Reply>;

/// Event-mask bit that redirects map and configure requests of the children
/// of a window to the client that selects it.
pub open spec fn substructure_redirect() -> u32 {
    0x10_0000
}

/// Event-mask bit that reports changes to the children of a window.
pub open spec fn substructure_notify() -> u32 {
    0x8_0000
}

/// Bit of a configure value-mask that marks `x` as present.
pub open spec fn config_window_x() -> u16 {
    1
}

/// Bit of a configure value-mask that marks `y` as present.
pub open spec fn config_window_y() -> u16 {
    2
}

/// Bit of a configure value-mask that marks `width` as present.
pub open spec fn config_window_width() -> u16 {
    4
}

/// Bit of a configure value-mask that marks `height` as present.
pub open spec fn config_window_height() -> u16 {
    8
}

/// Code of the error packet with which the server denies access.
pub open spec fn access_error() -> u8 {
    10
}

/// Trusted: reads `EventMask::SUBSTRUCTURE_REDIRECT` and
/// `EventMask::SUBSTRUCTURE_NOTIFY` of x11rb through its `From<EventMask> for
/// u32`, in this order. The contract claims that they are bits 20 and 19.
#[verifier::external_body]
pub(crate) fn substructure_masks() -> (r: (u32, u32))
    ensures
        r == (substructure_redirect(), substructure_notify()),
{
    (
        u32::from(x11rb::protocol::xproto::EventMask::SUBSTRUCTURE_REDIRECT),
        u32::from(x11rb::protocol::xproto::EventMask::SUBSTRUCTURE_NOTIFY),
    )
}

/// Trusted: reads `ConfigWindow::X`, `Y`, `WIDTH` and `HEIGHT` of x11rb
/// through its `From<ConfigWindow> for u16`, in this order. The contract
/// claims that they are bits 0 to 3.
#[verifier::external_body]
pub(crate) fn config_window_bits() -> (r: (u16, u16, u16, u16))
    ensures
        r == (config_window_x(), config_window_y(), config_window_width(), config_window_height()),
{
    (
        u16::from(x11rb::protocol::xproto::ConfigWindow::X),
        u16::from(x11rb::protocol::xproto::ConfigWindow::Y),
        u16::from(x11rb::protocol::xproto::ConfigWindow::WIDTH),
        u16::from(x11rb::protocol::xproto::ConfigWindow::HEIGHT),
    )
}

/// Trusted: reads the constant `ACCESS_ERROR` of x11rb. The contract claims
/// that it is 10.
#[verifier::external_body]
pub(crate) fn access_error_code() -> (r: u8)
    ensures
        r == access_error(),
{
    x11rb::protocol::xproto::ACCESS_ERROR
}

/// What a request without a reply of its own came to, resolved as checked.
pub open spec fn checked(outcome: Outcome) -> X11Result<()> {
    match outcome {
        Ok(Reply::Done) => Ok(()),
        Ok(_) => Err(X11Error::ParseError(ParseError::InvalidValue)),
        Err(e) => Err(e),
    }
}

/// Resolves a request that has no reply of its own: success where the
/// server carried it out, the server's error verbatim where it did not. An
/// answer that belongs to another kind of request is malformed data.
pub fn check(outcome: &Outcome) -> (r: X11Result<()>)
    ensures
        r == checked(*outcome),
{
    match outcome {
        Ok(Reply::Done) => Ok(()),
        Ok(_) => Err(X11Error::ParseError(ParseError::InvalidValue)),
        Err(e) => Err(*e),
    }
}

} // verus!
