//! One window: what the server says about it, how that is put together
//! from the outcomes of the requests about it, and the requests that control
//! it.

use vstd::prelude::*;
use vstd::string::StringSliceAdditionalSpecFns;
use vstd::utf8::{decode_utf8, encode_utf8_decode_utf8, valid_utf8};

pub use crate::x11::inventory::{get_all_windows, get_unmapped_windows, get_windows};

use crate::x11::error::{ParseError, X11Error};
use crate::x11::inventory::WindowQuery;
use crate::x11::request::{Outcome, Reply, Request, SetMode, WmClassReply};

verus! {

/// A window id as the server assigns it.
pub type X11WindowId = u32;

/// Whether a window is on screen.
#[derive(Debug, Clone, Copy, PartialEq, Eq, Structural)]
pub enum MapState {
    Unmapped,
    Unviewable,
    Viewable,
}

/// The attributes of a window that the window manager looks at.
#[derive(Debug, Clone, Copy, PartialEq, Eq)]
pub struct X11GetWindowAttributesReply {
    pub override_redirect: bool,
    pub map_state: MapState,
    pub your_event_mask: u32,
}

/// Position and size of a window relative to its parent.
#[derive(Debug, Clone, Copy, PartialEq, Eq)]
pub struct X11GetGeometryReply {
    pub x: i16,
    pub y: i16,
    pub width: u16,
    pub height: u16,
    pub border_width: u16,
}

/// The `WM_CLASS` property of a window, decoded.
#[derive(Debug, Clone, PartialEq, Eq)]
pub struct X11WmClass {
    /// Name of this instance of the application.
    pub instance: String,
    /// Name of the application: the "type" of the window.
    pub class: String,
}

/// What an `X11WmClass` holds.
pub struct X11WmClassView {
    pub instance: Seq<char>,
    pub class: Seq<char>,
}

impl View for X11WmClass {
    type V = X11WmClassView;

    open spec fn view(&self) -> X11WmClassView {
        X11WmClassView { instance: self.instance@, class: self.class@ }
    }
}

/// A X11Window combines what the server said about one window. All of it is
/// a snapshot: the server may have changed the window since.
#[derive(Debug, Clone, PartialEq, Eq)]
pub struct X11Window {
    pub id: X11WindowId,
    pub attributes: X11GetWindowAttributesReply,
    pub geometry: X11GetGeometryReply,
    pub wm_class: Option<X11WmClass>,
}

/// What an `X11Window` holds.
pub struct X11WindowView {
    pub id: X11WindowId,
    pub attributes: X11GetWindowAttributesReply,
    pub geometry: X11GetGeometryReply,
    pub wm_class: Option<X11WmClassView>,
}

impl View for X11Window {
    type V = X11WindowView;

    open spec fn view(&self) -> X11WindowView {
        X11WindowView {
            id: self.id,
            attributes: self.attributes,
            geometry: self.geometry,
            wm_class: match self.wm_class {
                Some(class) => Some(class@),
                None => None,
            },
        }
    }
}

/// The views of a list of windows, in the same order.
pub open spec fn views(windows: Seq<X11Window>) -> Seq<X11WindowView> {
    windows.map_values(|window: X11Window| window@)
}

/// Map state for each of the codes that the protocol defines.
pub open spec fn map_state_of(code: u8) -> Option<MapState> {
    if code == 0 {
        Some(MapState::Unmapped)
    } else if code == 1 {
        Some(MapState::Unviewable)
    } else if code == 2 {
        Some(MapState::Viewable)
    } else {
        None
    }
}

/// Trusted: reads `MapState::UNMAPPED`, `UNVIEWABLE` and `VIEWABLE` of x11rb
/// through its `From<MapState> for u8`, in this order. The contract claims
/// that they are 0, 1 and 2.
#[verifier::external_body]
fn map_state_codes() -> (r: (u8, u8, u8))
    ensures
        r == (0u8, 1u8, 2u8),
{
    (
        u8::from(x11rb::protocol::xproto::MapState::UNMAPPED),
        u8::from(x11rb::protocol::xproto::MapState::UNVIEWABLE),
        u8::from(x11rb::protocol::xproto::MapState::VIEWABLE),
    )
}

impl MapState {
    /// Decodes a map state from its code on the wire.
    pub fn from_code(code: u8) -> (r: Option<MapState>)
        ensures
            r == map_state_of(code),
    {
        let (unmapped, unviewable, viewable) = map_state_codes();
        if code == unmapped {
            Some(MapState::Unmapped)
        } else if code == unviewable {
            Some(MapState::Unviewable)
        } else if code == viewable {
            Some(MapState::Viewable)
        } else {
            None
        }
    }
}

/// The outcome of a get-attributes request whose reply holds these values.
pub open spec fn attributes_outcome(
    override_redirect: bool,
    map_state: u8,
    your_event_mask: u32,
) -> Outcome {
    match map_state_of(map_state) {
        Some(state) => Ok(
            Reply::GetWindowAttributes(
                X11GetWindowAttributesReply {
                    override_redirect,
                    map_state: state,
                    your_event_mask,
                },
            ),
        ),
        None => Err(X11Error::ParseError(ParseError::InvalidValue)),
    }
}

impl X11GetWindowAttributesReply {
    /// Builds the outcome of a get-attributes request from the values of the
    /// server's reply. A map state that the protocol does not define makes
    /// the reply malformed.
    pub fn from_wire(override_redirect: bool, map_state: u8, your_event_mask: u32) -> (r: Outcome)
        ensures
            r == attributes_outcome(override_redirect, map_state, your_event_mask),
    {
        match MapState::from_code(map_state) {
            Some(state) => Ok(
                Reply::GetWindowAttributes(
                    X11GetWindowAttributesReply {
                        override_redirect,
                        map_state: state,
                        your_event_mask,
                    },
                ),
            ),
            None => Err(X11Error::ParseError(ParseError::InvalidValue)),
        }
    }

    /// Whether a window manager takes care of a window with these
    /// attributes: it does not place itself, and it is mapped.
    pub open spec fn manageable(&self) -> bool {
        !self.override_redirect && self.map_state != MapState::Unmapped
    }

    #[verifier::when_used_as_spec(manageable)]
    pub fn is_manageable(&self) -> (r: bool)
        ensures
            r == self.manageable(),
    {
        !self.override_redirect && self.map_state != MapState::Unmapped
    }
}

/// Trusted: `std::str::from_utf8`. The contract claims that it succeeds
/// exactly on well-formed UTF-8 and that the string then consists of the
/// bytes it was given.
#[verifier::external_body]
fn str_from_utf8(bytes: &[u8]) -> (r: Option<&str>)
    ensures
        r is Some <==> valid_utf8(bytes@),
        r matches Some(text) ==> text.spec_bytes() == bytes@,
{
    match std::str::from_utf8(bytes) {
        Ok(text) => Some(text),
        Err(_) => None,
    }
}

/// The class that a `WM_CLASS` property decodes to. A property of which
/// either string is not UTF-8 decodes to nothing.
pub open spec fn decoded_class(reply: WmClassReply) -> Option<X11WmClassView> {
    if valid_utf8(reply.instance@) && valid_utf8(reply.class@) {
        Some(
            X11WmClassView {
                instance: decode_utf8(reply.instance@),
                class: decode_utf8(reply.class@),
            },
        )
    } else {
        None
    }
}

/// The view of an optional class.
pub open spec fn class_view(class: Option<X11WmClass>) -> Option<X11WmClassView> {
    match class {
        Some(class) => Some(class@),
        None => None,
    }
}

/// The view of an optional window.
pub open spec fn window_view(window: Option<X11Window>) -> Option<X11WindowView> {
    match window {
        Some(window) => Some(window@),
        None => None,
    }
}

impl X11WmClass {
    /// Decodes the two strings of a `WM_CLASS` property.
    pub fn decode(reply: &WmClassReply) -> (r: Option<X11WmClass>)
        ensures
            class_view(r) == decoded_class(*reply),
    {
        match str_from_utf8(reply.instance.as_slice()) {
            Some(instance) => match str_from_utf8(reply.class.as_slice()) {
                Some(class) => {
                    proof {
                        encode_utf8_decode_utf8(instance@);
                        encode_utf8_decode_utf8(class@);
                    }
                    Some(X11WmClass { instance: instance.to_owned(), class: class.to_owned() })
                },
                None => None,
            },
            None => None,
        }
    }
}

/// The attributes that a get-attributes request resolved to, if it did.
pub open spec fn resolved_attributes(outcome: Outcome) -> Option<X11GetWindowAttributesReply> {
    match outcome {
        Ok(Reply::GetWindowAttributes(attributes)) => Some(attributes),
        _ => None,
    }
}

/// The geometry that a get-geometry request resolved to, if it did.
pub open spec fn resolved_geometry(outcome: Outcome) -> Option<X11GetGeometryReply> {
    match outcome {
        Ok(Reply::GetGeometry(geometry)) => Some(geometry),
        _ => None,
    }
}

/// The class that a `WM_CLASS` request resolved to, if it resolved at all.
///
/// The property is read unchecked: where the server answers with an error
/// packet, or with data that cannot be a `WM_CLASS`, the window has no
/// class. Only the loss of the session makes the request fail.
pub open spec fn resolved_class(outcome: Outcome) -> Option<Option<X11WmClassView>> {
    match outcome {
        Ok(Reply::WmClass(Some(reply))) => Some(decoded_class(reply)),
        Ok(_) => Some(None),
        Err(e) => if e.is_fatal() {
            None
        } else {
            Some(None)
        },
    }
}

/// The window that the three requests about `id` resolved to, or `None`
/// where one of them failed.
pub open spec fn resolved_window(
    id: X11WindowId,
    attributes: Outcome,
    geometry: Outcome,
    class: Outcome,
) -> Option<X11WindowView> {
    match (resolved_attributes(attributes), resolved_geometry(geometry), resolved_class(class)) {
        (Some(attributes), Some(geometry), Some(wm_class)) => Some(
            X11WindowView { id, attributes, geometry, wm_class },
        ),
        _ => None,
    }
}

fn resolve_attributes(outcome: &Outcome) -> (r: Option<X11GetWindowAttributesReply>)
    ensures
        r == resolved_attributes(*outcome),
{
    match outcome {
        Ok(Reply::GetWindowAttributes(attributes)) => Some(*attributes),
        _ => None,
    }
}

fn resolve_geometry(outcome: &Outcome) -> (r: Option<X11GetGeometryReply>)
    ensures
        r == resolved_geometry(*outcome),
{
    match outcome {
        Ok(Reply::GetGeometry(geometry)) => Some(*geometry),
        _ => None,
    }
}

fn resolve_class(outcome: &Outcome) -> (r: Option<Option<X11WmClass>>)
    ensures
        match resolved_class(*outcome) {
            Some(class) => r matches Some(c) && class_view(c) == class,
            None => r is None,
        },
{
    match outcome {
        Ok(Reply::WmClass(Some(reply))) => Some(X11WmClass::decode(reply)),
        Ok(_) => Some(None),
        Err(e) => if e.is_fatal() {
            None
        } else {
            Some(None)
        },
    }
}

impl X11Window {
    /// Creates a new X11Window.
    pub fn new(
        id: X11WindowId,
        attributes: X11GetWindowAttributesReply,
        geometry: X11GetGeometryReply,
        wm_class: Option<X11WmClass>,
    ) -> (r: Self)
        ensures
            r == (X11Window { id, attributes, geometry, wm_class }),
    {
        X11Window { id, attributes, geometry, wm_class }
    }

    /// Puts together what the server said about the window `id`, given the
    /// outcomes of the three requests about it. There are no partial
    /// records: where one of the requests failed, there is no window.
    pub fn resolve(id: X11WindowId, attributes: &Outcome, geometry: &Outcome, class: &Outcome) -> (r:
        Option<X11Window>)
        ensures
            window_view(r) == resolved_window(id, *attributes, *geometry, *class),
    {
        match resolve_attributes(attributes) {
            Some(attributes) => match resolve_geometry(geometry) {
                Some(geometry) => match resolve_class(class) {
                    Some(wm_class) => Some(X11Window::new(id, attributes, geometry, wm_class)),
                    None => None,
                },
                None => None,
            },
            None => None,
        }
    }

    /// Returns the second item of the WM_CLASS prop of a window if it's
    /// present. This is the "type" of a window, useful for targeting
    /// specific windows.
    pub fn get_wm_class(&self) -> (r: Option<String>)
        ensures
            match self.wm_class {
                Some(class) => r matches Some(name) && name@ == class.class@,
                None => r is None,
            },
    {
        match &self.wm_class {
            Some(class) => Some(class.class.clone()),
            None => None,
        }
    }

    /// Returns the first item of the WM_CLASS prop of a window if it's
    /// present. This is the instance name of a window.
    pub fn get_wm_class_instance(&self) -> (r: Option<String>)
        ensures
            match self.wm_class {
                Some(class) => r matches Some(name) && name@ == class.instance@,
                None => r is None,
            },
    {
        match &self.wm_class {
            Some(class) => Some(class.instance.clone()),
            None => None,
        }
    }

    /// Retrieves the managed children of this window.
    pub fn get_subwindows(&self) -> (r: (WindowQuery, Vec<Request>))
        ensures
            r.0 == (WindowQuery::Tree { include_unmanaged: false }),
            r.1@ == seq![Request::QueryTree { window: self.id }],
    {
        WindowQuery::start(self.id, false)
    }

    /// Destroys the window. It is taken out of the save-set first, so that
    /// the server does not keep an entry for a window that is gone should
    /// the window manager die between the two requests.
    pub fn destroy(&self) -> (r: Vec<Request>)
        ensures
            r@ == seq![
                Request::ChangeSaveSet { mode: SetMode::Delete, window: self.id },
                Request::DestroyWindow { window: self.id },
            ],
    {
        let mut requests: Vec<Request> = Vec::new();
        requests.push(Request::ChangeSaveSet { mode: SetMode::Delete, window: self.id });
        requests.push(Request::DestroyWindow { window: self.id });
        requests
    }

    /// Destroys all subwindows.
    pub fn destroy_subwindows(&self) -> (r: Request)
        ensures
            r == (Request::DestroySubwindows { window: self.id }),
    {
        Request::DestroySubwindows { window: self.id }
    }

    /// Unmaps ("hides") the window.
    pub fn unmap(&self) -> (r: Request)
        ensures
            r == (Request::UnmapWindow { window: self.id }),
    {
        Request::UnmapWindow { window: self.id }
    }

    /// Maps ("shows") the window.
    pub fn map(&self) -> (r: Request)
        ensures
            r == (Request::MapWindow { window: self.id }),
    {
        Request::MapWindow { window: self.id }
    }

    /// Maps ("shows") the subwindows of the window.
    pub fn map_subwindows(&self) -> (r: Request)
        ensures
            r == (Request::MapSubwindows { window: self.id }),
    {
        Request::MapSubwindows { window: self.id }
    }

    /// Unmaps ("hides") the subwindows of the window.
    pub fn unmap_subwindows(&self) -> (r: Request)
        ensures
            r == (Request::UnmapSubwindows { window: self.id }),
    {
        Request::UnmapSubwindows { window: self.id }
    }
}

/// A `WM_CLASS` property that is not UTF-8 does not cost the window: the
/// window resolves, without a class.
pub proof fn lemma_invalid_class_is_no_failure(
    id: X11WindowId,
    attributes: X11GetWindowAttributesReply,
    geometry: X11GetGeometryReply,
    reply: WmClassReply,
)
    requires
        !valid_utf8(reply.instance@) || !valid_utf8(reply.class@),
    ensures
        resolved_window(
            id,
            Ok(Reply::GetWindowAttributes(attributes)),
            Ok(Reply::GetGeometry(geometry)),
            Ok(Reply::WmClass(Some(reply))),
        ) == Some(X11WindowView { id, attributes, geometry, wm_class: None }),
{
}

/// Reading the class costs the window only where the session is lost: with
/// attributes and geometry delivered, the window resolves unless the class
/// request ended in a fatal error.
pub proof fn lemma_class_fails_only_fatally(
    id: X11WindowId,
    attributes: X11GetWindowAttributesReply,
    geometry: X11GetGeometryReply,
    class: Outcome,
)
    ensures
        resolved_window(
            id,
            Ok(Reply::GetWindowAttributes(attributes)),
            Ok(Reply::GetGeometry(geometry)),
            class,
        ) is None <==> (class matches Err(e) && e.is_fatal()),
{
}

} // verus!
