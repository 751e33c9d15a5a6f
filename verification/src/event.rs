//! Events of the display server and what the window manager does on each.
//!
//! The event loop has two states. While it is blocked it waits for the next
//! event; once an event arrived it drains: it polls until no event is
//! queued, then flushes what it wants sent and blocks again. `step` decides
//! what each event, each empty poll and each failure does to the loop; the
//! program around it waits, polls and sends.

use vstd::prelude::*;

use crate::x11::request::{
    config_window_bits, config_window_height, config_window_width, config_window_x,
    config_window_y, ConfigureWindowAux, Request,
};
use crate::x11::windows::X11WindowId;
use crate::x11::X11Error;

verus! {

/// A client asked to have one of its windows moved, resized or restacked.
/// The request was redirected to the window manager, which decides.
#[derive(Debug, Clone, Copy, PartialEq, Eq)]
pub struct ConfigureRequestEvent {
    pub stack_mode: u32,
    pub parent: X11WindowId,
    pub window: X11WindowId,
    pub sibling: X11WindowId,
    pub x: i16,
    pub y: i16,
    pub width: u16,
    pub height: u16,
    pub border_width: u16,
    /// Which of the fields the client set; the others hold no wish.
    pub value_mask: u16,
}

/// An event of the display server.
#[derive(Debug, Clone, Copy, PartialEq, Eq)]
pub enum Event {
    ConfigureRequest(ConfigureRequestEvent),
    /// An event that this layer has no business with.
    Other,
}

/// Whether a value-mask flags the field that `bit` stands for.
pub open spec fn flagged(mask: u16, bit: u16) -> bool {
    mask & bit != 0
}

/// The values a configure request passes on: position and size as the
/// client asked for them, and nothing for what the client did not flag.
pub open spec fn configure_values(event: ConfigureRequestEvent) -> ConfigureWindowAux {
    ConfigureWindowAux {
        x: if flagged(event.value_mask, config_window_x()) {
            Some(event.x as i32)
        } else {
            None
        },
        y: if flagged(event.value_mask, config_window_y()) {
            Some(event.y as i32)
        } else {
            None
        },
        width: if flagged(event.value_mask, config_window_width()) {
            Some(event.width as u32)
        } else {
            None
        },
        height: if flagged(event.value_mask, config_window_height()) {
            Some(event.height as u32)
        } else {
            None
        },
    }
}

/// The request that answers a configure request.
pub open spec fn configure_request(event: ConfigureRequestEvent) -> Request {
    Request::ConfigureWindow { window: event.window, values: configure_values(event) }
}

/// Answers a configure request of a client by configuring the window as the
/// client wished: the fields that the value-mask of the event flags are
/// copied into the request, every other field is left as the server has it.
/// No layout is applied here.
pub fn handle_configure_request(event: &ConfigureRequestEvent) -> (r: Request)
    ensures
        r == configure_request(*event),
{
    let (x_bit, y_bit, width_bit, height_bit) = config_window_bits();
    let mut values = ConfigureWindowAux { x: None, y: None, width: None, height: None };
    if event.value_mask & x_bit != 0 {
        values.x = Some(event.x as i32);
    }
    if event.value_mask & y_bit != 0 {
        values.y = Some(event.y as i32);
    }
    if event.value_mask & width_bit != 0 {
        values.width = Some(event.width as u32);
    }
    if event.value_mask & height_bit != 0 {
        values.height = Some(event.height as u32);
    }
    Request::ConfigureWindow { window: event.window, values }
}

/// The requests that an event leads to.
pub open spec fn dispatched(event: Event) -> Seq<Request> {
    match event {
        Event::ConfigureRequest(request) => seq![configure_request(request)],
        Event::Other => Seq::empty(),
    }
}

/// Routes an event: a configure request is answered, any other event does
/// nothing at this layer.
pub fn dispatch(event: &Event) -> (r: Vec<Request>)
    ensures
        r@ == dispatched(*event),
{
    let mut requests: Vec<Request> = Vec::new();
    match event {
        Event::ConfigureRequest(request) => {
            requests.push(handle_configure_request(request));
        },
        Event::Other => {},
    }
    requests
}

/// Where the event loop stands.
#[derive(Debug, Clone, Copy, PartialEq, Eq)]
pub enum LoopState {
    /// Everything is flushed; the loop waits for the next event.
    Blocked,
    /// An event arrived; the loop polls for more.
    Draining,
    /// The session is lost. The loop is over and ends with this error.
    Stopped(X11Error),
}

/// What happened since the last step of the event loop.
#[derive(Debug, Clone, Copy, PartialEq, Eq)]
pub enum LoopInput {
    /// The server sent an event.
    Event(Event),
    /// No event is queued.
    Idle,
    /// Waiting, polling or one of the requests of the loop failed.
    Failure(X11Error),
}

/// What the program around the loop does next.
#[derive(Debug, Clone, Copy, PartialEq, Eq)]
pub enum LoopAction {
    /// Flush what is buffered, then wait until the server sends an event.
    FlushAndWait,
    /// Look whether another event is queued, without waiting.
    Poll,
    /// Give up with this error.
    Stop(X11Error),
}

impl LoopState {
    /// What each state asks for: nothing may be left unsent while the loop
    /// blocks.
    pub open spec fn action_spec(&self) -> LoopAction {
        match *self {
            LoopState::Blocked => LoopAction::FlushAndWait,
            LoopState::Draining => LoopAction::Poll,
            LoopState::Stopped(error) => LoopAction::Stop(error),
        }
    }

    /// What to do in this state.
    #[verifier::when_used_as_spec(action_spec)]
    pub fn action(&self) -> (r: LoopAction)
        ensures
            r == self.action_spec(),
    {
        match self {
            LoopState::Blocked => LoopAction::FlushAndWait,
            LoopState::Draining => LoopAction::Poll,
            LoopState::Stopped(error) => LoopAction::Stop(*error),
        }
    }
}

/// The outcome of one step of the event loop.
#[derive(Debug, Clone, PartialEq, Eq)]
pub struct LoopStep {
    /// Where the loop stands now.
    pub state: LoopState,
    /// What to send before going on.
    pub requests: Vec<Request>,
}

/// The state after one step.
///
/// Any event makes the loop drain; an empty poll makes it block. A failure
/// stops the loop if it is fatal and leaves it where it was if not. A
/// stopped loop stays stopped.
pub open spec fn next_state(state: LoopState, input: LoopInput) -> LoopState {
    match state {
        LoopState::Stopped(_) => state,
        _ => match input {
            LoopInput::Event(_) => LoopState::Draining,
            LoopInput::Idle => LoopState::Blocked,
            LoopInput::Failure(error) => if error.is_fatal() {
                LoopState::Stopped(error)
            } else {
                state
            },
        },
    }
}

/// The requests of one step: those of the event, unless the loop is over.
pub open spec fn step_requests(state: LoopState, input: LoopInput) -> Seq<Request> {
    match (state, input) {
        (LoopState::Stopped(_), _) => Seq::empty(),
        (_, LoopInput::Event(event)) => dispatched(event),
        _ => Seq::empty(),
    }
}

/// One step of the event loop: takes what happened and says where the loop
/// stands afterwards and what it wants sent.
///
/// `LoopState::action` says what the caller does in the new state.
pub fn step(state: LoopState, input: &LoopInput) -> (r: LoopStep)
    ensures
        r.state == next_state(state, *input),
        r.requests@ == step_requests(state, *input),
{
    match state {
        LoopState::Stopped(_) => LoopStep { state, requests: Vec::new() },
        _ => match input {
            LoopInput::Event(event) => LoopStep {
                state: LoopState::Draining,
                requests: dispatch(event),
            },
            LoopInput::Idle => LoopStep { state: LoopState::Blocked, requests: Vec::new() },
            LoopInput::Failure(error) => {
                if error.is_fatal() {
                    LoopStep { state: LoopState::Stopped(*error), requests: Vec::new() }
                } else {
                    LoopStep { state, requests: Vec::new() }
                }
            },
        },
    }
}

/// A configure request that flags width and height and nothing else is
/// answered with exactly width and height: the position stays as the
/// server has it.
pub proof fn lemma_resize_leaves_position(event: ConfigureRequestEvent)
    requires
        event.value_mask == config_window_width() | config_window_height(),
    ensures
        configure_values(event) == (ConfigureWindowAux {
            x: None,
            y: None,
            width: Some(event.width as u32),
            height: Some(event.height as u32),
        }),
{
    assert((4u16 | 8u16) & 1u16 == 0) by (bit_vector);
    assert((4u16 | 8u16) & 2u16 == 0) by (bit_vector);
    assert((4u16 | 8u16) & 4u16 != 0) by (bit_vector);
    assert((4u16 | 8u16) & 8u16 != 0) by (bit_vector);
}

/// The loop drains after any event and blocks after an empty poll, from
/// either of its running states; only a fatal failure stops it, and
/// nothing restarts it.
pub proof fn lemma_loop_transitions(state: LoopState, input: LoopInput)
    ensures
        state !is Stopped && input is Event ==> next_state(state, input) == LoopState::Draining,
        state !is Stopped && input is Idle ==> next_state(state, input) == LoopState::Blocked,
        state !is Stopped ==> (next_state(state, input) is Stopped <==> (input matches LoopInput::Failure(
            e,
        ) && e.is_fatal())),
        state is Stopped ==> next_state(state, input) == state && step_requests(state, input)
            == Seq::<Request>::empty(),
{
}

} // verus!
