use yoga::event::{
    dispatch, handle_configure_request, step, ConfigureRequestEvent, Event, LoopAction, LoopInput,
    LoopState, LoopStep,
};
use yoga::x11::error::{
    ConnectionError, ParseError, ProtocolError, ReplyError, X11Error,
};
use yoga::x11::request::{ConfigureWindowAux, Request};

const X: u16 = 1;
const Y: u16 = 2;
const WIDTH: u16 = 4;
const HEIGHT: u16 = 8;
const BORDER_WIDTH: u16 = 16;
const SIBLING: u16 = 32;
const STACK_MODE: u16 = 64;

fn event(value_mask: u16) -> ConfigureRequestEvent {
    ConfigureRequestEvent {
        stack_mode: 1,
        parent: 0x1d4,
        window: 0x80_0003,
        sibling: 0x80_0001,
        x: -20,
        y: 35,
        width: 1024,
        height: 768,
        border_width: 3,
        value_mask,
    }
}

fn values(x: Option<i32>, y: Option<i32>, width: Option<u32>, height: Option<u32>) -> Request {
    Request::ConfigureWindow {
        window: 0x80_0003,
        values: ConfigureWindowAux { x, y, width, height },
    }
}

fn lost() -> X11Error {
    X11Error::ConnectionError(ConnectionError::IoError)
}

fn rejected() -> X11Error {
    X11Error::ReplyError(ReplyError::X11Error(ProtocolError {
        error_code: 8,
        sequence: 4,
        bad_value: 0,
        minor_opcode: 0,
        major_opcode: 12,
    }))
}

#[test]
fn resize_request_sets_exactly_width_and_height() {
    assert_eq!(
        handle_configure_request(&event(WIDTH | HEIGHT)),
        values(None, None, Some(1024), Some(768))
    );
}

#[test]
fn every_flagged_field_is_copied_and_no_other() {
    for mask in 0u16..16 {
        let expected = values(
            if mask & X != 0 { Some(-20) } else { None },
            if mask & Y != 0 { Some(35) } else { None },
            if mask & WIDTH != 0 { Some(1024) } else { None },
            if mask & HEIGHT != 0 { Some(768) } else { None },
        );
        assert_eq!(handle_configure_request(&event(mask)), expected);
    }
}

#[test]
fn move_request_sets_exactly_the_position() {
    assert_eq!(handle_configure_request(&event(X | Y)), values(Some(-20), Some(35), None, None));
    assert_eq!(handle_configure_request(&event(X)), values(Some(-20), None, None, None));
}

#[test]
fn border_and_stacking_are_not_passed_on() {
    assert_eq!(
        handle_configure_request(&event(BORDER_WIDTH | SIBLING | STACK_MODE)),
        values(None, None, None, None)
    );
    assert_eq!(
        handle_configure_request(&event(0xffff)),
        values(Some(-20), Some(35), Some(1024), Some(768))
    );
}

#[test]
fn extreme_values_are_widened_unchanged() {
    let mut e = event(X | Y | WIDTH | HEIGHT);
    e.x = i16::MIN;
    e.y = i16::MAX;
    e.width = u16::MAX;
    e.height = 0;
    assert_eq!(
        handle_configure_request(&e),
        values(Some(-32768), Some(32767), Some(65535), Some(0))
    );
}

#[test]
fn dispatch_answers_configure_requests_only() {
    assert_eq!(
        dispatch(&Event::ConfigureRequest(event(WIDTH))),
        vec![values(None, None, Some(1024), None)]
    );
    assert_eq!(dispatch(&Event::Other), Vec::new());
}

#[test]
fn an_event_makes_the_loop_drain() {
    for state in [LoopState::Blocked, LoopState::Draining] {
        assert_eq!(
            step(state, &LoopInput::Event(Event::Other)),
            LoopStep { state: LoopState::Draining, requests: Vec::new() }
        );
        assert_eq!(
            step(state, &LoopInput::Event(Event::ConfigureRequest(event(X | HEIGHT)))),
            LoopStep {
                state: LoopState::Draining,
                requests: vec![values(Some(-20), None, None, Some(768))],
            }
        );
    }
}

#[test]
fn an_empty_poll_makes_the_loop_block() {
    for state in [LoopState::Blocked, LoopState::Draining] {
        assert_eq!(
            step(state, &LoopInput::Idle),
            LoopStep { state: LoopState::Blocked, requests: Vec::new() }
        );
    }
}

#[test]
fn a_fatal_failure_stops_the_loop() {
    for state in [LoopState::Blocked, LoopState::Draining] {
        assert_eq!(
            step(state, &LoopInput::Failure(lost())),
            LoopStep { state: LoopState::Stopped(lost()), requests: Vec::new() }
        );
    }
}

#[test]
fn a_failed_request_does_not_stop_the_loop() {
    for state in [LoopState::Blocked, LoopState::Draining] {
        assert_eq!(
            step(state, &LoopInput::Failure(rejected())),
            LoopStep { state, requests: Vec::new() }
        );
        let malformed = X11Error::ParseError(ParseError::InvalidValue);
        assert_eq!(
            step(state, &LoopInput::Failure(malformed)),
            LoopStep { state, requests: Vec::new() }
        );
    }
}

#[test]
fn a_stopped_loop_stays_stopped() {
    let stopped = LoopState::Stopped(lost());
    let inputs = [
        LoopInput::Event(Event::ConfigureRequest(event(X))),
        LoopInput::Event(Event::Other),
        LoopInput::Idle,
        LoopInput::Failure(rejected()),
        LoopInput::Failure(X11Error::ConnectionError(ConnectionError::UnknownError)),
    ];
    for input in &inputs {
        assert_eq!(step(stopped, input), LoopStep { state: stopped, requests: Vec::new() });
    }
}

#[test]
fn each_state_has_its_action() {
    assert_eq!(LoopState::Blocked.action(), LoopAction::FlushAndWait);
    assert_eq!(LoopState::Draining.action(), LoopAction::Poll);
    assert_eq!(LoopState::Stopped(lost()).action(), LoopAction::Stop(lost()));
}

#[test]
fn a_burst_of_events_is_drained_before_blocking() {
    let inputs = [
        LoopInput::Event(Event::ConfigureRequest(event(WIDTH | HEIGHT))),
        LoopInput::Event(Event::Other),
        LoopInput::Event(Event::ConfigureRequest(event(X))),
        LoopInput::Idle,
    ];
    let mut state = LoopState::Blocked;
    let mut sent = Vec::new();
    let mut actions = vec![state.action()];
    for input in &inputs {
        let next = step(state, input);
        state = next.state;
        sent.extend(next.requests);
        actions.push(state.action());
    }
    assert_eq!(
        actions,
        vec![
            LoopAction::FlushAndWait,
            LoopAction::Poll,
            LoopAction::Poll,
            LoopAction::Poll,
            LoopAction::FlushAndWait,
        ]
    );
    assert_eq!(
        sent,
        vec![values(None, None, Some(1024), Some(768)), values(Some(-20), None, None, None)]
    );
}
