use yoga::x11::connect;
use yoga::x11::error::{
    ConnectError, ConnectionError, ParseError, ProtocolError, ReplyError, ReplyOrIdError, X11Error,
};
use yoga::x11::request::{Outcome, Reply, Request};
use yoga::x11::screens::{
    get_all_screens, get_screen, manage_all_screens, manage_screen, manage_screen_result,
    AcquisitionError, IndexError, X11Screen,
};

const SUBSTRUCTURE_NOTIFY: u32 = 1 << 19;
const SUBSTRUCTURE_REDIRECT: u32 = 1 << 20;

fn screen(root: u32) -> X11Screen {
    X11Screen { root, width_in_pixels: 1920, height_in_pixels: 1080, root_depth: 24, root_visual: 33 }
}

fn error_packet(error_code: u8) -> ProtocolError {
    ProtocolError { error_code, sequence: 7, bad_value: 0, minor_opcode: 0, major_opcode: 2 }
}

/// A display server that knows one rule: substructure redirection on a
/// window goes to the first client that selects it.
struct Server {
    redirected: Vec<(u32, u32)>,
}

impl Server {
    fn new() -> Self {
        Server { redirected: Vec::new() }
    }

    fn answer(&mut self, client: u32, request: &Request) -> Outcome {
        match *request {
            Request::ChangeWindowAttributes { window, event_mask } => {
                if event_mask & SUBSTRUCTURE_REDIRECT != 0 {
                    let taken = self.redirected.iter().any(|&(w, c)| w == window && c != client);
                    if taken {
                        return Err(X11Error::ReplyError(ReplyError::X11Error(error_packet(10))));
                    }
                    self.redirected.push((window, client));
                }
                Ok(Reply::Done)
            }
            _ => Ok(Reply::Done),
        }
    }
}

#[test]
fn get_screen_returns_the_screen_at_the_index() {
    let roots = vec![screen(100), screen(200), screen(300)];
    let (connection, default_screen) = connect(roots.clone(), 1).unwrap();
    assert_eq!(default_screen, 1);
    assert_eq!(get_all_screens(&connection), &roots);
    for (index, expected) in roots.iter().enumerate() {
        assert_eq!(get_screen(&connection, index), Ok(expected));
    }
    assert_eq!(get_all_screens(&connection), &roots);
}

#[test]
fn get_screen_out_of_range_is_an_index_error() {
    let (connection, _) = connect(vec![screen(100), screen(200)], 0).unwrap();
    assert_eq!(get_screen(&connection, 2), Err(IndexError { index: 2, len: 2 }));
    assert_eq!(
        get_screen(&connection, usize::MAX),
        Err(IndexError { index: usize::MAX, len: 2 })
    );
}

#[test]
fn connect_rejects_a_screen_the_server_does_not_have() {
    let result = connect(vec![screen(100)], 1);
    assert_eq!(result.err(), Some(X11Error::ConnectError(ConnectError::InvalidScreen)));
    let result = connect(Vec::new(), 0);
    assert_eq!(result.err(), Some(X11Error::ConnectError(ConnectError::InvalidScreen)));
}

#[test]
fn connect_keeps_the_screens_in_order() {
    let roots = vec![screen(3), screen(1), screen(2)];
    let (connection, num) = connect(roots.clone(), 2).unwrap();
    assert_eq!(num, 2);
    assert_eq!(connection.roots(), &roots);
}

#[test]
fn manage_screen_selects_redirect_and_notify_on_the_root() {
    assert_eq!(
        manage_screen(&screen(0x1d4)),
        Request::ChangeWindowAttributes { window: 0x1d4, event_mask: 0x18_0000 }
    );
    assert_eq!(SUBSTRUCTURE_REDIRECT | SUBSTRUCTURE_NOTIFY, 0x18_0000);
}

#[test]
fn manage_all_screens_asks_for_every_screen_in_order() {
    let (connection, _) = connect(vec![screen(10), screen(20), screen(30)], 0).unwrap();
    assert_eq!(
        manage_all_screens(&connection),
        vec![
            Request::ChangeWindowAttributes { window: 10, event_mask: 0x18_0000 },
            Request::ChangeWindowAttributes { window: 20, event_mask: 0x18_0000 },
            Request::ChangeWindowAttributes { window: 30, event_mask: 0x18_0000 },
        ]
    );
}

#[test]
fn manage_screen_result_success() {
    assert_eq!(manage_screen_result(&Ok(Reply::Done)), Ok(()));
}

#[test]
fn manage_screen_result_access_denied_means_another_manager() {
    let packet = error_packet(10);
    assert_eq!(
        manage_screen_result(&Err(X11Error::ReplyError(ReplyError::X11Error(packet)))),
        Err(AcquisitionError::AnotherManagerRunning(packet))
    );
    assert_eq!(
        manage_screen_result(&Err(X11Error::ReplyOrIdError(ReplyOrIdError::X11Error(packet)))),
        Err(AcquisitionError::AnotherManagerRunning(packet))
    );
}

#[test]
fn manage_screen_result_other_failures_are_generic() {
    for code in [0u8, 1, 2, 3, 8, 9, 11, 17, 255] {
        let error = X11Error::ReplyError(ReplyError::X11Error(error_packet(code)));
        assert_eq!(manage_screen_result(&Err(error)), Err(AcquisitionError::Failed(error)));
    }
    let broken = X11Error::ReplyError(ReplyError::ConnectionError(ConnectionError::IoError));
    assert_eq!(manage_screen_result(&Err(broken)), Err(AcquisitionError::Failed(broken)));
    let exhausted = X11Error::ReplyOrIdError(ReplyOrIdError::IdsExhausted);
    assert_eq!(manage_screen_result(&Err(exhausted)), Err(AcquisitionError::Failed(exhausted)));
}

#[test]
fn manage_screen_result_wrong_reply_is_malformed() {
    let tree = Reply::WmClass(None);
    assert_eq!(
        manage_screen_result(&Ok(tree)),
        Err(AcquisitionError::Failed(X11Error::ParseError(ParseError::InvalidValue)))
    );
}

#[test]
fn second_manager_is_told_that_another_is_running() {
    let mut server = Server::new();
    let root = screen(0x2a);
    let (first, _) = connect(vec![root], 0).unwrap();
    let (second, _) = connect(vec![root], 0).unwrap();

    let request = manage_screen(get_screen(&first, 0).unwrap());
    let first_result = manage_screen_result(&server.answer(1, &request));
    let request = manage_screen(get_screen(&second, 0).unwrap());
    let second_result = manage_screen_result(&server.answer(2, &request));

    assert_eq!(first_result, Ok(()));
    assert_eq!(second_result, Err(AcquisitionError::AnotherManagerRunning(error_packet(10))));
    let winners = [first_result, second_result].iter().filter(|r| r.is_ok()).count();
    assert_eq!(winners, 1);
}

#[test]
fn acquisition_error_maps_onto_the_taxonomy() {
    let packet = error_packet(10);
    assert_eq!(
        X11Error::from(AcquisitionError::AnotherManagerRunning(packet)),
        X11Error::ReplyError(ReplyError::X11Error(packet))
    );
    let inner = X11Error::ConnectionError(ConnectionError::IoError);
    assert_eq!(X11Error::from(AcquisitionError::Failed(inner)), inner);
}
