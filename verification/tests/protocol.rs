use smart_home::handler::RequestHandler;
use smart_home::home::Home;
use smart_home::request::Request;
use smart_home::server::session_step;
use smart_home::server::SessionAction;
use smart_home::server::SessionEvent;
use smart_home::server::SessionState;

#[test]
fn sockets() {
    let home = Home::default();
    let mut handler = RequestHandler::new(home);

    let socket_id = String::from("socket_1");
    let req_str = format!("create_socket|||{}|||{}|||{}", socket_id, 100, false);
    let req = Request::new(&req_str);
    assert_eq!(handler.handle(req), format!("Socket `{}` created", socket_id));

    let req_str = format!("toggle_socket|||{}", socket_id);
    let req = Request::new(&req_str);
    handler.handle(req);

    let req_str = format!("fetch_socket|||{}", socket_id);
    let req = Request::new(&req_str);
    let fetched = handler.handle(req);

    assert_eq!(fetched, "Socket socket_1 state is true, power is 100");
}

#[test]
fn thermos() {
    let home = Home::default();
    let mut handler = RequestHandler::new(home);

    let thermo_id = String::from("thermo_1");
    let req_str = format!("create_thermo|||{}|||{}", thermo_id, 100);
    let req = Request::new(&req_str);
    assert_eq!(handler.handle(req), format!("Thermo `{}` created", thermo_id));

    let req_str = format!("set_thermo|||{}|||{}", thermo_id, 50);
    let req = Request::new(&req_str);
    handler.handle(req);

    let req_str = format!("fetch_thermo|||{}", thermo_id);
    let req = Request::new(&req_str);
    let fetched = handler.handle(req);

    assert_eq!(fetched, "Thermo thermo_1 temperature is 50");
}

#[test]
fn fetch_after_append() {
    let mut home = Home::default();

    let socket_id_1 = "socket_1".into();
    let socket_id_2 = "socket_2".into();

    let socket1 = home.create_socket(socket_id_1, 100, true).unwrap();
    let socket2 = home.create_socket(socket_id_2, 50, false).unwrap();

    home.toggle_socket(&socket1).unwrap();
    home.toggle_socket(&socket2).unwrap();

    let info = home.socket_info(socket1);
    println!("message: {:?}", info);
}

#[test]
fn unknown_command_is_rejected() {
    let mut handler = RequestHandler::new(Home::default());
    let resp = handler.handle(Request::new("frobnicate|||x"));
    assert_eq!(resp, "Bad command");
}

#[test]
fn fetch_unknown_socket() {
    let mut handler = RequestHandler::new(Home::default());
    let resp = handler.handle(Request::new("fetch_socket|||nobody"));
    assert_eq!(resp, "Unknown socket");
}

#[test]
fn fetch_unknown_thermo() {
    let mut handler = RequestHandler::new(Home::default());
    let resp = handler.handle(Request::new("fetch_thermo|||nobody"));
    assert_eq!(resp, "Unknown thermo");
}

#[test]
fn malformed_then_wellformed_on_same_handler() {
    let mut handler = RequestHandler::new(Home::default());

    let resp = handler.handle(Request::new("create_socket|||socket_2"));
    assert_eq!(resp, "Provide socket power");

    let resp = handler.handle(Request::new("create_socket|||socket_2|||50|||true"));
    assert_eq!(resp, "Socket `socket_2` created");

    let resp = handler.handle(Request::new("fetch_socket|||socket_2"));
    assert_eq!(resp, "Socket socket_2 state is true, power is 50");
}

#[test]
fn missing_fields_name_the_field() {
    let mut handler = RequestHandler::new(Home::default());
    assert_eq!(handler.handle(Request::new("create_socket")), "Provide socket id");
    assert_eq!(handler.handle(Request::new("create_socket|||")), "Provide socket id");
    assert_eq!(handler.handle(Request::new("create_socket|||s")), "Provide socket power");
    assert_eq!(handler.handle(Request::new("create_socket|||s|||5")), "Provide socket state");
    assert_eq!(handler.handle(Request::new("fetch_socket")), "Provide socket id");
    assert_eq!(handler.handle(Request::new("toggle_socket")), "Select socket id");
    assert_eq!(handler.handle(Request::new("create_thermo")), "Provide thermo id");
    assert_eq!(handler.handle(Request::new("create_thermo|||t")), "Provide thermo power");
    assert_eq!(handler.handle(Request::new("fetch_thermo")), "Provide thermo id");
    assert_eq!(handler.handle(Request::new("set_thermo")), "Select thermo id");
    assert_eq!(handler.handle(Request::new("set_thermo|||t")), "Provide thermo power");
}

#[test]
fn toggle_and_set_on_missing_devices() {
    let mut handler = RequestHandler::new(Home::default());
    assert_eq!(handler.handle(Request::new("toggle_socket|||ghost")), "Bad socket");
    assert_eq!(handler.handle(Request::new("set_thermo|||ghost|||5")), "Bad thermo");
}

#[test]
fn lenient_numeric_parsing_defaults_to_zero() {
    let mut handler = RequestHandler::new(Home::default());

    handler.handle(Request::new("create_socket|||s|||notanumber|||false"));
    assert_eq!(
        handler.handle(Request::new("fetch_socket|||s")),
        "Socket s state is false, power is 0"
    );

    handler.handle(Request::new("create_thermo|||t|||99999999999999999999"));
    assert_eq!(
        handler.handle(Request::new("fetch_thermo|||t")),
        "Thermo t temperature is 0"
    );
}

#[test]
fn create_twice_reports_already_exists() {
    let mut handler = RequestHandler::new(Home::default());

    assert_eq!(
        handler.handle(Request::new("create_socket|||s|||100|||true")),
        "Socket `s` created"
    );
    assert_eq!(
        handler.handle(Request::new("create_socket|||s|||7|||false")),
        "Socket `s` already exists"
    );
    assert_eq!(
        handler.handle(Request::new("fetch_socket|||s")),
        "Socket s state is true, power is 100"
    );

    assert_eq!(handler.handle(Request::new("create_thermo|||t|||5")), "Thermo `t` created");
    assert_eq!(
        handler.handle(Request::new("create_thermo|||t|||8")),
        "Thermo `t` already exists"
    );
    assert_eq!(handler.handle(Request::new("fetch_thermo|||t")), "Thermo t temperature is 5");
}

#[test]
fn session_serves_until_transport_closes() {
    let mut handler = RequestHandler::new(Home::default());

    let (state, action) = session_step(
        SessionState::Serving,
        &mut handler,
        SessionEvent::Received("create_socket|||s|||5|||true".into()),
    );
    assert!(matches!(state, SessionState::Serving));
    match action {
        SessionAction::Send(resp) => assert_eq!(resp, "Socket `s` created"),
        SessionAction::Stop => panic!("the session should keep serving"),
    }

    let (state, action) =
        session_step(SessionState::Serving, &mut handler, SessionEvent::TransportClosed);
    assert!(matches!(state, SessionState::Closed));
    assert!(matches!(action, SessionAction::Stop));

    let (state, action) = session_step(
        SessionState::Closed,
        &mut handler,
        SessionEvent::Received("fetch_socket|||s".into()),
    );
    assert!(matches!(state, SessionState::Closed));
    assert!(matches!(action, SessionAction::Stop));
}

#[test]
fn empty_line_is_a_bad_command() {
    let mut handler = RequestHandler::new(Home::default());
    assert_eq!(handler.handle(Request::new("")), "Bad command");
    assert_eq!(handler.handle(Request::new("|||")), "Bad command");
}
