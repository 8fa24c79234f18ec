use smart_home::builder::Home;
use smart_home::builder::HomeBuilder;
use smart_home::client::create_socket_request;
use smart_home::client::create_thermo_request;
use smart_home::client::fetch_socket_request;
use smart_home::client::fetch_thermo_request;
use smart_home::client::set_thermo_request;
use smart_home::client::toggle_socket_request;
use smart_home::request::Request;

#[test]
fn splits_on_the_separator() {
    let mut req = Request::new("create_socket|||socket_1|||100|||false");
    assert_eq!(req.next(), "create_socket");
    assert_eq!(req.next(), "socket_1");
    assert_eq!(req.next(), "100");
    assert_eq!(req.next(), "false");
    assert_eq!(req.next(), "");
    assert_eq!(req.next(), "");
}

#[test]
fn missing_trailing_fields_read_as_empty() {
    let mut req = Request::new("toggle_socket");
    assert_eq!(req.next(), "toggle_socket");
    assert_eq!(req.next(), "");
}

#[test]
fn empty_line_has_one_empty_field() {
    let mut req = Request::new("");
    assert_eq!(req.next(), "");
    assert_eq!(req.next(), "");
}

#[test]
fn extra_pipe_stays_in_the_field() {
    let mut req = Request::new("a||||b");
    assert_eq!(req.next(), "a");
    assert_eq!(req.next(), "|b");
}

#[test]
fn adjacent_separators_give_empty_fields() {
    let mut req = Request::new("x||||||y");
    assert_eq!(req.next(), "x");
    assert_eq!(req.next(), "");
    assert_eq!(req.next(), "y");
}

#[test]
fn client_formats_commands() {
    assert_eq!(fetch_socket_request("s1"), "fetch_socket|||s1");
    assert_eq!(create_socket_request("s1", "100", "false"), "create_socket|||s1|||100|||false");
    assert_eq!(toggle_socket_request("s1"), "toggle_socket|||s1");
    assert_eq!(fetch_thermo_request("t1"), "fetch_thermo|||t1");
    assert_eq!(create_thermo_request("t1", "100"), "create_thermo|||t1|||100");
    assert_eq!(set_thermo_request("t1", "50"), "set_thermo|||t1|||50");
}

#[test]
fn builder_collects_fields() {
    let mut builder = Home::builder();
    builder.name(String::from("My Home"));
    builder.rooms(3);
    builder.area(100);
    builder.location(String::from("My Location"));
    let home = builder.build();
    assert_eq!(home.name(), "My Home");
    assert_eq!(home.rooms(), 3);
    assert_eq!(home.area(), 100);
    assert_eq!(home.location(), "My Location");
}

#[test]
fn builder_defaults_are_empty() {
    let mut builder = HomeBuilder::new();
    let home = builder.build();
    assert_eq!(home.name(), "");
    assert_eq!(home.rooms(), 0);
    assert_eq!(home.area(), 0);
    assert_eq!(home.location(), "");
}
