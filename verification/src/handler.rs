//! The request handler: reads one command line, dispatches to the
//! registry, and renders the textual response. Every outcome, including
//! every user error, is a fixed response string; the handler never fails.

use vstd::prelude::*;

verus! {

use vstd::string::StringExecFns;
use crate::home::Home;
use crate::home::HomeV;
use crate::home::create_socket_step;
use crate::home::create_thermo_step;
use crate::home::set_thermo_step;
use crate::home::socket_info_text;
use crate::home::thermo_info_text;
use crate::home::toggle_socket_step;
use crate::request::Request;
use crate::strutil::i64_to_string;
use crate::strutil::int_dec_rep;
use crate::strutil::parse_i64;
use crate::strutil::parse_i64_spec;
use crate::strutil::parse_u64;
use crate::strutil::parse_u64_spec;
use crate::strutil::str_eq;

/// The field at `i`, or an empty field when the line is shorter.
pub open spec fn fld(fields: Seq<Seq<char>>, i: int) -> Seq<char> {
    if 0 <= i < fields.len() {
        fields[i]
    } else {
        Seq::empty()
    }
}

/// The outcome of a `create_socket` command, given the fields after the
/// command name: the registry afterwards and the response line.
pub open spec fn create_socket_response(h: HomeV, rest: Seq<Seq<char>>) -> (HomeV, Seq<char>) {
    let id = fld(rest, 0);
    let power = fld(rest, 1);
    let state = fld(rest, 2);
    if id.len() == 0 {
        (h, "Provide socket id"@)
    } else if power.len() == 0 {
        (h, "Provide socket power"@)
    } else if state.len() == 0 {
        (h, "Provide socket state"@)
    } else {
        let power_value = match parse_u64_spec(power) {
            Some(v) => v,
            None => 0u64,
        };
        let on = (state == "true"@);
        if h.sockets.dom().contains(id) {
            (h, "Socket `"@ + id + "` already exists"@)
        } else {
            (create_socket_step(h, id, power_value, on), "Socket `"@ + id + "` created"@)
        }
    }
}

/// The outcome of a `fetch_socket` command.
pub open spec fn fetch_socket_response(h: HomeV, rest: Seq<Seq<char>>) -> (HomeV, Seq<char>) {
    let id = fld(rest, 0);
    if id.len() == 0 {
        (h, "Provide socket id"@)
    } else if h.sockets.dom().contains(id) {
        (h, socket_info_text(h.sockets[id].name, h.sockets[id].power, h.sockets[id].state))
    } else {
        (h, "Unknown socket"@)
    }
}

/// The outcome of a `toggle_socket` command.
pub open spec fn toggle_socket_response(h: HomeV, rest: Seq<Seq<char>>) -> (HomeV, Seq<char>) {
    let id = fld(rest, 0);
    if id.len() == 0 {
        (h, "Select socket id"@)
    } else if h.sockets.dom().contains(id) {
        (toggle_socket_step(h, id), "Socket `"@ + id + "` toggled"@)
    } else {
        (h, "Bad socket"@)
    }
}

/// The outcome of a `create_thermo` command.
pub open spec fn create_thermo_response(h: HomeV, rest: Seq<Seq<char>>) -> (HomeV, Seq<char>) {
    let id = fld(rest, 0);
    let temp = fld(rest, 1);
    if id.len() == 0 {
        (h, "Provide thermo id"@)
    } else if temp.len() == 0 {
        (h, "Provide thermo power"@)
    } else {
        let temp_value = match parse_i64_spec(temp) {
            Some(v) => v,
            None => 0i64,
        };
        if h.thermos.dom().contains(id) {
            (h, "Thermo `"@ + id + "` already exists"@)
        } else {
            (create_thermo_step(h, id, temp_value), "Thermo `"@ + id + "` created"@)
        }
    }
}

/// The outcome of a `fetch_thermo` command.
pub open spec fn fetch_thermo_response(h: HomeV, rest: Seq<Seq<char>>) -> (HomeV, Seq<char>) {
    let id = fld(rest, 0);
    if id.len() == 0 {
        (h, "Provide thermo id"@)
    } else if h.thermos.dom().contains(id) {
        (h, thermo_info_text(h.thermos[id].name, h.thermos[id].temp))
    } else {
        (h, "Unknown thermo"@)
    }
}

/// The outcome of a `set_thermo` command.
pub open spec fn set_thermo_response(h: HomeV, rest: Seq<Seq<char>>) -> (HomeV, Seq<char>) {
    let id = fld(rest, 0);
    let temp = fld(rest, 1);
    if id.len() == 0 {
        (h, "Select thermo id"@)
    } else if temp.len() == 0 {
        (h, "Provide thermo power"@)
    } else {
        let temp_value = match parse_i64_spec(temp) {
            Some(v) => v,
            None => 0i64,
        };
        if h.thermos.dom().contains(id) {
            (
                set_thermo_step(h, id, temp_value),
                "Thermo `"@ + id + "` set temp "@ + int_dec_rep(temp_value as int),
            )
        } else {
            (h, "Bad thermo"@)
        }
    }
}

/// The outcome of one command line: field 0 selects the command; an
/// unrecognized command name answers `Bad command` and changes nothing.
pub open spec fn handle_response(h: HomeV, fields: Seq<Seq<char>>) -> (HomeV, Seq<char>) {
    let cmd = fld(fields, 0);
    let rest = if fields.len() > 0 {
        fields.skip(1)
    } else {
        fields
    };
    if cmd == "create_socket"@ {
        create_socket_response(h, rest)
    } else if cmd == "fetch_socket"@ {
        fetch_socket_response(h, rest)
    } else if cmd == "toggle_socket"@ {
        toggle_socket_response(h, rest)
    } else if cmd == "create_thermo"@ {
        create_thermo_response(h, rest)
    } else if cmd == "fetch_thermo"@ {
        fetch_thermo_response(h, rest)
    } else if cmd == "set_thermo"@ {
        set_thermo_response(h, rest)
    } else {
        (h, "Bad command"@)
    }
}

/// A line whose command name is none of the six known commands answers
/// exactly `Bad command`, whatever else it carries, and changes nothing.
pub proof fn lemma_unknown_command(h: HomeV, fields: Seq<Seq<char>>)
    requires
        fld(fields, 0) != "create_socket"@,
        fld(fields, 0) != "fetch_socket"@,
        fld(fields, 0) != "toggle_socket"@,
        fld(fields, 0) != "create_thermo"@,
        fld(fields, 0) != "fetch_thermo"@,
        fld(fields, 0) != "set_thermo"@,
    ensures
        handle_response(h, fields) == (h, "Bad command"@),
{
}

/// Fetching any id that was never created answers exactly
/// `Unknown socket` and changes nothing.
pub proof fn lemma_fetch_unknown_socket(h: HomeV, id: Seq<char>)
    requires
        id.len() > 0,
        !h.sockets.dom().contains(id),
    ensures
        handle_response(h, seq!["fetch_socket"@, id]) == (h, "Unknown socket"@),
{
    reveal_strlit("create_socket");
    reveal_strlit("fetch_socket");
    let fields = seq!["fetch_socket"@, id];
    assert(fields.skip(1) =~= seq![id]);
    assert(fields[0] == "fetch_socket"@);
    assert("fetch_socket"@.len() == 12);
    assert("create_socket"@.len() == 13);
    assert(fld(fields, 0) != "create_socket"@);
}

/// A stateless dispatcher holding the registry it serves.
pub struct RequestHandler {
    home: Home,
}

impl View for RequestHandler {
    type V = HomeV;

    closed spec fn view(&self) -> HomeV {
        self.home@
    }
}

impl RequestHandler {
    pub fn new(home: Home) -> (r: RequestHandler)
        ensures
            r@ == home@,
    {
        RequestHandler { home }
    }

    /// Answers one command line; the registry moves to the state that
    /// `handle_response` gives and the response is its text.
    pub fn handle(&mut self, request: Request) -> (r: String)
        ensures
            ({
                let (h2, resp) = handle_response(old(self)@, request.remaining());
                final(self)@ == h2 && r@ == resp
            }),
    {
        let mut request = request;
        let command = request.next();
        if str_eq(command.as_str(), "create_socket") {
            self.create_socket(request)
        } else if str_eq(command.as_str(), "fetch_socket") {
            self.fetch_socket(request)
        } else if str_eq(command.as_str(), "toggle_socket") {
            self.toggle_socket(request)
        } else if str_eq(command.as_str(), "create_thermo") {
            self.create_thermo(request)
        } else if str_eq(command.as_str(), "fetch_thermo") {
            self.fetch_thermo(request)
        } else if str_eq(command.as_str(), "set_thermo") {
            self.set_thermo(request)
        } else {
            "Bad command".to_owned()
        }
    }

    fn create_socket(&mut self, request: Request) -> (r: String)
        ensures
            ({
                let (h2, resp) = create_socket_response(old(self)@, request.remaining());
                final(self)@ == h2 && r@ == resp
            }),
    {
        let mut request = request;
        let socket_id = request.next();
        if socket_id.as_str().is_empty() {
            return "Provide socket id".to_owned();
        }
        let power = request.next();
        if power.as_str().is_empty() {
            return "Provide socket power".to_owned();
        }
        let state = request.next();
        if state.as_str().is_empty() {
            return "Provide socket state".to_owned();
        }
        let power_value = match parse_u64(power.as_str()) {
            Some(v) => v,
            None => 0,
        };
        let on = str_eq(state.as_str(), "true");
        match self.home.create_socket(socket_id.clone(), power_value, on) {
            Some(rid) => {
                let mut out = String::new();
                out.append("Socket `");
                out.append(rid.as_str());
                out.append("` created");
                out
            },
            None => {
                let mut out = String::new();
                out.append("Socket `");
                out.append(socket_id.as_str());
                out.append("` already exists");
                out
            },
        }
    }

    fn fetch_socket(&self, request: Request) -> (r: String)
        ensures
            r@ == fetch_socket_response(self@, request.remaining()).1,
    {
        let mut request = request;
        let socket_id = request.next();
        if socket_id.as_str().is_empty() {
            return "Provide socket id".to_owned();
        }
        match self.home.socket_info(socket_id) {
            Some(info) => info,
            None => "Unknown socket".to_owned(),
        }
    }

    fn toggle_socket(&mut self, request: Request) -> (r: String)
        ensures
            ({
                let (h2, resp) = toggle_socket_response(old(self)@, request.remaining());
                final(self)@ == h2 && r@ == resp
            }),
    {
        let mut request = request;
        let socket_id = request.next();
        if socket_id.as_str().is_empty() {
            return "Select socket id".to_owned();
        }
        match self.home.toggle_socket(socket_id.as_str()) {
            Some(_) => {
                let mut out = String::new();
                out.append("Socket `");
                out.append(socket_id.as_str());
                out.append("` toggled");
                out
            },
            None => "Bad socket".to_owned(),
        }
    }

    fn create_thermo(&mut self, request: Request) -> (r: String)
        ensures
            ({
                let (h2, resp) = create_thermo_response(old(self)@, request.remaining());
                final(self)@ == h2 && r@ == resp
            }),
    {
        let mut request = request;
        let thermo_id = request.next();
        if thermo_id.as_str().is_empty() {
            return "Provide thermo id".to_owned();
        }
        let temp = request.next();
        if temp.as_str().is_empty() {
            return "Provide thermo power".to_owned();
        }
        let temp_value = match parse_i64(temp.as_str()) {
            Some(v) => v,
            None => 0,
        };
        match self.home.create_thermo(thermo_id.clone(), temp_value) {
            Some(rid) => {
                let mut out = String::new();
                out.append("Thermo `");
                out.append(rid.as_str());
                out.append("` created");
                out
            },
            None => {
                let mut out = String::new();
                out.append("Thermo `");
                out.append(thermo_id.as_str());
                out.append("` already exists");
                out
            },
        }
    }

    fn fetch_thermo(&self, request: Request) -> (r: String)
        ensures
            r@ == fetch_thermo_response(self@, request.remaining()).1,
    {
        let mut request = request;
        let thermo_id = request.next();
        if thermo_id.as_str().is_empty() {
            return "Provide thermo id".to_owned();
        }
        match self.home.thermo_info(thermo_id) {
            Some(info) => info,
            None => "Unknown thermo".to_owned(),
        }
    }

    fn set_thermo(&mut self, request: Request) -> (r: String)
        ensures
            ({
                let (h2, resp) = set_thermo_response(old(self)@, request.remaining());
                final(self)@ == h2 && r@ == resp
            }),
    {
        let mut request = request;
        let thermo_id = request.next();
        if thermo_id.as_str().is_empty() {
            return "Select thermo id".to_owned();
        }
        let temp = request.next();
        if temp.as_str().is_empty() {
            return "Provide thermo power".to_owned();
        }
        let temp_value = match parse_i64(temp.as_str()) {
            Some(v) => v,
            None => 0,
        };
        match self.home.set_thermo(thermo_id.as_str(), temp_value) {
            Some(_) => {
                let mut out = String::new();
                out.append("Thermo `");
                out.append(thermo_id.as_str());
                out.append("` set temp ");
                let digits = i64_to_string(temp_value);
                out.append(digits.as_str());
                out
            },
            None => "Bad thermo".to_owned(),
        }
    }
}

} // verus!
