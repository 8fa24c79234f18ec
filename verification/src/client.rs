//! Client-side command formatting: each function builds one command line
//! of the wire grammar. Sending the line and awaiting the response belong
//! to the transport around the library.

use vstd::prelude::*;

verus! {

use vstd::string::StringExecFns;

/// The `fetch_socket` command line.
pub fn fetch_socket_request(socket_id: &str) -> (r: String)
    ensures
        r@ == "fetch_socket|||"@ + socket_id@,
{
    let mut out = String::new();
    out.append("fetch_socket|||");
    out.append(socket_id);
    out
}

/// The `create_socket` command line.
pub fn create_socket_request(socket_id: &str, power: &str, state: &str) -> (r: String)
    ensures
        r@ == "create_socket|||"@ + socket_id@ + "|||"@ + power@ + "|||"@ + state@,
{
    let mut out = String::new();
    out.append("create_socket|||");
    out.append(socket_id);
    out.append("|||");
    out.append(power);
    out.append("|||");
    out.append(state);
    out
}

/// The `toggle_socket` command line.
pub fn toggle_socket_request(socket_id: &str) -> (r: String)
    ensures
        r@ == "toggle_socket|||"@ + socket_id@,
{
    let mut out = String::new();
    out.append("toggle_socket|||");
    out.append(socket_id);
    out
}

/// The `fetch_thermo` command line.
pub fn fetch_thermo_request(thermo_id: &str) -> (r: String)
    ensures
        r@ == "fetch_thermo|||"@ + thermo_id@,
{
    let mut out = String::new();
    out.append("fetch_thermo|||");
    out.append(thermo_id);
    out
}

/// The `create_thermo` command line.
pub fn create_thermo_request(thermo_id: &str, temp: &str) -> (r: String)
    ensures
        r@ == "create_thermo|||"@ + thermo_id@ + "|||"@ + temp@,
{
    let mut out = String::new();
    out.append("create_thermo|||");
    out.append(thermo_id);
    out.append("|||");
    out.append(temp);
    out
}

/// The `set_thermo` command line.
pub fn set_thermo_request(thermo_id: &str, temp: &str) -> (r: String)
    ensures
        r@ == "set_thermo|||"@ + thermo_id@ + "|||"@ + temp@,
{
    let mut out = String::new();
    out.append("set_thermo|||");
    out.append(thermo_id);
    out.append("|||");
    out.append(temp);
    out
}

} // verus!
