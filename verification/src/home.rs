//! The device registry: named sockets and thermometers in two independent
//! namespaces, with create-if-absent and mutate-if-present operations.
//!
//! The records live in concurrency-safe maps of the `dashmap` crate; the
//! maps are reached only through the trusted wrappers below, whose
//! contracts speak of the abstract entries of each map.

use vstd::prelude::*;

verus! {

use vstd::string::StringExecFns;
use crate::strutil::dec_rep;
use crate::strutil::int_dec_rep;
use crate::strutil::i64_to_string;
use crate::strutil::u64_to_string;

/// A socket record: an immutable name, a power rating fixed at creation,
/// and a flag that the toggle operation flips.
#[derive(Clone)]
pub struct Socket {
    name: String,
    power: u64,
    state: bool,
}

/// The mathematical content of a socket record.
pub struct SocketV {
    pub name: Seq<char>,
    pub power: u64,
    pub state: bool,
}

impl View for Socket {
    type V = SocketV;

    closed spec fn view(&self) -> SocketV {
        SocketV { name: self.name@, power: self.power, state: self.state }
    }
}

/// The info line reported for a socket.
pub open spec fn socket_info_text(name: Seq<char>, power: u64, state: bool) -> Seq<char> {
    "Socket "@ + name + " state is "@ + (if state {
        "true"@
    } else {
        "false"@
    }) + ", power is "@ + dec_rep(power as nat)
}

impl Socket {
    pub fn new(name: &str, power: u64, state: bool) -> (s: Socket)
        ensures
            s@ == (SocketV { name: name@, power, state }),
    {
        Socket { name: name.to_owned(), power, state }
    }

    pub fn info(&self) -> (r: String)
        ensures
            r@ == socket_info_text(self@.name, self@.power, self@.state),
    {
        let mut out = String::new();
        out.append("Socket ");
        out.append(self.name.as_str());
        out.append(" state is ");
        if self.state {
            out.append("true");
        } else {
            out.append("false");
        }
        out.append(", power is ");
        let digits = u64_to_string(self.power);
        out.append(digits.as_str());
        proof {
            assert(out@ =~= socket_info_text(self@.name, self@.power, self@.state));
        }
        out
    }

    pub fn toggle(&mut self)
        ensures
            final(self)@ == (SocketV {
                name: old(self)@.name,
                power: old(self)@.power,
                state: !old(self)@.state,
            }),
    {
        self.state = !self.state;
    }
}

/// A thermometer record: an immutable name and a temperature that the set
/// operation replaces.
#[derive(Clone)]
pub struct Thermo {
    name: String,
    temp: i64,
}

/// The mathematical content of a thermometer record.
pub struct ThermoV {
    pub name: Seq<char>,
    pub temp: i64,
}

impl View for Thermo {
    type V = ThermoV;

    closed spec fn view(&self) -> ThermoV {
        ThermoV { name: self.name@, temp: self.temp }
    }
}

/// The info line reported for a thermometer.
pub open spec fn thermo_info_text(name: Seq<char>, temp: i64) -> Seq<char> {
    "Thermo "@ + name + " temperature is "@ + int_dec_rep(temp as int)
}

impl Thermo {
    pub fn new(name: &str, temp: i64) -> (t: Thermo)
        ensures
            t@ == (ThermoV { name: name@, temp }),
    {
        Thermo { name: name.to_owned(), temp }
    }

    pub fn info(&self) -> (r: String)
        ensures
            r@ == thermo_info_text(self@.name, self@.temp),
    {
        let mut out = String::new();
        out.append("Thermo ");
        out.append(self.name.as_str());
        out.append(" temperature is ");
        let digits = i64_to_string(self.temp);
        out.append(digits.as_str());
        proof {
            assert(out@ =~= thermo_info_text(self@.name, self@.temp));
        }
        out
    }

    pub fn set_temp(&mut self, temp: i64)
        ensures
            final(self)@ == (ThermoV { name: old(self)@.name, temp }),
    {
        self.temp = temp;
    }
}

#[verifier::external_type_specification]
#[verifier::external_body]
#[verifier::reject_recursive_types(K)]
#[verifier::reject_recursive_types(V)]
#[verifier::reject_recursive_types(S)]
pub struct ExDashMap<K, V, S>(dashmap::DashMap<K, V, S>);

/// The entries of a socket map, keyed by the stored key's characters.
pub uninterp spec fn socket_entries(m: dashmap::DashMap<String, Socket>) -> Map<
    Seq<char>,
    SocketV,
>;

/// The entries of a thermometer map, keyed by the stored key's characters.
pub uninterp spec fn thermo_entries(m: dashmap::DashMap<String, Thermo>) -> Map<
    Seq<char>,
    ThermoV,
>;

/// Relies on dashmap::DashMap::new: a freshly created map has no entries.
#[verifier::external_body]
fn new_socket_map() -> (m: dashmap::DashMap<String, Socket>)
    ensures
        socket_entries(m).dom() == Set::<Seq<char>>::empty(),
{
    dashmap::DashMap::new()
}

/// Relies on dashmap::DashMap::get: returns the value stored under the
/// key, or nothing when the key is absent.
#[verifier::external_body]
fn socket_map_get(m: &dashmap::DashMap<String, Socket>, id: &str) -> (r: Option<Socket>)
    ensures
        (r is Some) == socket_entries(*m).dom().contains(id@),
        r matches Some(s) ==> s@ == socket_entries(*m)[id@],
{
    m.get(id).map(|e| e.value().clone())
}

/// Relies on dashmap::DashMap::entry: the entry is occupied exactly when
/// the key is present, and inserting through a vacant entry adds exactly
/// that key and value in one atomic step.
#[verifier::external_body]
fn socket_map_insert_if_absent(
    m: &mut dashmap::DashMap<String, Socket>,
    id: String,
    s: Socket,
) -> (inserted: bool)
    ensures
        inserted == !socket_entries(*old(m)).dom().contains(id@),
        inserted ==> socket_entries(*final(m)) == socket_entries(*old(m)).insert(id@, s@),
        !inserted ==> socket_entries(*final(m)) == socket_entries(*old(m)),
{
    match m.entry(id) {
        dashmap::mapref::entry::Entry::Occupied(_) => false,
        dashmap::mapref::entry::Entry::Vacant(v) => {
            v.insert(s);
            true
        },
    }
}

/// Relies on dashmap::DashMap::insert: stores the value under the key,
/// replacing any previous value.
#[verifier::external_body]
fn socket_map_store(m: &mut dashmap::DashMap<String, Socket>, id: String, s: Socket)
    ensures
        socket_entries(*final(m)) == socket_entries(*old(m)).insert(id@, s@),
{
    let _ = m.insert(id, s);
}

/// Relies on dashmap::DashMap::new: a freshly created map has no entries.
#[verifier::external_body]
fn new_thermo_map() -> (m: dashmap::DashMap<String, Thermo>)
    ensures
        thermo_entries(m).dom() == Set::<Seq<char>>::empty(),
{
    dashmap::DashMap::new()
}

/// Relies on dashmap::DashMap::get: returns the value stored under the
/// key, or nothing when the key is absent.
#[verifier::external_body]
fn thermo_map_get(m: &dashmap::DashMap<String, Thermo>, id: &str) -> (r: Option<Thermo>)
    ensures
        (r is Some) == thermo_entries(*m).dom().contains(id@),
        r matches Some(t) ==> t@ == thermo_entries(*m)[id@],
{
    m.get(id).map(|e| e.value().clone())
}

/// Relies on dashmap::DashMap::entry: the entry is occupied exactly when
/// the key is present, and inserting through a vacant entry adds exactly
/// that key and value in one atomic step.
#[verifier::external_body]
fn thermo_map_insert_if_absent(
    m: &mut dashmap::DashMap<String, Thermo>,
    id: String,
    t: Thermo,
) -> (inserted: bool)
    ensures
        inserted == !thermo_entries(*old(m)).dom().contains(id@),
        inserted ==> thermo_entries(*final(m)) == thermo_entries(*old(m)).insert(id@, t@),
        !inserted ==> thermo_entries(*final(m)) == thermo_entries(*old(m)),
{
    match m.entry(id) {
        dashmap::mapref::entry::Entry::Occupied(_) => false,
        dashmap::mapref::entry::Entry::Vacant(v) => {
            v.insert(t);
            true
        },
    }
}

/// Relies on dashmap::DashMap::insert: stores the value under the key,
/// replacing any previous value.
#[verifier::external_body]
fn thermo_map_store(m: &mut dashmap::DashMap<String, Thermo>, id: String, t: Thermo)
    ensures
        thermo_entries(*final(m)) == thermo_entries(*old(m)).insert(id@, t@),
{
    let _ = m.insert(id, t);
}

/// The registry: two independent namespaces of device records.
pub struct Home {
    sockets: dashmap::DashMap<String, Socket>,
    thermos: dashmap::DashMap<String, Thermo>,
}

/// The mathematical content of the registry.
pub struct HomeV {
    pub sockets: Map<Seq<char>, SocketV>,
    pub thermos: Map<Seq<char>, ThermoV>,
}

impl View for Home {
    type V = HomeV;

    closed spec fn view(&self) -> HomeV {
        HomeV { sockets: socket_entries(self.sockets), thermos: thermo_entries(self.thermos) }
    }
}

/// The registry after a create-socket step: untouched when the id is
/// taken, extended by the new record otherwise.
pub open spec fn create_socket_step(h: HomeV, id: Seq<char>, power: u64, state: bool) -> HomeV {
    if h.sockets.dom().contains(id) {
        h
    } else {
        HomeV { sockets: h.sockets.insert(id, SocketV { name: id, power, state }), ..h }
    }
}

/// The registry after a create-thermo step.
pub open spec fn create_thermo_step(h: HomeV, id: Seq<char>, temp: i64) -> HomeV {
    if h.thermos.dom().contains(id) {
        h
    } else {
        HomeV { thermos: h.thermos.insert(id, ThermoV { name: id, temp }), ..h }
    }
}

/// The registry after a toggle step: the socket's flag flipped when the id
/// is present, untouched otherwise.
pub open spec fn toggle_socket_step(h: HomeV, id: Seq<char>) -> HomeV {
    if h.sockets.dom().contains(id) {
        HomeV {
            sockets: h.sockets.insert(
                id,
                SocketV { state: !h.sockets[id].state, ..h.sockets[id] },
            ),
            ..h
        }
    } else {
        h
    }
}

/// The registry after a set-temperature step: the thermometer's value
/// replaced when the id is present, untouched otherwise.
pub open spec fn set_thermo_step(h: HomeV, id: Seq<char>, temp: i64) -> HomeV {
    if h.thermos.dom().contains(id) {
        HomeV { thermos: h.thermos.insert(id, ThermoV { temp, ..h.thermos[id] }), ..h }
    } else {
        h
    }
}

/// After creating a socket under a free id, fetching that id reports
/// exactly the given state and power.
pub proof fn lemma_create_then_fetch_socket(h: HomeV, id: Seq<char>, power: u64, state: bool)
    requires
        !h.sockets.dom().contains(id),
    ensures
        ({
            let h1 = create_socket_step(h, id, power, state);
            &&& h1.sockets.dom().contains(id)
            &&& h1.sockets[id] == (SocketV { name: id, power, state })
            &&& socket_info_text(h1.sockets[id].name, h1.sockets[id].power, h1.sockets[id].state)
                == socket_info_text(id, power, state)
        }),
{
}

/// Creating a socket id that is already taken changes nothing: the first
/// record's power and state stay as they were.
pub proof fn lemma_create_socket_already_exists(h: HomeV, id: Seq<char>, power: u64, state: bool)
    requires
        h.sockets.dom().contains(id),
    ensures
        create_socket_step(h, id, power, state) == h,
        create_socket_step(h, id, power, state).sockets[id] == h.sockets[id],
{
}

/// The registry after `n` toggle steps of one socket id.
pub open spec fn toggle_socket_iter(h: HomeV, id: Seq<char>, n: nat) -> HomeV
    decreases n,
{
    if n == 0 {
        h
    } else {
        toggle_socket_step(toggle_socket_iter(h, id, (n - 1) as nat), id)
    }
}

/// Toggling is a pure flip: after an odd number of toggle steps the flag
/// differs from its initial value, after an even number it matches, and
/// nothing else in the registry changes.
pub proof fn lemma_toggle_parity(h: HomeV, id: Seq<char>, n: nat)
    requires
        h.sockets.dom().contains(id),
    ensures
        ({
            let h1 = toggle_socket_iter(h, id, n);
            &&& h1.sockets.dom() == h.sockets.dom()
            &&& h1.sockets[id].name == h.sockets[id].name
            &&& h1.sockets[id].power == h.sockets[id].power
            &&& h1.sockets[id].state == (if n % 2 == 0 {
                h.sockets[id].state
            } else {
                !h.sockets[id].state
            })
            &&& h1.thermos == h.thermos
            &&& forall|k: Seq<char>|
                h.sockets.dom().contains(k) && k != id ==> h1.sockets[k] == h.sockets[k]
        }),
    decreases n,
{
    if n > 0 {
        lemma_toggle_parity(h, id, (n - 1) as nat);
        let h1 = toggle_socket_iter(h, id, (n - 1) as nat);
        assert(h1.sockets.dom().contains(id));
        assert(toggle_socket_step(h1, id).sockets.dom() =~= h.sockets.dom());
    }
}

/// The later of two set-temperature steps wins: fetching afterwards
/// reports the second value, never a mix nor the older one.
pub proof fn lemma_set_thermo_last_wins(h: HomeV, id: Seq<char>, t1: i64, t2: i64)
    requires
        h.thermos.dom().contains(id),
    ensures
        ({
            let h2 = set_thermo_step(set_thermo_step(h, id, t1), id, t2);
            &&& h2.thermos.dom().contains(id)
            &&& h2.thermos[id].temp == t2
            &&& h2.thermos[id].name == h.thermos[id].name
            &&& h2.sockets == h.sockets
            &&& thermo_info_text(h2.thermos[id].name, h2.thermos[id].temp) == thermo_info_text(
                h.thermos[id].name,
                t2,
            )
        }),
{
}

impl Default for Home {
    /// An empty registry.
    fn default() -> (h: Home)
        ensures
            h@.sockets == Map::<Seq<char>, SocketV>::empty(),
            h@.thermos == Map::<Seq<char>, ThermoV>::empty(),
    {
        let h = Home { sockets: new_socket_map(), thermos: new_thermo_map() };
        proof {
            assert(h@.sockets =~= Map::<Seq<char>, SocketV>::empty());
            assert(h@.thermos =~= Map::<Seq<char>, ThermoV>::empty());
        }
        h
    }
}

impl Home {
    /// The info line of the socket stored under the id, if any.
    pub fn socket_info(&self, socket_id: String) -> (r: Option<String>)
        ensures
            (r is Some) == self@.sockets.dom().contains(socket_id@),
            r matches Some(info) ==> info@ == socket_info_text(
                self@.sockets[socket_id@].name,
                self@.sockets[socket_id@].power,
                self@.sockets[socket_id@].state,
            ),
    {
        match socket_map_get(&self.sockets, socket_id.as_str()) {
            Some(s) => Some(s.info()),
            None => None,
        }
    }

    /// The info line of the thermometer stored under the id, if any.
    pub fn thermo_info(&self, thermo_id: String) -> (r: Option<String>)
        ensures
            (r is Some) == self@.thermos.dom().contains(thermo_id@),
            r matches Some(info) ==> info@ == thermo_info_text(
                self@.thermos[thermo_id@].name,
                self@.thermos[thermo_id@].temp,
            ),
    {
        match thermo_map_get(&self.thermos, thermo_id.as_str()) {
            Some(t) => Some(t.info()),
            None => None,
        }
    }

    /// Creates the socket when the id is free; reports the id back. The
    /// check and the insertion are one atomic step of the map.
    pub fn create_socket(&mut self, socket_id: String, power: u64, state: bool) -> (r: Option<
        String,
    >)
        ensures
            final(self)@ == create_socket_step(old(self)@, socket_id@, power, state),
            (r is Some) == !old(self)@.sockets.dom().contains(socket_id@),
            r matches Some(rid) ==> rid@ == socket_id@,
    {
        let s = Socket::new(socket_id.as_str(), power, state);
        if socket_map_insert_if_absent(&mut self.sockets, socket_id.clone(), s) {
            Some(socket_id)
        } else {
            None
        }
    }

    /// Creates the thermometer when the id is free; reports the id back.
    pub fn create_thermo(&mut self, thermo_id: String, temp: i64) -> (r: Option<String>)
        ensures
            final(self)@ == create_thermo_step(old(self)@, thermo_id@, temp),
            (r is Some) == !old(self)@.thermos.dom().contains(thermo_id@),
            r matches Some(rid) ==> rid@ == thermo_id@,
    {
        let t = Thermo::new(thermo_id.as_str(), temp);
        if thermo_map_insert_if_absent(&mut self.thermos, thermo_id.clone(), t) {
            Some(thermo_id)
        } else {
            None
        }
    }

    /// Flips the enabled flag of the socket stored under the id, if any.
    pub fn toggle_socket(&mut self, socket_id: &str) -> (r: Option<String>)
        ensures
            final(self)@ == toggle_socket_step(old(self)@, socket_id@),
            (r is Some) == old(self)@.sockets.dom().contains(socket_id@),
            r matches Some(rid) ==> rid@ == socket_id@,
    {
        match socket_map_get(&self.sockets, socket_id) {
            Some(s) => {
                let mut s = s;
                s.toggle();
                socket_map_store(&mut self.sockets, socket_id.to_owned(), s);
                Some(socket_id.to_owned())
            },
            None => None,
        }
    }

    /// Replaces the temperature of the thermometer stored under the id, if
    /// any.
    pub fn set_thermo(&mut self, thermo_id: &str, temp: i64) -> (r: Option<String>)
        ensures
            final(self)@ == set_thermo_step(old(self)@, thermo_id@, temp),
            (r is Some) == old(self)@.thermos.dom().contains(thermo_id@),
            r matches Some(rid) ==> rid@ == thermo_id@,
    {
        match thermo_map_get(&self.thermos, thermo_id) {
            Some(t) => {
                let mut t = t;
                t.set_temp(temp);
                thermo_map_store(&mut self.thermos, thermo_id.to_owned(), t);
                Some(thermo_id.to_owned())
            },
            None => None,
        }
    }
}

} // verus!
