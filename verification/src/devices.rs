//! Standalone smart devices: a socket with a capacity and an on/off flag,
//! and a thermometer with a temperature. Both report themselves through
//! `DeviceInfoProvider`.

use vstd::prelude::*;

verus! {

use vstd::string::StringExecFns;
use crate::strutil::dec_rep;
use crate::strutil::int_dec_rep;
use crate::strutil::i64_to_string;
use crate::strutil::u64_to_string;

/// A device that can say its name and describe its state.
pub trait DeviceInfoProvider {
    /// The characters of the device's name.
    spec fn name_text(&self) -> Seq<char>;

    /// The characters of the device's info line.
    spec fn info_text(&self) -> Seq<char>;

    fn name(&self) -> (r: String)
        ensures
            r@ == self.name_text(),
    ;

    fn info(&self) -> (r: String)
        ensures
            r@ == self.info_text(),
    ;
}

/// A socket: disabled with no capacity until told otherwise.
pub struct SmartSocket<'a> {
    pub name: &'a str,
    pub enabled: bool,
    pub capacity: u64,
}

impl<'a> SmartSocket<'a> {
    pub fn new(name: &'a str) -> (s: SmartSocket<'a>)
        ensures
            s.name@ == name@,
            !s.enabled,
            s.capacity == 0,
    {
        SmartSocket { name, enabled: false, capacity: 0 }
    }

    pub fn toggle(&mut self)
        ensures
            final(self).enabled == !old(self).enabled,
            final(self).name@ == old(self).name@,
            final(self).capacity == old(self).capacity,
    {
        self.enabled = !self.enabled;
    }

    pub fn set_capacity(&mut self, capacity: u64)
        ensures
            final(self).capacity == capacity,
            final(self).name@ == old(self).name@,
            final(self).enabled == old(self).enabled,
    {
        self.capacity = capacity;
    }

    pub fn capacity(&self) -> (r: u64)
        ensures
            r == self.capacity,
    {
        self.capacity
    }
}

impl<'a> DeviceInfoProvider for SmartSocket<'a> {
    open spec fn name_text(&self) -> Seq<char> {
        self.name@
    }

    open spec fn info_text(&self) -> Seq<char> {
        "device "@ + self.name@ + " is "@ + (if self.enabled {
            "enabled"@
        } else {
            "disabled"@
        }) + " and have capacity "@ + dec_rep(self.capacity as nat)
    }

    fn name(&self) -> (r: String) {
        self.name.to_owned()
    }

    fn info(&self) -> (r: String) {
        let mut out = String::new();
        out.append("device ");
        out.append(self.name);
        out.append(" is ");
        if self.enabled {
            out.append("enabled");
        } else {
            out.append("disabled");
        }
        out.append(" and have capacity ");
        let digits = u64_to_string(self.capacity());
        out.append(digits.as_str());
        proof {
            assert(out@ =~= self.info_text());
        }
        out
    }
}

/// A thermometer: shows zero until a temperature is set.
pub struct SmartThermometer<'a> {
    pub name: &'a str,
    pub temperature: i64,
}

impl<'a> SmartThermometer<'a> {
    pub fn new(name: &'a str) -> (t: SmartThermometer<'a>)
        ensures
            t.name@ == name@,
            t.temperature == 0,
    {
        SmartThermometer { name, temperature: 0 }
    }

    pub fn set_temperature(&mut self, temp: i64)
        ensures
            final(self).temperature == temp,
            final(self).name@ == old(self).name@,
    {
        self.temperature = temp;
    }
}

impl<'a> DeviceInfoProvider for SmartThermometer<'a> {
    open spec fn name_text(&self) -> Seq<char> {
        self.name@
    }

    open spec fn info_text(&self) -> Seq<char> {
        "device "@ + self.name@ + " showing "@ + int_dec_rep(self.temperature as int)
            + " temperature"@
    }

    fn name(&self) -> (r: String) {
        self.name.to_owned()
    }

    fn info(&self) -> (r: String) {
        let mut out = String::new();
        out.append("device ");
        out.append(self.name);
        out.append(" showing ");
        let digits = i64_to_string(self.temperature);
        out.append(digits.as_str());
        out.append(" temperature");
        proof {
            assert(out@ =~= self.info_text());
        }
        out
    }
}

} // verus!
