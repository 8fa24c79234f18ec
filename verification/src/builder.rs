//! A house description assembled step by step with a builder.

use vstd::prelude::*;

verus! {

/// What a house description holds.
pub struct HomeRecord {
    pub name: Seq<char>,
    pub rooms: u64,
    pub area: u64,
    pub location: Seq<char>,
}

/// A finished house description.
pub struct Home {
    name: String,
    rooms: u64,
    area: u64,
    location: String,
}

impl View for Home {
    type V = HomeRecord;

    closed spec fn view(&self) -> HomeRecord {
        HomeRecord {
            name: self.name@,
            rooms: self.rooms,
            area: self.area,
            location: self.location@,
        }
    }
}

impl Home {
    /// A builder that starts from the empty description.
    pub fn builder() -> (b: HomeBuilder)
        ensures
            b@ == (HomeRecord { name: Seq::empty(), rooms: 0, area: 0, location: Seq::empty() }),
    {
        HomeBuilder::new()
    }

    pub fn name(&self) -> (r: &str)
        ensures
            r@ == self@.name,
    {
        self.name.as_str()
    }

    pub fn rooms(&self) -> (r: u64)
        ensures
            r == self@.rooms,
    {
        self.rooms
    }

    pub fn area(&self) -> (r: u64)
        ensures
            r == self@.area,
    {
        self.area
    }

    pub fn location(&self) -> (r: &str)
        ensures
            r@ == self@.location,
    {
        self.location.as_str()
    }
}

/// Collects the fields of a house description.
pub struct HomeBuilder {
    name: String,
    rooms: u64,
    area: u64,
    location: String,
}

impl View for HomeBuilder {
    type V = HomeRecord;

    closed spec fn view(&self) -> HomeRecord {
        HomeRecord {
            name: self.name@,
            rooms: self.rooms,
            area: self.area,
            location: self.location@,
        }
    }
}

impl Default for HomeBuilder {
    /// The empty description.
    fn default() -> (b: HomeBuilder)
        ensures
            b@ == (HomeRecord { name: Seq::empty(), rooms: 0, area: 0, location: Seq::empty() }),
    {
        HomeBuilder { name: String::new(), rooms: 0, area: 0, location: String::new() }
    }
}

impl HomeBuilder {
    pub fn new() -> (b: HomeBuilder)
        ensures
            b@ == (HomeRecord { name: Seq::empty(), rooms: 0, area: 0, location: Seq::empty() }),
    {
        HomeBuilder { name: String::new(), rooms: 0, area: 0, location: String::new() }
    }

    pub fn name(&mut self, name: String) -> (ret: &mut Self)
        ensures
            ret@ == (HomeRecord { name: name@, ..old(self)@ }),
            final(self)@ == final(ret)@,
    {
        self.name = name;
        self
    }

    pub fn rooms(&mut self, rooms: u64) -> (ret: &mut Self)
        ensures
            ret@ == (HomeRecord { rooms, ..old(self)@ }),
            final(self)@ == final(ret)@,
    {
        self.rooms = rooms;
        self
    }

    pub fn area(&mut self, area: u64) -> (ret: &mut Self)
        ensures
            ret@ == (HomeRecord { area, ..old(self)@ }),
            final(self)@ == final(ret)@,
    {
        self.area = area;
        self
    }

    pub fn location(&mut self, location: String) -> (ret: &mut Self)
        ensures
            ret@ == (HomeRecord { location: location@, ..old(self)@ }),
            final(self)@ == final(ret)@,
    {
        self.location = location;
        self
    }

    /// A house with exactly the collected fields; the builder keeps them.
    pub fn build(&mut self) -> (h: Home)
        ensures
            h@ == old(self)@,
            final(self)@ == old(self)@,
    {
        Home {
            name: self.name.clone(),
            rooms: self.rooms,
            area: self.area,
            location: self.location.clone(),
        }
    }
}

} // verus!
