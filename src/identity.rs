//! Value types used throughout the core: identities and places.

use vstd::prelude::*;

verus! {

/// A decentralised identifier: an opaque string standing for a
/// cryptographic public-key identity. Two identifiers are equal when their
/// strings are.
#[derive(Clone, Debug, PartialEq, Eq, Hash)]
pub struct Did(pub String);

impl View for Did {
    type V = Seq<char>;

    open spec fn view(&self) -> Seq<char> {
        self.0@
    }
}

/// The strings' contents, in order.
pub open spec fn texts(v: Seq<String>) -> Seq<Seq<char>> {
    v.map_values(|s: String| s@)
}

/// A geographic position in fixed point: latitude and longitude in
/// millionths of a degree. The core enforces no range on them.
#[derive(Clone, Copy, Debug, PartialEq, Eq, Structural, Hash)]
pub struct Location {
    pub lat_microdeg: i64,
    pub lng_microdeg: i64,
}

impl Location {
    /// A position from its latitude and longitude in millionths of a degree.
    pub fn new(lat_microdeg: i64, lng_microdeg: i64) -> (r: Location)
        ensures
            r.lat_microdeg == lat_microdeg,
            r.lng_microdeg == lng_microdeg,
    {
        Location { lat_microdeg, lng_microdeg }
    }
}

} // verus!
