//! The data shared by every service: transportation modes, locations,
//! coordinates, hints and geometries.

use vstd::prelude::*;

use crate::decimal::{is_numeral, Decimal};
use crate::errors::DecodeError;
use crate::json::{FromJson, Json};
use crate::text::{join_wire, multi, str_eq, WireForm};

verus! {

/// Mode of transportation
#[derive(Debug, Clone, Copy, PartialEq, Eq, Structural)]
pub enum TransportationMode {
    /// Travelling by car
    Car,
    /// Travelling by bike
    Bike,
    /// Travelling on bare foot
    Foot,
}

/// The token of each mode of transportation.
pub open spec fn mode_token(m: TransportationMode) -> Seq<char> {
    match m {
        TransportationMode::Car => "car"@,
        TransportationMode::Bike => "bike"@,
        TransportationMode::Foot => "foot"@,
    }
}

impl TransportationMode {
    /// The token of this mode.
    pub fn token(self) -> (r: &'static str)
        ensures
            r@ == mode_token(self),
    {
        match self {
            TransportationMode::Car => "car",
            TransportationMode::Bike => "bike",
            TransportationMode::Foot => "foot",
        }
    }
}

impl WireForm for TransportationMode {
    open spec fn wire_spec(&self) -> Seq<char> {
        mode_token(*self)
    }

    fn wire(&self) -> (r: String) {
        String::from_str(self.token())
    }
}

impl FromJson for TransportationMode {
    open spec fn decodes(j: Json) -> bool {
        j matches Json::Str(s) && exists|m: TransportationMode| mode_token(m) == s@
    }

    open spec fn decoded(j: Json, v: TransportationMode) -> bool {
        j matches Json::Str(s) && mode_token(v) == s@
    }

    fn from_json(j: &Json) -> (r: Result<TransportationMode, DecodeError>) {
        let err = DecodeError { expected: "mode of transportation" };
        match j {
            Json::Str(s) => {
                let s = s.as_str();
                if str_eq(s, "car") {
                    assert(mode_token(TransportationMode::Car) == s@);
                    Ok(TransportationMode::Car)
                } else if str_eq(s, "bike") {
                    assert(mode_token(TransportationMode::Bike) == s@);
                    Ok(TransportationMode::Bike)
                } else if str_eq(s, "foot") {
                    assert(mode_token(TransportationMode::Foot) == s@);
                    Ok(TransportationMode::Foot)
                } else {
                    assert forall|m: TransportationMode| mode_token(m) != s@ by {
                        match m {
                            TransportationMode::Car => {},
                            TransportationMode::Bike => {},
                            TransportationMode::Foot => {},
                        }
                    }
                    Err(err)
                }
            },
            _ => Err(err),
        }
    }
}

/// Route geometry format (influences overview and per step)
#[derive(Debug, Clone, Copy, PartialEq, Eq, Structural)]
pub enum Geometries {
    Polyline,
    Polyline6,
    GeoJson,
}

impl WireForm for Geometries {
    open spec fn wire_spec(&self) -> Seq<char> {
        match *self {
            Geometries::Polyline => "polyline"@,
            Geometries::Polyline6 => "polyline6"@,
            Geometries::GeoJson => "geojson"@,
        }
    }

    fn wire(&self) -> (r: String) {
        match self {
            Geometries::Polyline => String::from_str("polyline"),
            Geometries::Polyline6 => String::from_str("polyline6"),
            Geometries::GeoJson => String::from_str("geojson"),
        }
    }
}

/// The location of a point anywhere on earth, longitude first.
#[derive(Debug)]
pub struct Location {
    pub longitude: Decimal,
    pub latitude: Decimal,
}

impl View for Location {
    type V = (Seq<char>, Seq<char>);

    open spec fn view(&self) -> (Seq<char>, Seq<char>) {
        (self.longitude@, self.latitude@)
    }
}

impl Clone for Location {
    fn clone(&self) -> (r: Location)
        ensures
            r@ == self@,
    {
        Location { longitude: self.longitude.clone(), latitude: self.latitude.clone() }
    }
}

/// Whether `j` is the `[longitude, latitude]` array of `l`.
pub open spec fn is_location_json(j: Json, l: (Seq<char>, Seq<char>)) -> bool {
    match j {
        Json::Array(items) => items@.len() == 2 && (items@[0] matches Json::Number(x) && x@ == l.0)
            && (items@[1] matches Json::Number(y) && y@ == l.1),
        _ => false,
    }
}

impl Location {
    pub fn new(longitude: Decimal, latitude: Decimal) -> (r: Location)
        ensures
            r.longitude@ == longitude@,
            r.latitude@ == latitude@,
    {
        Location { longitude, latitude }
    }

    /// The `[longitude, latitude]` array that stands for this location in
    /// JSON.
    pub fn to_json(&self) -> (r: Json)
        ensures
            is_location_json(r, self@),
    {
        let mut items: Vec<Json> = Vec::new();
        items.push(Json::Number(self.longitude.wire()));
        items.push(Json::Number(self.latitude.wire()));
        Json::Array(items)
    }
}

impl WireForm for Location {
    open spec fn wire_spec(&self) -> Seq<char> {
        self.longitude@ + seq![','] + self.latitude@
    }

    fn wire(&self) -> (r: String) {
        let mut s = self.longitude.wire();
        proof {
            reveal_strlit(",");
        }
        s.append(",");
        s.append(self.latitude.as_str());
        s
    }
}

impl FromJson for Location {
    open spec fn decodes(j: Json) -> bool {
        j matches Json::Array(items) && items@.len() == 2 && Decimal::decodes(items@[0])
            && Decimal::decodes(items@[1])
    }

    open spec fn decoded(j: Json, v: Location) -> bool {
        is_location_json(j, v@)
    }

    fn from_json(j: &Json) -> (r: Result<Location, DecodeError>) {
        match j {
            Json::Array(items) => {
                if items.len() != 2 {
                    return Err(DecodeError { expected: "[longitude, latitude]" });
                }
                let longitude = Decimal::from_json(&items[0])?;
                let latitude = Decimal::from_json(&items[1])?;
                Ok(Location { longitude, latitude })
            },
            _ => Err(DecodeError { expected: "[longitude, latitude]" }),
        }
    }
}

/// A location written as JSON reads back as the same location.
pub proof fn lemma_location_json_round_trip(l: Location, j: Json)
    requires
        is_numeral(l.longitude@),
        is_numeral(l.latitude@),
        is_location_json(j, l@),
    ensures
        Location::decodes(j),
        forall|v: Location| Location::decoded(j, v) ==> v@ == l@,
{
}

/// The coordinates that a request bears on.
#[derive(Debug)]
pub enum Coordinates {
    /// One single coordinate
    Single(Location),
    /// A sequence of coordinates in the longitude, latitude form
    Multi(Vec<Location>),
    /// A polyline in Google's polyline format (precision 5)
    Polyline(String),
    /// A polyline in Google's polyline format (precision 6)
    Polyline6(String),
}

impl WireForm for Coordinates {
    open spec fn wire_spec(&self) -> Seq<char> {
        match self {
            Coordinates::Single(l) => l.wire_spec(),
            Coordinates::Multi(ls) => join_wire(ls@),
            Coordinates::Polyline(s) => "polyline("@ + s@ + seq![')'],
            Coordinates::Polyline6(s) => "polyline6("@ + s@ + seq![')'],
        }
    }

    fn wire(&self) -> (r: String) {
        proof {
            reveal_strlit(")");
        }
        match self {
            Coordinates::Single(l) => l.wire(),
            Coordinates::Multi(ls) => multi(ls.as_slice()),
            Coordinates::Polyline(s) => {
                let mut out = String::from_str("polyline(");
                out.append(s.as_str());
                out.append(")");
                out
            },
            Coordinates::Polyline6(s) => {
                let mut out = String::from_str("polyline6(");
                out.append(s.as_str());
                out.append(")");
                out
            },
        }
    }
}

/// A list of one location has the wire form of that location alone.
pub proof fn lemma_single_multi(ls: Vec<Location>)
    requires
        ls@.len() == 1,
    ensures
        Coordinates::Multi(ls).wire_spec() == Coordinates::Single(ls@[0]).wire_spec(),
{
}

/// Hint from an earlier response to find a position in the street network;
/// its wire form is the token as it was issued.
#[derive(Debug)]
pub struct Hint(pub String);

impl WireForm for Hint {
    open spec fn wire_spec(&self) -> Seq<char> {
        self.0@
    }

    fn wire(&self) -> (r: String) {
        self.0.clone()
    }
}

impl FromJson for Hint {
    open spec fn decodes(j: Json) -> bool {
        j is Str
    }

    open spec fn decoded(j: Json, v: Hint) -> bool {
        j matches Json::Str(s) && v.0@ == s@
    }

    fn from_json(j: &Json) -> (r: Result<Hint, DecodeError>) {
        let s = String::from_json(j)?;
        Ok(Hint(s))
    }
}

} // verus!
