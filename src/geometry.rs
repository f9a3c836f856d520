//! Route geometries: an encoded polyline, or an explicit GeoJSON shape whose
//! points are told apart by their arity alone.

use vstd::prelude::*;

use crate::common::Location;
use crate::decimal::Decimal;
use crate::errors::DecodeError;
use crate::json::{array_items, number_text, decode_field, expect_object, field, FromJson, Json};
use crate::text::str_eq;

verus! {

/// A point `[x, y]` or `[x, y, z]`: longitude, latitude and, where given,
/// elevation.
#[derive(Debug)]
pub enum GeoJsonPoint {
    Regular(Decimal, Decimal),
    Elevated(Decimal, Decimal, Decimal),
}

/// The elevation of a point, where it has one.
pub open spec fn point_elevation(p: GeoJsonPoint) -> Option<Seq<char>> {
    match p {
        GeoJsonPoint::Regular(_, _) => None,
        GeoJsonPoint::Elevated(_, _, z) => Some(z@),
    }
}

/// The numbers of a point, in order.
pub open spec fn point_coordinates(p: GeoJsonPoint) -> Seq<Seq<char>> {
    match p {
        GeoJsonPoint::Regular(x, y) => seq![x@, y@],
        GeoJsonPoint::Elevated(x, y, z) => seq![x@, y@, z@],
    }
}

impl GeoJsonPoint {
    /// The longitude and latitude of this point.
    pub fn location(self) -> (r: Location)
        ensures
            seq![r.longitude@, r.latitude@] == point_coordinates(self).take(2),
    {
        match self {
            GeoJsonPoint::Regular(x, y) => Location { longitude: x, latitude: y },
            GeoJsonPoint::Elevated(x, y, _) => Location { longitude: x, latitude: y },
        }
    }

    /// The elevation of this point, if it has one.
    pub fn elevation(self) -> (r: Option<Decimal>)
        ensures
            match r {
                Some(z) => point_elevation(self) == Some(z@),
                None => point_elevation(self) is None,
            },
    {
        match self {
            GeoJsonPoint::Regular(_, _) => None,
            GeoJsonPoint::Elevated(_, _, z) => Some(z),
        }
    }

    /// The two or three numbers of this point.
    pub fn coordinates(&self) -> (r: Vec<Decimal>)
        ensures
            r@.len() == point_coordinates(*self).len(),
            forall|i: int| 0 <= i < r@.len() ==> #[trigger] r@[i]@ == point_coordinates(*self)[i],
    {
        let mut out: Vec<Decimal> = Vec::new();
        match self {
            GeoJsonPoint::Regular(x, y) => {
                out.push(x.clone());
                out.push(y.clone());
            },
            GeoJsonPoint::Elevated(x, y, z) => {
                out.push(x.clone());
                out.push(y.clone());
                out.push(z.clone());
            },
        }
        out
    }
}

impl From<Location> for GeoJsonPoint {
    fn from(l: Location) -> (r: GeoJsonPoint) {
        GeoJsonPoint::Regular(l.longitude, l.latitude)
    }
}

impl vstd::std_specs::convert::FromSpecImpl<Location> for GeoJsonPoint {
    open spec fn obeys_from_spec() -> bool {
        true
    }

    open spec fn from_spec(l: Location) -> GeoJsonPoint {
        GeoJsonPoint::Regular(l.longitude, l.latitude)
    }
}

impl FromJson for GeoJsonPoint {
    open spec fn decodes(j: Json) -> bool {
        match j {
            Json::Array(items) => (items@.len() == 2 || items@.len() == 3) && forall|i: int|
                0 <= i < items@.len() ==> Decimal::decodes(#[trigger] items@[i]),
            _ => false,
        }
    }

    open spec fn decoded(j: Json, v: GeoJsonPoint) -> bool {
        match j {
            Json::Array(items) => items@.len() == point_coordinates(v).len() && forall|i: int|
                0 <= i < items@.len() ==> (#[trigger] items@[i] matches Json::Number(s) && s@
                    == point_coordinates(v)[i]),
            _ => false,
        }
    }

    fn from_json(j: &Json) -> (r: Result<GeoJsonPoint, DecodeError>) {
        let err = DecodeError { expected: "point of two or three numbers" };
        match j {
            Json::Array(items) => {
                if items.len() == 2 {
                    let x = Decimal::from_json(&items[0])?;
                    let y = Decimal::from_json(&items[1])?;
                    Ok(GeoJsonPoint::Regular(x, y))
                } else if items.len() == 3 {
                    let x = Decimal::from_json(&items[0])?;
                    let y = Decimal::from_json(&items[1])?;
                    let z = Decimal::from_json(&items[2])?;
                    Ok(GeoJsonPoint::Elevated(x, y, z))
                } else {
                    Err(err)
                }
            },
            _ => Err(err),
        }
    }
}

/// An array of two numbers reads as a point without elevation; one of three
/// keeps its third number, exactly, as the elevation.
pub proof fn lemma_point_arity(j: Json, p: GeoJsonPoint)
    requires
        GeoJsonPoint::decoded(j, p),
    ensures
        array_items(j).len() == 2 ==> point_elevation(p) is None,
        array_items(j).len() == 3 ==> point_elevation(p) == Some(number_text(array_items(j)[2])),
{
    if let Json::Array(items) = j {
        if items@.len() == 3 {
            assert(items@[2] matches Json::Number(s) && s@ == point_coordinates(p)[2]);
        }
    }
}

/// A GeoJSON shape, told apart by its `type` field.
#[allow(inconsistent_fields)]
#[derive(Debug)]
pub enum GeoJsonGeometry {
    Point { coordinates: GeoJsonPoint },
    LineString { coordinates: Vec<GeoJsonPoint> },
    Polygon { coordinates: Vec<Vec<GeoJsonPoint>> },
    MultiPoint { coordinates: Vec<GeoJsonPoint> },
    MultiLineString { coordinates: Vec<Vec<GeoJsonPoint>> },
    MultiPolygon { coordinates: Vec<Vec<Vec<GeoJsonPoint>>> },
}

/// The `type` field of a GeoJSON object, as text.
pub open spec fn shape_kind(j: Json) -> Seq<char> {
    match field(j, "type"@) {
        Json::Str(s) => s@,
        _ => Seq::empty(),
    }
}

/// The `coordinates` field of a GeoJSON object.
pub open spec fn shape_coordinates(j: Json) -> Json {
    field(j, "coordinates"@)
}

/// The position of a GeoJSON type name among the six shapes; `-1` for any
/// other name.
pub open spec fn shape_index(k: Seq<char>) -> int {
    if k == "Point"@ {
        0
    } else if k == "LineString"@ {
        1
    } else if k == "Polygon"@ {
        2
    } else if k == "MultiPoint"@ {
        3
    } else if k == "MultiLineString"@ {
        4
    } else if k == "MultiPolygon"@ {
        5
    } else {
        -1
    }
}

impl FromJson for GeoJsonGeometry {
    open spec fn decodes(j: Json) -> bool {
        let c = shape_coordinates(j);
        let k = shape_index(shape_kind(j));
        &&& j is Object
        &&& field(j, "type"@) is Str
        &&& if k == 0 {
            GeoJsonPoint::decodes(c)
        } else if k == 1 || k == 3 {
            Vec::<GeoJsonPoint>::decodes(c)
        } else if k == 2 || k == 4 {
            Vec::<Vec<GeoJsonPoint>>::decodes(c)
        } else if k == 5 {
            Vec::<Vec<Vec<GeoJsonPoint>>>::decodes(c)
        } else {
            false
        }
    }

    open spec fn decoded(j: Json, v: GeoJsonGeometry) -> bool {
        let c = shape_coordinates(j);
        let k = shape_index(shape_kind(j));
        match v {
            GeoJsonGeometry::Point { coordinates } => k == 0 && GeoJsonPoint::decoded(c, coordinates),
            GeoJsonGeometry::LineString { coordinates } => k == 1 && Vec::<GeoJsonPoint>::decoded(
                c,
                coordinates,
            ),
            GeoJsonGeometry::Polygon { coordinates } => k == 2 && Vec::<
                Vec<GeoJsonPoint>,
            >::decoded(c, coordinates),
            GeoJsonGeometry::MultiPoint { coordinates } => k == 3 && Vec::<GeoJsonPoint>::decoded(
                c,
                coordinates,
            ),
            GeoJsonGeometry::MultiLineString { coordinates } => k == 4 && Vec::<
                Vec<GeoJsonPoint>,
            >::decoded(c, coordinates),
            GeoJsonGeometry::MultiPolygon { coordinates } => k == 5 && Vec::<
                Vec<Vec<GeoJsonPoint>>,
            >::decoded(c, coordinates),
        }
    }

    fn from_json(j: &Json) -> (r: Result<GeoJsonGeometry, DecodeError>) {
        expect_object(j)?;
        let kind: String = decode_field(j, "type")?;
        let k = kind.as_str();
        if str_eq(k, "Point") {
            let coordinates = decode_field(j, "coordinates")?;
            Ok(GeoJsonGeometry::Point { coordinates })
        } else if str_eq(k, "LineString") {
            let coordinates = decode_field(j, "coordinates")?;
            Ok(GeoJsonGeometry::LineString { coordinates })
        } else if str_eq(k, "Polygon") {
            let coordinates = decode_field(j, "coordinates")?;
            Ok(GeoJsonGeometry::Polygon { coordinates })
        } else if str_eq(k, "MultiPoint") {
            let coordinates = decode_field(j, "coordinates")?;
            Ok(GeoJsonGeometry::MultiPoint { coordinates })
        } else if str_eq(k, "MultiLineString") {
            let coordinates = decode_field(j, "coordinates")?;
            Ok(GeoJsonGeometry::MultiLineString { coordinates })
        } else if str_eq(k, "MultiPolygon") {
            let coordinates = decode_field(j, "coordinates")?;
            Ok(GeoJsonGeometry::MultiPolygon { coordinates })
        } else {
            Err(DecodeError { expected: "GeoJSON geometry type" })
        }
    }
}

/// A geometry: a polyline string, or an explicit GeoJSON shape. The JSON
/// shape alone tells which.
#[derive(Debug)]
pub enum Geometry {
    /// When the geometry is encoded with polyline or polyline6
    Encoded(String),
    /// When the geometry is explicitly detailed
    Explicit(GeoJsonGeometry),
}

impl FromJson for Geometry {
    open spec fn decodes(j: Json) -> bool {
        j is Str || GeoJsonGeometry::decodes(j)
    }

    open spec fn decoded(j: Json, v: Geometry) -> bool {
        match v {
            Geometry::Encoded(s) => j matches Json::Str(t) && s@ == t@,
            Geometry::Explicit(g) => GeoJsonGeometry::decoded(j, g),
        }
    }

    fn from_json(j: &Json) -> (r: Result<Geometry, DecodeError>) {
        match j {
            Json::Str(s) => Ok(Geometry::Encoded(s.clone())),
            Json::Object(_) => {
                let g = GeoJsonGeometry::from_json(j)?;
                Ok(Geometry::Explicit(g))
            },
            _ => Err(DecodeError { expected: "polyline string or GeoJSON object" }),
        }
    }
}

} // verus!
