//! The records of a response payload: waypoints, routes, legs, steps,
//! maneuvers, intersections, lanes and annotations.
//!
//! Each record reads from a JSON object field by field. A field whose type is
//! an `Option` may be absent or `null`, and then reads as `None`, never as a
//! zero or an empty value; every other field must be there.

use vstd::prelude::*;

use crate::common::{Hint, Location, TransportationMode};
use crate::decimal::Decimal;
use crate::errors::DecodeError;
use crate::geometry::Geometry;
use crate::json::{decode_field, expect_object, field, FromJson, Json};
use crate::text::str_eq;

verus! {

/// A coordinate snapped onto the routable network.
#[derive(Debug)]
pub struct Waypoint {
    /// Name of the street the coordinate snapped to
    pub name: String,
    /// The `[longitude, latitude]` pair of the snapped coordinate
    pub location: Location,
    /// The distance, in metres, from the input coordinate to the snapped coordinate
    pub distance: Decimal,
    /// Token of the snapped position, to be handed to later requests; absent
    /// when hints were not asked for
    pub hint: Option<Hint>,
    /// OpenStreetMap node ids
    pub nodes: Option<Vec<usize>>,
}

impl FromJson for Waypoint {
    open spec fn decodes(j: Json) -> bool {
        &&& j is Object
        &&& String::decodes(field(j, "name"@))
        &&& Location::decodes(field(j, "location"@))
        &&& Decimal::decodes(field(j, "distance"@))
        &&& <Option<Hint> as FromJson>::decodes(field(j, "hint"@))
        &&& <Option<Vec<usize>> as FromJson>::decodes(field(j, "nodes"@))
    }

    open spec fn decoded(j: Json, v: Waypoint) -> bool {
        &&& String::decoded(field(j, "name"@), v.name)
        &&& Location::decoded(field(j, "location"@), v.location)
        &&& Decimal::decoded(field(j, "distance"@), v.distance)
        &&& <Option<Hint> as FromJson>::decoded(field(j, "hint"@), v.hint)
        &&& <Option<Vec<usize>> as FromJson>::decoded(field(j, "nodes"@), v.nodes)
    }

    fn from_json(j: &Json) -> (r: Result<Waypoint, DecodeError>) {
        expect_object(j)?;
        let name = decode_field(j, "name")?;
        let location = decode_field(j, "location")?;
        let distance = decode_field(j, "distance")?;
        let hint = decode_field(j, "hint")?;
        let nodes = decode_field(j, "nodes")?;
        Ok(Waypoint { name, location, distance, hint, nodes })
    }
}

/// An indication of a change of direction.
#[derive(Debug, Clone, Copy, PartialEq, Eq, Structural)]
pub enum DirectionChange {
    /// An indication signaling the possibility to reverse (i.e. fully bend arrow).
    Uturn,
    /// An indication indicating a sharp right turn (i.e. strongly bend arrow).
    SharpRight,
    /// An indication indicating a right turn (i.e. bend arrow).
    Right,
    /// An indication indicating a slight right turn (i.e. slightly bend arrow).
    SlightRight,
    /// No dedicated indication is shown (i.e. straight arrow).
    Straight,
    /// An indication indicating a slight left turn (i.e. slightly bend arrow).
    SlightLeft,
    /// An indication indicating a left turn (i.e. bend arrow).
    Left,
    /// An indication indicating a sharp left turn (i.e. strongly bend arrow).
    SharpLeft,
}

/// The token of each value of [`DirectionChange`].
pub open spec fn direction_token(v: DirectionChange) -> Seq<char> {
    match v {
        DirectionChange::Uturn => "uturn"@,
        DirectionChange::SharpRight => "sharp right"@,
        DirectionChange::Right => "right"@,
        DirectionChange::SlightRight => "slight right"@,
        DirectionChange::Straight => "straight"@,
        DirectionChange::SlightLeft => "slight left"@,
        DirectionChange::Left => "left"@,
        DirectionChange::SharpLeft => "sharp left"@,
    }
}

impl DirectionChange {
    /// The token of this value.
    pub fn token(self) -> (r: &'static str)
        ensures
            r@ == direction_token(self),
    {
        match self {
            DirectionChange::Uturn => "uturn",
            DirectionChange::SharpRight => "sharp right",
            DirectionChange::Right => "right",
            DirectionChange::SlightRight => "slight right",
            DirectionChange::Straight => "straight",
            DirectionChange::SlightLeft => "slight left",
            DirectionChange::Left => "left",
            DirectionChange::SharpLeft => "sharp left",
        }
    }

    /// The value whose token is `s`, if any.
    pub fn from_token(s: &str) -> (r: Option<DirectionChange>)
        ensures
            r matches Some(v) ==> direction_token(v) == s@,
            r is None ==> forall|v: DirectionChange| direction_token(v) != s@,
    {
        if str_eq(s, "uturn") {
            Some(DirectionChange::Uturn)
        } else if str_eq(s, "sharp right") {
            Some(DirectionChange::SharpRight)
        } else if str_eq(s, "right") {
            Some(DirectionChange::Right)
        } else if str_eq(s, "slight right") {
            Some(DirectionChange::SlightRight)
        } else if str_eq(s, "straight") {
            Some(DirectionChange::Straight)
        } else if str_eq(s, "slight left") {
            Some(DirectionChange::SlightLeft)
        } else if str_eq(s, "left") {
            Some(DirectionChange::Left)
        } else if str_eq(s, "sharp left") {
            Some(DirectionChange::SharpLeft)
        } else {
            assert forall|v: DirectionChange| direction_token(v) != s@ by {
                match v {
                    DirectionChange::Uturn => {},
                    DirectionChange::SharpRight => {},
                    DirectionChange::Right => {},
                    DirectionChange::SlightRight => {},
                    DirectionChange::Straight => {},
                    DirectionChange::SlightLeft => {},
                    DirectionChange::Left => {},
                    DirectionChange::SharpLeft => {},
                }
            }
            None
        }
    }
}

impl FromJson for DirectionChange {
    open spec fn decodes(j: Json) -> bool {
        j matches Json::Str(s) && exists|v: DirectionChange| direction_token(v) == s@
    }

    open spec fn decoded(j: Json, v: DirectionChange) -> bool {
        j matches Json::Str(s) && direction_token(v) == s@
    }

    fn from_json(j: &Json) -> (r: Result<DirectionChange, DecodeError>) {
        let err = DecodeError { expected: "direction change" };
        match j {
            Json::Str(s) => match DirectionChange::from_token(s.as_str()) {
                Some(v) => Ok(v),
                None => Err(err),
            },
            _ => Err(err),
        }
    }
}

/// A turn lane at the corresponding turn location.
#[derive(Debug)]
pub struct Lane {
    /// The indications (e.g. markings on the road) of the lane
    pub indications: Vec<DirectionChange>,
    /// Whether the lane is a valid choice in the current maneuver
    pub valid: bool,
}

impl FromJson for Lane {
    open spec fn decodes(j: Json) -> bool {
        &&& j is Object
        &&& <Vec<DirectionChange> as FromJson>::decodes(field(j, "indications"@))
        &&& bool::decodes(field(j, "valid"@))
    }

    open spec fn decoded(j: Json, v: Lane) -> bool {
        &&& <Vec<DirectionChange> as FromJson>::decoded(field(j, "indications"@), v.indications)
        &&& bool::decoded(field(j, "valid"@), v.valid)
    }

    fn from_json(j: &Json) -> (r: Result<Lane, DecodeError>) {
        expect_object(j)?;
        let indications = decode_field(j, "indications")?;
        let valid = decode_field(j, "valid")?;
        Ok(Lane { indications, valid })
    }
}

/// A cross-way that the path passes by.
#[derive(Debug)]
pub struct Intersection {
    /// The `[longitude, latitude]` pair of the turn
    pub location: Location,
    /// The bearings (0 to 359, 0 being true north) of the roads at the intersection
    pub bearings: Vec<u16>,
    /// The classes of the road exiting the intersection
    pub classes: Option<Vec<String>>,
    /// For each bearing, whether that road may be entered on a valid route
    pub entry: Vec<bool>,
    /// Index into bearings/entry of the road the route comes in by; absent for
    /// depart maneuvers
    pub in_index: Option<usize>,
    /// Index into bearings/entry of the road the route leaves by; absent for
    /// arrive maneuvers
    pub out_index: Option<usize>,
    /// The turn lanes at the intersection, where lane information is available
    pub lanes: Option<Vec<Lane>>,
}

impl FromJson for Intersection {
    open spec fn decodes(j: Json) -> bool {
        &&& j is Object
        &&& Location::decodes(field(j, "location"@))
        &&& <Vec<u16> as FromJson>::decodes(field(j, "bearings"@))
        &&& <Option<Vec<String>> as FromJson>::decodes(field(j, "classes"@))
        &&& <Vec<bool> as FromJson>::decodes(field(j, "entry"@))
        &&& <Option<usize> as FromJson>::decodes(field(j, "in"@))
        &&& <Option<usize> as FromJson>::decodes(field(j, "out"@))
        &&& <Option<Vec<Lane>> as FromJson>::decodes(field(j, "lanes"@))
    }

    open spec fn decoded(j: Json, v: Intersection) -> bool {
        &&& Location::decoded(field(j, "location"@), v.location)
        &&& <Vec<u16> as FromJson>::decoded(field(j, "bearings"@), v.bearings)
        &&& <Option<Vec<String>> as FromJson>::decoded(field(j, "classes"@), v.classes)
        &&& <Vec<bool> as FromJson>::decoded(field(j, "entry"@), v.entry)
        &&& <Option<usize> as FromJson>::decoded(field(j, "in"@), v.in_index)
        &&& <Option<usize> as FromJson>::decoded(field(j, "out"@), v.out_index)
        &&& <Option<Vec<Lane>> as FromJson>::decoded(field(j, "lanes"@), v.lanes)
    }

    fn from_json(j: &Json) -> (r: Result<Intersection, DecodeError>) {
        expect_object(j)?;
        let location = decode_field(j, "location")?;
        let bearings = decode_field(j, "bearings")?;
        let classes = decode_field(j, "classes")?;
        let entry = decode_field(j, "entry")?;
        let in_index = decode_field(j, "in")?;
        let out_index = decode_field(j, "out")?;
        let lanes = decode_field(j, "lanes")?;
        Ok(Intersection { location, bearings, classes, entry, in_index, out_index, lanes })
    }
}

/// The type of a maneuver.
#[derive(Debug, Clone, Copy, PartialEq, Eq, Structural)]
pub enum ManeuverType {
    /// a basic turn into direction of the modifier
    Turn,
    /// no turn is taken/possible, but the road name changes
    NewName,
    /// indicates the departure of the leg
    Depart,
    /// indicates the destination of the leg
    Arrive,
    /// merge onto a street
    Merge,
    /// Deprecated. Replaced by on ramp and off ramp.
    Ramp,
    /// take a ramp to enter a highway
    OnRamp,
    /// take a ramp to exit a highway
    OffRamp,
    /// take the left/right side at a fork depending on modifier
    Fork,
    /// road ends in a T intersection turn in direction of modifier
    EnfOfRoad,
    /// Deprecated, replaced by lanes on all intersection entries
    UseLane,
    /// Turn in direction of modifier to stay on the same road
    Continue,
    /// traverse roundabout
    Roundabout,
    /// a traffic circle
    Rotary,
    /// a turn at a small roundabout that should be treated as normal turn
    RoundaboutTurn,
    /// not an actual turn but a change in the driving conditions
    Notification,
    /// a maneuver exiting a roundabout
    ExitRoundabout,
    /// the maneuver exiting a rotary
    ExitRotary,
}

/// The token of each value of [`ManeuverType`].
pub open spec fn maneuver_token(v: ManeuverType) -> Seq<char> {
    match v {
        ManeuverType::Turn => "turn"@,
        ManeuverType::NewName => "new name"@,
        ManeuverType::Depart => "depart"@,
        ManeuverType::Arrive => "arrive"@,
        ManeuverType::Merge => "merge"@,
        ManeuverType::Ramp => "ramp"@,
        ManeuverType::OnRamp => "on ramp"@,
        ManeuverType::OffRamp => "off ramp"@,
        ManeuverType::Fork => "fork"@,
        ManeuverType::EnfOfRoad => "end of road"@,
        ManeuverType::UseLane => "use lane"@,
        ManeuverType::Continue => "continue"@,
        ManeuverType::Roundabout => "roundabout"@,
        ManeuverType::Rotary => "rotary"@,
        ManeuverType::RoundaboutTurn => "roundabout turn"@,
        ManeuverType::Notification => "notification"@,
        ManeuverType::ExitRoundabout => "exit roundabout"@,
        ManeuverType::ExitRotary => "exit rotary"@,
    }
}

impl ManeuverType {
    /// The token of this value.
    pub fn token(self) -> (r: &'static str)
        ensures
            r@ == maneuver_token(self),
    {
        match self {
            ManeuverType::Turn => "turn",
            ManeuverType::NewName => "new name",
            ManeuverType::Depart => "depart",
            ManeuverType::Arrive => "arrive",
            ManeuverType::Merge => "merge",
            ManeuverType::Ramp => "ramp",
            ManeuverType::OnRamp => "on ramp",
            ManeuverType::OffRamp => "off ramp",
            ManeuverType::Fork => "fork",
            ManeuverType::EnfOfRoad => "end of road",
            ManeuverType::UseLane => "use lane",
            ManeuverType::Continue => "continue",
            ManeuverType::Roundabout => "roundabout",
            ManeuverType::Rotary => "rotary",
            ManeuverType::RoundaboutTurn => "roundabout turn",
            ManeuverType::Notification => "notification",
            ManeuverType::ExitRoundabout => "exit roundabout",
            ManeuverType::ExitRotary => "exit rotary",
        }
    }

    /// The value whose token is `s`, if any.
    pub fn from_token(s: &str) -> (r: Option<ManeuverType>)
        ensures
            r matches Some(v) ==> maneuver_token(v) == s@,
            r is None ==> forall|v: ManeuverType| maneuver_token(v) != s@,
    {
        if str_eq(s, "turn") {
            Some(ManeuverType::Turn)
        } else if str_eq(s, "new name") {
            Some(ManeuverType::NewName)
        } else if str_eq(s, "depart") {
            Some(ManeuverType::Depart)
        } else if str_eq(s, "arrive") {
            Some(ManeuverType::Arrive)
        } else if str_eq(s, "merge") {
            Some(ManeuverType::Merge)
        } else if str_eq(s, "ramp") {
            Some(ManeuverType::Ramp)
        } else if str_eq(s, "on ramp") {
            Some(ManeuverType::OnRamp)
        } else if str_eq(s, "off ramp") {
            Some(ManeuverType::OffRamp)
        } else if str_eq(s, "fork") {
            Some(ManeuverType::Fork)
        } else if str_eq(s, "end of road") {
            Some(ManeuverType::EnfOfRoad)
        } else if str_eq(s, "use lane") {
            Some(ManeuverType::UseLane)
        } else if str_eq(s, "continue") {
            Some(ManeuverType::Continue)
        } else if str_eq(s, "roundabout") {
            Some(ManeuverType::Roundabout)
        } else if str_eq(s, "rotary") {
            Some(ManeuverType::Rotary)
        } else if str_eq(s, "roundabout turn") {
            Some(ManeuverType::RoundaboutTurn)
        } else if str_eq(s, "notification") {
            Some(ManeuverType::Notification)
        } else if str_eq(s, "exit roundabout") {
            Some(ManeuverType::ExitRoundabout)
        } else if str_eq(s, "exit rotary") {
            Some(ManeuverType::ExitRotary)
        } else {
            assert forall|v: ManeuverType| maneuver_token(v) != s@ by {
                match v {
                    ManeuverType::Turn => {},
                    ManeuverType::NewName => {},
                    ManeuverType::Depart => {},
                    ManeuverType::Arrive => {},
                    ManeuverType::Merge => {},
                    ManeuverType::Ramp => {},
                    ManeuverType::OnRamp => {},
                    ManeuverType::OffRamp => {},
                    ManeuverType::Fork => {},
                    ManeuverType::EnfOfRoad => {},
                    ManeuverType::UseLane => {},
                    ManeuverType::Continue => {},
                    ManeuverType::Roundabout => {},
                    ManeuverType::Rotary => {},
                    ManeuverType::RoundaboutTurn => {},
                    ManeuverType::Notification => {},
                    ManeuverType::ExitRoundabout => {},
                    ManeuverType::ExitRotary => {},
                }
            }
            None
        }
    }
}

impl FromJson for ManeuverType {
    open spec fn decodes(j: Json) -> bool {
        j matches Json::Str(s) && exists|v: ManeuverType| maneuver_token(v) == s@
    }

    open spec fn decoded(j: Json, v: ManeuverType) -> bool {
        j matches Json::Str(s) && maneuver_token(v) == s@
    }

    fn from_json(j: &Json) -> (r: Result<ManeuverType, DecodeError>) {
        let err = DecodeError { expected: "maneuver type" };
        match j {
            Json::Str(s) => match ManeuverType::from_token(s.as_str()) {
                Some(v) => Ok(v),
                None => Err(err),
            },
            _ => Err(err),
        }
    }
}

/// A maneuver that must be performed to follow a route.
#[derive(Debug)]
pub struct StepManeuver {
    /// The `[longitude, latitude]` pair of the turn
    pub location: Location,
    /// The clockwise angle from true north to the direction of travel before the maneuver
    pub bearing_before: u16,
    /// The clockwise angle from true north to the direction of travel after the maneuver
    pub bearing_after: u16,
    /// The type of maneuver
    pub maneuver_type: ManeuverType,
    /// The direction change of the maneuver
    pub modifier: Option<DirectionChange>,
    /// Number of the exit to take on a roundabout or rotary
    pub exit: Option<u8>,
}

impl FromJson for StepManeuver {
    open spec fn decodes(j: Json) -> bool {
        &&& j is Object
        &&& Location::decodes(field(j, "location"@))
        &&& u16::decodes(field(j, "bearing_before"@))
        &&& u16::decodes(field(j, "bearing_after"@))
        &&& ManeuverType::decodes(field(j, "type"@))
        &&& <Option<DirectionChange> as FromJson>::decodes(field(j, "modifier"@))
        &&& <Option<u8> as FromJson>::decodes(field(j, "exit"@))
    }

    open spec fn decoded(j: Json, v: StepManeuver) -> bool {
        &&& Location::decoded(field(j, "location"@), v.location)
        &&& u16::decoded(field(j, "bearing_before"@), v.bearing_before)
        &&& u16::decoded(field(j, "bearing_after"@), v.bearing_after)
        &&& ManeuverType::decoded(field(j, "type"@), v.maneuver_type)
        &&& <Option<DirectionChange> as FromJson>::decoded(field(j, "modifier"@), v.modifier)
        &&& <Option<u8> as FromJson>::decoded(field(j, "exit"@), v.exit)
    }

    fn from_json(j: &Json) -> (r: Result<StepManeuver, DecodeError>) {
        expect_object(j)?;
        let location = decode_field(j, "location")?;
        let bearing_before = decode_field(j, "bearing_before")?;
        let bearing_after = decode_field(j, "bearing_after")?;
        let maneuver_type = decode_field(j, "type")?;
        let modifier = decode_field(j, "modifier")?;
        let exit = decode_field(j, "exit")?;
        Ok(StepManeuver { location, bearing_before, bearing_after, maneuver_type, modifier, exit })
    }
}

/// The legal driving side at a location.
#[derive(Debug, Clone, Copy, PartialEq, Eq, Structural)]
pub enum DrivingSide {
    Left,
    Right,
}

/// The token of each value of [`DrivingSide`].
pub open spec fn side_token(v: DrivingSide) -> Seq<char> {
    match v {
        DrivingSide::Left => "left"@,
        DrivingSide::Right => "right"@,
    }
}

impl DrivingSide {
    /// The token of this value.
    pub fn token(self) -> (r: &'static str)
        ensures
            r@ == side_token(self),
    {
        match self {
            DrivingSide::Left => "left",
            DrivingSide::Right => "right",
        }
    }

    /// The value whose token is `s`, if any.
    pub fn from_token(s: &str) -> (r: Option<DrivingSide>)
        ensures
            r matches Some(v) ==> side_token(v) == s@,
            r is None ==> forall|v: DrivingSide| side_token(v) != s@,
    {
        if str_eq(s, "left") {
            Some(DrivingSide::Left)
        } else if str_eq(s, "right") {
            Some(DrivingSide::Right)
        } else {
            assert forall|v: DrivingSide| side_token(v) != s@ by {
                match v {
                    DrivingSide::Left => {},
                    DrivingSide::Right => {},
                }
            }
            None
        }
    }
}

impl FromJson for DrivingSide {
    open spec fn decodes(j: Json) -> bool {
        j matches Json::Str(s) && exists|v: DrivingSide| side_token(v) == s@
    }

    open spec fn decoded(j: Json, v: DrivingSide) -> bool {
        j matches Json::Str(s) && side_token(v) == s@
    }

    fn from_json(j: &Json) -> (r: Result<DrivingSide, DecodeError>) {
        let err = DecodeError { expected: "driving side" };
        match j {
            Json::Str(s) => match DrivingSide::from_token(s.as_str()) {
                Some(v) => Ok(v),
                None => Err(err),
            },
            _ => Err(err),
        }
    }
}

/// A maneuver followed by travel along a single way to the next step.
#[derive(Debug)]
pub struct RouteStep {
    /// The distance of travel to the next step, in meters
    pub distance: Decimal,
    /// The estimated travel time, in seconds
    pub duration: Decimal,
    /// The unsimplified geometry of the route segment
    pub geometry: Geometry,
    /// The calculated weight of the step
    pub weight: Decimal,
    /// The name of the way along which travel proceeds
    pub name: String,
    /// A reference number or code for the way
    pub reference: Option<String>,
    /// A phonetic transcription of the name
    pub pronunciation: Option<String>,
    /// The mode of transportation
    pub mode: TransportationMode,
    /// The maneuver of this step
    pub maneuver: StepManeuver,
    /// The intersections passed along the segment, the first one at the maneuver
    pub intersections: Vec<Intersection>,
    /// The name of the rotary, for a rotary step
    pub rotary_name: Option<String>,
    /// The pronunciation of the rotary name
    pub rotary_pronunciation: Option<String>,
    /// The legal driving side at the location of this step
    pub driving_side: Option<DrivingSide>,
}

impl FromJson for RouteStep {
    open spec fn decodes(j: Json) -> bool {
        &&& j is Object
        &&& Decimal::decodes(field(j, "distance"@))
        &&& Decimal::decodes(field(j, "duration"@))
        &&& Geometry::decodes(field(j, "geometry"@))
        &&& Decimal::decodes(field(j, "weight"@))
        &&& String::decodes(field(j, "name"@))
        &&& <Option<String> as FromJson>::decodes(field(j, "ref"@))
        &&& <Option<String> as FromJson>::decodes(field(j, "pronunciation"@))
        &&& TransportationMode::decodes(field(j, "mode"@))
        &&& StepManeuver::decodes(field(j, "maneuver"@))
        &&& <Vec<Intersection> as FromJson>::decodes(field(j, "intersections"@))
        &&& <Option<String> as FromJson>::decodes(field(j, "rotary_name"@))
        &&& <Option<String> as FromJson>::decodes(field(j, "rotary_pronunciation"@))
        &&& <Option<DrivingSide> as FromJson>::decodes(field(j, "driving_side"@))
    }

    open spec fn decoded(j: Json, v: RouteStep) -> bool {
        &&& Decimal::decoded(field(j, "distance"@), v.distance)
        &&& Decimal::decoded(field(j, "duration"@), v.duration)
        &&& Geometry::decoded(field(j, "geometry"@), v.geometry)
        &&& Decimal::decoded(field(j, "weight"@), v.weight)
        &&& String::decoded(field(j, "name"@), v.name)
        &&& <Option<String> as FromJson>::decoded(field(j, "ref"@), v.reference)
        &&& <Option<String> as FromJson>::decoded(field(j, "pronunciation"@), v.pronunciation)
        &&& TransportationMode::decoded(field(j, "mode"@), v.mode)
        &&& StepManeuver::decoded(field(j, "maneuver"@), v.maneuver)
        &&& <Vec<Intersection> as FromJson>::decoded(field(j, "intersections"@), v.intersections)
        &&& <Option<String> as FromJson>::decoded(field(j, "rotary_name"@), v.rotary_name)
        &&& <Option<String> as FromJson>::decoded(field(j, "rotary_pronunciation"@), v.rotary_pronunciation)
        &&& <Option<DrivingSide> as FromJson>::decoded(field(j, "driving_side"@), v.driving_side)
    }

    fn from_json(j: &Json) -> (r: Result<RouteStep, DecodeError>) {
        expect_object(j)?;
        let distance = decode_field(j, "distance")?;
        let duration = decode_field(j, "duration")?;
        let geometry = decode_field(j, "geometry")?;
        let weight = decode_field(j, "weight")?;
        let name = decode_field(j, "name")?;
        let reference = decode_field(j, "ref")?;
        let pronunciation = decode_field(j, "pronunciation")?;
        let mode = decode_field(j, "mode")?;
        let maneuver = decode_field(j, "maneuver")?;
        let intersections = decode_field(j, "intersections")?;
        let rotary_name = decode_field(j, "rotary_name")?;
        let rotary_pronunciation = decode_field(j, "rotary_pronunciation")?;
        let driving_side = decode_field(j, "driving_side")?;
        Ok(RouteStep { distance, duration, geometry, weight, name, reference, pronunciation, mode, maneuver, intersections, rotary_name, rotary_pronunciation, driving_side })
    }
}

/// Metadata of the annotations.
#[derive(Debug)]
pub struct AnnotationMetaData {
    /// The names of the data sources of the speeds
    pub datasource_names: Option<Vec<String>>,
}

impl FromJson for AnnotationMetaData {
    open spec fn decodes(j: Json) -> bool {
        &&& j is Object
        &&& <Option<Vec<String>> as FromJson>::decodes(field(j, "datasource_names"@))
    }

    open spec fn decoded(j: Json, v: AnnotationMetaData) -> bool {
        &&& <Option<Vec<String>> as FromJson>::decoded(field(j, "datasource_names"@), v.datasource_names)
    }

    fn from_json(j: &Json) -> (r: Result<AnnotationMetaData, DecodeError>) {
        expect_object(j)?;
        let datasource_names = decode_field(j, "datasource_names")?;
        Ok(AnnotationMetaData { datasource_names })
    }
}

/// Fine-grained details about each segment of a leg; each list is there only
/// where it was asked for.
#[derive(Debug)]
pub struct Annotation {
    /// The distance, in metres, between each pair of coordinates
    pub distance: Option<Vec<Decimal>>,
    /// The duration between each pair of coordinates, in seconds
    pub duration: Option<Vec<Decimal>>,
    /// The index of the data source of the speed between each pair of coordinates
    pub datasources: Option<Vec<usize>>,
    /// The OSM node id of each coordinate along the route
    pub nodes: Option<Vec<usize>>,
    /// The weights between each pair of coordinates
    pub weight: Option<Vec<Decimal>>,
    /// The speed between each pair of coordinates
    pub speed: Option<Vec<Decimal>>,
    /// Metadata related to the other annotations
    pub metadata: Option<AnnotationMetaData>,
}

impl FromJson for Annotation {
    open spec fn decodes(j: Json) -> bool {
        &&& j is Object
        &&& <Option<Vec<Decimal>> as FromJson>::decodes(field(j, "distance"@))
        &&& <Option<Vec<Decimal>> as FromJson>::decodes(field(j, "duration"@))
        &&& <Option<Vec<usize>> as FromJson>::decodes(field(j, "datasources"@))
        &&& <Option<Vec<usize>> as FromJson>::decodes(field(j, "nodes"@))
        &&& <Option<Vec<Decimal>> as FromJson>::decodes(field(j, "weight"@))
        &&& <Option<Vec<Decimal>> as FromJson>::decodes(field(j, "speed"@))
        &&& <Option<AnnotationMetaData> as FromJson>::decodes(field(j, "metadata"@))
    }

    open spec fn decoded(j: Json, v: Annotation) -> bool {
        &&& <Option<Vec<Decimal>> as FromJson>::decoded(field(j, "distance"@), v.distance)
        &&& <Option<Vec<Decimal>> as FromJson>::decoded(field(j, "duration"@), v.duration)
        &&& <Option<Vec<usize>> as FromJson>::decoded(field(j, "datasources"@), v.datasources)
        &&& <Option<Vec<usize>> as FromJson>::decoded(field(j, "nodes"@), v.nodes)
        &&& <Option<Vec<Decimal>> as FromJson>::decoded(field(j, "weight"@), v.weight)
        &&& <Option<Vec<Decimal>> as FromJson>::decoded(field(j, "speed"@), v.speed)
        &&& <Option<AnnotationMetaData> as FromJson>::decoded(field(j, "metadata"@), v.metadata)
    }

    fn from_json(j: &Json) -> (r: Result<Annotation, DecodeError>) {
        expect_object(j)?;
        let distance = decode_field(j, "distance")?;
        let duration = decode_field(j, "duration")?;
        let datasources = decode_field(j, "datasources")?;
        let nodes = decode_field(j, "nodes")?;
        let weight = decode_field(j, "weight")?;
        let speed = decode_field(j, "speed")?;
        let metadata = decode_field(j, "metadata")?;
        Ok(Annotation { distance, duration, datasources, nodes, weight, speed, metadata })
    }
}

/// A route between two waypoints.
#[derive(Debug)]
pub struct RouteLeg {
    /// The distance traveled by this leg, in meters
    pub distance: Decimal,
    /// The estimated travel time, in seconds
    pub duration: Decimal,
    /// The calculated weight of the leg
    pub weight: Decimal,
    /// Summary of the route taken
    pub summary: String,
    /// The turn-by-turn steps; empty unless steps were asked for
    pub steps: Vec<RouteStep>,
    /// Details about each coordinate along the geometry, where asked for
    pub annotation: Option<Annotation>,
}

impl FromJson for RouteLeg {
    open spec fn decodes(j: Json) -> bool {
        &&& j is Object
        &&& Decimal::decodes(field(j, "distance"@))
        &&& Decimal::decodes(field(j, "duration"@))
        &&& Decimal::decodes(field(j, "weight"@))
        &&& String::decodes(field(j, "summary"@))
        &&& <Vec<RouteStep> as FromJson>::decodes(field(j, "steps"@))
        &&& <Option<Annotation> as FromJson>::decodes(field(j, "annotation"@))
    }

    open spec fn decoded(j: Json, v: RouteLeg) -> bool {
        &&& Decimal::decoded(field(j, "distance"@), v.distance)
        &&& Decimal::decoded(field(j, "duration"@), v.duration)
        &&& Decimal::decoded(field(j, "weight"@), v.weight)
        &&& String::decoded(field(j, "summary"@), v.summary)
        &&& <Vec<RouteStep> as FromJson>::decoded(field(j, "steps"@), v.steps)
        &&& <Option<Annotation> as FromJson>::decoded(field(j, "annotation"@), v.annotation)
    }

    fn from_json(j: &Json) -> (r: Result<RouteLeg, DecodeError>) {
        expect_object(j)?;
        let distance = decode_field(j, "distance")?;
        let duration = decode_field(j, "duration")?;
        let weight = decode_field(j, "weight")?;
        let summary = decode_field(j, "summary")?;
        let steps = decode_field(j, "steps")?;
        let annotation = decode_field(j, "annotation")?;
        Ok(RouteLeg { distance, duration, weight, summary, steps, annotation })
    }
}

/// A route through (potentially multiple) waypoints.
#[derive(Debug)]
pub struct Route {
    /// The distance traveled by this route, in meters
    pub distance: Decimal,
    /// The estimated travel time, in seconds
    pub duration: Decimal,
    /// The whole geometry of the route; absent where no overview was asked for
    pub geometry: Option<Geometry>,
    /// The calculated weight of the route
    pub weight: Decimal,
    /// The name of the weight profile
    pub weight_name: String,
    /// The legs between the given waypoints
    pub legs: Vec<RouteLeg>,
}

impl FromJson for Route {
    open spec fn decodes(j: Json) -> bool {
        &&& j is Object
        &&& Decimal::decodes(field(j, "distance"@))
        &&& Decimal::decodes(field(j, "duration"@))
        &&& <Option<Geometry> as FromJson>::decodes(field(j, "geometry"@))
        &&& Decimal::decodes(field(j, "weight"@))
        &&& String::decodes(field(j, "weight_name"@))
        &&& <Vec<RouteLeg> as FromJson>::decodes(field(j, "legs"@))
    }

    open spec fn decoded(j: Json, v: Route) -> bool {
        &&& Decimal::decoded(field(j, "distance"@), v.distance)
        &&& Decimal::decoded(field(j, "duration"@), v.duration)
        &&& <Option<Geometry> as FromJson>::decoded(field(j, "geometry"@), v.geometry)
        &&& Decimal::decoded(field(j, "weight"@), v.weight)
        &&& String::decoded(field(j, "weight_name"@), v.weight_name)
        &&& <Vec<RouteLeg> as FromJson>::decoded(field(j, "legs"@), v.legs)
    }

    fn from_json(j: &Json) -> (r: Result<Route, DecodeError>) {
        expect_object(j)?;
        let distance = decode_field(j, "distance")?;
        let duration = decode_field(j, "duration")?;
        let geometry = decode_field(j, "geometry")?;
        let weight = decode_field(j, "weight")?;
        let weight_name = decode_field(j, "weight_name")?;
        let legs = decode_field(j, "legs")?;
        Ok(Route { distance, duration, geometry, weight, weight_name, legs })
    }
}

} // verus!
