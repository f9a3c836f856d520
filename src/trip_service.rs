//! The trip service: solves the Traveling Salesman Problem over the
//! coordinates with a greedy heuristic.

use vstd::prelude::*;

use crate::base::{build_url, request_url, Client, Request, WithOptions};
use crate::common::{Coordinates, Geometries, TransportationMode};
use crate::errors::DecodeError;
use crate::json::{decode_field, expect_object, field, FromJson, Json};
use crate::options::{
    count_name, flag_entry, general_options_spec, lemma_count_flag_entry, lemma_count_list_entry,
    lemma_count_name_concat, lemma_count_opt_entry, lemma_general_count, lemma_general_names_distinct, one_if,
    opt_entry, pairs_view, push_flag, push_opt, GeneralOptions, OptionPair, Service,
};
use crate::route_service::{OverviewRequest, RouteAnnotationRequest};
use crate::records::{Route, Waypoint};
use crate::text::WireForm;

verus! {

/// A request to the trip service.
#[derive(Debug)]
pub struct TripRequest {
    /// Mode of transportation
    pub profile: TransportationMode,
    /// Coordinates the request bears on
    pub coordinates: Coordinates,
    /// The options that every service takes
    pub general: GeneralOptions,
    /// Whether the returned route returns to the first location
    pub roundtrip: bool,
    /// Whether the route starts at the first coordinate or any
    pub source: Option<Source>,
    /// Whether the route ends at the last coordinate or any
    pub destination: Option<Destination>,
    /// Return route steps for each route
    pub steps: bool,
    /// Returned route geometry format
    pub geometries: Option<Geometries>,
    /// Return additional metadata for each coordinate along the route geometry
    pub annotations: Option<RouteAnnotationRequest>,
    /// Add overview geometry: full, simplified, or none
    pub overview: Option<OverviewRequest>,
}

impl TripRequest {
    /// A round trip by car over `coordinates`, with every other option at its default.
    pub fn new(coordinates: Coordinates) -> (r: TripRequest)
        ensures
            r.profile == TransportationMode::Car,
            r.coordinates == coordinates,
            r.general.generate_hints && !r.general.skip_waypoints,
            r.general.bearings is None && r.general.radiuses is None && r.general.hints is None,
            r.general.approaches is None && r.general.exclude is None && r.general.snapping is None,
            r.roundtrip,
            r.source is None,
            r.destination is None,
            !r.steps,
            r.geometries is None,
            r.annotations is None,
            r.overview is None,
    {
        TripRequest {
            profile: TransportationMode::Car,
            coordinates,
            general: GeneralOptions::default(),
            roundtrip: true,
            source: None,
            destination: None,
            steps: false,
            geometries: None,
            annotations: None,
            overview: None,
        }
    }
}

impl WithOptions for TripRequest {
    open spec fn options_spec(&self) -> Seq<OptionPair> {
        flag_entry("roundtrip"@, self.roundtrip)
            + opt_entry("source"@, self.source)
            + opt_entry("destination"@, self.destination)
            + flag_entry("steps"@, self.steps)
            + opt_entry("geometries"@, self.geometries)
            + opt_entry("annotations"@, self.annotations)
            + opt_entry("overview"@, self.overview)
    }

    fn options(&self) -> (r: Vec<(&'static str, String)>) {
        let mut opts: Vec<(&'static str, String)> = Vec::new();
        push_flag(&mut opts, "roundtrip", self.roundtrip);
        push_opt(&mut opts, "source", &self.source);
        push_opt(&mut opts, "destination", &self.destination);
        push_flag(&mut opts, "steps", self.steps);
        push_opt(&mut opts, "geometries", &self.geometries);
        push_opt(&mut opts, "annotations", &self.annotations);
        push_opt(&mut opts, "overview", &self.overview);
        assert(pairs_view(opts@) =~= self.options_spec());
        opts
    }
}

impl Request for TripRequest {
    type Response = TripResponse;

    open spec fn url_spec(&self, base: Seq<char>, version: Seq<char>) -> Seq<char> {
        request_url(base, Service::Trip, version, self.profile, self.coordinates.wire_spec())
    }

    open spec fn query_spec(&self) -> Seq<OptionPair> {
        self.options_spec() + general_options_spec(self.general)
    }

    fn url(&self, client: &Client) -> (r: String) {
        build_url(client, Service::Trip, self.profile, &self.coordinates)
    }

    fn query(&self) -> (r: Vec<(&'static str, String)>) {
        let mut opts = self.options();
        self.general.add_general_options(&mut opts);
        opts
    }
}

/// The payload of a trip response.
#[derive(Debug)]
pub struct TripResponse {
    /// The waypoints, in input order
    pub waypoints: Option<Vec<TripWaypoint>>,
    /// The routes that assemble the trip
    pub trips: Option<Vec<Route>>,
}

impl FromJson for TripResponse {
    open spec fn decodes(j: Json) -> bool {
        &&& j is Object
        &&& <Option<Vec<TripWaypoint>> as FromJson>::decodes(field(j, "waypoints"@))
        &&& <Option<Vec<Route>> as FromJson>::decodes(field(j, "trips"@))
    }

    open spec fn decoded(j: Json, v: TripResponse) -> bool {
        &&& <Option<Vec<TripWaypoint>> as FromJson>::decoded(field(j, "waypoints"@), v.waypoints)
        &&& <Option<Vec<Route>> as FromJson>::decoded(field(j, "trips"@), v.trips)
    }

    fn from_json(j: &Json) -> (r: Result<TripResponse, DecodeError>) {
        expect_object(j)?;
        let waypoints = decode_field(j, "waypoints")?;
        let trips = decode_field(j, "trips")?;
        Ok(TripResponse { waypoints, trips })
    }
}

/// Where the returned route starts.
#[derive(Debug, Clone, Copy, PartialEq, Eq, Structural)]
pub enum Source {
    First,
    Any,
}

impl Default for Source {
    fn default() -> (r: Source)
        ensures
            r == Source::Any,
    {
        Source::Any
    }
}

impl WireForm for Source {
    open spec fn wire_spec(&self) -> Seq<char> {
        match *self {
            Source::First => "first"@,
            Source::Any => "any"@,
        }
    }

    fn wire(&self) -> (r: String) {
        match self {
            Source::First => String::from_str("first"),
            Source::Any => String::from_str("any"),
        }
    }
}

/// Where the returned route ends.
#[derive(Debug, Clone, Copy, PartialEq, Eq, Structural)]
pub enum Destination {
    Last,
    Any,
}

impl Default for Destination {
    fn default() -> (r: Destination)
        ensures
            r == Destination::Any,
    {
        Destination::Any
    }
}

impl WireForm for Destination {
    open spec fn wire_spec(&self) -> Seq<char> {
        match *self {
            Destination::Last => "last"@,
            Destination::Any => "any"@,
        }
    }

    fn wire(&self) -> (r: String) {
        match self {
            Destination::Last => String::from_str("last"),
            Destination::Any => String::from_str("any"),
        }
    }
}

/// A waypoint of a trip and where it stands in it.
#[derive(Debug)]
pub struct TripWaypoint {
    /// The waypoint itself, whose fields stand in the same object
    pub waypoint: Waypoint,
    /// Index of the trip the point was matched to
    pub trips_index: usize,
    /// Index of the point in the trip
    pub waypoint_index: usize,
}

impl FromJson for TripWaypoint {
    open spec fn decodes(j: Json) -> bool {
        &&& j is Object
        &&& Waypoint::decodes(j)
        &&& usize::decodes(field(j, "trips_index"@))
        &&& usize::decodes(field(j, "waypoint_index"@))
    }

    open spec fn decoded(j: Json, v: TripWaypoint) -> bool {
        &&& Waypoint::decoded(j, v.waypoint)
        &&& usize::decoded(field(j, "trips_index"@), v.trips_index)
        &&& usize::decoded(field(j, "waypoint_index"@), v.waypoint_index)
    }

    fn from_json(j: &Json) -> (r: Result<TripWaypoint, DecodeError>) {
        expect_object(j)?;
        let waypoint = Waypoint::from_json(j)?;
        let trips_index = decode_field(j, "trips_index")?;
        let waypoint_index = decode_field(j, "waypoint_index")?;
        Ok(TripWaypoint { waypoint, trips_index, waypoint_index })
    }
}

/// The number of pairs named `n` in the query of a trip request.
proof fn lemma_trip_query_count(r: TripRequest, n: Seq<char>)
    ensures
        count_name(r.query_spec(), n) == one_if(n == "roundtrip"@)
            + one_if(r.source is Some && n == "source"@)
            + one_if(r.destination is Some && n == "destination"@)
            + one_if(n == "steps"@)
            + one_if(r.geometries is Some && n == "geometries"@)
            + one_if(r.annotations is Some && n == "annotations"@)
            + one_if(r.overview is Some && n == "overview"@)
            + one_if(r.general.bearings is Some && n == "bearings"@)
            + one_if(r.general.radiuses is Some && n == "radiuses"@)
            + one_if(n == "generate_hints"@)
            + one_if(r.general.hints is Some && n == "hints"@)
            + one_if(r.general.approaches is Some && n == "approaches"@)
            + one_if(r.general.exclude is Some && n == "exclude"@)
            + one_if(r.general.snapping is Some && n == "snapping"@)
            + one_if(n == "skip_waypoints"@),
{
    broadcast use lemma_count_name_concat, lemma_count_flag_entry, lemma_count_opt_entry, lemma_count_list_entry;

    lemma_general_count(r.general, n);
}

/// The option names of the trip service differ from each other and from the
/// general option names.
proof fn lemma_trip_names_distinct()
    ensures
        "roundtrip"@ != "source"@,
        "roundtrip"@ != "destination"@,
        "roundtrip"@ != "steps"@,
        "roundtrip"@ != "geometries"@,
        "roundtrip"@ != "annotations"@,
        "roundtrip"@ != "overview"@,
        "roundtrip"@ != "bearings"@,
        "roundtrip"@ != "radiuses"@,
        "roundtrip"@ != "generate_hints"@,
        "roundtrip"@ != "hints"@,
        "roundtrip"@ != "approaches"@,
        "roundtrip"@ != "exclude"@,
        "roundtrip"@ != "snapping"@,
        "roundtrip"@ != "skip_waypoints"@,
        "source"@ != "destination"@,
        "source"@ != "steps"@,
        "source"@ != "geometries"@,
        "source"@ != "annotations"@,
        "source"@ != "overview"@,
        "source"@ != "bearings"@,
        "source"@ != "radiuses"@,
        "source"@ != "generate_hints"@,
        "source"@ != "hints"@,
        "source"@ != "approaches"@,
        "source"@ != "exclude"@,
        "source"@ != "snapping"@,
        "source"@ != "skip_waypoints"@,
        "destination"@ != "steps"@,
        "destination"@ != "geometries"@,
        "destination"@ != "annotations"@,
        "destination"@ != "overview"@,
        "destination"@ != "bearings"@,
        "destination"@ != "radiuses"@,
        "destination"@ != "generate_hints"@,
        "destination"@ != "hints"@,
        "destination"@ != "approaches"@,
        "destination"@ != "exclude"@,
        "destination"@ != "snapping"@,
        "destination"@ != "skip_waypoints"@,
        "steps"@ != "geometries"@,
        "steps"@ != "annotations"@,
        "steps"@ != "overview"@,
        "steps"@ != "bearings"@,
        "steps"@ != "radiuses"@,
        "steps"@ != "generate_hints"@,
        "steps"@ != "hints"@,
        "steps"@ != "approaches"@,
        "steps"@ != "exclude"@,
        "steps"@ != "snapping"@,
        "steps"@ != "skip_waypoints"@,
        "geometries"@ != "annotations"@,
        "geometries"@ != "overview"@,
        "geometries"@ != "bearings"@,
        "geometries"@ != "radiuses"@,
        "geometries"@ != "generate_hints"@,
        "geometries"@ != "hints"@,
        "geometries"@ != "approaches"@,
        "geometries"@ != "exclude"@,
        "geometries"@ != "snapping"@,
        "geometries"@ != "skip_waypoints"@,
        "annotations"@ != "overview"@,
        "annotations"@ != "bearings"@,
        "annotations"@ != "radiuses"@,
        "annotations"@ != "generate_hints"@,
        "annotations"@ != "hints"@,
        "annotations"@ != "approaches"@,
        "annotations"@ != "exclude"@,
        "annotations"@ != "snapping"@,
        "annotations"@ != "skip_waypoints"@,
        "overview"@ != "bearings"@,
        "overview"@ != "radiuses"@,
        "overview"@ != "generate_hints"@,
        "overview"@ != "hints"@,
        "overview"@ != "approaches"@,
        "overview"@ != "exclude"@,
        "overview"@ != "snapping"@,
        "overview"@ != "skip_waypoints"@,
{
    reveal_strlit("roundtrip");
    reveal_strlit("source");
    reveal_strlit("destination");
    reveal_strlit("steps");
    reveal_strlit("geometries");
    reveal_strlit("annotations");
    reveal_strlit("overview");
    reveal_strlit("bearings");
    reveal_strlit("radiuses");
    reveal_strlit("generate_hints");
    reveal_strlit("hints");
    reveal_strlit("approaches");
    reveal_strlit("exclude");
    reveal_strlit("snapping");
    reveal_strlit("skip_waypoints");
    assert("roundtrip"@.len() != "source"@.len());
    assert("roundtrip"@.len() != "destination"@.len());
    assert("roundtrip"@.len() != "steps"@.len());
    assert("roundtrip"@.len() != "geometries"@.len());
    assert("roundtrip"@.len() != "annotations"@.len());
    assert("roundtrip"@.len() != "overview"@.len());
    assert("roundtrip"@.len() != "bearings"@.len());
    assert("roundtrip"@.len() != "radiuses"@.len());
    assert("roundtrip"@.len() != "generate_hints"@.len());
    assert("roundtrip"@.len() != "hints"@.len());
    assert("roundtrip"@.len() != "approaches"@.len());
    assert("roundtrip"@.len() != "exclude"@.len());
    assert("roundtrip"@.len() != "snapping"@.len());
    assert("roundtrip"@.len() != "skip_waypoints"@.len());
    assert("source"@.len() != "destination"@.len());
    assert("source"@.len() != "steps"@.len());
    assert("source"@.len() != "geometries"@.len());
    assert("source"@.len() != "annotations"@.len());
    assert("source"@.len() != "overview"@.len());
    assert("source"@.len() != "bearings"@.len());
    assert("source"@.len() != "radiuses"@.len());
    assert("source"@.len() != "generate_hints"@.len());
    assert("source"@.len() != "hints"@.len());
    assert("source"@.len() != "approaches"@.len());
    assert("source"@.len() != "exclude"@.len());
    assert("source"@.len() != "snapping"@.len());
    assert("source"@.len() != "skip_waypoints"@.len());
    assert("destination"@.len() != "steps"@.len());
    assert("destination"@.len() != "geometries"@.len());
    assert("destination"@[0] != "annotations"@[0]);
    assert("destination"@.len() != "overview"@.len());
    assert("destination"@.len() != "bearings"@.len());
    assert("destination"@.len() != "radiuses"@.len());
    assert("destination"@.len() != "generate_hints"@.len());
    assert("destination"@.len() != "hints"@.len());
    assert("destination"@.len() != "approaches"@.len());
    assert("destination"@.len() != "exclude"@.len());
    assert("destination"@.len() != "snapping"@.len());
    assert("destination"@.len() != "skip_waypoints"@.len());
    assert("steps"@.len() != "geometries"@.len());
    assert("steps"@.len() != "annotations"@.len());
    assert("steps"@.len() != "overview"@.len());
    assert("steps"@.len() != "bearings"@.len());
    assert("steps"@.len() != "radiuses"@.len());
    assert("steps"@.len() != "generate_hints"@.len());
    assert("steps"@[0] != "hints"@[0]);
    assert("steps"@.len() != "approaches"@.len());
    assert("steps"@.len() != "exclude"@.len());
    assert("steps"@.len() != "snapping"@.len());
    assert("steps"@.len() != "skip_waypoints"@.len());
    assert("geometries"@.len() != "annotations"@.len());
    assert("geometries"@.len() != "overview"@.len());
    assert("geometries"@.len() != "bearings"@.len());
    assert("geometries"@.len() != "radiuses"@.len());
    assert("geometries"@.len() != "generate_hints"@.len());
    assert("geometries"@.len() != "hints"@.len());
    assert("geometries"@[0] != "approaches"@[0]);
    assert("geometries"@.len() != "exclude"@.len());
    assert("geometries"@.len() != "snapping"@.len());
    assert("geometries"@.len() != "skip_waypoints"@.len());
    assert("annotations"@.len() != "overview"@.len());
    assert("annotations"@.len() != "bearings"@.len());
    assert("annotations"@.len() != "radiuses"@.len());
    assert("annotations"@.len() != "generate_hints"@.len());
    assert("annotations"@.len() != "hints"@.len());
    assert("annotations"@.len() != "approaches"@.len());
    assert("annotations"@.len() != "exclude"@.len());
    assert("annotations"@.len() != "snapping"@.len());
    assert("annotations"@.len() != "skip_waypoints"@.len());
    assert("overview"@[0] != "bearings"@[0]);
    assert("overview"@[0] != "radiuses"@[0]);
    assert("overview"@.len() != "generate_hints"@.len());
    assert("overview"@.len() != "hints"@.len());
    assert("overview"@.len() != "approaches"@.len());
    assert("overview"@.len() != "exclude"@.len());
    assert("overview"@[0] != "snapping"@[0]);
    assert("overview"@.len() != "skip_waypoints"@.len());
}

/// In the query of a trip request, an option left unset never appears,
/// and each option that is always sent appears exactly once.
pub proof fn lemma_trip_query_presence(r: TripRequest)
    ensures
        count_name(r.query_spec(), "roundtrip"@) == 1,
        r.source is None ==> count_name(r.query_spec(), "source"@) == 0,
        r.destination is None ==> count_name(r.query_spec(), "destination"@) == 0,
        count_name(r.query_spec(), "steps"@) == 1,
        r.geometries is None ==> count_name(r.query_spec(), "geometries"@) == 0,
        r.annotations is None ==> count_name(r.query_spec(), "annotations"@) == 0,
        r.overview is None ==> count_name(r.query_spec(), "overview"@) == 0,
        r.general.bearings is None ==> count_name(r.query_spec(), "bearings"@) == 0,
        r.general.radiuses is None ==> count_name(r.query_spec(), "radiuses"@) == 0,
        count_name(r.query_spec(), "generate_hints"@) == 1,
        r.general.hints is None ==> count_name(r.query_spec(), "hints"@) == 0,
        r.general.approaches is None ==> count_name(r.query_spec(), "approaches"@) == 0,
        r.general.exclude is None ==> count_name(r.query_spec(), "exclude"@) == 0,
        r.general.snapping is None ==> count_name(r.query_spec(), "snapping"@) == 0,
        count_name(r.query_spec(), "skip_waypoints"@) == 1,
{
    lemma_general_names_distinct();
    lemma_trip_names_distinct();
    lemma_trip_query_count(r, "roundtrip"@);
    lemma_trip_query_count(r, "source"@);
    lemma_trip_query_count(r, "destination"@);
    lemma_trip_query_count(r, "steps"@);
    lemma_trip_query_count(r, "geometries"@);
    lemma_trip_query_count(r, "annotations"@);
    lemma_trip_query_count(r, "overview"@);
    lemma_trip_query_count(r, "bearings"@);
    lemma_trip_query_count(r, "radiuses"@);
    lemma_trip_query_count(r, "generate_hints"@);
    lemma_trip_query_count(r, "hints"@);
    lemma_trip_query_count(r, "approaches"@);
    lemma_trip_query_count(r, "exclude"@);
    lemma_trip_query_count(r, "snapping"@);
    lemma_trip_query_count(r, "skip_waypoints"@);
}
} // verus!
