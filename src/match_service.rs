//! The match service: snaps noisy GPS traces to the road network in the most
//! plausible way.

use vstd::prelude::*;

use crate::base::{build_url, request_url, Client, Request, WithOptions};
use crate::common::{Coordinates, Geometries, TransportationMode};
use crate::errors::DecodeError;
use crate::json::{decode_field, expect_object, field, FromJson, Json};
use crate::options::{
    count_name, flag_entry, general_options_spec, lemma_count_flag_entry, lemma_count_list_entry,
    lemma_count_name_concat, lemma_count_opt_entry, lemma_general_count, lemma_general_names_distinct, list_entry, one_if,
    opt_entry, pairs_view, push_flag, push_list, push_opt, GeneralOptions, OptionPair, Service,
};
use crate::decimal::Decimal;
use crate::route_service::{OverviewRequest, RouteAnnotationRequest};
use crate::records::{Route, Waypoint};
use crate::text::WireForm;

verus! {

/// A request to the match service.
#[derive(Debug)]
pub struct MatchRequest {
    /// Mode of transportation
    pub profile: TransportationMode,
    /// Coordinates the request bears on
    pub coordinates: Coordinates,
    /// The options that every service takes
    pub general: GeneralOptions,
    /// Return route steps for each route
    pub steps: bool,
    /// Return additional metadata for each coordinate along the route geometry
    pub annotations: Option<RouteAnnotationRequest>,
    /// Returned route geometry format
    pub geometries: Option<Geometries>,
    /// Add overview geometry: full, simplified, or none
    pub overview: Option<OverviewRequest>,
    /// Timestamps of the input locations, in seconds since the UNIX epoch
    pub timestamps: Option<Vec<u64>>,
    /// Whether to split the trace at large timestamp gaps
    pub gaps: Option<GapHandling>,
    /// Allows the input track to be tidied for better matching of noisy tracks
    pub tidy: bool,
    /// Indices of the input coordinates to treat as waypoints
    pub waypoints: Option<Vec<usize>>,
}

impl MatchRequest {
    /// A match request by car over `coordinates`, with every option at its default.
    pub fn new(coordinates: Coordinates) -> (r: MatchRequest)
        ensures
            r.profile == TransportationMode::Car,
            r.coordinates == coordinates,
            r.general.generate_hints && !r.general.skip_waypoints,
            r.general.bearings is None && r.general.radiuses is None && r.general.hints is None,
            r.general.approaches is None && r.general.exclude is None && r.general.snapping is None,
            !r.steps,
            r.annotations is None,
            r.geometries is None,
            r.overview is None,
            r.timestamps is None,
            r.gaps is None,
            !r.tidy,
            r.waypoints is None,
    {
        MatchRequest {
            profile: TransportationMode::Car,
            coordinates,
            general: GeneralOptions::default(),
            steps: false,
            annotations: None,
            geometries: None,
            overview: None,
            timestamps: None,
            gaps: None,
            tidy: false,
            waypoints: None,
        }
    }
}

impl WithOptions for MatchRequest {
    open spec fn options_spec(&self) -> Seq<OptionPair> {
        flag_entry("steps"@, self.steps)
            + opt_entry("annotations"@, self.annotations)
            + opt_entry("geometries"@, self.geometries)
            + opt_entry("overview"@, self.overview)
            + list_entry("timestamps"@, self.timestamps)
            + opt_entry("gaps"@, self.gaps)
            + flag_entry("tidy"@, self.tidy)
            + list_entry("waypoints"@, self.waypoints)
    }

    fn options(&self) -> (r: Vec<(&'static str, String)>) {
        let mut opts: Vec<(&'static str, String)> = Vec::new();
        push_flag(&mut opts, "steps", self.steps);
        push_opt(&mut opts, "annotations", &self.annotations);
        push_opt(&mut opts, "geometries", &self.geometries);
        push_opt(&mut opts, "overview", &self.overview);
        push_list(&mut opts, "timestamps", &self.timestamps);
        push_opt(&mut opts, "gaps", &self.gaps);
        push_flag(&mut opts, "tidy", self.tidy);
        push_list(&mut opts, "waypoints", &self.waypoints);
        assert(pairs_view(opts@) =~= self.options_spec());
        opts
    }
}

impl Request for MatchRequest {
    type Response = MatchResponse;

    open spec fn url_spec(&self, base: Seq<char>, version: Seq<char>) -> Seq<char> {
        request_url(base, Service::Match, version, self.profile, self.coordinates.wire_spec())
    }

    open spec fn query_spec(&self) -> Seq<OptionPair> {
        self.options_spec() + general_options_spec(self.general)
    }

    fn url(&self, client: &Client) -> (r: String) {
        build_url(client, Service::Match, self.profile, &self.coordinates)
    }

    fn query(&self) -> (r: Vec<(&'static str, String)>) {
        let mut opts = self.options();
        self.general.add_general_options(&mut opts);
        opts
    }
}

/// The payload of a match response.
#[derive(Debug)]
pub struct MatchResponse {
    /// The points of the trace in order; `None` for a point left out as an outlier
    pub tracepoints: Option<Vec<Option<MatchingWaypoint>>>,
    /// The routes that assemble the trace
    pub matchings: Vec<MatchingRoute>,
}

impl FromJson for MatchResponse {
    open spec fn decodes(j: Json) -> bool {
        &&& j is Object
        &&& <Option<Vec<Option<MatchingWaypoint>>> as FromJson>::decodes(field(j, "tracepoints"@))
        &&& <Vec<MatchingRoute> as FromJson>::decodes(field(j, "matchings"@))
    }

    open spec fn decoded(j: Json, v: MatchResponse) -> bool {
        &&& <Option<Vec<Option<MatchingWaypoint>>> as FromJson>::decoded(field(j, "tracepoints"@), v.tracepoints)
        &&& <Vec<MatchingRoute> as FromJson>::decoded(field(j, "matchings"@), v.matchings)
    }

    fn from_json(j: &Json) -> (r: Result<MatchResponse, DecodeError>) {
        expect_object(j)?;
        let tracepoints = decode_field(j, "tracepoints")?;
        let matchings = decode_field(j, "matchings")?;
        Ok(MatchResponse { tracepoints, matchings })
    }
}

/// A point of a trace and where it was matched.
#[derive(Debug)]
pub struct MatchingWaypoint {
    /// The waypoint itself, whose fields stand in the same object
    pub waypoint: Waypoint,
    /// Index of the route in `matchings` that the point was matched to
    pub matchings_index: usize,
    /// Index of the waypoint inside the matched route
    pub waypoint_index: usize,
    /// Number of probable alternative matchings for this point
    pub alternatives_count: usize,
}

impl FromJson for MatchingWaypoint {
    open spec fn decodes(j: Json) -> bool {
        &&& j is Object
        &&& Waypoint::decodes(j)
        &&& usize::decodes(field(j, "matchings_index"@))
        &&& usize::decodes(field(j, "waypoint_index"@))
        &&& usize::decodes(field(j, "alternatives_count"@))
    }

    open spec fn decoded(j: Json, v: MatchingWaypoint) -> bool {
        &&& Waypoint::decoded(j, v.waypoint)
        &&& usize::decoded(field(j, "matchings_index"@), v.matchings_index)
        &&& usize::decoded(field(j, "waypoint_index"@), v.waypoint_index)
        &&& usize::decoded(field(j, "alternatives_count"@), v.alternatives_count)
    }

    fn from_json(j: &Json) -> (r: Result<MatchingWaypoint, DecodeError>) {
        expect_object(j)?;
        let waypoint = Waypoint::from_json(j)?;
        let matchings_index = decode_field(j, "matchings_index")?;
        let waypoint_index = decode_field(j, "waypoint_index")?;
        let alternatives_count = decode_field(j, "alternatives_count")?;
        Ok(MatchingWaypoint { waypoint, matchings_index, waypoint_index, alternatives_count })
    }
}

/// A route of a matching and the confidence in it.
#[derive(Debug)]
pub struct MatchingRoute {
    /// The route itself, whose fields stand in the same object
    pub route: Route,
    /// Confidence of the matching, between 0 and 1
    pub confidence: Decimal,
}

impl FromJson for MatchingRoute {
    open spec fn decodes(j: Json) -> bool {
        &&& j is Object
        &&& Route::decodes(j)
        &&& Decimal::decodes(field(j, "confidence"@))
    }

    open spec fn decoded(j: Json, v: MatchingRoute) -> bool {
        &&& Route::decoded(j, v.route)
        &&& Decimal::decoded(field(j, "confidence"@), v.confidence)
    }

    fn from_json(j: &Json) -> (r: Result<MatchingRoute, DecodeError>) {
        expect_object(j)?;
        let route = Route::from_json(j)?;
        let confidence = decode_field(j, "confidence")?;
        Ok(MatchingRoute { route, confidence })
    }
}

/// Whether to split the input track at large timestamp gaps.
#[derive(Debug, Clone, Copy, PartialEq, Eq, Structural)]
pub enum GapHandling {
    Split,
    Ignore,
}

impl Default for GapHandling {
    fn default() -> (r: GapHandling)
        ensures
            r == GapHandling::Split,
    {
        GapHandling::Split
    }
}

impl WireForm for GapHandling {
    open spec fn wire_spec(&self) -> Seq<char> {
        match *self {
            GapHandling::Split => "split"@,
            GapHandling::Ignore => "ignore"@,
        }
    }

    fn wire(&self) -> (r: String) {
        match self {
            GapHandling::Split => String::from_str("split"),
            GapHandling::Ignore => String::from_str("ignore"),
        }
    }
}

/// The number of pairs named `n` in the query of a match request.
proof fn lemma_match_query_count(r: MatchRequest, n: Seq<char>)
    ensures
        count_name(r.query_spec(), n) == one_if(n == "steps"@)
            + one_if(r.annotations is Some && n == "annotations"@)
            + one_if(r.geometries is Some && n == "geometries"@)
            + one_if(r.overview is Some && n == "overview"@)
            + one_if(r.timestamps is Some && n == "timestamps"@)
            + one_if(r.gaps is Some && n == "gaps"@)
            + one_if(n == "tidy"@)
            + one_if(r.waypoints is Some && n == "waypoints"@)
            + one_if(r.general.bearings is Some && n == "bearings"@)
            + one_if(r.general.radiuses is Some && n == "radiuses"@)
            + one_if(n == "generate_hints"@)
            + one_if(r.general.hints is Some && n == "hints"@)
            + one_if(r.general.approaches is Some && n == "approaches"@)
            + one_if(r.general.exclude is Some && n == "exclude"@)
            + one_if(r.general.snapping is Some && n == "snapping"@)
            + one_if(n == "skip_waypoints"@),
{
    broadcast use lemma_count_name_concat, lemma_count_flag_entry, lemma_count_opt_entry, lemma_count_list_entry;

    lemma_general_count(r.general, n);
}

/// The option names of the match service differ from each other and from the
/// general option names.
proof fn lemma_match_names_distinct()
    ensures
        "steps"@ != "annotations"@,
        "steps"@ != "geometries"@,
        "steps"@ != "overview"@,
        "steps"@ != "timestamps"@,
        "steps"@ != "gaps"@,
        "steps"@ != "tidy"@,
        "steps"@ != "waypoints"@,
        "steps"@ != "bearings"@,
        "steps"@ != "radiuses"@,
        "steps"@ != "generate_hints"@,
        "steps"@ != "hints"@,
        "steps"@ != "approaches"@,
        "steps"@ != "exclude"@,
        "steps"@ != "snapping"@,
        "steps"@ != "skip_waypoints"@,
        "annotations"@ != "geometries"@,
        "annotations"@ != "overview"@,
        "annotations"@ != "timestamps"@,
        "annotations"@ != "gaps"@,
        "annotations"@ != "tidy"@,
        "annotations"@ != "waypoints"@,
        "annotations"@ != "bearings"@,
        "annotations"@ != "radiuses"@,
        "annotations"@ != "generate_hints"@,
        "annotations"@ != "hints"@,
        "annotations"@ != "approaches"@,
        "annotations"@ != "exclude"@,
        "annotations"@ != "snapping"@,
        "annotations"@ != "skip_waypoints"@,
        "geometries"@ != "overview"@,
        "geometries"@ != "timestamps"@,
        "geometries"@ != "gaps"@,
        "geometries"@ != "tidy"@,
        "geometries"@ != "waypoints"@,
        "geometries"@ != "bearings"@,
        "geometries"@ != "radiuses"@,
        "geometries"@ != "generate_hints"@,
        "geometries"@ != "hints"@,
        "geometries"@ != "approaches"@,
        "geometries"@ != "exclude"@,
        "geometries"@ != "snapping"@,
        "geometries"@ != "skip_waypoints"@,
        "overview"@ != "timestamps"@,
        "overview"@ != "gaps"@,
        "overview"@ != "tidy"@,
        "overview"@ != "waypoints"@,
        "overview"@ != "bearings"@,
        "overview"@ != "radiuses"@,
        "overview"@ != "generate_hints"@,
        "overview"@ != "hints"@,
        "overview"@ != "approaches"@,
        "overview"@ != "exclude"@,
        "overview"@ != "snapping"@,
        "overview"@ != "skip_waypoints"@,
        "timestamps"@ != "gaps"@,
        "timestamps"@ != "tidy"@,
        "timestamps"@ != "waypoints"@,
        "timestamps"@ != "bearings"@,
        "timestamps"@ != "radiuses"@,
        "timestamps"@ != "generate_hints"@,
        "timestamps"@ != "hints"@,
        "timestamps"@ != "approaches"@,
        "timestamps"@ != "exclude"@,
        "timestamps"@ != "snapping"@,
        "timestamps"@ != "skip_waypoints"@,
        "gaps"@ != "tidy"@,
        "gaps"@ != "waypoints"@,
        "gaps"@ != "bearings"@,
        "gaps"@ != "radiuses"@,
        "gaps"@ != "generate_hints"@,
        "gaps"@ != "hints"@,
        "gaps"@ != "approaches"@,
        "gaps"@ != "exclude"@,
        "gaps"@ != "snapping"@,
        "gaps"@ != "skip_waypoints"@,
        "tidy"@ != "waypoints"@,
        "tidy"@ != "bearings"@,
        "tidy"@ != "radiuses"@,
        "tidy"@ != "generate_hints"@,
        "tidy"@ != "hints"@,
        "tidy"@ != "approaches"@,
        "tidy"@ != "exclude"@,
        "tidy"@ != "snapping"@,
        "tidy"@ != "skip_waypoints"@,
        "waypoints"@ != "bearings"@,
        "waypoints"@ != "radiuses"@,
        "waypoints"@ != "generate_hints"@,
        "waypoints"@ != "hints"@,
        "waypoints"@ != "approaches"@,
        "waypoints"@ != "exclude"@,
        "waypoints"@ != "snapping"@,
        "waypoints"@ != "skip_waypoints"@,
{
    reveal_strlit("steps");
    reveal_strlit("annotations");
    reveal_strlit("geometries");
    reveal_strlit("overview");
    reveal_strlit("timestamps");
    reveal_strlit("gaps");
    reveal_strlit("tidy");
    reveal_strlit("waypoints");
    reveal_strlit("bearings");
    reveal_strlit("radiuses");
    reveal_strlit("generate_hints");
    reveal_strlit("hints");
    reveal_strlit("approaches");
    reveal_strlit("exclude");
    reveal_strlit("snapping");
    reveal_strlit("skip_waypoints");
    assert("steps"@.len() != "annotations"@.len());
    assert("steps"@.len() != "geometries"@.len());
    assert("steps"@.len() != "overview"@.len());
    assert("steps"@.len() != "timestamps"@.len());
    assert("steps"@.len() != "gaps"@.len());
    assert("steps"@.len() != "tidy"@.len());
    assert("steps"@.len() != "waypoints"@.len());
    assert("steps"@.len() != "bearings"@.len());
    assert("steps"@.len() != "radiuses"@.len());
    assert("steps"@.len() != "generate_hints"@.len());
    assert("steps"@[0] != "hints"@[0]);
    assert("steps"@.len() != "approaches"@.len());
    assert("steps"@.len() != "exclude"@.len());
    assert("steps"@.len() != "snapping"@.len());
    assert("steps"@.len() != "skip_waypoints"@.len());
    assert("annotations"@.len() != "geometries"@.len());
    assert("annotations"@.len() != "overview"@.len());
    assert("annotations"@.len() != "timestamps"@.len());
    assert("annotations"@.len() != "gaps"@.len());
    assert("annotations"@.len() != "tidy"@.len());
    assert("annotations"@.len() != "waypoints"@.len());
    assert("annotations"@.len() != "bearings"@.len());
    assert("annotations"@.len() != "radiuses"@.len());
    assert("annotations"@.len() != "generate_hints"@.len());
    assert("annotations"@.len() != "hints"@.len());
    assert("annotations"@.len() != "approaches"@.len());
    assert("annotations"@.len() != "exclude"@.len());
    assert("annotations"@.len() != "snapping"@.len());
    assert("annotations"@.len() != "skip_waypoints"@.len());
    assert("geometries"@.len() != "overview"@.len());
    assert("geometries"@[0] != "timestamps"@[0]);
    assert("geometries"@.len() != "gaps"@.len());
    assert("geometries"@.len() != "tidy"@.len());
    assert("geometries"@.len() != "waypoints"@.len());
    assert("geometries"@.len() != "bearings"@.len());
    assert("geometries"@.len() != "radiuses"@.len());
    assert("geometries"@.len() != "generate_hints"@.len());
    assert("geometries"@.len() != "hints"@.len());
    assert("geometries"@[0] != "approaches"@[0]);
    assert("geometries"@.len() != "exclude"@.len());
    assert("geometries"@.len() != "snapping"@.len());
    assert("geometries"@.len() != "skip_waypoints"@.len());
    assert("overview"@.len() != "timestamps"@.len());
    assert("overview"@.len() != "gaps"@.len());
    assert("overview"@.len() != "tidy"@.len());
    assert("overview"@.len() != "waypoints"@.len());
    assert("overview"@[0] != "bearings"@[0]);
    assert("overview"@[0] != "radiuses"@[0]);
    assert("overview"@.len() != "generate_hints"@.len());
    assert("overview"@.len() != "hints"@.len());
    assert("overview"@.len() != "approaches"@.len());
    assert("overview"@.len() != "exclude"@.len());
    assert("overview"@[0] != "snapping"@[0]);
    assert("overview"@.len() != "skip_waypoints"@.len());
    assert("timestamps"@.len() != "gaps"@.len());
    assert("timestamps"@.len() != "tidy"@.len());
    assert("timestamps"@.len() != "waypoints"@.len());
    assert("timestamps"@.len() != "bearings"@.len());
    assert("timestamps"@.len() != "radiuses"@.len());
    assert("timestamps"@.len() != "generate_hints"@.len());
    assert("timestamps"@.len() != "hints"@.len());
    assert("timestamps"@[0] != "approaches"@[0]);
    assert("timestamps"@.len() != "exclude"@.len());
    assert("timestamps"@.len() != "snapping"@.len());
    assert("timestamps"@.len() != "skip_waypoints"@.len());
    assert("gaps"@[0] != "tidy"@[0]);
    assert("gaps"@.len() != "waypoints"@.len());
    assert("gaps"@.len() != "bearings"@.len());
    assert("gaps"@.len() != "radiuses"@.len());
    assert("gaps"@.len() != "generate_hints"@.len());
    assert("gaps"@.len() != "hints"@.len());
    assert("gaps"@.len() != "approaches"@.len());
    assert("gaps"@.len() != "exclude"@.len());
    assert("gaps"@.len() != "snapping"@.len());
    assert("gaps"@.len() != "skip_waypoints"@.len());
    assert("tidy"@.len() != "waypoints"@.len());
    assert("tidy"@.len() != "bearings"@.len());
    assert("tidy"@.len() != "radiuses"@.len());
    assert("tidy"@.len() != "generate_hints"@.len());
    assert("tidy"@.len() != "hints"@.len());
    assert("tidy"@.len() != "approaches"@.len());
    assert("tidy"@.len() != "exclude"@.len());
    assert("tidy"@.len() != "snapping"@.len());
    assert("tidy"@.len() != "skip_waypoints"@.len());
    assert("waypoints"@.len() != "bearings"@.len());
    assert("waypoints"@.len() != "radiuses"@.len());
    assert("waypoints"@.len() != "generate_hints"@.len());
    assert("waypoints"@.len() != "hints"@.len());
    assert("waypoints"@.len() != "approaches"@.len());
    assert("waypoints"@.len() != "exclude"@.len());
    assert("waypoints"@.len() != "snapping"@.len());
    assert("waypoints"@.len() != "skip_waypoints"@.len());
}

/// In the query of a match request, an option left unset never appears,
/// and each option that is always sent appears exactly once.
pub proof fn lemma_match_query_presence(r: MatchRequest)
    ensures
        count_name(r.query_spec(), "steps"@) == 1,
        r.annotations is None ==> count_name(r.query_spec(), "annotations"@) == 0,
        r.geometries is None ==> count_name(r.query_spec(), "geometries"@) == 0,
        r.overview is None ==> count_name(r.query_spec(), "overview"@) == 0,
        r.timestamps is None ==> count_name(r.query_spec(), "timestamps"@) == 0,
        r.gaps is None ==> count_name(r.query_spec(), "gaps"@) == 0,
        count_name(r.query_spec(), "tidy"@) == 1,
        r.waypoints is None ==> count_name(r.query_spec(), "waypoints"@) == 0,
        r.general.bearings is None ==> count_name(r.query_spec(), "bearings"@) == 0,
        r.general.radiuses is None ==> count_name(r.query_spec(), "radiuses"@) == 0,
        count_name(r.query_spec(), "generate_hints"@) == 1,
        r.general.hints is None ==> count_name(r.query_spec(), "hints"@) == 0,
        r.general.approaches is None ==> count_name(r.query_spec(), "approaches"@) == 0,
        r.general.exclude is None ==> count_name(r.query_spec(), "exclude"@) == 0,
        r.general.snapping is None ==> count_name(r.query_spec(), "snapping"@) == 0,
        count_name(r.query_spec(), "skip_waypoints"@) == 1,
{
    lemma_general_names_distinct();
    lemma_match_names_distinct();
    lemma_match_query_count(r, "steps"@);
    lemma_match_query_count(r, "annotations"@);
    lemma_match_query_count(r, "geometries"@);
    lemma_match_query_count(r, "overview"@);
    lemma_match_query_count(r, "timestamps"@);
    lemma_match_query_count(r, "gaps"@);
    lemma_match_query_count(r, "tidy"@);
    lemma_match_query_count(r, "waypoints"@);
    lemma_match_query_count(r, "bearings"@);
    lemma_match_query_count(r, "radiuses"@);
    lemma_match_query_count(r, "generate_hints"@);
    lemma_match_query_count(r, "hints"@);
    lemma_match_query_count(r, "approaches"@);
    lemma_match_query_count(r, "exclude"@);
    lemma_match_query_count(r, "snapping"@);
    lemma_match_query_count(r, "skip_waypoints"@);
}
} // verus!
