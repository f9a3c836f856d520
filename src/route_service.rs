//! The route service: the fastest route between coordinates.

use vstd::prelude::*;

use crate::base::{build_url, request_url, Client, Request, WithOptions};
use crate::common::{Coordinates, Geometries, TransportationMode};
use crate::errors::DecodeError;
use crate::json::{decode_field, expect_object, field, FromJson, Json};
use crate::options::{
    count_name, flag_entry, general_options_spec, lemma_count_flag_entry, lemma_count_list_entry,
    lemma_count_name_concat, lemma_count_opt_entry, lemma_general_count, lemma_general_names_distinct, list_entry, one_if,
    opt_entry, pairs_view, push_flag, push_list, push_opt, GeneralOptions, OptionPair, Service,
};
use crate::records::{Route, Waypoint};
use crate::text::{decimal_text, u64_text, WireForm};

verus! {

/// A request to the route service.
#[derive(Debug)]
pub struct RouteRequest {
    /// Mode of transportation
    pub profile: TransportationMode,
    /// Coordinates the request bears on
    pub coordinates: Coordinates,
    /// The options that every service takes
    pub general: GeneralOptions,
    /// Search for alternative routes
    pub alternatives: Option<AlternativesRequest>,
    /// Return route steps for each route leg
    pub steps: bool,
    /// Return additional metadata for each coordinate along the route geometry
    pub annotations: Option<RouteAnnotationRequest>,
    /// Returned route geometry format
    pub geometries: Option<Geometries>,
    /// Add overview geometry: full, simplified, or none
    pub overview: Option<OverviewRequest>,
    /// Forces the route to keep going straight at waypoints
    pub continue_straight: bool,
    /// Indices of the input coordinates to treat as waypoints
    pub waypoints: Option<Vec<usize>>,
}

impl RouteRequest {
    /// A route request by car over `coordinates`, with every option at its default.
    pub fn new(coordinates: Coordinates) -> (r: RouteRequest)
        ensures
            r.profile == TransportationMode::Car,
            r.coordinates == coordinates,
            r.general.generate_hints && !r.general.skip_waypoints,
            r.general.bearings is None && r.general.radiuses is None && r.general.hints is None,
            r.general.approaches is None && r.general.exclude is None && r.general.snapping is None,
            r.alternatives is None,
            !r.steps,
            r.annotations is None,
            r.geometries is None,
            r.overview is None,
            !r.continue_straight,
            r.waypoints is None,
    {
        RouteRequest {
            profile: TransportationMode::Car,
            coordinates,
            general: GeneralOptions::default(),
            alternatives: None,
            steps: false,
            annotations: None,
            geometries: None,
            overview: None,
            continue_straight: false,
            waypoints: None,
        }
    }
}

impl WithOptions for RouteRequest {
    open spec fn options_spec(&self) -> Seq<OptionPair> {
        opt_entry("alternatives"@, self.alternatives)
            + flag_entry("steps"@, self.steps)
            + opt_entry("annotations"@, self.annotations)
            + opt_entry("geometries"@, self.geometries)
            + opt_entry("overview"@, self.overview)
            + flag_entry("continue_straight"@, self.continue_straight)
            + list_entry("waypoints"@, self.waypoints)
    }

    fn options(&self) -> (r: Vec<(&'static str, String)>) {
        let mut opts: Vec<(&'static str, String)> = Vec::new();
        push_opt(&mut opts, "alternatives", &self.alternatives);
        push_flag(&mut opts, "steps", self.steps);
        push_opt(&mut opts, "annotations", &self.annotations);
        push_opt(&mut opts, "geometries", &self.geometries);
        push_opt(&mut opts, "overview", &self.overview);
        push_flag(&mut opts, "continue_straight", self.continue_straight);
        push_list(&mut opts, "waypoints", &self.waypoints);
        assert(pairs_view(opts@) =~= self.options_spec());
        opts
    }
}

impl Request for RouteRequest {
    type Response = RouteResponse;

    open spec fn url_spec(&self, base: Seq<char>, version: Seq<char>) -> Seq<char> {
        request_url(base, Service::Route, version, self.profile, self.coordinates.wire_spec())
    }

    open spec fn query_spec(&self) -> Seq<OptionPair> {
        self.options_spec() + general_options_spec(self.general)
    }

    fn url(&self, client: &Client) -> (r: String) {
        build_url(client, Service::Route, self.profile, &self.coordinates)
    }

    fn query(&self) -> (r: Vec<(&'static str, String)>) {
        let mut opts = self.options();
        self.general.add_general_options(&mut opts);
        opts
    }
}

/// How many alternative routes to search for.
#[derive(Debug, Clone, Copy, PartialEq, Eq, Structural)]
pub enum AlternativesRequest {
    NoAlternative,
    AllAlternatives,
    UpTo(usize),
}

impl WireForm for AlternativesRequest {
    open spec fn wire_spec(&self) -> Seq<char> {
        match *self {
            AlternativesRequest::NoAlternative => "false"@,
            AlternativesRequest::AllAlternatives => "true"@,
            AlternativesRequest::UpTo(n) => decimal_text(n as nat),
        }
    }

    fn wire(&self) -> (r: String) {
        match self {
            AlternativesRequest::NoAlternative => String::from_str("false"),
            AlternativesRequest::AllAlternatives => String::from_str("true"),
            AlternativesRequest::UpTo(n) => u64_text(*n as u64),
        }
    }
}

/// Which metadata to return for each coordinate along the route geometry.
#[derive(Debug, Clone, Copy, PartialEq, Eq, Structural)]
pub enum RouteAnnotationRequest {
    NoAnnotation,
    AllAnnotations,
    Nodes,
    Distance,
    Duration,
    Datasources,
    Weight,
    Speed,
}

impl Default for RouteAnnotationRequest {
    fn default() -> (r: RouteAnnotationRequest)
        ensures
            r == RouteAnnotationRequest::NoAnnotation,
    {
        RouteAnnotationRequest::NoAnnotation
    }
}

impl WireForm for RouteAnnotationRequest {
    open spec fn wire_spec(&self) -> Seq<char> {
        match *self {
            RouteAnnotationRequest::NoAnnotation => "false"@,
            RouteAnnotationRequest::AllAnnotations => "true"@,
            RouteAnnotationRequest::Nodes => "nodes"@,
            RouteAnnotationRequest::Distance => "distance"@,
            RouteAnnotationRequest::Duration => "duration"@,
            RouteAnnotationRequest::Datasources => "datasources"@,
            RouteAnnotationRequest::Weight => "weight"@,
            RouteAnnotationRequest::Speed => "speed"@,
        }
    }

    fn wire(&self) -> (r: String) {
        match self {
            RouteAnnotationRequest::NoAnnotation => String::from_str("false"),
            RouteAnnotationRequest::AllAnnotations => String::from_str("true"),
            RouteAnnotationRequest::Nodes => String::from_str("nodes"),
            RouteAnnotationRequest::Distance => String::from_str("distance"),
            RouteAnnotationRequest::Duration => String::from_str("duration"),
            RouteAnnotationRequest::Datasources => String::from_str("datasources"),
            RouteAnnotationRequest::Weight => String::from_str("weight"),
            RouteAnnotationRequest::Speed => String::from_str("speed"),
        }
    }
}

/// Which overview geometry to add.
#[derive(Debug, Clone, Copy, PartialEq, Eq, Structural)]
pub enum OverviewRequest {
    NoOverview,
    Simplified,
    Full,
}

impl Default for OverviewRequest {
    fn default() -> (r: OverviewRequest)
        ensures
            r == OverviewRequest::NoOverview,
    {
        OverviewRequest::NoOverview
    }
}

impl WireForm for OverviewRequest {
    open spec fn wire_spec(&self) -> Seq<char> {
        match *self {
            OverviewRequest::NoOverview => "false"@,
            OverviewRequest::Simplified => "simplified"@,
            OverviewRequest::Full => "full"@,
        }
    }

    fn wire(&self) -> (r: String) {
        match self {
            OverviewRequest::NoOverview => String::from_str("false"),
            OverviewRequest::Simplified => String::from_str("simplified"),
            OverviewRequest::Full => String::from_str("full"),
        }
    }
}

/// The payload of a route response.
#[derive(Debug)]
pub struct RouteResponse {
    /// The waypoints, in order; absent where waypoints were skipped
    pub waypoints: Option<Vec<Waypoint>>,
    /// The routes, ordered by descending recommendation rank
    pub routes: Vec<Route>,
}

impl FromJson for RouteResponse {
    open spec fn decodes(j: Json) -> bool {
        &&& j is Object
        &&& <Option<Vec<Waypoint>> as FromJson>::decodes(field(j, "waypoints"@))
        &&& <Vec<Route> as FromJson>::decodes(field(j, "routes"@))
    }

    open spec fn decoded(j: Json, v: RouteResponse) -> bool {
        &&& <Option<Vec<Waypoint>> as FromJson>::decoded(field(j, "waypoints"@), v.waypoints)
        &&& <Vec<Route> as FromJson>::decoded(field(j, "routes"@), v.routes)
    }

    fn from_json(j: &Json) -> (r: Result<RouteResponse, DecodeError>) {
        expect_object(j)?;
        let waypoints = decode_field(j, "waypoints")?;
        let routes = decode_field(j, "routes")?;
        Ok(RouteResponse { waypoints, routes })
    }
}

/// The number of pairs named `n` in the query of a route request.
proof fn lemma_route_query_count(r: RouteRequest, n: Seq<char>)
    ensures
        count_name(r.query_spec(), n) == one_if(r.alternatives is Some && n == "alternatives"@)
            + one_if(n == "steps"@)
            + one_if(r.annotations is Some && n == "annotations"@)
            + one_if(r.geometries is Some && n == "geometries"@)
            + one_if(r.overview is Some && n == "overview"@)
            + one_if(n == "continue_straight"@)
            + one_if(r.waypoints is Some && n == "waypoints"@)
            + one_if(r.general.bearings is Some && n == "bearings"@)
            + one_if(r.general.radiuses is Some && n == "radiuses"@)
            + one_if(n == "generate_hints"@)
            + one_if(r.general.hints is Some && n == "hints"@)
            + one_if(r.general.approaches is Some && n == "approaches"@)
            + one_if(r.general.exclude is Some && n == "exclude"@)
            + one_if(r.general.snapping is Some && n == "snapping"@)
            + one_if(n == "skip_waypoints"@),
{
    broadcast use lemma_count_name_concat, lemma_count_flag_entry, lemma_count_opt_entry, lemma_count_list_entry;

    lemma_general_count(r.general, n);
}

/// The option names of the route service differ from each other and from the
/// general option names.
proof fn lemma_route_names_distinct()
    ensures
        "alternatives"@ != "steps"@,
        "alternatives"@ != "annotations"@,
        "alternatives"@ != "geometries"@,
        "alternatives"@ != "overview"@,
        "alternatives"@ != "continue_straight"@,
        "alternatives"@ != "waypoints"@,
        "alternatives"@ != "bearings"@,
        "alternatives"@ != "radiuses"@,
        "alternatives"@ != "generate_hints"@,
        "alternatives"@ != "hints"@,
        "alternatives"@ != "approaches"@,
        "alternatives"@ != "exclude"@,
        "alternatives"@ != "snapping"@,
        "alternatives"@ != "skip_waypoints"@,
        "steps"@ != "annotations"@,
        "steps"@ != "geometries"@,
        "steps"@ != "overview"@,
        "steps"@ != "continue_straight"@,
        "steps"@ != "waypoints"@,
        "steps"@ != "bearings"@,
        "steps"@ != "radiuses"@,
        "steps"@ != "generate_hints"@,
        "steps"@ != "hints"@,
        "steps"@ != "approaches"@,
        "steps"@ != "exclude"@,
        "steps"@ != "snapping"@,
        "steps"@ != "skip_waypoints"@,
        "annotations"@ != "geometries"@,
        "annotations"@ != "overview"@,
        "annotations"@ != "continue_straight"@,
        "annotations"@ != "waypoints"@,
        "annotations"@ != "bearings"@,
        "annotations"@ != "radiuses"@,
        "annotations"@ != "generate_hints"@,
        "annotations"@ != "hints"@,
        "annotations"@ != "approaches"@,
        "annotations"@ != "exclude"@,
        "annotations"@ != "snapping"@,
        "annotations"@ != "skip_waypoints"@,
        "geometries"@ != "overview"@,
        "geometries"@ != "continue_straight"@,
        "geometries"@ != "waypoints"@,
        "geometries"@ != "bearings"@,
        "geometries"@ != "radiuses"@,
        "geometries"@ != "generate_hints"@,
        "geometries"@ != "hints"@,
        "geometries"@ != "approaches"@,
        "geometries"@ != "exclude"@,
        "geometries"@ != "snapping"@,
        "geometries"@ != "skip_waypoints"@,
        "overview"@ != "continue_straight"@,
        "overview"@ != "waypoints"@,
        "overview"@ != "bearings"@,
        "overview"@ != "radiuses"@,
        "overview"@ != "generate_hints"@,
        "overview"@ != "hints"@,
        "overview"@ != "approaches"@,
        "overview"@ != "exclude"@,
        "overview"@ != "snapping"@,
        "overview"@ != "skip_waypoints"@,
        "continue_straight"@ != "waypoints"@,
        "continue_straight"@ != "bearings"@,
        "continue_straight"@ != "radiuses"@,
        "continue_straight"@ != "generate_hints"@,
        "continue_straight"@ != "hints"@,
        "continue_straight"@ != "approaches"@,
        "continue_straight"@ != "exclude"@,
        "continue_straight"@ != "snapping"@,
        "continue_straight"@ != "skip_waypoints"@,
        "waypoints"@ != "bearings"@,
        "waypoints"@ != "radiuses"@,
        "waypoints"@ != "generate_hints"@,
        "waypoints"@ != "hints"@,
        "waypoints"@ != "approaches"@,
        "waypoints"@ != "exclude"@,
        "waypoints"@ != "snapping"@,
        "waypoints"@ != "skip_waypoints"@,
{
    reveal_strlit("alternatives");
    reveal_strlit("steps");
    reveal_strlit("annotations");
    reveal_strlit("geometries");
    reveal_strlit("overview");
    reveal_strlit("continue_straight");
    reveal_strlit("waypoints");
    reveal_strlit("bearings");
    reveal_strlit("radiuses");
    reveal_strlit("generate_hints");
    reveal_strlit("hints");
    reveal_strlit("approaches");
    reveal_strlit("exclude");
    reveal_strlit("snapping");
    reveal_strlit("skip_waypoints");
    assert("alternatives"@.len() != "steps"@.len());
    assert("alternatives"@.len() != "annotations"@.len());
    assert("alternatives"@.len() != "geometries"@.len());
    assert("alternatives"@.len() != "overview"@.len());
    assert("alternatives"@.len() != "continue_straight"@.len());
    assert("alternatives"@.len() != "waypoints"@.len());
    assert("alternatives"@.len() != "bearings"@.len());
    assert("alternatives"@.len() != "radiuses"@.len());
    assert("alternatives"@.len() != "generate_hints"@.len());
    assert("alternatives"@.len() != "hints"@.len());
    assert("alternatives"@.len() != "approaches"@.len());
    assert("alternatives"@.len() != "exclude"@.len());
    assert("alternatives"@.len() != "snapping"@.len());
    assert("alternatives"@.len() != "skip_waypoints"@.len());
    assert("steps"@.len() != "annotations"@.len());
    assert("steps"@.len() != "geometries"@.len());
    assert("steps"@.len() != "overview"@.len());
    assert("steps"@.len() != "continue_straight"@.len());
    assert("steps"@.len() != "waypoints"@.len());
    assert("steps"@.len() != "bearings"@.len());
    assert("steps"@.len() != "radiuses"@.len());
    assert("steps"@.len() != "generate_hints"@.len());
    assert("steps"@[0] != "hints"@[0]);
    assert("steps"@.len() != "approaches"@.len());
    assert("steps"@.len() != "exclude"@.len());
    assert("steps"@.len() != "snapping"@.len());
    assert("steps"@.len() != "skip_waypoints"@.len());
    assert("annotations"@.len() != "geometries"@.len());
    assert("annotations"@.len() != "overview"@.len());
    assert("annotations"@.len() != "continue_straight"@.len());
    assert("annotations"@.len() != "waypoints"@.len());
    assert("annotations"@.len() != "bearings"@.len());
    assert("annotations"@.len() != "radiuses"@.len());
    assert("annotations"@.len() != "generate_hints"@.len());
    assert("annotations"@.len() != "hints"@.len());
    assert("annotations"@.len() != "approaches"@.len());
    assert("annotations"@.len() != "exclude"@.len());
    assert("annotations"@.len() != "snapping"@.len());
    assert("annotations"@.len() != "skip_waypoints"@.len());
    assert("geometries"@.len() != "overview"@.len());
    assert("geometries"@.len() != "continue_straight"@.len());
    assert("geometries"@.len() != "waypoints"@.len());
    assert("geometries"@.len() != "bearings"@.len());
    assert("geometries"@.len() != "radiuses"@.len());
    assert("geometries"@.len() != "generate_hints"@.len());
    assert("geometries"@.len() != "hints"@.len());
    assert("geometries"@[0] != "approaches"@[0]);
    assert("geometries"@.len() != "exclude"@.len());
    assert("geometries"@.len() != "snapping"@.len());
    assert("geometries"@.len() != "skip_waypoints"@.len());
    assert("overview"@.len() != "continue_straight"@.len());
    assert("overview"@.len() != "waypoints"@.len());
    assert("overview"@[0] != "bearings"@[0]);
    assert("overview"@[0] != "radiuses"@[0]);
    assert("overview"@.len() != "generate_hints"@.len());
    assert("overview"@.len() != "hints"@.len());
    assert("overview"@.len() != "approaches"@.len());
    assert("overview"@.len() != "exclude"@.len());
    assert("overview"@[0] != "snapping"@[0]);
    assert("overview"@.len() != "skip_waypoints"@.len());
    assert("continue_straight"@.len() != "waypoints"@.len());
    assert("continue_straight"@.len() != "bearings"@.len());
    assert("continue_straight"@.len() != "radiuses"@.len());
    assert("continue_straight"@.len() != "generate_hints"@.len());
    assert("continue_straight"@.len() != "hints"@.len());
    assert("continue_straight"@.len() != "approaches"@.len());
    assert("continue_straight"@.len() != "exclude"@.len());
    assert("continue_straight"@.len() != "snapping"@.len());
    assert("continue_straight"@.len() != "skip_waypoints"@.len());
    assert("waypoints"@.len() != "bearings"@.len());
    assert("waypoints"@.len() != "radiuses"@.len());
    assert("waypoints"@.len() != "generate_hints"@.len());
    assert("waypoints"@.len() != "hints"@.len());
    assert("waypoints"@.len() != "approaches"@.len());
    assert("waypoints"@.len() != "exclude"@.len());
    assert("waypoints"@.len() != "snapping"@.len());
    assert("waypoints"@.len() != "skip_waypoints"@.len());
}

/// In the query of a route request, an option left unset never appears,
/// and each option that is always sent appears exactly once.
pub proof fn lemma_route_query_presence(r: RouteRequest)
    ensures
        r.alternatives is None ==> count_name(r.query_spec(), "alternatives"@) == 0,
        count_name(r.query_spec(), "steps"@) == 1,
        r.annotations is None ==> count_name(r.query_spec(), "annotations"@) == 0,
        r.geometries is None ==> count_name(r.query_spec(), "geometries"@) == 0,
        r.overview is None ==> count_name(r.query_spec(), "overview"@) == 0,
        count_name(r.query_spec(), "continue_straight"@) == 1,
        r.waypoints is None ==> count_name(r.query_spec(), "waypoints"@) == 0,
        r.general.bearings is None ==> count_name(r.query_spec(), "bearings"@) == 0,
        r.general.radiuses is None ==> count_name(r.query_spec(), "radiuses"@) == 0,
        count_name(r.query_spec(), "generate_hints"@) == 1,
        r.general.hints is None ==> count_name(r.query_spec(), "hints"@) == 0,
        r.general.approaches is None ==> count_name(r.query_spec(), "approaches"@) == 0,
        r.general.exclude is None ==> count_name(r.query_spec(), "exclude"@) == 0,
        r.general.snapping is None ==> count_name(r.query_spec(), "snapping"@) == 0,
        count_name(r.query_spec(), "skip_waypoints"@) == 1,
{
    lemma_general_names_distinct();
    lemma_route_names_distinct();
    lemma_route_query_count(r, "alternatives"@);
    lemma_route_query_count(r, "steps"@);
    lemma_route_query_count(r, "annotations"@);
    lemma_route_query_count(r, "geometries"@);
    lemma_route_query_count(r, "overview"@);
    lemma_route_query_count(r, "continue_straight"@);
    lemma_route_query_count(r, "waypoints"@);
    lemma_route_query_count(r, "bearings"@);
    lemma_route_query_count(r, "radiuses"@);
    lemma_route_query_count(r, "generate_hints"@);
    lemma_route_query_count(r, "hints"@);
    lemma_route_query_count(r, "approaches"@);
    lemma_route_query_count(r, "exclude"@);
    lemma_route_query_count(r, "snapping"@);
    lemma_route_query_count(r, "skip_waypoints"@);
}
} // verus!
