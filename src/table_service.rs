//! The table service: the durations or distances of the fastest routes
//! between all pairs of coordinates.

use vstd::prelude::*;

use crate::base::{build_url, request_url, Client, Request, WithOptions};
use crate::common::{Coordinates, TransportationMode};
use crate::errors::DecodeError;
use crate::json::{array_items, decode_field, expect_object, field, number_text, FromJson, Json};
use crate::options::{
    count_name, general_options_spec, lemma_count_flag_entry, lemma_count_list_entry,
    lemma_count_name_concat, lemma_count_opt_entry, lemma_general_count, lemma_general_names_distinct, list_entry, one_if,
    opt_entry, pairs_view, push_list, push_opt, GeneralOptions, OptionPair, Service,
};
use crate::decimal::Decimal;
use crate::records::Waypoint;
use crate::text::WireForm;

verus! {

/// A request to the table service.
#[derive(Debug)]
pub struct TableRequest {
    /// Mode of transportation
    pub profile: TransportationMode,
    /// Coordinates the request bears on
    pub coordinates: Coordinates,
    /// The options that every service takes
    pub general: GeneralOptions,
    /// Indices of the coordinates to use as sources (all by default)
    pub sources: Option<Vec<usize>>,
    /// Indices of the coordinates to use as destinations (all by default)
    pub destinations: Option<Vec<usize>>,
    /// Which tables to return
    pub annotations: Option<TableAnnotationRequest>,
    /// Speed used to estimate a duration where no route is found
    pub fallback_speed: Option<Decimal>,
    /// Which coordinate the fallback distances are computed from
    pub fallback_coordinate: Option<FallbackCoordinateRequest>,
    /// Scales the table duration values by this number
    pub scale_factor: Option<Decimal>,
}

impl TableRequest {
    /// A table request by car over `coordinates`, with every option at its default.
    pub fn new(coordinates: Coordinates) -> (r: TableRequest)
        ensures
            r.profile == TransportationMode::Car,
            r.coordinates == coordinates,
            r.general.generate_hints && !r.general.skip_waypoints,
            r.general.bearings is None && r.general.radiuses is None && r.general.hints is None,
            r.general.approaches is None && r.general.exclude is None && r.general.snapping is None,
            r.sources is None,
            r.destinations is None,
            r.annotations is None,
            r.fallback_speed is None,
            r.fallback_coordinate is None,
            r.scale_factor is None,
    {
        TableRequest {
            profile: TransportationMode::Car,
            coordinates,
            general: GeneralOptions::default(),
            sources: None,
            destinations: None,
            annotations: None,
            fallback_speed: None,
            fallback_coordinate: None,
            scale_factor: None,
        }
    }
}

impl WithOptions for TableRequest {
    open spec fn options_spec(&self) -> Seq<OptionPair> {
        list_entry("sources"@, self.sources)
            + list_entry("destinations"@, self.destinations)
            + opt_entry("annotations"@, self.annotations)
            + opt_entry("fallback_speed"@, self.fallback_speed)
            + opt_entry("fallback_coordinate"@, self.fallback_coordinate)
            + opt_entry("scale_factor"@, self.scale_factor)
    }

    fn options(&self) -> (r: Vec<(&'static str, String)>) {
        let mut opts: Vec<(&'static str, String)> = Vec::new();
        push_list(&mut opts, "sources", &self.sources);
        push_list(&mut opts, "destinations", &self.destinations);
        push_opt(&mut opts, "annotations", &self.annotations);
        push_opt(&mut opts, "fallback_speed", &self.fallback_speed);
        push_opt(&mut opts, "fallback_coordinate", &self.fallback_coordinate);
        push_opt(&mut opts, "scale_factor", &self.scale_factor);
        assert(pairs_view(opts@) =~= self.options_spec());
        opts
    }
}

impl Request for TableRequest {
    type Response = TableResponse;

    open spec fn url_spec(&self, base: Seq<char>, version: Seq<char>) -> Seq<char> {
        request_url(base, Service::Table, version, self.profile, self.coordinates.wire_spec())
    }

    open spec fn query_spec(&self) -> Seq<OptionPair> {
        self.options_spec() + general_options_spec(self.general)
    }

    fn url(&self, client: &Client) -> (r: String) {
        build_url(client, Service::Table, self.profile, &self.coordinates)
    }

    fn query(&self) -> (r: Vec<(&'static str, String)>) {
        let mut opts = self.options();
        self.general.add_general_options(&mut opts);
        opts
    }
}

/// The payload of a table response. A matrix is indexed
/// `[source][destination]`; a `None` cell means that no route exists between
/// that pair.
#[derive(Debug)]
pub struct TableResponse {
    /// Travel times in seconds, row-major
    pub durations: Option<Vec<Vec<Option<Decimal>>>>,
    /// Travel distances in meters, row-major
    pub distances: Option<Vec<Vec<Option<Decimal>>>>,
    /// The sources, in order
    pub sources: Option<Vec<Waypoint>>,
    /// The destinations, in order
    pub destinations: Option<Vec<Waypoint>>,
    /// The `[i, j]` cells whose values were estimated with the fallback speed
    pub fallback_speed_cells: Option<Vec<(usize, usize)>>,
}

impl FromJson for TableResponse {
    open spec fn decodes(j: Json) -> bool {
        &&& j is Object
        &&& <Option<Vec<Vec<Option<Decimal>>>> as FromJson>::decodes(field(j, "durations"@))
        &&& <Option<Vec<Vec<Option<Decimal>>>> as FromJson>::decodes(field(j, "distances"@))
        &&& <Option<Vec<Waypoint>> as FromJson>::decodes(field(j, "sources"@))
        &&& <Option<Vec<Waypoint>> as FromJson>::decodes(field(j, "destinations"@))
        &&& <Option<Vec<(usize, usize)>> as FromJson>::decodes(field(j, "fallback_speed_cells"@))
    }

    open spec fn decoded(j: Json, v: TableResponse) -> bool {
        &&& <Option<Vec<Vec<Option<Decimal>>>> as FromJson>::decoded(field(j, "durations"@), v.durations)
        &&& <Option<Vec<Vec<Option<Decimal>>>> as FromJson>::decoded(field(j, "distances"@), v.distances)
        &&& <Option<Vec<Waypoint>> as FromJson>::decoded(field(j, "sources"@), v.sources)
        &&& <Option<Vec<Waypoint>> as FromJson>::decoded(field(j, "destinations"@), v.destinations)
        &&& <Option<Vec<(usize, usize)>> as FromJson>::decoded(field(j, "fallback_speed_cells"@), v.fallback_speed_cells)
    }

    fn from_json(j: &Json) -> (r: Result<TableResponse, DecodeError>) {
        expect_object(j)?;
        let durations = decode_field(j, "durations")?;
        let distances = decode_field(j, "distances")?;
        let sources = decode_field(j, "sources")?;
        let destinations = decode_field(j, "destinations")?;
        let fallback_speed_cells = decode_field(j, "fallback_speed_cells")?;
        Ok(TableResponse { durations, distances, sources, destinations, fallback_speed_cells })
    }
}

/// Which tables to return; `Both` is the single token `duration,distance`.
#[derive(Debug, Clone, Copy, PartialEq, Eq, Structural)]
pub enum TableAnnotationRequest {
    Distance,
    Duration,
    Both,
}

impl Default for TableAnnotationRequest {
    fn default() -> (r: TableAnnotationRequest)
        ensures
            r == TableAnnotationRequest::Duration,
    {
        TableAnnotationRequest::Duration
    }
}

impl WireForm for TableAnnotationRequest {
    open spec fn wire_spec(&self) -> Seq<char> {
        match *self {
            TableAnnotationRequest::Distance => "distance"@,
            TableAnnotationRequest::Duration => "duration"@,
            TableAnnotationRequest::Both => "duration,distance"@,
        }
    }

    fn wire(&self) -> (r: String) {
        match self {
            TableAnnotationRequest::Distance => String::from_str("distance"),
            TableAnnotationRequest::Duration => String::from_str("duration"),
            TableAnnotationRequest::Both => String::from_str("duration,distance"),
        }
    }
}

/// Which coordinate fallback distances are computed from.
#[derive(Debug, Clone, Copy, PartialEq, Eq, Structural)]
pub enum FallbackCoordinateRequest {
    /// Use the user supplied coordinate
    UserSupplied,
    /// Use the snapped location
    Snapped,
}

impl Default for FallbackCoordinateRequest {
    fn default() -> (r: FallbackCoordinateRequest)
        ensures
            r == FallbackCoordinateRequest::UserSupplied,
    {
        FallbackCoordinateRequest::UserSupplied
    }
}

impl WireForm for FallbackCoordinateRequest {
    open spec fn wire_spec(&self) -> Seq<char> {
        match *self {
            FallbackCoordinateRequest::UserSupplied => "input"@,
            FallbackCoordinateRequest::Snapped => "snapped"@,
        }
    }

    fn wire(&self) -> (r: String) {
        match self {
            FallbackCoordinateRequest::UserSupplied => String::from_str("input"),
            FallbackCoordinateRequest::Snapped => String::from_str("snapped"),
        }
    }
}
/// Whether cell `[i][k]` of `v` is what the JSON matrix `m` holds there:
/// no value for `null`, the number otherwise.
pub open spec fn cell_read(m: Json, v: Vec<Vec<Option<Decimal>>>, i: int, k: int) -> bool {
    let cell = array_items(array_items(m)[i])[k];
    &&& cell is Null <==> v@[i]@[k] is None
    &&& v@[i]@[k] matches Some(d) ==> d@ == number_text(cell)
}

/// A `null` cell of a matrix reads as no value, never as zero; a number
/// reads as that number.
pub proof fn lemma_matrix_cells(m: Json, v: Vec<Vec<Option<Decimal>>>)
    requires
        <Vec<Vec<Option<Decimal>>> as FromJson>::decoded(m, v),
    ensures
        v@.len() == array_items(m).len(),
        forall|i: int, k: int|
            0 <= i < v@.len() && 0 <= k < v@[i]@.len() ==> #[trigger] cell_read(m, v, i, k)
{
    assert forall|i: int, k: int| 0 <= i < v@.len() && 0 <= k < v@[i]@.len() implies #[trigger] cell_read(m, v, i, k) by {
        let row = array_items(m)[i];
        assert(<Vec<Option<Decimal>> as FromJson>::decoded(row, v@[i]));
        let cell = array_items(row)[k];
        assert(<Option<Decimal> as FromJson>::decoded(cell, v@[i]@[k]));
    }
}

/// The number of pairs named `n` in the query of a table request.
proof fn lemma_table_query_count(r: TableRequest, n: Seq<char>)
    ensures
        count_name(r.query_spec(), n) == one_if(r.sources is Some && n == "sources"@)
            + one_if(r.destinations is Some && n == "destinations"@)
            + one_if(r.annotations is Some && n == "annotations"@)
            + one_if(r.fallback_speed is Some && n == "fallback_speed"@)
            + one_if(r.fallback_coordinate is Some && n == "fallback_coordinate"@)
            + one_if(r.scale_factor is Some && n == "scale_factor"@)
            + one_if(r.general.bearings is Some && n == "bearings"@)
            + one_if(r.general.radiuses is Some && n == "radiuses"@)
            + one_if(n == "generate_hints"@)
            + one_if(r.general.hints is Some && n == "hints"@)
            + one_if(r.general.approaches is Some && n == "approaches"@)
            + one_if(r.general.exclude is Some && n == "exclude"@)
            + one_if(r.general.snapping is Some && n == "snapping"@)
            + one_if(n == "skip_waypoints"@),
{
    broadcast use lemma_count_name_concat, lemma_count_flag_entry, lemma_count_opt_entry, lemma_count_list_entry;

    lemma_general_count(r.general, n);
}

/// The option names of the table service differ from each other and from the
/// general option names.
proof fn lemma_table_names_distinct()
    ensures
        "sources"@ != "destinations"@,
        "sources"@ != "annotations"@,
        "sources"@ != "fallback_speed"@,
        "sources"@ != "fallback_coordinate"@,
        "sources"@ != "scale_factor"@,
        "sources"@ != "bearings"@,
        "sources"@ != "radiuses"@,
        "sources"@ != "generate_hints"@,
        "sources"@ != "hints"@,
        "sources"@ != "approaches"@,
        "sources"@ != "exclude"@,
        "sources"@ != "snapping"@,
        "sources"@ != "skip_waypoints"@,
        "destinations"@ != "annotations"@,
        "destinations"@ != "fallback_speed"@,
        "destinations"@ != "fallback_coordinate"@,
        "destinations"@ != "scale_factor"@,
        "destinations"@ != "bearings"@,
        "destinations"@ != "radiuses"@,
        "destinations"@ != "generate_hints"@,
        "destinations"@ != "hints"@,
        "destinations"@ != "approaches"@,
        "destinations"@ != "exclude"@,
        "destinations"@ != "snapping"@,
        "destinations"@ != "skip_waypoints"@,
        "annotations"@ != "fallback_speed"@,
        "annotations"@ != "fallback_coordinate"@,
        "annotations"@ != "scale_factor"@,
        "annotations"@ != "bearings"@,
        "annotations"@ != "radiuses"@,
        "annotations"@ != "generate_hints"@,
        "annotations"@ != "hints"@,
        "annotations"@ != "approaches"@,
        "annotations"@ != "exclude"@,
        "annotations"@ != "snapping"@,
        "annotations"@ != "skip_waypoints"@,
        "fallback_speed"@ != "fallback_coordinate"@,
        "fallback_speed"@ != "scale_factor"@,
        "fallback_speed"@ != "bearings"@,
        "fallback_speed"@ != "radiuses"@,
        "fallback_speed"@ != "generate_hints"@,
        "fallback_speed"@ != "hints"@,
        "fallback_speed"@ != "approaches"@,
        "fallback_speed"@ != "exclude"@,
        "fallback_speed"@ != "snapping"@,
        "fallback_speed"@ != "skip_waypoints"@,
        "fallback_coordinate"@ != "scale_factor"@,
        "fallback_coordinate"@ != "bearings"@,
        "fallback_coordinate"@ != "radiuses"@,
        "fallback_coordinate"@ != "generate_hints"@,
        "fallback_coordinate"@ != "hints"@,
        "fallback_coordinate"@ != "approaches"@,
        "fallback_coordinate"@ != "exclude"@,
        "fallback_coordinate"@ != "snapping"@,
        "fallback_coordinate"@ != "skip_waypoints"@,
        "scale_factor"@ != "bearings"@,
        "scale_factor"@ != "radiuses"@,
        "scale_factor"@ != "generate_hints"@,
        "scale_factor"@ != "hints"@,
        "scale_factor"@ != "approaches"@,
        "scale_factor"@ != "exclude"@,
        "scale_factor"@ != "snapping"@,
        "scale_factor"@ != "skip_waypoints"@,
{
    reveal_strlit("sources");
    reveal_strlit("destinations");
    reveal_strlit("annotations");
    reveal_strlit("fallback_speed");
    reveal_strlit("fallback_coordinate");
    reveal_strlit("scale_factor");
    reveal_strlit("bearings");
    reveal_strlit("radiuses");
    reveal_strlit("generate_hints");
    reveal_strlit("hints");
    reveal_strlit("approaches");
    reveal_strlit("exclude");
    reveal_strlit("snapping");
    reveal_strlit("skip_waypoints");
    assert("sources"@.len() != "destinations"@.len());
    assert("sources"@.len() != "annotations"@.len());
    assert("sources"@.len() != "fallback_speed"@.len());
    assert("sources"@.len() != "fallback_coordinate"@.len());
    assert("sources"@.len() != "scale_factor"@.len());
    assert("sources"@.len() != "bearings"@.len());
    assert("sources"@.len() != "radiuses"@.len());
    assert("sources"@.len() != "generate_hints"@.len());
    assert("sources"@.len() != "hints"@.len());
    assert("sources"@.len() != "approaches"@.len());
    assert("sources"@[0] != "exclude"@[0]);
    assert("sources"@.len() != "snapping"@.len());
    assert("sources"@.len() != "skip_waypoints"@.len());
    assert("destinations"@.len() != "annotations"@.len());
    assert("destinations"@.len() != "fallback_speed"@.len());
    assert("destinations"@.len() != "fallback_coordinate"@.len());
    assert("destinations"@[0] != "scale_factor"@[0]);
    assert("destinations"@.len() != "bearings"@.len());
    assert("destinations"@.len() != "radiuses"@.len());
    assert("destinations"@.len() != "generate_hints"@.len());
    assert("destinations"@.len() != "hints"@.len());
    assert("destinations"@.len() != "approaches"@.len());
    assert("destinations"@.len() != "exclude"@.len());
    assert("destinations"@.len() != "snapping"@.len());
    assert("destinations"@.len() != "skip_waypoints"@.len());
    assert("annotations"@.len() != "fallback_speed"@.len());
    assert("annotations"@.len() != "fallback_coordinate"@.len());
    assert("annotations"@.len() != "scale_factor"@.len());
    assert("annotations"@.len() != "bearings"@.len());
    assert("annotations"@.len() != "radiuses"@.len());
    assert("annotations"@.len() != "generate_hints"@.len());
    assert("annotations"@.len() != "hints"@.len());
    assert("annotations"@.len() != "approaches"@.len());
    assert("annotations"@.len() != "exclude"@.len());
    assert("annotations"@.len() != "snapping"@.len());
    assert("annotations"@.len() != "skip_waypoints"@.len());
    assert("fallback_speed"@.len() != "fallback_coordinate"@.len());
    assert("fallback_speed"@.len() != "scale_factor"@.len());
    assert("fallback_speed"@.len() != "bearings"@.len());
    assert("fallback_speed"@.len() != "radiuses"@.len());
    assert("fallback_speed"@[0] != "generate_hints"@[0]);
    assert("fallback_speed"@.len() != "hints"@.len());
    assert("fallback_speed"@.len() != "approaches"@.len());
    assert("fallback_speed"@.len() != "exclude"@.len());
    assert("fallback_speed"@.len() != "snapping"@.len());
    assert("fallback_speed"@[0] != "skip_waypoints"@[0]);
    assert("fallback_coordinate"@.len() != "scale_factor"@.len());
    assert("fallback_coordinate"@.len() != "bearings"@.len());
    assert("fallback_coordinate"@.len() != "radiuses"@.len());
    assert("fallback_coordinate"@.len() != "generate_hints"@.len());
    assert("fallback_coordinate"@.len() != "hints"@.len());
    assert("fallback_coordinate"@.len() != "approaches"@.len());
    assert("fallback_coordinate"@.len() != "exclude"@.len());
    assert("fallback_coordinate"@.len() != "snapping"@.len());
    assert("fallback_coordinate"@.len() != "skip_waypoints"@.len());
    assert("scale_factor"@.len() != "bearings"@.len());
    assert("scale_factor"@.len() != "radiuses"@.len());
    assert("scale_factor"@.len() != "generate_hints"@.len());
    assert("scale_factor"@.len() != "hints"@.len());
    assert("scale_factor"@.len() != "approaches"@.len());
    assert("scale_factor"@.len() != "exclude"@.len());
    assert("scale_factor"@.len() != "snapping"@.len());
    assert("scale_factor"@.len() != "skip_waypoints"@.len());
}

/// In the query of a table request, an option left unset never appears,
/// and each option that is always sent appears exactly once.
pub proof fn lemma_table_query_presence(r: TableRequest)
    ensures
        r.sources is None ==> count_name(r.query_spec(), "sources"@) == 0,
        r.destinations is None ==> count_name(r.query_spec(), "destinations"@) == 0,
        r.annotations is None ==> count_name(r.query_spec(), "annotations"@) == 0,
        r.fallback_speed is None ==> count_name(r.query_spec(), "fallback_speed"@) == 0,
        r.fallback_coordinate is None ==> count_name(r.query_spec(), "fallback_coordinate"@) == 0,
        r.scale_factor is None ==> count_name(r.query_spec(), "scale_factor"@) == 0,
        r.general.bearings is None ==> count_name(r.query_spec(), "bearings"@) == 0,
        r.general.radiuses is None ==> count_name(r.query_spec(), "radiuses"@) == 0,
        count_name(r.query_spec(), "generate_hints"@) == 1,
        r.general.hints is None ==> count_name(r.query_spec(), "hints"@) == 0,
        r.general.approaches is None ==> count_name(r.query_spec(), "approaches"@) == 0,
        r.general.exclude is None ==> count_name(r.query_spec(), "exclude"@) == 0,
        r.general.snapping is None ==> count_name(r.query_spec(), "snapping"@) == 0,
        count_name(r.query_spec(), "skip_waypoints"@) == 1,
{
    lemma_general_names_distinct();
    lemma_table_names_distinct();
    lemma_table_query_count(r, "sources"@);
    lemma_table_query_count(r, "destinations"@);
    lemma_table_query_count(r, "annotations"@);
    lemma_table_query_count(r, "fallback_speed"@);
    lemma_table_query_count(r, "fallback_coordinate"@);
    lemma_table_query_count(r, "scale_factor"@);
    lemma_table_query_count(r, "bearings"@);
    lemma_table_query_count(r, "radiuses"@);
    lemma_table_query_count(r, "generate_hints"@);
    lemma_table_query_count(r, "hints"@);
    lemma_table_query_count(r, "approaches"@);
    lemma_table_query_count(r, "exclude"@);
    lemma_table_query_count(r, "snapping"@);
    lemma_table_query_count(r, "skip_waypoints"@);
}
} // verus!
