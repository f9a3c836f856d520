//! The nearest service: snaps a coordinate to the street network and returns
//! the nearest matches.

use vstd::prelude::*;

use crate::base::{build_url, request_url, Client, Request, WithOptions};
use crate::common::{Coordinates, TransportationMode};
use crate::errors::DecodeError;
use crate::json::{decode_field, expect_object, field, FromJson, Json};
use crate::options::{
    count_name, general_options_spec, lemma_count_flag_entry, lemma_count_list_entry,
    lemma_count_name_concat, lemma_count_opt_entry, lemma_general_count, lemma_general_names_distinct, one_if,
    opt_entry, pairs_view, push_opt, GeneralOptions, OptionPair, Service,
};
use crate::records::Waypoint;
use crate::text::WireForm;

verus! {

/// A request to the nearest service.
#[derive(Debug)]
pub struct NearestRequest {
    /// Mode of transportation
    pub profile: TransportationMode,
    /// Coordinates the request bears on
    pub coordinates: Coordinates,
    /// The options that every service takes
    pub general: GeneralOptions,
    /// Number of nearest segments that should be returned
    pub number: Option<usize>,
}

impl NearestRequest {
    /// A nearest request by car at `coordinates`, with every option at its default.
    pub fn new(coordinates: Coordinates) -> (r: NearestRequest)
        ensures
            r.profile == TransportationMode::Car,
            r.coordinates == coordinates,
            r.general.generate_hints && !r.general.skip_waypoints,
            r.general.bearings is None && r.general.radiuses is None && r.general.hints is None,
            r.general.approaches is None && r.general.exclude is None && r.general.snapping is None,
            r.number is None,
    {
        NearestRequest {
            profile: TransportationMode::Car,
            coordinates,
            general: GeneralOptions::default(),
            number: None,
        }
    }
}

impl WithOptions for NearestRequest {
    open spec fn options_spec(&self) -> Seq<OptionPair> {
        opt_entry("number"@, self.number)
    }

    fn options(&self) -> (r: Vec<(&'static str, String)>) {
        let mut opts: Vec<(&'static str, String)> = Vec::new();
        push_opt(&mut opts, "number", &self.number);
        assert(pairs_view(opts@) =~= self.options_spec());
        opts
    }
}

impl Request for NearestRequest {
    type Response = NearestResponse;

    open spec fn url_spec(&self, base: Seq<char>, version: Seq<char>) -> Seq<char> {
        request_url(base, Service::Nearest, version, self.profile, self.coordinates.wire_spec())
    }

    open spec fn query_spec(&self) -> Seq<OptionPair> {
        self.options_spec() + general_options_spec(self.general)
    }

    fn url(&self, client: &Client) -> (r: String) {
        build_url(client, Service::Nearest, self.profile, &self.coordinates)
    }

    fn query(&self) -> (r: Vec<(&'static str, String)>) {
        let mut opts = self.options();
        self.general.add_general_options(&mut opts);
        opts
    }
}

/// The payload of a nearest response.
#[derive(Debug)]
pub struct NearestResponse {
    /// The waypoints, sorted by distance to the input coordinate; absent where
    /// waypoints were skipped
    pub waypoints: Option<Vec<Waypoint>>,
}

impl FromJson for NearestResponse {
    open spec fn decodes(j: Json) -> bool {
        &&& j is Object
        &&& <Option<Vec<Waypoint>> as FromJson>::decodes(field(j, "waypoints"@))
    }

    open spec fn decoded(j: Json, v: NearestResponse) -> bool {
        &&& <Option<Vec<Waypoint>> as FromJson>::decoded(field(j, "waypoints"@), v.waypoints)
    }

    fn from_json(j: &Json) -> (r: Result<NearestResponse, DecodeError>) {
        expect_object(j)?;
        let waypoints = decode_field(j, "waypoints")?;
        Ok(NearestResponse { waypoints })
    }
}

/// The number of pairs named `n` in the query of a nearest request.
proof fn lemma_nearest_query_count(r: NearestRequest, n: Seq<char>)
    ensures
        count_name(r.query_spec(), n) == one_if(r.number is Some && n == "number"@)
            + one_if(r.general.bearings is Some && n == "bearings"@)
            + one_if(r.general.radiuses is Some && n == "radiuses"@)
            + one_if(n == "generate_hints"@)
            + one_if(r.general.hints is Some && n == "hints"@)
            + one_if(r.general.approaches is Some && n == "approaches"@)
            + one_if(r.general.exclude is Some && n == "exclude"@)
            + one_if(r.general.snapping is Some && n == "snapping"@)
            + one_if(n == "skip_waypoints"@),
{
    broadcast use lemma_count_name_concat, lemma_count_flag_entry, lemma_count_opt_entry, lemma_count_list_entry;

    lemma_general_count(r.general, n);
}

/// The option names of the nearest service differ from each other and from the
/// general option names.
proof fn lemma_nearest_names_distinct()
    ensures
        "number"@ != "bearings"@,
        "number"@ != "radiuses"@,
        "number"@ != "generate_hints"@,
        "number"@ != "hints"@,
        "number"@ != "approaches"@,
        "number"@ != "exclude"@,
        "number"@ != "snapping"@,
        "number"@ != "skip_waypoints"@,
{
    reveal_strlit("number");
    reveal_strlit("bearings");
    reveal_strlit("radiuses");
    reveal_strlit("generate_hints");
    reveal_strlit("hints");
    reveal_strlit("approaches");
    reveal_strlit("exclude");
    reveal_strlit("snapping");
    reveal_strlit("skip_waypoints");
    assert("number"@.len() != "bearings"@.len());
    assert("number"@.len() != "radiuses"@.len());
    assert("number"@.len() != "generate_hints"@.len());
    assert("number"@.len() != "hints"@.len());
    assert("number"@.len() != "approaches"@.len());
    assert("number"@.len() != "exclude"@.len());
    assert("number"@.len() != "snapping"@.len());
    assert("number"@.len() != "skip_waypoints"@.len());
}

/// In the query of a nearest request, an option left unset never appears,
/// and each option that is always sent appears exactly once.
pub proof fn lemma_nearest_query_presence(r: NearestRequest)
    ensures
        r.number is None ==> count_name(r.query_spec(), "number"@) == 0,
        r.general.bearings is None ==> count_name(r.query_spec(), "bearings"@) == 0,
        r.general.radiuses is None ==> count_name(r.query_spec(), "radiuses"@) == 0,
        count_name(r.query_spec(), "generate_hints"@) == 1,
        r.general.hints is None ==> count_name(r.query_spec(), "hints"@) == 0,
        r.general.approaches is None ==> count_name(r.query_spec(), "approaches"@) == 0,
        r.general.exclude is None ==> count_name(r.query_spec(), "exclude"@) == 0,
        r.general.snapping is None ==> count_name(r.query_spec(), "snapping"@) == 0,
        count_name(r.query_spec(), "skip_waypoints"@) == 1,
{
    lemma_general_names_distinct();
    lemma_nearest_names_distinct();
    lemma_nearest_query_count(r, "number"@);
    lemma_nearest_query_count(r, "bearings"@);
    lemma_nearest_query_count(r, "radiuses"@);
    lemma_nearest_query_count(r, "generate_hints"@);
    lemma_nearest_query_count(r, "hints"@);
    lemma_nearest_query_count(r, "approaches"@);
    lemma_nearest_query_count(r, "exclude"@);
    lemma_nearest_query_count(r, "snapping"@);
    lemma_nearest_query_count(r, "skip_waypoints"@);
}
} // verus!
