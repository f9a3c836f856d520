//! Client-side request marshalling and response unmarshalling for the OSRM
//! family of HTTP routing services.
//!
//! Requests are described by typed configurations whose exact textual wire
//! form (URL path and query options) is stated and proved here; responses are
//! decoded from a JSON tree into typed results or typed errors.

mod text;
mod decimal;
mod errors;
mod json;
mod common;
mod geometry;
mod records;
mod options;
mod base;
mod route_service;
mod nearest_service;
mod table_service;
mod match_service;
mod trip_service;
mod tile_service;

pub use text::{
    all_digits, count_char, decimal_text, digit_char, digit_value, digits_value, is_digit,
    join_wire, lemma_separator_count, multi, parse_digits, str_eq, u64_text, WireForm,
};
pub use decimal::{is_numeral, is_unsigned_numeral, Decimal};
pub use errors::{status_phrase, status_token, DecodeError, Error, OsrmStatus};
pub use json::{
    array_items, decode_field, expect_object, field, get_field, is_uint, lookup, number_text,
    uint_value, FromJson, Json,
};
pub use common::{
    is_location_json, lemma_location_json_round_trip, lemma_single_multi, mode_token, Coordinates,
    Geometries, Hint, Location, TransportationMode,
};
pub use geometry::{
    lemma_point_arity, point_coordinates, point_elevation, shape_coordinates, shape_index,
    shape_kind, GeoJsonGeometry, GeoJsonPoint, Geometry,
};
pub use records::{
    direction_token, maneuver_token, side_token, Annotation, AnnotationMetaData, DirectionChange,
    DrivingSide, Intersection, Lane, ManeuverType, Route, RouteLeg, RouteStep, StepManeuver,
    Waypoint,
};
pub use options::{
    count_name, flag_entry, general_options_spec, lemma_count_flag_entry, lemma_count_list_entry,
    lemma_count_name_concat, lemma_count_name_single, lemma_count_opt_entry, lemma_general_count,
    lemma_general_names_distinct, lemma_general_options_presence, list_entry, one_if, opt_entry,
    pairs_view, push_flag, push_list, push_opt, service_token, Approach, BearingRequest,
    GeneralOptions, OptionPair, Profile, Radius, Service, Snapping,
};
pub use base::{
    build_url, decode_response, envelope_result, envelope_status, request_url, Client, Request,
    Response, WithOptions, OSRM_BASE, OSRM_VERSION,
};
pub use route_service::{
    lemma_route_query_presence, AlternativesRequest, OverviewRequest, RouteAnnotationRequest,
    RouteRequest, RouteResponse,
};
pub use nearest_service::{lemma_nearest_query_presence, NearestRequest, NearestResponse};
pub use table_service::{
    cell_read, lemma_matrix_cells, lemma_table_query_presence, FallbackCoordinateRequest,
    TableAnnotationRequest, TableRequest, TableResponse,
};
pub use match_service::{
    lemma_match_query_presence, GapHandling, MatchRequest, MatchResponse, MatchingRoute,
    MatchingWaypoint,
};
pub use trip_service::{
    lemma_trip_query_presence, Destination, Source, TripRequest, TripResponse, TripWaypoint,
};
pub use tile_service::{tile_debug_url, tile_url, TileRequest};
