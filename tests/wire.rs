use osrm_client::{
    multi, u64_text, AlternativesRequest, Approach, BearingRequest, Client, Coordinates, Decimal,
    Destination, FallbackCoordinateRequest, GapHandling, Geometries, GeoJsonPoint, Hint, Location,
    MatchRequest, NearestRequest, OsrmStatus, OverviewRequest, Radius, Request, RouteAnnotationRequest,
    RouteRequest, Service, Snapping, Source, TableAnnotationRequest, TableRequest, TileRequest,
    TransportationMode, TripRequest, WireForm, WithOptions,
};

fn dec(s: &str) -> Decimal {
    Decimal::parse(s).unwrap()
}

fn loc(lon: &str, lat: &str) -> Location {
    Location::new(dec(lon), dec(lat))
}

fn pairs(v: Vec<(&'static str, String)>) -> Vec<(String, String)> {
    v.into_iter().map(|(k, v)| (k.to_string(), v)).collect()
}

fn expect(v: &[(&str, &str)]) -> Vec<(String, String)> {
    v.iter().map(|(k, v)| (k.to_string(), v.to_string())).collect()
}

#[test]
fn decimal_parse_accepts_numerals() {
    assert_eq!(dec("2.290253").as_str(), "2.290253");
    assert_eq!(dec("-0.5").as_str(), "-0.5");
    assert_eq!(dec("12").as_str(), "12");
    assert_eq!(dec("0.0000001").as_str(), "0.0000001");
}

#[test]
fn decimal_parse_rejects_other_text() {
    for s in ["", "-", "1.", ".5", "1.2.3", "1e5", "+1", "1,5", " 1", "--1", "-.5"] {
        assert!(Decimal::parse(s).is_none(), "{s}");
    }
}

#[test]
fn integer_text() {
    assert_eq!(u64_text(0), "0");
    assert_eq!(u64_text(7), "7");
    assert_eq!(u64_text(1234567890), "1234567890");
    assert_eq!(u64_text(u64::MAX), "18446744073709551615");
}

#[test]
fn location_wire_form() {
    assert_eq!(loc("2.290253", "48.8583701").wire(), "2.290253,48.8583701");
    assert_eq!(loc("-1.3", "44.1").wire(), "-1.3,44.1");
}

#[test]
fn single_element_multi_is_single() {
    let multi_coords = Coordinates::Multi(vec![loc("4.516091", "50.859136")]);
    let single = Coordinates::Single(loc("4.516091", "50.859136"));
    assert_eq!(multi_coords.wire(), single.wire());
    assert_eq!(single.wire(), "4.516091,50.859136");
}

#[test]
fn coordinates_wire_forms() {
    let m = Coordinates::Multi(vec![loc("1", "2"), loc("3.5", "4"), loc("-5", "6.25")]);
    assert_eq!(m.wire(), "1,2;3.5,4;-5,6.25");
    assert_eq!(Coordinates::Multi(vec![]).wire(), "");
    assert_eq!(Coordinates::Polyline("abc".to_string()).wire(), "polyline(abc)");
    assert_eq!(Coordinates::Polyline6("x_y".to_string()).wire(), "polyline6(x_y)");
}

#[test]
fn list_separators() {
    let bearings = vec![
        BearingRequest { value: 0, range: 90 },
        BearingRequest { value: 359, range: 180 },
        BearingRequest { value: 45, range: 10 },
    ];
    let text = multi(&bearings);
    assert_eq!(text, "0,90;359,180;45,10");
    assert_eq!(text.matches(';').count(), bearings.len() - 1);
    let one: Vec<usize> = vec![4];
    assert_eq!(multi(&one), "4");
    let none: Vec<usize> = vec![];
    assert_eq!(multi(&none), "");
}

#[test]
fn option_value_tokens() {
    assert_eq!(Radius::Unlimited.wire(), "unlimited");
    assert_eq!(Radius::Limited(dec("12.5")).wire(), "12.5");
    assert_eq!(Approach::Curb.wire(), "curb");
    assert_eq!(Approach::default().wire(), "unrestricted");
    assert_eq!(Snapping::default().wire(), "default");
    assert_eq!(Snapping::Any.wire(), "any");
    assert_eq!(Hint("-0eQgNlS0oM".to_string()).wire(), "-0eQgNlS0oM");
    assert_eq!(TableAnnotationRequest::Both.wire(), "duration,distance");
    assert_eq!(TableAnnotationRequest::default().wire(), "duration");
    assert_eq!(FallbackCoordinateRequest::default().wire(), "input");
    assert_eq!(FallbackCoordinateRequest::Snapped.wire(), "snapped");
    assert_eq!(AlternativesRequest::UpTo(3).wire(), "3");
    assert_eq!(AlternativesRequest::NoAlternative.wire(), "false");
    assert_eq!(AlternativesRequest::AllAlternatives.wire(), "true");
    assert_eq!(RouteAnnotationRequest::default().wire(), "false");
    assert_eq!(RouteAnnotationRequest::Datasources.wire(), "datasources");
    assert_eq!(OverviewRequest::default().wire(), "false");
    assert_eq!(OverviewRequest::Simplified.wire(), "simplified");
    assert_eq!(GapHandling::default().wire(), "split");
    assert_eq!(Source::default().wire(), "any");
    assert_eq!(Source::First.wire(), "first");
    assert_eq!(Destination::Last.wire(), "last");
    assert_eq!(Geometries::Polyline6.wire(), "polyline6");
    assert_eq!(Geometries::GeoJson.wire(), "geojson");
    assert_eq!(Service::Match.token(), "match");
    assert_eq!(TransportationMode::Bike.token(), "bike");
}

#[test]
fn status_tokens_and_phrases() {
    assert_eq!(OsrmStatus::Success.token(), "Ok");
    assert_eq!(OsrmStatus::from_token("NoRoute"), Some(OsrmStatus::NoRoute));
    assert_eq!(OsrmStatus::from_token("Ok"), Some(OsrmStatus::Success));
    assert_eq!(OsrmStatus::from_token("ok"), None);
    assert_eq!(OsrmStatus::InvalidUrl.description(), "url string is invalid");
    assert_eq!(OsrmStatus::TooBig.token(), "TooBig");
}

#[test]
fn nearest_request_scenario() {
    let client = Client::default();
    let mut req = NearestRequest::new(Coordinates::Single(loc("2.290253", "48.8583701")));
    req.profile = TransportationMode::Foot;
    assert_eq!(
        req.url(&client),
        "http://router.project-osrm.org/nearest/v1/foot/2.290253,48.8583701"
    );
    assert_eq!(
        pairs(req.query()),
        expect(&[("generate_hints", "true"), ("skip_waypoints", "false")])
    );
    assert!(req.options().is_empty());
}

#[test]
fn unset_options_never_appear() {
    let mut req = NearestRequest::new(Coordinates::Single(loc("1", "2")));
    req.number = Some(3);
    req.general.snapping = Some(Snapping::Any);
    req.general.generate_hints = false;
    req.general.radiuses = Some(vec![]);
    let q = pairs(req.query());
    assert_eq!(
        q,
        expect(&[
            ("number", "3"),
            ("radiuses", ""),
            ("generate_hints", "false"),
            ("snapping", "any"),
            ("skip_waypoints", "false"),
        ])
    );
    for name in ["bearings", "hints", "approaches", "exclude"] {
        assert!(q.iter().all(|(k, _)| k != name));
    }
    assert_eq!(q.iter().filter(|(k, _)| k == "generate_hints").count(), 1);
    assert_eq!(q.iter().filter(|(k, _)| k == "skip_waypoints").count(), 1);
}

#[test]
fn general_options_in_order() {
    let mut req = NearestRequest::new(Coordinates::Multi(vec![loc("1", "2"), loc("3", "4")]));
    req.general.bearings = Some(vec![
        BearingRequest { value: 10, range: 20 },
        BearingRequest { value: 30, range: 40 },
    ]);
    req.general.radiuses = Some(vec![Radius::Unlimited, Radius::Limited(dec("5.5"))]);
    req.general.hints = Some(vec![Hint("a".to_string()), Hint("b".to_string())]);
    req.general.approaches = Some(vec![Approach::Curb, Approach::Unrestricted]);
    req.general.exclude = Some(vec!["toll".to_string(), "ferry".to_string()]);
    req.general.skip_waypoints = true;
    assert_eq!(
        pairs(req.query()),
        expect(&[
            ("bearings", "10,20;30,40"),
            ("radiuses", "unlimited;5.5"),
            ("generate_hints", "true"),
            ("hints", "a;b"),
            ("approaches", "curb;unrestricted"),
            ("exclude", "toll;ferry"),
            ("skip_waypoints", "true"),
        ])
    );
}

#[test]
fn route_request_options() {
    let client = Client::with_endpoint("http://localhost:5000".to_string(), "v1".to_string());
    let mut req = RouteRequest::new(Coordinates::Multi(vec![loc("1", "2"), loc("3", "4")]));
    assert_eq!(req.url(&client), "http://localhost:5000/route/v1/car/1,2;3,4");
    assert_eq!(
        pairs(req.options()),
        expect(&[("steps", "false"), ("continue_straight", "false")])
    );
    req.alternatives = Some(AlternativesRequest::UpTo(3));
    req.steps = true;
    req.annotations = Some(RouteAnnotationRequest::Nodes);
    req.geometries = Some(Geometries::GeoJson);
    req.overview = Some(OverviewRequest::Full);
    req.waypoints = Some(vec![0, 1]);
    assert_eq!(
        pairs(req.options()),
        expect(&[
            ("alternatives", "3"),
            ("steps", "true"),
            ("annotations", "nodes"),
            ("geometries", "geojson"),
            ("overview", "full"),
            ("continue_straight", "false"),
            ("waypoints", "0;1"),
        ])
    );
}

#[test]
fn table_request_options() {
    let mut req = TableRequest::new(Coordinates::Polyline("_p~iF~ps|U".to_string()));
    req.sources = Some(vec![0]);
    req.destinations = Some(vec![1, 2]);
    req.annotations = Some(TableAnnotationRequest::Both);
    req.fallback_speed = Some(dec("13.88"));
    req.fallback_coordinate = Some(FallbackCoordinateRequest::Snapped);
    req.scale_factor = Some(dec("1.5"));
    assert_eq!(
        pairs(req.options()),
        expect(&[
            ("sources", "0"),
            ("destinations", "1;2"),
            ("annotations", "duration,distance"),
            ("fallback_speed", "13.88"),
            ("fallback_coordinate", "snapped"),
            ("scale_factor", "1.5"),
        ])
    );
    let client = Client::default();
    assert_eq!(
        req.url(&client),
        "http://router.project-osrm.org/table/v1/car/polyline(_p~iF~ps|U)"
    );
}

#[test]
fn match_request_options() {
    let mut req = MatchRequest::new(Coordinates::Polyline6("abc".to_string()));
    req.timestamps = Some(vec![1424684612, 1424684616]);
    req.gaps = Some(GapHandling::Ignore);
    req.tidy = true;
    req.general.radiuses = Some(vec![Radius::Limited(dec("5"))]);
    assert_eq!(
        pairs(req.options()),
        expect(&[
            ("steps", "false"),
            ("timestamps", "1424684612;1424684616"),
            ("gaps", "ignore"),
            ("tidy", "true"),
        ])
    );
    let q = pairs(req.query());
    assert_eq!(q.iter().filter(|(k, _)| k == "radiuses").count(), 1);
}

#[test]
fn trip_request_options() {
    let mut req = TripRequest::new(Coordinates::Single(loc("1", "2")));
    assert_eq!(
        pairs(req.options()),
        expect(&[("roundtrip", "true"), ("steps", "false")])
    );
    req.roundtrip = false;
    req.source = Some(Source::First);
    req.destination = Some(Destination::Last);
    req.overview = Some(OverviewRequest::Simplified);
    assert_eq!(
        pairs(req.options()),
        expect(&[
            ("roundtrip", "false"),
            ("source", "first"),
            ("destination", "last"),
            ("steps", "false"),
            ("overview", "simplified"),
        ])
    );
    assert_eq!(
        req.url(&Client::default()),
        "http://router.project-osrm.org/trip/v1/car/1,2"
    );
}

#[test]
fn tile_urls() {
    let req = TileRequest::new(dec("1310"), dec("3166"), 13);
    assert_eq!(
        req.url(&Client::default()),
        "http://router.project-osrm.org/tile/v1/car/tile(1310,3166,13).mvt"
    );
    assert_eq!(req.show_url(), "http://map.project-osrm.org/debug/#13/1310/3166");
}

#[test]
fn client_defaults() {
    let client = Client::default();
    assert_eq!(client.base_url, "http://router.project-osrm.org");
    assert_eq!(client.version, "v1");
}

#[test]
fn point_from_location() {
    let p = GeoJsonPoint::from(loc("1.5", "2.5"));
    let coords: Vec<String> = p.coordinates().iter().map(|d| d.as_str().to_string()).collect();
    assert_eq!(coords, vec!["1.5", "2.5"]);
    assert!(p.elevation().is_none());
}
