use osrm_client::{
    decode_response, Decimal, DecodeError, Error, FromJson, GeoJsonGeometry, GeoJsonPoint, Geometry,
    Json, Location, NearestResponse, OsrmStatus, RouteResponse, TableResponse, Waypoint,
};

fn number_text(n: &serde_json::Number) -> String {
    if let Some(u) = n.as_u64() {
        u.to_string()
    } else if let Some(i) = n.as_i64() {
        i.to_string()
    } else {
        n.as_f64().map(|f| f.to_string()).unwrap_or_default()
    }
}

fn to_json(v: &serde_json::Value) -> Json {
    match v {
        serde_json::Value::Null => Json::Null,
        serde_json::Value::Bool(b) => Json::Bool(*b),
        serde_json::Value::Number(n) => Json::Number(number_text(n)),
        serde_json::Value::String(s) => Json::Str(s.clone()),
        serde_json::Value::Array(a) => Json::Array(a.iter().map(to_json).collect()),
        serde_json::Value::Object(m) => {
            Json::Object(m.iter().map(|(k, v)| (k.clone(), to_json(v))).collect())
        }
    }
}

fn parse(text: &str) -> Json {
    to_json(&serde_json::from_str::<serde_json::Value>(text).unwrap())
}

fn texts(v: &[Decimal]) -> Vec<String> {
    v.iter().map(|d| d.as_str().to_string()).collect()
}

#[test]
fn nearest_success_envelope() {
    let body = r#"{"code":"Ok","waypoints":[{"nodes":[2264199819,0],"hint":"KSoKADRYroqUBAEAEAAAABkAAAAGAAAAAAAAABhnCQCLtwAA_0vMAKlYIQM8TMwArVghAwEAAQH1a66g","distance":4.152629,"name":"Friedrichstraße","location":[13.388799,52.517033]}]}"#;
    let r: Result<NearestResponse, Error> = decode_response(&parse(body));
    let r = r.unwrap();
    let ws = r.waypoints.unwrap();
    assert_eq!(ws.len(), 1);
    assert_eq!(ws[0].name, "Friedrichstraße");
    assert_eq!(ws[0].distance.as_str(), "4.152629");
    assert_eq!(ws[0].location.longitude.as_str(), "13.388799");
    assert_eq!(ws[0].location.latitude.as_str(), "52.517033");
    assert_eq!(ws[0].nodes, Some(vec![2264199819, 0]));
    assert!(ws[0].hint.is_some());
}

#[test]
fn route_geometry_string_is_encoded() {
    let body = r#"{"code":"Ok","routes":[{"geometry":"slluHq`qZ~eChbD","legs":[],"weight_name":"routability","weight":1.5,"duration":1.5,"distance":2}],"waypoints":[]}"#;
    let r: RouteResponse = decode_response(&parse(body)).unwrap();
    match &r.routes[0].geometry {
        Some(Geometry::Encoded(s)) => assert_eq!(s, "slluHq`qZ~eChbD"),
        other => panic!("unexpected geometry {other:?}"),
    }
    assert_eq!(r.routes[0].distance.as_str(), "2");
}

#[test]
fn route_geometry_geojson_is_explicit() {
    let body = r#"{"code":"Ok","routes":[{"geometry":{"type":"LineString","coordinates":[[-1.3,44.1],[-1.0,44.0]]},"legs":[],"weight_name":"routability","weight":1,"duration":1,"distance":1}]}"#;
    let r: RouteResponse = decode_response(&parse(body)).unwrap();
    assert!(r.waypoints.is_none());
    match &r.routes[0].geometry {
        Some(Geometry::Explicit(GeoJsonGeometry::LineString { coordinates })) => {
            assert_eq!(coordinates.len(), 2);
            assert!(matches!(coordinates[0], GeoJsonPoint::Regular(_, _)));
            assert!(matches!(coordinates[1], GeoJsonPoint::Regular(_, _)));
            assert_eq!(texts(&coordinates[0].coordinates()), vec!["-1.3", "44.1"]);
            assert_eq!(texts(&coordinates[1].coordinates()), vec!["-1", "44"]);
        }
        other => panic!("unexpected geometry {other:?}"),
    }
}

#[test]
fn geometry_of_other_shape_is_a_decode_failure() {
    assert!(Geometry::from_json(&parse("12")).is_err());
    assert!(Geometry::from_json(&parse(r#"{"type":"Circle","coordinates":[1,2]}"#)).is_err());
    assert!(Geometry::from_json(&parse(r#"{"type":"Point","coordinates":[1]}"#)).is_err());
    assert!(Geometry::from_json(&parse("[1,2]")).is_err());
    let body = r#"{"code":"Ok","routes":[{"geometry":5,"legs":[],"weight_name":"x","weight":1,"duration":1,"distance":1}]}"#;
    let r: Result<RouteResponse, Error> = decode_response(&parse(body));
    assert!(matches!(r, Err(Error::DecodeError(DecodeError { .. }))));
}

#[test]
fn geojson_shapes() {
    let g = Geometry::from_json(&parse(r#"{"type":"Point","coordinates":[1,2,3]}"#)).unwrap();
    match g {
        Geometry::Explicit(GeoJsonGeometry::Point { coordinates }) => {
            assert_eq!(coordinates.elevation().unwrap().as_str(), "3");
        }
        other => panic!("unexpected geometry {other:?}"),
    }
    let g = Geometry::from_json(&parse(
        r#"{"type":"MultiPolygon","coordinates":[[[[0,0],[1,0],[1,1],[0,0]]]]}"#,
    ))
    .unwrap();
    match g {
        Geometry::Explicit(GeoJsonGeometry::MultiPolygon { coordinates }) => {
            assert_eq!(coordinates[0][0].len(), 4);
        }
        other => panic!("unexpected geometry {other:?}"),
    }
}

#[test]
fn point_arity() {
    let two = GeoJsonPoint::from_json(&parse("[4.5,50.25]")).unwrap();
    assert!(matches!(two, GeoJsonPoint::Regular(_, _)));
    assert!(two.elevation().is_none());
    let three = GeoJsonPoint::from_json(&parse("[4.5,50.25,112.75]")).unwrap();
    assert!(matches!(three, GeoJsonPoint::Elevated(_, _, _)));
    assert_eq!(three.elevation().unwrap().as_str(), "112.75");
    let three = GeoJsonPoint::from_json(&parse("[4.5,50.25,112.75]")).unwrap();
    let l = three.location();
    assert_eq!(l.longitude.as_str(), "4.5");
    assert_eq!(l.latitude.as_str(), "50.25");
    assert!(GeoJsonPoint::from_json(&parse("[1]")).is_err());
    assert!(GeoJsonPoint::from_json(&parse("[1,2,3,4]")).is_err());
    assert!(GeoJsonPoint::from_json(&parse(r#"[1,"2"]"#)).is_err());
}

#[test]
fn location_round_trip() {
    let l = Location::new(Decimal::parse("2.290253").unwrap(), Decimal::parse("-48.8583701").unwrap());
    let back = Location::from_json(&l.to_json()).unwrap();
    assert_eq!(back.longitude.as_str(), "2.290253");
    assert_eq!(back.latitude.as_str(), "-48.8583701");
    assert!(Location::from_json(&parse("[1,2,3]")).is_err());
}

#[test]
fn protocol_failure_carries_status() {
    let r: Result<RouteResponse, Error> =
        decode_response(&parse(r#"{"code":"NoRoute","message":"Impossible route between points"}"#));
    assert!(matches!(r, Err(Error::ProtocolError(OsrmStatus::NoRoute))));
    let r: Result<TableResponse, Error> =
        decode_response(&parse(r#"{"code":"InvalidValue","message":"bad"}"#));
    assert!(matches!(r, Err(Error::ProtocolError(OsrmStatus::InvalidValue))));
}

#[test]
fn unknown_or_missing_code_is_a_decode_failure() {
    let r: Result<RouteResponse, Error> = decode_response(&parse(r#"{"code":"Weird"}"#));
    assert!(matches!(r, Err(Error::DecodeError(_))));
    let r: Result<RouteResponse, Error> = decode_response(&parse(r#"{"routes":[]}"#));
    assert!(matches!(r, Err(Error::DecodeError(_))));
    let r: Result<RouteResponse, Error> = decode_response(&parse("[]"));
    assert!(matches!(r, Err(Error::DecodeError(_))));
    let r: Result<RouteResponse, Error> = decode_response(&parse(r#"{"code":"Ok"}"#));
    assert!(matches!(r, Err(Error::DecodeError(_))));
}

#[test]
fn table_null_cell_is_no_value() {
    let body = r#"{"code":"Ok","distances":[[null,1200.5]],"sources":[],"destinations":[]}"#;
    let t: TableResponse = decode_response(&parse(body)).unwrap();
    let d = t.distances.unwrap();
    assert!(d[0][0].is_none());
    assert_eq!(d[0][1].as_ref().unwrap().as_str(), "1200.5");
    assert!(t.durations.is_none());
    assert!(t.fallback_speed_cells.is_none());
}

#[test]
fn table_fallback_cells() {
    let body = r#"{"code":"Ok","durations":[[0,10],[10,0]],"fallback_speed_cells":[[0,1],[1,0]]}"#;
    let t: TableResponse = decode_response(&parse(body)).unwrap();
    assert_eq!(t.fallback_speed_cells, Some(vec![(0, 1), (1, 0)]));
    let d = t.durations.unwrap();
    assert_eq!(d[0][0].as_ref().unwrap().as_str(), "0");
}

#[test]
fn integers_out_of_range_fail() {
    assert_eq!(u8::from_json(&parse("255")).unwrap(), 255);
    assert!(u8::from_json(&parse("256")).is_err());
    assert!(u16::from_json(&parse("-1")).is_err());
    assert!(usize::from_json(&parse("1.5")).is_err());
    assert_eq!(u64::from_json(&parse("18446744073709551615")).unwrap(), u64::MAX);
}

#[test]
fn waypoint_requires_fields() {
    assert!(Waypoint::from_json(&parse(r#"{"name":"a","location":[1,2],"distance":3}"#)).is_ok());
    assert!(Waypoint::from_json(&parse(r#"{"name":"a","location":[1,2]}"#)).is_err());
    assert!(Waypoint::from_json(&parse(r#"{"name":"a","location":[1,2],"distance":3,"nodes":null}"#))
        .unwrap()
        .nodes
        .is_none());
}
