use mapboxgl::event::Point;
use mapboxgl::feature::{decode_features, feature_query, Feature, FeatureId};
use mapboxgl::geometry::{query_geometry_wire, IntoQueryGeometry, QueryGeometry};
use mapboxgl::lnglat::{LngLat, LngLatBounds};
use mapboxgl::options::QueryFeatureOptions;
use mapboxgl::wire::{Number, ToWire, Value};
use mapboxgl::Error;

fn num(x: f64) -> Number {
    Number::Real(x.to_bits())
}

fn from_json(value: &serde_json::Value) -> Value {
    match value {
        serde_json::Value::Null => Value::Null,
        serde_json::Value::Bool(b) => Value::Bool(*b),
        serde_json::Value::Number(n) => match n.as_i64() {
            Some(i) => Value::Number(Number::Int(i)),
            None => Value::Number(Number::Real(n.as_f64().unwrap().to_bits())),
        },
        serde_json::Value::String(s) => Value::String(s.clone()),
        serde_json::Value::Array(items) => Value::Array(items.iter().map(from_json).collect()),
        serde_json::Value::Object(entries) => {
            Value::Object(entries.iter().map(|(k, v)| (k.clone(), from_json(v))).collect())
        }
    }
}

fn to_json(value: &Value) -> serde_json::Value {
    match value {
        Value::Null => serde_json::Value::Null,
        Value::Bool(b) => serde_json::Value::Bool(*b),
        Value::Number(Number::Int(n)) => serde_json::Value::from(*n),
        Value::Number(Number::Real(bits)) => serde_json::Value::from(f64::from_bits(*bits)),
        Value::String(s) => serde_json::Value::String(s.clone()),
        Value::Array(items) => serde_json::Value::Array(items.iter().map(to_json).collect()),
        Value::Object(entries) => serde_json::Value::Object(
            entries.iter().map(|(k, v)| (k.clone(), to_json(v))).collect(),
        ),
    }
}

fn parse(text: &str) -> serde_json::Value {
    serde_json::from_str(text).unwrap()
}

fn json(text: &str) -> Value {
    from_json(&parse(text))
}

#[test]
fn a_point_is_flattened_to_lng_lat() {
    let geometry = QueryGeometry::Point { lng: num(139.5), lat: num(35.5) };
    assert_eq!(geometry.into_vec(), vec![num(139.5), num(35.5)]);
    assert_eq!(to_json(&geometry.to_wire()), parse("[139.5,35.5]"));
}

#[test]
fn a_box_is_flattened_to_west_south_east_north() {
    let geometry =
        QueryGeometry::BBox { west: num(1.0), south: num(2.0), east: num(3.0), north: num(4.0) };
    assert_eq!(geometry.into_vec(), vec![num(1.0), num(2.0), num(3.0), num(4.0)]);
    assert_eq!(to_json(&geometry.to_wire()), parse("[1.0,2.0,3.0,4.0]"));
}

#[test]
fn pairs_quadruples_points_and_bounds_stand_for_geometries() {
    assert_eq!(
        [num(1.0), num(2.0)].into_query_geometry(),
        QueryGeometry::Point { lng: num(1.0), lat: num(2.0) }
    );
    assert_eq!(
        [num(1.0), num(2.0), num(3.0), num(4.0)].into_query_geometry(),
        QueryGeometry::BBox { west: num(1.0), south: num(2.0), east: num(3.0), north: num(4.0) }
    );
    assert_eq!(
        Point { x: num(5.0), y: num(6.0) }.into_query_geometry(),
        QueryGeometry::Point { lng: num(5.0), lat: num(6.0) }
    );
    let bounds =
        LngLatBounds::new(LngLat::new(num(-10.0), num(-20.0)), LngLat::new(num(30.0), num(40.0)));
    assert_eq!(
        bounds.into_query_geometry(),
        QueryGeometry::BBox {
            west: num(-10.0),
            south: num(-20.0),
            east: num(30.0),
            north: num(40.0)
        }
    );
}

#[test]
fn a_query_without_geometry_asks_for_the_whole_viewport() {
    assert!(query_geometry_wire::<Point>(None).is_none());
    let wire = query_geometry_wire(Some(Point { x: num(5.0), y: num(6.0) })).unwrap();
    assert_eq!(to_json(&wire), parse("[5.0,6.0]"));
    let query = feature_query::<[Number; 4]>(None, &QueryFeatureOptions::default());
    assert!(query.geometry.is_none());
    assert_eq!(to_json(&query.options), parse("{}"));
    let options = QueryFeatureOptions {
        filters: vec![],
        layers: vec!["roads".to_string()],
        validate: Some(true),
    };
    let query = feature_query(Some([num(1.0), num(2.0), num(3.0), num(4.0)]), &options);
    assert_eq!(to_json(&query.geometry.unwrap()), parse("[1.0,2.0,3.0,4.0]"));
    assert_eq!(to_json(&query.options), parse(r#"{"layers":["roads"],"validate":true}"#));
}

#[test]
fn a_position_has_its_longitude_and_latitude() {
    let mut position = LngLat::new(num(139.5), num(35.5));
    assert_eq!(position.lng(), num(139.5));
    assert_eq!(position.lat(), num(35.5));
    assert_eq!(position.to_array(), vec![num(139.5), num(35.5)]);
    position.set_lng(num(1.0));
    assert_eq!((position.lng(), position.lat()), (num(1.0), num(35.5)));
    position.set_lat(num(2.0));
    assert_eq!((position.lng(), position.lat()), (num(1.0), num(2.0)));
    assert_eq!(to_json(&position.to_wire()), parse(r#"{"lng":1.0,"lat":2.0}"#));
    assert_eq!(to_json(&position.to_wire_array()), parse("[1.0,2.0]"));
    let copy = position.clone();
    assert_eq!(copy, position);
}

#[test]
fn the_default_position_is_the_origin() {
    let origin = LngLat::default();
    assert_eq!(origin.lng(), num(0.0));
    assert_eq!(origin.lat(), num(0.0));
    assert_eq!(origin.lng(), Number::Real(0));
}

#[test]
fn bounds_hand_out_their_corners() {
    let sw = LngLat::new(num(-10.0), num(-20.0));
    let ne = LngLat::new(num(30.0), num(40.0));
    let bounds = LngLatBounds::new(sw, ne);
    assert_eq!(bounds.get_south_west(), sw);
    assert_eq!(bounds.get_north_east(), ne);
    assert_eq!(bounds.set_north_east(), ne);
    assert_eq!(bounds.get_north_east(), ne);
}

#[test]
fn features_are_decoded_from_a_response() {
    let response = json(
        r#"[{"type":"Feature","id":7,"geometry":{"type":"Point","coordinates":[1.5,2.5]},"properties":{"name":"a"},"bbox":[1.5,2.5,3.5,4.5],"layer":{"id":"roads"}},{"id":"x","geometry":null,"properties":null,"foreign_members":{"extra":true}},{}]"#,
    );
    let features = decode_features(&response).unwrap();
    assert_eq!(features.len(), 3);
    assert!(matches!(features[0].id, Some(FeatureId::Number(Number::Int(7)))));
    assert_eq!(features[0].bbox, Some(vec![num(1.5), num(2.5), num(3.5), num(4.5)]));
    assert_eq!(
        to_json(features[0].geometry.as_ref().unwrap()),
        parse(r#"{"type":"Point","coordinates":[1.5,2.5]}"#)
    );
    assert_eq!(to_json(features[0].properties.as_ref().unwrap()), parse(r#"{"name":"a"}"#));
    assert!(features[0].foreign_members.is_none());
    assert!(matches!(&features[1].id, Some(FeatureId::String(s)) if s == "x"));
    assert!(features[1].geometry.is_none());
    assert!(features[1].properties.is_none());
    assert!(features[1].bbox.is_none());
    assert_eq!(to_json(features[1].foreign_members.as_ref().unwrap()), parse(r#"{"extra":true}"#));
    assert!(features[2].id.is_none() && features[2].geometry.is_none());
    assert_eq!(decode_features(&json("[]")).unwrap().len(), 0);
}

#[test]
fn a_response_that_is_no_list_of_features_is_refused() {
    let responses = [
        "null",
        "{}",
        "\"features\"",
        "[1]",
        "[[]]",
        r#"[{"id":true}]"#,
        r#"[{"id":[1]}]"#,
        r#"[{"bbox":"1,2"}]"#,
        r#"[{"bbox":[1,"2"]}]"#,
        r#"[{"geometry":"Point"}]"#,
        r#"[{"properties":[]}]"#,
        r#"[{"foreign_members":1}]"#,
        r#"[{}, {"properties":7}]"#,
    ];
    for text in responses {
        match decode_features(&json(text)) {
            Err(Error::JsError(reason)) => assert_eq!(reason, "the response is no list of features"),
            Err(other) => panic!("unexpected error {:?}", other),
            Ok(features) => panic!("{} decoded into {} features", text, features.len()),
        }
    }
    assert!(Feature::decode(&json("7")).is_none());
    assert!(Feature::decode(&json("{}")).is_some());
}
