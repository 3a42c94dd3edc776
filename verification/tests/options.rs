use mapboxgl::error::Error;
use mapboxgl::layer::{BackgroundLayer, IntoLayer};
use mapboxgl::lnglat::LngLat;
use mapboxgl::map::MapboxMap;
use mapboxgl::options::{
    encode_i64, encode_u64, AnimationOptions, CameraAnimationOptions, CameraOptions,
    CustomAttribution, MapOptions, PaddingOptions, QueryFeatureOptions,
};
use mapboxgl::style::Style;
use mapboxgl::wire::{Number, ToWire, Value};

fn num(x: f64) -> Number {
    Number::Real(x.to_bits())
}

fn to_json(value: &Value) -> serde_json::Value {
    match value {
        Value::Null => serde_json::Value::Null,
        Value::Bool(b) => serde_json::Value::Bool(*b),
        Value::Number(Number::Int(n)) => serde_json::Value::from(*n),
        Value::Number(Number::Real(bits)) => serde_json::Value::from(f64::from_bits(*bits)),
        Value::String(s) => serde_json::Value::String(s.clone()),
        Value::Array(items) => serde_json::Value::Array(items.iter().map(to_json).collect()),
        Value::Object(entries) => serde_json::Value::Object(
            entries.iter().map(|(k, v)| (k.clone(), to_json(v))).collect(),
        ),
    }
}

fn parse(text: &str) -> serde_json::Value {
    serde_json::from_str(text).unwrap()
}

fn keys(value: &Value) -> Vec<String> {
    match value {
        Value::Object(entries) => entries.iter().map(|(k, _)| k.clone()).collect(),
        _ => panic!("not an object"),
    }
}

fn holds_null(value: &Value) -> bool {
    match value {
        Value::Null => true,
        Value::Array(items) => items.iter().any(holds_null),
        Value::Object(entries) => entries.iter().any(|(_, v)| holds_null(v)),
        _ => false,
    }
}

#[test]
fn new_options_hold_the_token_the_container_and_the_standard_style() {
    let wire = MapOptions::new("pk.token".to_string(), "map".to_string()).build().unwrap();
    assert_eq!(keys(&wire), vec!["accessToken", "container", "style"]);
    assert_eq!(
        to_json(&wire),
        parse(r#"{"accessToken":"pk.token","container":"map","style":"mapbox://styles/mapbox/streets-v11"}"#)
    );
}

#[test]
fn options_that_are_set_are_kept_and_the_rest_is_left_out() {
    let wire = MapOptions::new("pk.token".to_string(), "map".to_string())
        .center(LngLat::new(num(10.0), num(20.0)))
        .zoom(num(5.0))
        .projection("globe".to_string())
        .style_ref("mapbox://styles/mapbox/dark-v11".to_string())
        .build()
        .unwrap();
    assert_eq!(keys(&wire), vec!["accessToken", "center", "container", "style", "projection", "zoom"]);
    assert_eq!(
        to_json(&wire),
        parse(
            r#"{"accessToken":"pk.token","center":{"lng":10.0,"lat":20.0},"container":"map","style":"mapbox://styles/mapbox/dark-v11","projection":"globe","zoom":5.0}"#
        )
    );
    assert!(!holds_null(&wire));
}

#[test]
fn a_later_setting_replaces_an_earlier_one() {
    let wire = MapOptions::new("t".to_string(), "c".to_string())
        .zoom(num(1.0))
        .zoom(num(2.0))
        .style_ref("a".to_string())
        .style(Style::default())
        .build()
        .unwrap();
    assert_eq!(
        to_json(&wire),
        parse(r#"{"accessToken":"t","container":"c","style":{"version":0,"sources":{},"layers":[]},"zoom":2.0}"#)
    );
}

#[test]
fn a_style_document_goes_into_the_options_as_an_object() {
    let mut style = Style::default();
    style.version = 8;
    style.name = Some("plain".to_string());
    style.layers.push(BackgroundLayer::new("bg").into_layer());
    let wire = MapOptions::new("t".to_string(), "c".to_string()).style(style).build().unwrap();
    assert_eq!(
        to_json(&wire),
        parse(
            r#"{"accessToken":"t","container":"c","style":{"version":8,"sources":{},"layers":[{"type":"background","id":"bg","layout":{},"paint":{}}],"name":"plain"}}"#
        )
    );
}

#[test]
fn a_map_is_built_from_the_wire_form_of_its_options() {
    let options = MapOptions::new("t".to_string(), "c".to_string())
        .center(LngLat::new(num(10.0), num(20.0)))
        .zoom(num(5.0));
    let expected = to_json(&options.build().unwrap());
    let map: MapboxMap<u8, (), (), ()> = MapboxMap::new(options, 7).unwrap();
    assert_eq!(to_json(map.configuration()), expected);
    assert_eq!(*map.weak_reference(), 7);
    assert_eq!(
        expected,
        parse(
            r#"{"accessToken":"t","center":{"lng":10.0,"lat":20.0},"container":"c","style":"mapbox://styles/mapbox/streets-v11","zoom":5.0}"#
        )
    );
    assert_eq!(map.listener_count(), 0);
    assert_eq!(map.marker_count(), 0);
}

#[test]
fn integers_are_encoded_where_they_fit() {
    assert!(matches!(encode_i64("bearing", None), Ok(None)));
    assert!(matches!(encode_i64("bearing", Some(-90)), Ok(Some(Value::Number(Number::Int(-90))))));
    assert!(matches!(
        encode_i64("bearing", Some(9007199254740991)),
        Ok(Some(Value::Number(Number::Int(9007199254740991))))
    ));
    assert!(matches!(encode_u64("scale", Some(0)), Ok(Some(Value::Number(Number::Int(0))))));
    assert!(matches!(encode_u64("scale", None), Ok(None)));
}

#[test]
fn integers_that_do_not_fit_are_refused_by_name() {
    match encode_i64("bearing", Some(9007199254740992)) {
        Err(Error::JsError(reason)) => {
            assert_eq!(reason, "bearing can't be represented as a JavaScript number")
        }
        _ => panic!("an unsafe integer was encoded"),
    }
    match encode_i64("bearing", Some(i64::MIN)) {
        Err(Error::JsError(reason)) => {
            assert_eq!(reason, "bearing can't be represented as a JavaScript number")
        }
        _ => panic!("an unsafe integer was encoded"),
    }
    match encode_u64("clickTolerance", Some(u64::MAX)) {
        Err(Error::JsError(reason)) => {
            assert_eq!(reason, "clickTolerance can't be represented as a JavaScript number")
        }
        _ => panic!("an unsafe integer was encoded"),
    }
}

#[test]
fn one_attribution_is_a_string_and_several_are_an_array() {
    assert_eq!(to_json(&CustomAttribution::Single("me".to_string()).to_wire()), parse(r#""me""#));
    assert_eq!(
        to_json(&CustomAttribution::Multiple(vec!["me".to_string(), "you".to_string()]).to_wire()),
        parse(r#"["me","you"]"#)
    );
    assert_eq!(to_json(&CustomAttribution::Multiple(vec![]).to_wire()), parse("[]"));
}

#[test]
fn query_options_leave_out_empty_lists() {
    assert_eq!(to_json(&QueryFeatureOptions::default().to_wire()), parse("{}"));
    let options = QueryFeatureOptions {
        filters: vec![],
        layers: vec!["roads".to_string(), "rivers".to_string()],
        validate: Some(false),
    };
    assert_eq!(to_json(&options.to_wire()), parse(r#"{"layers":["roads","rivers"],"validate":false}"#));
    let options =
        QueryFeatureOptions { filters: vec!["f".to_string()], layers: vec![], validate: None };
    assert_eq!(to_json(&options.to_wire()), parse(r#"{"filters":["f"]}"#));
}

#[test]
fn a_camera_has_its_center_as_an_array() {
    assert_eq!(to_json(&CameraOptions::default().to_wire()), parse(r#"{"center":[0.0,0.0]}"#));
    let camera = CameraOptions {
        around: Some(LngLat::new(num(1.0), num(2.0))),
        bearing: Some(num(90.0)),
        center: LngLat::new(num(139.5), num(35.5)),
        padding: Some(PaddingOptions {
            bottom: None,
            left: Some(LngLat::new(num(3.0), num(4.0))),
            right: None,
            top: None,
        }),
        pitch: Some(num(30.0)),
        zoom: Some(num(12.0)),
    };
    assert_eq!(
        to_json(&camera.to_wire()),
        parse(
            r#"{"around":{"lng":1.0,"lat":2.0},"bearing":90.0,"center":[139.5,35.5],"padding":{"left":{"lng":3.0,"lat":4.0}},"pitch":30.0,"zoom":12.0}"#
        )
    );
    assert_eq!(
        keys(&camera.to_wire()),
        vec!["around", "bearing", "center", "padding", "pitch", "zoom"]
    );
}

#[test]
fn animation_options_use_camel_case() {
    assert_eq!(to_json(&AnimationOptions::default().to_wire()), parse("{}"));
    let animation = AnimationOptions {
        animate: Some(true),
        curve: Some(num(1.5)),
        duration: Some(num(2000.0)),
        essential: Some(false),
        max_duration: Some(num(5000.0)),
        min_zoom: Some(num(3.0)),
        preloading_only: Some(true),
        screen_speed: Some(num(0.5)),
    };
    assert_eq!(
        to_json(&animation.to_wire()),
        parse(
            r#"{"animate":true,"curve":1.5,"duration":2000.0,"essential":false,"maxDuration":5000.0,"minZoom":3.0,"preloadingOnly":true,"screenSpeed":0.5}"#
        )
    );
}

#[test]
fn camera_and_animation_are_joined_into_one_flat_object() {
    let mut camera = CameraOptions::default();
    camera.zoom = Some(num(9.0));
    let mut animation = AnimationOptions::default();
    animation.duration = Some(num(100.0));
    let joined = CameraAnimationOptions::new(camera, animation).to_wire();
    assert_eq!(keys(&joined), vec!["center", "zoom", "duration"]);
    assert_eq!(to_json(&joined), parse(r#"{"center":[0.0,0.0],"zoom":9.0,"duration":100.0}"#));
}
