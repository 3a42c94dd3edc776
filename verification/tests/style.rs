use mapboxgl::layer::{CircleLayer, Expression, IntoLayer};
use mapboxgl::style::{
    MapboxSdkSupport, Metadata, Source, Sources, Style, StyleOptions, StyleOrRef,
};
use mapboxgl::wire::{Number, ToWire, Value};

fn num(x: f64) -> Number {
    Number::Real(x.to_bits())
}

fn to_json(value: &Value) -> serde_json::Value {
    match value {
        Value::Null => serde_json::Value::Null,
        Value::Bool(b) => serde_json::Value::Bool(*b),
        Value::Number(Number::Int(n)) => serde_json::Value::from(*n),
        Value::Number(Number::Real(bits)) => serde_json::Value::from(f64::from_bits(*bits)),
        Value::String(s) => serde_json::Value::String(s.clone()),
        Value::Array(items) => serde_json::Value::Array(items.iter().map(to_json).collect()),
        Value::Object(entries) => serde_json::Value::Object(
            entries.iter().map(|(k, v)| (k.clone(), to_json(v))).collect(),
        ),
    }
}

fn parse(text: &str) -> serde_json::Value {
    serde_json::from_str(text).unwrap()
}

fn keys(value: &Value) -> Vec<String> {
    match value {
        Value::Object(entries) => entries.iter().map(|(k, _)| k.clone()).collect(),
        _ => panic!("not an object"),
    }
}

fn source(kind: &str, url: &str) -> Source {
    Source { type_: kind.to_string(), tiles: None, url: Some(url.to_string()) }
}

#[test]
fn the_default_style_is_the_reference_to_the_street_style() {
    match StyleOrRef::default() {
        StyleOrRef::Ref(url) => assert_eq!(url, "mapbox://styles/mapbox/streets-v11"),
        StyleOrRef::Style(_) => panic!("the default is a reference"),
    }
    assert_eq!(
        to_json(&StyleOrRef::default().to_wire()),
        parse(r#""mapbox://styles/mapbox/streets-v11""#)
    );
}

#[test]
fn a_default_style_document_is_empty() {
    let style = Style::default();
    assert_eq!(style.version, 0);
    assert_eq!(style.sources.len(), 0);
    assert!(style.layers.is_empty());
    assert_eq!(to_json(&style.to_wire()), parse(r#"{"version":0,"sources":{},"layers":[]}"#));
    assert_eq!(
        to_json(&StyleOrRef::Style(style).to_wire()),
        parse(r#"{"version":0,"sources":{},"layers":[]}"#)
    );
}

#[test]
fn a_style_document_keeps_what_is_set() {
    let mut style = Style::default();
    style.version = 8;
    style.sources.insert("streets".to_string(), source("vector", "mapbox://mapbox.mapbox-streets-v8"));
    style.sources.insert(
        "osm".to_string(),
        Source {
            type_: "raster".to_string(),
            tiles: Some(vec!["https://tile.example/{z}/{x}/{y}.png".to_string()]),
            url: None,
        },
    );
    let mut circle = CircleLayer::new("points", "streets");
    circle.paint.circle_radius = Some(Expression::Number(num(4.0)));
    style.layers.push(circle.into_layer());
    style.name = Some("test".to_string());
    style.glyphs = Some("mapbox://fonts/{fontstack}/{range}.pbf".to_string());
    style.center = Some(vec![num(139.5), num(35.5)]);
    style.zoom = Some(num(10.0));
    style.draft = Some(false);
    style.metadata = Some(Metadata {
        mapbox_origin: Some("basic".to_string()),
        mapbox_autocomposite: Some(true),
        mapbox_type: None,
        mapbox_sdk_support: Some(MapboxSdkSupport {
            js: Some("3.0.0".to_string()),
            android: None,
            ios: None,
        }),
    });
    let wire = style.to_wire();
    assert_eq!(
        keys(&wire),
        vec!["version", "sources", "layers", "name", "glyphs", "metadata", "center", "zoom", "draft"]
    );
    assert_eq!(
        to_json(&wire),
        parse(
            r#"{"version":8,"sources":{"streets":{"type":"vector","url":"mapbox://mapbox.mapbox-streets-v8"},"osm":{"type":"raster","tiles":["https://tile.example/{z}/{x}/{y}.png"]}},"layers":[{"type":"circle","id":"points","source":"streets","layout":{},"paint":{"circle-radius":4.0}}],"name":"test","glyphs":"mapbox://fonts/{fontstack}/{range}.pbf","metadata":{"mapbox:origin":"basic","mapbox:autocomposite":true,"mapbox:sdk-support":{"js":"3.0.0"}},"center":[139.5,35.5],"zoom":10.0,"draft":false}"#
        )
    );
}

#[test]
fn sources_keep_the_order_of_first_insertion_and_no_name_twice() {
    let mut sources = Sources::new();
    assert_eq!(sources.len(), 0);
    assert!(sources.get("a").is_none());
    assert!(sources.insert("a".to_string(), source("vector", "1")).is_none());
    assert!(sources.insert("b".to_string(), source("vector", "2")).is_none());
    assert!(sources.insert("c".to_string(), source("vector", "3")).is_none());
    assert_eq!(sources.len(), 3);
    let previous = sources.insert("b".to_string(), source("geojson", "4")).unwrap();
    assert_eq!(previous.type_, "vector");
    assert_eq!(previous.url.as_deref(), Some("2"));
    assert_eq!(sources.len(), 3);
    assert_eq!(sources.get("b").unwrap().type_, "geojson");
    assert_eq!(sources.get("a").unwrap().url.as_deref(), Some("1"));
    assert_eq!(sources.get("c").unwrap().url.as_deref(), Some("3"));
    assert!(sources.get("d").is_none());
    assert_eq!(keys(&sources.to_wire()), vec!["a", "b", "c"]);
    let previous = sources.insert("a".to_string(), source("raster", "5")).unwrap();
    assert_eq!(previous.url.as_deref(), Some("1"));
    let previous = sources.insert("c".to_string(), source("raster", "6")).unwrap();
    assert_eq!(previous.url.as_deref(), Some("3"));
    assert_eq!(keys(&sources.to_wire()), vec!["a", "b", "c"]);
    assert_eq!(
        to_json(&sources.to_wire()),
        parse(
            r#"{"a":{"type":"raster","url":"5"},"b":{"type":"geojson","url":"4"},"c":{"type":"raster","url":"6"}}"#
        )
    );
}

#[test]
fn a_default_source_has_an_empty_type() {
    let source = Source::default();
    assert_eq!(source.type_, "");
    assert!(source.tiles.is_none() && source.url.is_none());
    assert_eq!(to_json(&source.to_wire()), parse(r#"{"type":""}"#));
}

#[test]
fn style_options_use_camel_case() {
    assert_eq!(to_json(&StyleOptions::new().to_wire()), parse("{}"));
    assert_eq!(to_json(&StyleOptions::default().to_wire()), parse("{}"));
    let options = StyleOptions {
        diff: Some(false),
        local_ideograph_font_family: Some("sans-serif".to_string()),
    };
    assert_eq!(
        to_json(&options.to_wire()),
        parse(r#"{"diff":false,"localIdeographFontFamily":"sans-serif"}"#)
    );
}

#[test]
fn metadata_uses_the_names_of_the_style_specification() {
    let metadata = Metadata {
        mapbox_origin: None,
        mapbox_autocomposite: None,
        mapbox_type: Some("template".to_string()),
        mapbox_sdk_support: Some(MapboxSdkSupport { js: None, android: None, ios: None }),
    };
    assert_eq!(
        to_json(&metadata.to_wire()),
        parse(r#"{"mapbox:type":"template","mapbox:sdk-support":{}}"#)
    );
    let support = MapboxSdkSupport {
        js: Some("1".to_string()),
        android: Some("2".to_string()),
        ios: Some("3".to_string()),
    };
    assert_eq!(to_json(&support.to_wire()), parse(r#"{"js":"1","android":"2","ios":"3"}"#));
}
