use mapboxgl::image::ImageOptions;
use mapboxgl::layer::{
    Anchor, BackgroundLayer, CircleLayer, Expression, FillLayer, FillPaint, IntoLayer, Layer,
    LineCap, LineJoin, LineLayer, SymbolLayer, SymbolLayout, TextTransform, TranslateAnchor,
    Visibility,
};
use mapboxgl::lnglat::LngLat;
use mapboxgl::handler::BoxZoomHandlerOption;
use mapboxgl::marker::MarkerOptions;
use mapboxgl::options::{
    AnimationOptions, CameraAnimationOptions, CameraOptions, CustomAttribution, MapOptions,
    PaddingOptions, QueryFeatureOptions,
};
use mapboxgl::source::{GeoJsonSourceSpec, VectorSourceSpec};
use mapboxgl::popup::PopupOptions;
use mapboxgl::style::{Metadata, Source, Sources, Style, StyleOptions, StyleOrRef};
use mapboxgl::wire::{FromWire, Number, ToWire, Value};

fn num(x: f64) -> Number {
    Number::Real(x.to_bits())
}

fn from_json(value: &serde_json::Value) -> Value {
    match value {
        serde_json::Value::Null => Value::Null,
        serde_json::Value::Bool(b) => Value::Bool(*b),
        serde_json::Value::Number(n) => match n.as_i64() {
            Some(i) => Value::Number(Number::Int(i)),
            None => Value::Number(Number::Real(n.as_f64().unwrap().to_bits())),
        },
        serde_json::Value::String(s) => Value::String(s.clone()),
        serde_json::Value::Array(items) => Value::Array(items.iter().map(from_json).collect()),
        serde_json::Value::Object(entries) => {
            Value::Object(entries.iter().map(|(k, v)| (k.clone(), from_json(v))).collect())
        }
    }
}

fn to_json(value: &Value) -> serde_json::Value {
    match value {
        Value::Null => serde_json::Value::Null,
        Value::Bool(b) => serde_json::Value::Bool(*b),
        Value::Number(Number::Int(n)) => serde_json::Value::from(*n),
        Value::Number(Number::Real(bits)) => serde_json::Value::from(f64::from_bits(*bits)),
        Value::String(s) => serde_json::Value::String(s.clone()),
        Value::Array(items) => serde_json::Value::Array(items.iter().map(to_json).collect()),
        Value::Object(entries) => serde_json::Value::Object(
            entries.iter().map(|(k, v)| (k.clone(), to_json(v))).collect(),
        ),
    }
}

fn parse(text: &str) -> serde_json::Value {
    serde_json::from_str(text).unwrap()
}

fn json(text: &str) -> Value {
    from_json(&parse(text))
}

fn keys(value: &Value) -> Vec<String> {
    match value {
        Value::Object(entries) => entries.iter().map(|(k, _)| k.clone()).collect(),
        _ => panic!("not an object"),
    }
}

/// Reading the wire form of a value gives a value with the same wire form.
fn comes_back<T: FromWire>(value: &T) {
    let wire = value.to_wire();
    let read = T::from_wire(&wire).expect("the wire form of a value can be read");
    assert_eq!(to_json(&read.to_wire()), to_json(&wire));
}

const LINE: &str = r##"{"type":"line","id":"roads","source":"streets","source-layer":"road","minzoom":4.5,"filter":["==","class","motorway"],"layout":{"line-cap":"round","line-join":"none","visibility":"visible"},"paint":{"line-color":"#ff0000","line-width":2.5,"line-dasharray":[1.5,2.5]},"metadata":{"note":"passed over"}}"##;

const STYLE: &str = r##"{"version":8,"name":"Basic","sources":{"streets":{"type":"vector","url":"mapbox://mapbox.mapbox-streets-v8"},"osm":{"type":"raster","tiles":["https://tile.example/{z}/{x}/{y}.png"]}},"glyphs":"mapbox://fonts/{fontstack}/{range}.pbf","layers":[{"id":"background","type":"background","paint":{"background-color":"#eee"}},{"id":"water","type":"fill","source":"streets","source-layer":"water","paint":{"fill-color":"#00f","fill-opacity":0.5,"fill-translate-anchor":"viewport"}},{"id":"labels","type":"symbol","source":"streets","layout":{"text-field":["get","name"],"text-anchor":"top-left","text-transform":"uppercase","text-size":12.5}}],"center":[139.5,35.5],"zoom":10.5,"metadata":{"mapbox:autocomposite":true,"mapbox:sdk-support":{"js":"3.0.0"}},"draft":false}"##;

const OPTIONS: &str = r##"{"accessToken":"pk.token","container":"map","style":"mapbox://styles/mapbox/dark-v11","center":{"lng":139.5,"lat":35.5},"zoom":12.5,"bearing":-90,"clickTolerance":3,"antialias":true,"customAttribution":["one","two"],"projection":"globe","hash":true}"##;

#[test]
fn a_layer_is_read_from_a_fixed_document() {
    let layer = Layer::from_wire(&json(LINE)).unwrap();
    let line = match layer {
        Layer::Line(line) => line,
        other => panic!("read {:?}", other),
    };
    assert_eq!(line.id, "roads");
    assert_eq!(line.source, "streets");
    assert_eq!(line.source_layer.as_deref(), Some("road"));
    assert_eq!(line.minzoom, Some(num(4.5)));
    assert!(line.maxzoom.is_none() && line.slot.is_none());
    assert!(matches!(&line.filter, Some(Expression::List(items)) if items.len() == 3));
    assert!(matches!(line.layout.line_cap, Some(Expression::Enum(LineCap::Round))));
    assert!(matches!(line.layout.line_join, Some(Expression::Enum(LineJoin::Off))));
    assert_eq!(line.layout.visibility, Some(Visibility::Visible));
    assert!(line.layout.line_miter_limit.is_none());
    assert!(matches!(&line.paint.line_color, Some(Expression::String(s)) if s == "#ff0000"));
    assert!(matches!(line.paint.line_width, Some(Expression::Number(n)) if n == num(2.5)));
    assert!(line.paint.line_blur.is_none());
    let wire = Layer::Line(line).to_wire();
    assert_eq!(
        keys(&wire),
        vec!["type", "id", "minzoom", "source", "filter", "source-layer", "layout", "paint"]
    );
    assert_eq!(
        to_json(&wire),
        parse(
            r##"{"type":"line","id":"roads","minzoom":4.5,"source":"streets","filter":["==","class","motorway"],"source-layer":"road","layout":{"line-cap":"round","line-join":"none","visibility":"visible"},"paint":{"line-color":"#ff0000","line-dasharray":[1.5,2.5],"line-width":2.5}}"##
        )
    );
}

#[test]
fn a_layer_without_layout_and_paint_has_them_unset() {
    let layer = Layer::from_wire(&json(r#"{"type":"circle","id":"c","source":"s"}"#)).unwrap();
    assert_eq!(
        to_json(&layer.to_wire()),
        parse(r#"{"type":"circle","id":"c","source":"s","layout":{},"paint":{}}"#)
    );
    let layer = Layer::from_wire(&json(r#"{"type":"background","id":"bg"}"#)).unwrap();
    assert!(matches!(layer, Layer::Background(bg) if bg.id == "bg"));
}

#[test]
fn every_layer_type_is_read_under_its_wire_name() {
    let names = [
        "custom", "background", "fill", "line", "symbol", "raster", "raster-particle", "circle",
        "fill-extrusion", "heatmap", "hillshade", "sky", "model",
    ];
    for name in names {
        let document = Value::Object(vec![
            ("id".to_string(), Value::string("a")),
            ("source".to_string(), Value::string("s")),
            ("type".to_string(), Value::string(name)),
        ]);
        let layer = Layer::from_wire(&document).unwrap();
        assert_eq!(layer.tag(), name);
    }
}

#[test]
fn a_document_that_is_no_layer_is_not_read() {
    let documents = [
        "null",
        "[]",
        "\"fill\"",
        "{}",
        r#"{"id":"a","source":"s"}"#,
        r#"{"type":"polygon","id":"a","source":"s"}"#,
        r#"{"type":"Fill","id":"a","source":"s"}"#,
        r#"{"type":7,"id":"a","source":"s"}"#,
        r#"{"type":"fill","source":"s"}"#,
        r#"{"type":"fill","id":"a"}"#,
        r#"{"type":"fill","id":7,"source":"s"}"#,
        r#"{"type":"fill","id":"a","source":"s","minzoom":"4"}"#,
        r#"{"type":"fill","id":"a","source":"s","layout":[]}"#,
        r#"{"type":"fill","id":"a","source":"s","layout":null}"#,
        r#"{"type":"fill","id":"a","source":"s","paint":{"fill-color":{"r":1}}}"#,
        r#"{"type":"fill","id":"a","source":"s","layout":{"fill-sort-key":-1}}"#,
        r#"{"type":"fill","id":"a","source":"s","layout":{"fill-sort-key":4294967296}}"#,
        r#"{"type":"fill","id":"a","source":"s","layout":{"fill-sort-key":1.5}}"#,
        r#"{"type":"fill","id":"a","source":"s","layout":{"visibility":"hidden"}}"#,
    ];
    for text in documents {
        assert!(Layer::from_wire(&json(text)).is_none(), "{} was read as a layer", text);
    }
}

#[test]
fn null_reads_as_unset() {
    let text = r#"{"id":"a","source":"s","maxzoom":null,"filter":null,"slot":null,"paint":{"fill-color":null}}"#;
    let layer = FillLayer::from_wire(&json(text)).unwrap();
    assert!(layer.maxzoom.is_none() && layer.filter.is_none() && layer.slot.is_none());
    assert!(layer.paint.fill_color.is_none());
    assert_eq!(
        to_json(&layer.to_wire()),
        parse(r#"{"id":"a","source":"s","layout":{},"paint":{}}"#)
    );
}

#[test]
fn the_largest_sort_key_is_read() {
    let text = r#"{"id":"a","source":"s","layout":{"fill-sort-key":4294967295}}"#;
    let layer = FillLayer::from_wire(&json(text)).unwrap();
    assert_eq!(layer.layout.fill_sort_key, Some(u32::MAX));
    let text = r#"{"id":"a","source":"s","layout":{"fill-sort-key":0}}"#;
    assert_eq!(FillLayer::from_wire(&json(text)).unwrap().layout.fill_sort_key, Some(0));
}

#[test]
fn an_expression_is_a_constant_where_it_can_be() {
    let read = Expression::<LineCap>::from_wire(&json("\"round\"")).unwrap();
    assert!(matches!(read, Expression::Enum(LineCap::Round)));
    let read = Expression::<LineCap>::from_wire(&json("\"rounded\"")).unwrap();
    assert!(matches!(read, Expression::String(s) if s == "rounded"));
    let read = Expression::<()>::from_wire(&json("\"round\"")).unwrap();
    assert!(matches!(read, Expression::String(s) if s == "round"));
    let read = Expression::<()>::from_wire(&json("null")).unwrap();
    assert!(matches!(read, Expression::Enum(())));
    assert!(Expression::<LineCap>::from_wire(&json("null")).is_none());
    let read = Expression::<()>::from_wire(&json("1.5")).unwrap();
    assert!(matches!(read, Expression::Number(n) if n == num(1.5)));
    let read = Expression::<()>::from_wire(&json("7")).unwrap();
    assert!(matches!(read, Expression::Number(Number::Int(7))));
    let read = Expression::<()>::from_wire(&json("false")).unwrap();
    assert!(matches!(read, Expression::Bool(false)));
    assert!(Expression::<()>::from_wire(&json("{}")).is_none());
    assert!(Expression::<()>::from_wire(&json("[1,{}]")).is_none());
    assert!(Expression::<()>::from_wire(&json("[[1,[{}]]]")).is_none());
    let read = Expression::<Anchor>::from_wire(&json(r#"["top",["left","x"],1.5,[true,[]]]"#)).unwrap();
    assert_eq!(to_json(&read.to_wire()), parse(r#"["top",["left","x"],1.5,[true,[]]]"#));
    match read {
        Expression::List(items) => {
            assert!(matches!(items[0], Expression::Enum(Anchor::Top)));
            assert!(matches!(&items[1], Expression::List(inner)
                if matches!(inner[0], Expression::Enum(Anchor::Left))
                && matches!(&inner[1], Expression::String(s) if s == "x")));
        }
        other => panic!("read {:?}", other),
    }
}

#[test]
fn constants_are_read_by_their_wire_names() {
    assert_eq!(LineJoin::named("none"), Some(LineJoin::Off));
    assert_eq!(LineJoin::named("round"), Some(LineJoin::Round));
    assert_eq!(LineJoin::named("None"), None);
    assert_eq!(LineJoin::named(""), None);
    assert_eq!(TranslateAnchor::named("map"), Some(TranslateAnchor::MapPlane));
    assert_eq!(Anchor::named("bottom-right"), Some(Anchor::BottomRight));
    assert_eq!(Anchor::named("bottom_right"), None);
    assert_eq!(Visibility::from_wire(&json("\"none\"")), Some(Visibility::Off));
    assert_eq!(Visibility::from_wire(&json("\"hidden\"")), None);
    assert_eq!(Visibility::from_wire(&json("null")), None);
    assert_eq!(TextTransform::from_wire(&json("\"lowercase\"")), Some(TextTransform::Lowercase));
    for anchor in [
        Anchor::Center, Anchor::Left, Anchor::Right, Anchor::Top, Anchor::Bottom, Anchor::TopLeft,
        Anchor::TopRight, Anchor::BottomLeft, Anchor::BottomRight,
    ] {
        assert_eq!(Anchor::named(anchor.name()), Some(anchor));
        assert_eq!(Anchor::from_wire(&anchor.to_wire()), Some(anchor));
    }
}

#[test]
fn a_style_is_read_from_a_fixed_document() {
    let style = Style::from_wire(&json(STYLE)).unwrap();
    assert_eq!(style.version, 8);
    assert_eq!(style.name.as_deref(), Some("Basic"));
    assert_eq!(style.sources.len(), 2);
    assert_eq!(style.sources.get("streets").unwrap().type_, "vector");
    assert_eq!(
        style.sources.get("osm").unwrap().tiles,
        Some(vec!["https://tile.example/{z}/{x}/{y}.png".to_string()])
    );
    assert_eq!(style.layers.len(), 3);
    assert!(matches!(&style.layers[0], Layer::Background(bg) if bg.id == "background"));
    assert!(matches!(&style.layers[1], Layer::Fill(fill)
        if matches!(fill.paint.fill_translate_anchor, Some(Expression::Enum(TranslateAnchor::Viewport)))));
    assert!(matches!(&style.layers[2], Layer::Symbol(symbol)
        if matches!(symbol.layout.text_anchor, Some(Expression::Enum(Anchor::TopLeft)))
        && matches!(symbol.layout.text_transform, Some(Expression::Enum(TextTransform::Uppercase)))));
    assert_eq!(style.center, Some(vec![num(139.5), num(35.5)]));
    assert_eq!(style.zoom, Some(num(10.5)));
    assert_eq!(style.draft, Some(false));
    assert!(style.sprite.is_none() && style.bearing.is_none() && style.owner.is_none());
    let metadata = style.metadata.as_ref().unwrap();
    assert_eq!(metadata.mapbox_autocomposite, Some(true));
    assert_eq!(metadata.mapbox_sdk_support.as_ref().unwrap().js.as_deref(), Some("3.0.0"));
    assert_eq!(to_json(&style.to_wire()).get("layers").unwrap().as_array().unwrap().len(), 3);
    comes_back(&style);
    comes_back(&StyleOrRef::Style(style));
}

#[test]
fn a_style_is_a_document_or_a_reference() {
    let read = StyleOrRef::from_wire(&json("\"mapbox://styles/mapbox/streets-v11\"")).unwrap();
    assert!(matches!(read, StyleOrRef::Ref(url) if url == "mapbox://styles/mapbox/streets-v11"));
    let read = StyleOrRef::from_wire(&json(r#"{"version":8,"sources":{},"layers":[]}"#)).unwrap();
    assert!(matches!(read, StyleOrRef::Style(style) if style.version == 8));
    assert!(StyleOrRef::from_wire(&json("8")).is_none());
    assert!(StyleOrRef::from_wire(&json(r#"{"version":8}"#)).is_none());
    assert!(Style::from_wire(&json(r#"{"version":8,"sources":{},"layers":[{"type":"fill"}]}"#)).is_none());
    assert!(Style::from_wire(&json(r#"{"version":-1,"sources":{},"layers":[]}"#)).is_none());
}

#[test]
fn sources_with_one_name_twice_are_not_read() {
    let twice = Value::Object(vec![
        ("a".to_string(), json(r#"{"type":"vector"}"#)),
        ("b".to_string(), json(r#"{"type":"vector"}"#)),
        ("a".to_string(), json(r#"{"type":"raster"}"#)),
    ]);
    assert!(Sources::from_wire(&twice).is_none());
    let once = Value::Object(vec![
        ("b".to_string(), json(r#"{"type":"vector","extra":1}"#)),
        ("a".to_string(), json(r#"{"type":"raster","url":null}"#)),
    ]);
    let sources = Sources::from_wire(&once).unwrap();
    assert_eq!(keys(&sources.to_wire()), vec!["b", "a"]);
    assert_eq!(
        to_json(&sources.to_wire()),
        parse(r#"{"b":{"type":"vector"},"a":{"type":"raster"}}"#)
    );
    assert!(Sources::from_wire(&json(r#"{"a":{"url":"x"}}"#)).is_none());
    assert!(Sources::from_wire(&json("[]")).is_none());
    assert_eq!(Sources::from_wire(&json("{}")).unwrap().len(), 0);
}

#[test]
fn map_options_are_read_from_a_fixed_document() {
    let options = MapOptions::from_wire(&json(OPTIONS)).unwrap();
    let wire = options.build().unwrap();
    assert_eq!(
        keys(&wire),
        vec![
            "accessToken", "antialias", "bearing", "center", "clickTolerance", "container",
            "customAttribution", "style", "projection", "zoom"
        ]
    );
    assert_eq!(
        to_json(&wire),
        parse(
            r##"{"accessToken":"pk.token","antialias":true,"bearing":-90,"center":{"lng":139.5,"lat":35.5},"clickTolerance":3,"container":"map","customAttribution":["one","two"],"style":"mapbox://styles/mapbox/dark-v11","projection":"globe","zoom":12.5}"##
        )
    );
    let again = MapOptions::from_wire(&wire).unwrap();
    assert_eq!(to_json(&again.build().unwrap()), to_json(&wire));
}

#[test]
fn built_options_come_back() {
    let options = MapOptions::new("t".to_string(), "c".to_string())
        .center(LngLat::new(num(10.0), num(20.0)))
        .zoom(num(5.0))
        .style(Style::from_wire(&json(STYLE)).unwrap());
    let wire = options.build().unwrap();
    let read = MapOptions::from_wire(&wire).unwrap();
    assert_eq!(to_json(&read.build().unwrap()), to_json(&wire));
}

#[test]
fn map_options_that_lack_what_is_required_or_hold_the_wrong_shape_are_not_read() {
    let documents = [
        "null",
        "[]",
        r#"{"container":"map","style":"s"}"#,
        r#"{"accessToken":"t","style":"s"}"#,
        r#"{"accessToken":"t","container":"map"}"#,
        r#"{"accessToken":"t","container":"map","style":7}"#,
        r#"{"accessToken":"t","container":"map","style":"s","zoom":"12"}"#,
        r#"{"accessToken":"t","container":"map","style":"s","bearing":1.5}"#,
        r#"{"accessToken":"t","container":"map","style":"s","bearing":9007199254740992}"#,
        r#"{"accessToken":"t","container":"map","style":"s","clickTolerance":-1}"#,
        r#"{"accessToken":"t","container":"map","style":"s","center":[1,2]}"#,
        r#"{"accessToken":"t","container":"map","style":"s","customAttribution":[1]}"#,
        r#"{"accessToken":"t","container":"map","style":"s","antialias":"yes"}"#,
    ];
    for text in documents {
        assert!(MapOptions::from_wire(&json(text)).is_none(), "{} was read as options", text);
    }
    let least = r#"{"accessToken":"t","container":"map","style":"s","bearing":-9007199254740991,"clickTolerance":0,"zoom":null}"#;
    let options = MapOptions::from_wire(&json(least)).unwrap();
    assert_eq!(
        to_json(&options.build().unwrap()),
        parse(r#"{"accessToken":"t","bearing":-9007199254740991,"clickTolerance":0,"container":"map","style":"s"}"#)
    );
}

#[test]
fn values_come_back_from_their_wire_forms() {
    let mut line = LineLayer::new("roads", "streets");
    line.minzoom = Some(num(4.0));
    line.filter = Some(Expression::strings(vec!["has", "name"]));
    line.layout.line_cap = Some(Expression::Enum(LineCap::Square));
    line.layout.line_join = Some(Expression::String("round".to_string()));
    line.paint.line_width = Some(Expression::Number(num(2.0)));
    comes_back(&line);
    comes_back(&line.clone().into_layer());
    let mut symbol = SymbolLayer::new("labels", "streets");
    symbol.layout = {
        let mut layout = SymbolLayout::default();
        layout.icon_image = Some(Expression::string("marker"));
        layout.text_anchor = Some(Expression::Enum(Anchor::Bottom));
        layout.text_offset = Some(Expression::List(vec![
            Expression::Number(num(0.0)),
            Expression::Number(num(1.5)),
        ]));
        layout.visibility = Some(Visibility::Off);
        layout
    };
    comes_back(&symbol.into_layer());
    comes_back(&BackgroundLayer::new("bg").into_layer());
    comes_back(&CircleLayer::new("c", "s"));
    comes_back(&FillPaint::default());
    let mut sources = Sources::new();
    sources.insert("a".to_string(), Source { type_: "vector".to_string(), tiles: None, url: None });
    comes_back(&sources);
    comes_back(&Style::default());
    comes_back(&StyleOrRef::default());
    comes_back(&StyleOptions { diff: Some(true), local_ideograph_font_family: None });
    comes_back(&Metadata {
        mapbox_origin: Some("x".to_string()),
        mapbox_autocomposite: None,
        mapbox_type: None,
        mapbox_sdk_support: None,
    });
    comes_back(&LngLat::new(num(1.0), num(2.0)));
    comes_back(&CustomAttribution::Single("me".to_string()));
    comes_back(&CustomAttribution::Multiple(vec!["me".to_string()]));
    comes_back(&PopupOptions { class_name: Some("note".to_string()) });
    comes_back(&PaddingOptions {
        bottom: Some(LngLat::new(num(1.0), num(2.0))),
        left: None,
        right: None,
        top: None,
    });
    comes_back(&AnimationOptions::default());
    comes_back(&QueryFeatureOptions {
        filters: vec![],
        layers: vec!["a".to_string()],
        validate: Some(true),
    });
    comes_back(&ImageOptions {
        content: Some((num(1.0), num(2.0), num(3.0), num(4.0))),
        pixcel_ratio: None,
        sdf: Some(false),
        stretch_x: vec![(num(0.0), num(1.0))],
        stretch_y: vec![],
    });
    comes_back(&vec![num(1.0), num(2.0)]);
    comes_back(&"text".to_string());
    comes_back(&7u32);
    comes_back(&true);
}

#[test]
fn a_constant_with_null_for_its_wire_form_reads_as_unset() {
    let mut layer = FillLayer::new("a", "s");
    layer.filter = Some(Expression::Enum(()));
    let wire = layer.to_wire();
    assert!(matches!(wire.get("filter"), Some(Value::Null)));
    let read = FillLayer::from_wire(&wire).unwrap();
    assert!(read.filter.is_none());
}

#[test]
fn pairs_are_read_from_arrays_of_their_length() {
    assert_eq!(<(Number, Number)>::from_wire(&json("[1.5,2.5]")), Some((num(1.5), num(2.5))));
    assert_eq!(<(Number, Number)>::from_wire(&json("[1.5]")), None);
    assert_eq!(<(Number, Number)>::from_wire(&json("[1.5,2.5,3.5]")), None);
    assert_eq!(<(Number, Number)>::from_wire(&json("[1.5,\"2.5\"]")), None);
    assert_eq!(
        <(Number, Number, Number, Number)>::from_wire(&json("[1.5,2.5,3.5,4.5]")),
        Some((num(1.5), num(2.5), num(3.5), num(4.5)))
    );
    assert_eq!(<(Number, Number, Number, Number)>::from_wire(&json("[1.5,2.5,3.5]")), None);
    assert_eq!(LngLat::from_wire(&json(r#"{"lat":2.5,"lng":1.5}"#)), Some(LngLat::new(num(1.5), num(2.5))));
    assert_eq!(LngLat::from_wire(&json(r#"{"lng":1.5}"#)), None);
    assert_eq!(Vec::<String>::from_wire(&json(r#"["a","b"]"#)), Some(vec!["a".to_string(), "b".to_string()]));
    assert_eq!(Vec::<String>::from_wire(&json(r#"["a",1]"#)), None);
    assert_eq!(u32::from_wire(&json("4294967296")), None);
    assert_eq!(u32::from_wire(&json("4294967295")), Some(u32::MAX));
}

#[test]
fn a_camera_is_read_with_its_center_as_an_array() {
    let text = r#"{"center":[139.5,35.5],"zoom":12.5,"around":{"lng":1.5,"lat":2.5},"padding":{"top":{"lng":3.5,"lat":4.5}},"animate":true}"#;
    let camera = CameraOptions::from_wire(&json(text)).unwrap();
    assert_eq!(camera.center, LngLat::new(num(139.5), num(35.5)));
    assert_eq!(camera.zoom, Some(num(12.5)));
    assert_eq!(camera.around, Some(LngLat::new(num(1.5), num(2.5))));
    assert!(camera.bearing.is_none() && camera.pitch.is_none());
    assert_eq!(camera.padding.as_ref().unwrap().top, Some(LngLat::new(num(3.5), num(4.5))));
    comes_back(&camera);
    for text in [
        "{}",
        r#"{"center":{"lng":1.5,"lat":2.5}}"#,
        r#"{"center":[1.5]}"#,
        r#"{"center":[1.5,2.5],"zoom":"12"}"#,
        r#"{"center":null}"#,
    ] {
        assert!(CameraOptions::from_wire(&json(text)).is_none(), "{} was read as a camera", text);
    }
}

#[test]
fn camera_and_animation_are_read_from_one_flat_object() {
    let text = r#"{"center":[1.5,2.5],"pitch":30.5,"duration":2000.5,"essential":true,"maxDuration":null}"#;
    let joined = CameraAnimationOptions::from_wire(&json(text)).unwrap();
    assert_eq!(
        to_json(&joined.to_wire()),
        parse(r#"{"center":[1.5,2.5],"pitch":30.5,"duration":2000.5,"essential":true}"#)
    );
    comes_back(&joined);
    assert!(CameraAnimationOptions::from_wire(&json(r#"{"duration":1.5}"#)).is_none());
    assert!(CameraAnimationOptions::from_wire(&json(r#"{"center":[1.5,2.5],"duration":"1"}"#)).is_none());
}

#[test]
fn marker_options_are_read_from_a_fixed_document() {
    let text = r##"{"color":"#3fb1ce","draggable":true,"rotation":45,"scale":0,"element":{},"anchor":null}"##;
    let options = MarkerOptions::from_wire(&json(text)).unwrap();
    assert_eq!(options.color.as_deref(), Some("#3fb1ce"));
    assert_eq!(options.draggable, Some(true));
    assert_eq!(options.rotation, Some(45));
    assert_eq!(options.scale, Some(0));
    assert!(options.anchor.is_none() && options.click_tolerance.is_none());
    let wire = options.build().unwrap();
    assert_eq!(
        to_json(&wire),
        parse(r##"{"color":"#3fb1ce","draggable":true,"rotation":45,"scale":0}"##)
    );
    let again = MarkerOptions::from_wire(&wire).unwrap();
    assert_eq!(to_json(&again.build().unwrap()), to_json(&wire));
    for text in [
        "[]",
        r#"{"rotation":-1}"#,
        r#"{"rotation":1.5}"#,
        r#"{"scale":9007199254740992}"#,
        r#"{"draggable":"yes"}"#,
        r#"{"color":7}"#,
    ] {
        assert!(MarkerOptions::from_wire(&json(text)).is_none(), "{} was read as options", text);
    }
    let largest = MarkerOptions::from_wire(&json(r#"{"clickTolerance":9007199254740991}"#)).unwrap();
    assert_eq!(largest.click_tolerance, Some(9007199254740991));
}

#[test]
fn source_specs_and_handler_options_come_back() {
    comes_back(&VectorSourceSpec::new("mapbox://mapbox.mapbox-terrain-v2"));
    comes_back(&GeoJsonSourceSpec::new("https://example.com/data.geojson".to_string()));
    comes_back(&GeoJsonSourceSpec::new(json(r#"{"type":"FeatureCollection","features":[]}"#)));
    comes_back(&BoxZoomHandlerOption::default());
    let read = VectorSourceSpec::from_wire(&json(r#"{"url":"u","type":"vector","extra":1}"#)).unwrap();
    assert_eq!((read.type_.as_str(), read.url.as_str()), ("vector", "u"));
    assert!(VectorSourceSpec::from_wire(&json(r#"{"type":"vector"}"#)).is_none());
    let read = GeoJsonSourceSpec::<String>::from_wire(&json(r#"{"type":"geojson","data":"u"}"#)).unwrap();
    assert_eq!(read.data, "u");
    assert!(GeoJsonSourceSpec::<String>::from_wire(&json(r#"{"type":"geojson","data":{}}"#)).is_none());
    let read = BoxZoomHandlerOption::from_wire(&json(r#"{"clickTolerance":3}"#)).unwrap();
    assert_eq!(read.click_tolerance(), 3);
    assert!(BoxZoomHandlerOption::from_wire(&json(r#"{"clickTolerance":-3}"#)).is_none());
    assert!(BoxZoomHandlerOption::from_wire(&json("{}")).is_none());
}
