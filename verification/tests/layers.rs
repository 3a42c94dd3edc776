use mapboxgl::layer::{
    Alignment, Anchor, BackgroundLayer, CircleAlignment, CircleLayer, CircleScale, CustomLayer,
    Expression, FillExtrusionLayer, FillLayer, FillPaint, GetLayer, HeatmapLayer, HillshadeLayer,
    IconTextFit, IntoLayer, Layer, LineCap, LineJoin, LineLayer, ModelLayer, ModelType,
    RasterLayer, RasterParticleLayer, SkyLayer, SkyType, SymbolLayer, SymbolLayout,
    SymbolPlacement, SymbolZOrder, TextJustify, TextTransform, TranslateAnchor, Visibility,
};
use mapboxgl::wire::{Number, ToWire, Value};

fn num(x: f64) -> Number {
    Number::Real(x.to_bits())
}

fn to_json(value: &Value) -> serde_json::Value {
    match value {
        Value::Null => serde_json::Value::Null,
        Value::Bool(b) => serde_json::Value::Bool(*b),
        Value::Number(Number::Int(n)) => serde_json::Value::from(*n),
        Value::Number(Number::Real(bits)) => serde_json::Value::from(f64::from_bits(*bits)),
        Value::String(s) => serde_json::Value::String(s.clone()),
        Value::Array(items) => serde_json::Value::Array(items.iter().map(to_json).collect()),
        Value::Object(entries) => serde_json::Value::Object(
            entries.iter().map(|(k, v)| (k.clone(), to_json(v))).collect(),
        ),
    }
}

fn parse(text: &str) -> serde_json::Value {
    serde_json::from_str(text).unwrap()
}

fn keys(value: &Value) -> Vec<String> {
    match value {
        Value::Object(entries) => entries.iter().map(|(k, _)| k.clone()).collect(),
        _ => panic!("not an object"),
    }
}

#[test]
fn a_new_layer_has_its_id_and_source_and_nothing_else() {
    let layer = FillLayer::new("water", "composite");
    assert_eq!(layer.id, "water");
    assert_eq!(layer.source, "composite");
    assert!(layer.maxzoom.is_none() && layer.minzoom.is_none() && layer.filter.is_none());
    assert!(layer.source_layer.is_none() && layer.slot.is_none());
    assert_eq!(
        to_json(&layer.to_wire()),
        parse(r#"{"id":"water","source":"composite","layout":{},"paint":{}}"#)
    );
    let layer = BackgroundLayer::new("bg");
    assert_eq!(to_json(&layer.to_wire()), parse(r#"{"id":"bg","layout":{},"paint":{}}"#));
    let layer = CustomLayer::new("gl", "none");
    assert_eq!(to_json(&layer.to_wire()), parse(r#"{"id":"gl","source":"none"}"#));
}

#[test]
fn every_layer_type_has_its_wire_name() {
    let layers = vec![
        (CustomLayer::new("a", "s").into_layer(), "custom"),
        (BackgroundLayer::new("a").into_layer(), "background"),
        (FillLayer::new("a", "s").into_layer(), "fill"),
        (LineLayer::new("a", "s").into_layer(), "line"),
        (SymbolLayer::new("a", "s").into_layer(), "symbol"),
        (RasterLayer::new("a", "s").into_layer(), "raster"),
        (RasterParticleLayer::new("a", "s").into_layer(), "raster-particle"),
        (CircleLayer::new("a", "s").into_layer(), "circle"),
        (FillExtrusionLayer::new("a", "s").into_layer(), "fill-extrusion"),
        (HeatmapLayer::new("a", "s").into_layer(), "heatmap"),
        (HillshadeLayer::new("a", "s").into_layer(), "hillshade"),
        (SkyLayer::new("a", "s").into_layer(), "sky"),
        (ModelLayer::new("a", "s").into_layer(), "model"),
    ];
    for (layer, name) in layers {
        assert_eq!(layer.tag(), name);
        let wire = layer.to_wire();
        assert_eq!(keys(&wire)[0], "type");
        assert!(matches!(wire.get("type"), Some(Value::String(s)) if s == name));
        assert!(matches!(wire.get("id"), Some(Value::String(s)) if s == "a"));
    }
}

#[test]
fn into_layer_wraps_the_layer_in_its_variant() {
    assert!(matches!(FillLayer::new("a", "s").into_layer(), Layer::Fill(l) if l.id == "a"));
    assert!(matches!(LineLayer::new("b", "s").into_layer(), Layer::Line(l) if l.id == "b"));
    assert!(matches!(BackgroundLayer::new("c").into_layer(), Layer::Background(l) if l.id == "c"));
    assert!(matches!(CustomLayer::new("d", "s").into_layer(), Layer::Custom(l) if l.source == "s"));
}

#[test]
fn a_layer_keeps_what_is_set_under_its_wire_name() {
    let mut layer = LineLayer::new("roads", "streets");
    layer.minzoom = Some(num(4.0));
    layer.maxzoom = Some(num(18.0));
    layer.source_layer = Some("road".to_string());
    layer.slot = Some("middle".to_string());
    layer.filter = Some(Expression::List(vec![
        Expression::String("==".to_string()),
        Expression::String("class".to_string()),
        Expression::String("motorway".to_string()),
    ]));
    layer.layout.line_cap = Some(Expression::Enum(LineCap::Round));
    layer.layout.line_join = Some(Expression::Enum(LineJoin::Off));
    layer.layout.visibility = Some(Visibility::Off);
    layer.paint.line_color = Some(Expression::String("#ff0000".to_string()));
    layer.paint.line_width = Some(Expression::Number(num(2.5)));
    layer.paint.line_dasharray =
        Some(Expression::List(vec![Expression::Number(num(1.0)), Expression::Number(num(2.0))]));
    let wire = layer.into_layer().to_wire();
    assert_eq!(
        keys(&wire),
        vec!["type", "id", "maxzoom", "minzoom", "source", "filter", "source-layer", "slot", "layout", "paint"]
    );
    assert_eq!(
        to_json(&wire),
        parse(
            r##"{"type":"line","id":"roads","maxzoom":18.0,"minzoom":4.0,"source":"streets","filter":["==","class","motorway"],"source-layer":"road","slot":"middle","layout":{"line-cap":"round","line-join":"none","visibility":"none"},"paint":{"line-color":"#ff0000","line-dasharray":[1.0,2.0],"line-width":2.5}}"##
        )
    );
}

#[test]
fn paint_and_layout_use_kebab_case() {
    let mut paint = FillPaint::default();
    paint.fill_antialias = Some(Expression::Bool(true));
    paint.fill_outline_color = Some(Expression::String("#000".to_string()));
    paint.fill_translate_anchor = Some(Expression::Enum(TranslateAnchor::MapPlane));
    assert_eq!(
        to_json(&paint.to_wire()),
        parse(r##"{"fill-antialias":true,"fill-outline-color":"#000","fill-translate-anchor":"map"}"##)
    );
    let mut layout = SymbolLayout::default();
    layout.icon_allow_overlap = Some(Expression::Bool(false));
    layout.icon_anchor = Some(Expression::Enum(Anchor::BottomRight));
    layout.icon_text_fit = Some(Expression::Enum(IconTextFit::Both));
    layout.symbol_z_order = Some(Expression::Enum(SymbolZOrder::ViewportY));
    layout.text_field = Some(Expression::List(vec![
        Expression::String("get".to_string()),
        Expression::String("name".to_string()),
    ]));
    layout.text_justify = Some(Expression::Enum(TextJustify::Auto));
    layout.text_transform = Some(Expression::Enum(TextTransform::Uppercase));
    layout.text_pitch_alignment = Some(Expression::Enum(Alignment::Viewport));
    layout.visibility = Some(Visibility::Visible);
    assert_eq!(
        to_json(&layout.to_wire()),
        parse(
            r#"{"icon-allow-overlap":false,"icon-anchor":"bottom-right","icon-text-fit":"both","symbol-z-order":"viewport-y","text-field":["get","name"],"text-justify":"auto","text-pitch-alignment":"viewport","text-transform":"uppercase","visibility":"visible"}"#
        )
    );
}

#[test]
fn fill_layout_holds_its_sort_key_as_an_integer() {
    let mut layer = FillLayer::new("a", "s");
    layer.layout.fill_sort_key = Some(7);
    assert_eq!(
        to_json(&layer.to_wire()),
        parse(r#"{"id":"a","source":"s","layout":{"fill-sort-key":7},"paint":{}}"#)
    );
}

#[test]
fn the_constants_of_every_vocabulary_have_their_wire_names() {
    assert_eq!(Visibility::Visible.name(), "visible");
    assert_eq!(Visibility::Off.name(), "none");
    assert_eq!(TranslateAnchor::MapPlane.name(), "map");
    assert_eq!(TranslateAnchor::Viewport.name(), "viewport");
    assert_eq!(LineCap::Butt.name(), "butt");
    assert_eq!(LineCap::Round.name(), "round");
    assert_eq!(LineCap::Square.name(), "square");
    assert_eq!(LineJoin::Miter.name(), "miter");
    assert_eq!(LineJoin::Bevel.name(), "bevel");
    assert_eq!(LineJoin::Round.name(), "round");
    assert_eq!(LineJoin::Off.name(), "none");
    assert_eq!(Anchor::Center.name(), "center");
    assert_eq!(Anchor::TopLeft.name(), "top-left");
    assert_eq!(Anchor::TopRight.name(), "top-right");
    assert_eq!(Anchor::BottomLeft.name(), "bottom-left");
    assert_eq!(Anchor::BottomRight.name(), "bottom-right");
    assert_eq!(Alignment::Auto.name(), "auto");
    assert_eq!(Alignment::MapPlane.name(), "map");
    assert_eq!(IconTextFit::Off.name(), "none");
    assert_eq!(IconTextFit::Width.name(), "width");
    assert_eq!(SymbolPlacement::LineCenter.name(), "line-center");
    assert_eq!(SymbolZOrder::ViewportY.name(), "viewport-y");
    assert_eq!(TextJustify::Left.name(), "left");
    assert_eq!(TextTransform::Off.name(), "none");
    assert_eq!(TextTransform::Lowercase.name(), "lowercase");
    assert_eq!(CircleAlignment::MapPlane.name(), "map");
    assert_eq!(CircleScale::Viewport.name(), "viewport");
    assert_eq!(SkyType::Atmosphere.name(), "atmosphere");
    assert_eq!(ModelType::Common3d.name(), "common3d");
    assert_eq!(ModelType::LocationIndicator.name(), "location-indicator");
}

#[test]
fn every_vocabulary_has_its_default() {
    assert_eq!(Visibility::default(), Visibility::Visible);
    assert_eq!(TranslateAnchor::default(), TranslateAnchor::MapPlane);
    assert_eq!(LineCap::default(), LineCap::Butt);
    assert_eq!(LineJoin::default(), LineJoin::Miter);
    assert_eq!(Anchor::default(), Anchor::Center);
    assert_eq!(Alignment::default(), Alignment::Auto);
    assert_eq!(IconTextFit::default(), IconTextFit::Off);
    assert_eq!(SymbolPlacement::default(), SymbolPlacement::Point);
    assert_eq!(SymbolZOrder::default(), SymbolZOrder::Auto);
    assert_eq!(TextJustify::default(), TextJustify::Center);
    assert_eq!(TextTransform::default(), TextTransform::Off);
    assert_eq!(CircleAlignment::default(), CircleAlignment::Viewport);
    assert_eq!(CircleScale::default(), CircleScale::MapPlane);
    assert_eq!(SkyType::default(), SkyType::Gradient);
    assert_eq!(ModelType::default(), ModelType::Common3d);
}

#[test]
fn expressions_have_their_wire_forms() {
    assert_eq!(to_json(&Expression::<()>::String("a".to_string()).to_wire()), parse(r#""a""#));
    assert_eq!(to_json(&Expression::<()>::Number(num(1.5)).to_wire()), parse("1.5"));
    assert_eq!(to_json(&Expression::<()>::Bool(true).to_wire()), parse("true"));
    assert_eq!(to_json(&Expression::<()>::Enum(()).to_wire()), parse("null"));
    assert_eq!(to_json(&Expression::Enum(LineCap::Square).to_wire()), parse(r#""square""#));
    assert_eq!(to_json(&Expression::<()>::List(vec![]).to_wire()), parse("[]"));
    let nested = Expression::List(vec![
        Expression::String("case".to_string()),
        Expression::List(vec![Expression::String("has".to_string()), Expression::String("x".to_string())]),
        Expression::Enum(LineCap::Round),
        Expression::Number(num(0.0)),
        Expression::List(vec![Expression::List(vec![Expression::Bool(false)])]),
    ]);
    assert_eq!(to_json(&nested.to_wire()), parse(r#"["case",["has","x"],"round",0.0,[[false]]]"#));
}

#[test]
fn a_list_of_strings_is_an_expression() {
    let list = Expression::<()>::strings(vec!["get", "name"]);
    assert_eq!(to_json(&list.to_wire()), parse(r#"["get","name"]"#));
    assert_eq!(to_json(&Expression::<()>::strings(vec![]).to_wire()), parse("[]"));
}

#[test]
fn a_copy_of_an_expression_has_its_wire_form() {
    let nested = Expression::List(vec![
        Expression::String("a".to_string()),
        Expression::List(vec![Expression::Enum(Anchor::Top), Expression::Number(num(2.0))]),
        Expression::Bool(true),
    ]);
    assert_eq!(to_json(&nested.clone().to_wire()), to_json(&nested.to_wire()));
    assert_eq!(to_json(&nested.clone().to_wire()), parse(r#"["a",["top",2.0],true]"#));
}

#[test]
fn what_the_engine_tells_of_a_layer_has_a_wire_form() {
    let told = GetLayer {
        id: "roads".to_string(),
        type_: "line".to_string(),
        maxzoom: None,
        minzoom: Some(num(3.0)),
        visibility: Some(Visibility::Off),
    };
    assert_eq!(
        to_json(&told.to_wire()),
        parse(r#"{"id":"roads","type":"line","minzoom":3.0,"visibility":"none"}"#)
    );
}
