use mapboxgl::event::{DecodeError, DragEvent, EventType, Field, MapBaseEvent};
use mapboxgl::handle::{DispatchError, WeakOwner};
use mapboxgl::handler::{BoxZoomHandlerOption, HandlerType};
use mapboxgl::lnglat::LngLat;
use mapboxgl::marker::{
    deliver_to_marker, Marker, MarkerEventKind, MarkerEventListener, MarkerHandle, MarkerOptions,
    NoopListener,
};
use mapboxgl::listener::{MapEventKind, TypedEvent};
use mapboxgl::popup::{Popup, PopupOptions};
use mapboxgl::source::{GeoJsonSourceSpec, VectorSourceSpec};
use mapboxgl::wire::{Number, ToWire, Value};
use mapboxgl::Error;
use std::cell::RefCell;
use std::rc::{Rc, Weak};

fn num(x: f64) -> Number {
    Number::Real(x.to_bits())
}

fn to_json(value: &Value) -> serde_json::Value {
    match value {
        Value::Null => serde_json::Value::Null,
        Value::Bool(b) => serde_json::Value::Bool(*b),
        Value::Number(Number::Int(n)) => serde_json::Value::from(*n),
        Value::Number(Number::Real(bits)) => serde_json::Value::from(f64::from_bits(*bits)),
        Value::String(s) => serde_json::Value::String(s.clone()),
        Value::Array(items) => serde_json::Value::Array(items.iter().map(to_json).collect()),
        Value::Object(entries) => serde_json::Value::Object(
            entries.iter().map(|(k, v)| (k.clone(), to_json(v))).collect(),
        ),
    }
}

fn parse(text: &str) -> serde_json::Value {
    serde_json::from_str(text).unwrap()
}

fn drag() -> Value {
    Value::Object(vec![("originalEvent".to_string(), Value::Object(vec![]))])
}

fn dragstart() -> Value {
    Value::Object(vec![("type".to_string(), Value::string("dragstart"))])
}

struct Pin {
    name: &'static str,
}

#[derive(Clone)]
struct WeakPin(Weak<Pin>);

impl WeakOwner for WeakPin {
    type Owner = Rc<Pin>;

    fn upgrade(&self) -> Option<Rc<Pin>> {
        self.0.upgrade()
    }
}

struct Recorder {
    log: Rc<RefCell<Vec<String>>>,
}

impl MarkerEventListener<Rc<Pin>> for Recorder {
    fn on_dragstart(&mut self, map: Rc<Pin>, e: MapBaseEvent) {
        self.log.borrow_mut().push(format!("dragstart {} on {}", e.type_, map.name));
    }

    fn on_drag(&mut self, map: Rc<Pin>, _e: DragEvent) {
        self.log.borrow_mut().push(format!("drag on {}", map.name));
    }

    fn on_dragend(&mut self, map: Rc<Pin>, _e: DragEvent) {
        self.log.borrow_mut().push(format!("dragend on {}", map.name));
    }
}

#[test]
fn marker_options_use_camel_case_and_leave_out_what_is_unset() {
    assert_eq!(to_json(&MarkerOptions::new().build().unwrap()), parse("{}"));
    assert_eq!(to_json(&MarkerOptions::default().build().unwrap()), parse("{}"));
    let options = MarkerOptions {
        anchor: Some("bottom".to_string()),
        click_tolerance: Some(3),
        color: Some("#3fb1ce".to_string()),
        draggable: Some(true),
        pitch_alignment: Some("map".to_string()),
        rotation: Some(45),
        rotation_alignment: Some("viewport".to_string()),
        scale: Some(2),
    };
    assert_eq!(
        to_json(&options.build().unwrap()),
        parse(
            r##"{"anchor":"bottom","clickTolerance":3,"color":"#3fb1ce","draggable":true,"pitchAlignment":"map","rotation":45,"rotationAlignment":"viewport","scale":2}"##
        )
    );
}

#[test]
fn marker_options_name_the_first_integer_that_does_not_fit() {
    let mut options = MarkerOptions::new();
    options.rotation = Some(9007199254740992);
    options.scale = Some(u64::MAX);
    match options.build() {
        Err(Error::JsError(reason)) => {
            assert_eq!(reason, "rotation can't be represented as a JavaScript number")
        }
        _ => panic!("unsafe options were built"),
    }
    options.click_tolerance = Some(u64::MAX);
    match options.build() {
        Err(Error::JsError(reason)) => {
            assert_eq!(reason, "clickTolerance can't be represented as a JavaScript number")
        }
        _ => panic!("unsafe options were built"),
    }
    options.click_tolerance = Some(9007199254740991);
    options.rotation = None;
    match options.build() {
        Err(Error::JsError(reason)) => {
            assert_eq!(reason, "scale can't be represented as a JavaScript number")
        }
        _ => panic!("unsafe options were built"),
    }
    options.scale = None;
    assert_eq!(to_json(&options.build().unwrap()), parse(r#"{"clickTolerance":9007199254740991}"#));
}

#[test]
fn a_marker_keeps_its_position_and_its_configuration() {
    let position = LngLat::new(num(139.5), num(35.5));
    let mut marker = Marker::new(WeakPin(Weak::new()), position);
    assert_eq!(marker.get_lnglat(), position);
    assert_eq!(to_json(marker.configuration()), parse("{}"));
    let moved = LngLat::new(num(1.0), num(2.0));
    marker.set_lnglat(&moved);
    assert_eq!(marker.get_lnglat(), moved);
    assert_eq!(to_json(marker.configuration()), parse("{}"));
    let mut options = MarkerOptions::new();
    options.draggable = Some(true);
    let marker = Marker::with_options(WeakPin(Weak::new()), position, options).ok().unwrap();
    assert_eq!(to_json(marker.configuration()), parse(r#"{"draggable":true}"#));
    assert_eq!(marker.get_lnglat(), position);
    assert!(!marker.handle().subscriptions().is_empty());
    let mut options = MarkerOptions::new();
    options.scale = Some(u64::MAX);
    assert!(Marker::with_options(WeakPin(Weak::new()), position, options).is_err());
}

#[test]
fn a_marker_subscribes_to_its_three_drag_events() {
    let handle = MarkerHandle::new(WeakPin(Weak::new()), NoopListener);
    let subscriptions = handle.subscriptions();
    let names: Vec<&str> = subscriptions.iter().map(|s| s.event).collect();
    assert_eq!(names, vec!["dragstart", "drag", "dragend"]);
    let kinds: Vec<MarkerEventKind> = subscriptions.iter().map(|s| s.kind).collect();
    assert_eq!(kinds, MarkerEventKind::all());
    assert_eq!(
        MarkerEventKind::all(),
        vec![MarkerEventKind::DragStart, MarkerEventKind::Drag, MarkerEventKind::DragEnd]
    );
    assert_eq!(MarkerEventKind::DragStart.map_kind(), MapEventKind::DragStart);
    assert_eq!(MarkerEventKind::Drag.map_kind(), MapEventKind::Drag);
    assert_eq!(MarkerEventKind::DragEnd.map_kind(), MapEventKind::DragEnd);
    assert_eq!(MarkerEventKind::DragEnd.event_name(), "dragend");
}

#[test]
fn the_drag_events_of_a_marker_reach_its_listener() {
    let log = Rc::new(RefCell::new(Vec::new()));
    let pin = Rc::new(Pin { name: "pin" });
    let mut marker = Marker::with_listener(
        WeakPin(Rc::downgrade(&pin)),
        LngLat::default(),
        MarkerOptions::new(),
        Recorder { log: log.clone() },
    )
    .ok()
    .unwrap();
    assert_eq!(marker.dispatch(MarkerEventKind::DragStart, &dragstart()), Ok(()));
    assert_eq!(marker.dispatch(MarkerEventKind::Drag, &drag()), Ok(()));
    assert_eq!(marker.dispatch(MarkerEventKind::DragEnd, &drag()), Ok(()));
    assert_eq!(
        *log.borrow(),
        vec![
            "dragstart dragstart on pin".to_string(),
            "drag on pin".to_string(),
            "dragend on pin".to_string()
        ]
    );
    assert_eq!(
        marker.dispatch(MarkerEventKind::Drag, &dragstart()),
        Err(DispatchError::PayloadDecodeFailed(DecodeError::MissingField(
            EventType::DragEvent,
            Field::OriginalEvent
        )))
    );
    assert_eq!(
        marker.dispatch(MarkerEventKind::DragStart, &drag()),
        Err(DispatchError::PayloadDecodeFailed(DecodeError::MissingField(
            EventType::MapBaseEvent,
            Field::Type
        )))
    );
    drop(pin);
    assert_eq!(
        marker.dispatch(MarkerEventKind::DragEnd, &drag()),
        Err(DispatchError::OwnerDropped)
    );
    assert_eq!(log.borrow().len(), 3);
}

#[test]
fn a_busy_marker_listener_refuses_a_second_dispatch() {
    let log = Rc::new(RefCell::new(Vec::new()));
    let pin = Rc::new(Pin { name: "pin" });
    let mut handle = MarkerHandle::new(WeakPin(Rc::downgrade(&pin)), Recorder { log: log.clone() });
    let first = handle.begin(Some(pin.clone()), MarkerEventKind::DragEnd, &drag()).ok().unwrap();
    assert_eq!(
        handle.begin(Some(pin.clone()), MarkerEventKind::DragEnd, &drag()).err(),
        Some(DispatchError::ListenerReentrancyConflict)
    );
    assert_eq!(
        handle.dispatch(MarkerEventKind::DragEnd, &drag()),
        Err(DispatchError::ListenerReentrancyConflict)
    );
    assert!(log.borrow().is_empty());
    let mut listener = first.listener;
    assert!(deliver_to_marker(&mut listener, first.owner, MarkerEventKind::DragEnd, first.event));
    handle.finish(listener);
    assert_eq!(handle.dispatch(MarkerEventKind::DragEnd, &drag()), Ok(()));
    assert_eq!(log.borrow().len(), 2);
}

#[test]
fn a_marker_event_of_the_wrong_type_is_delivered_to_no_method() {
    let log = Rc::new(RefCell::new(Vec::new()));
    let pin = Rc::new(Pin { name: "pin" });
    let mut listener = Recorder { log: log.clone() };
    let base = TypedEvent::Base(MapBaseEvent { type_: "dragstart".to_string() });
    assert!(!deliver_to_marker(&mut listener, pin.clone(), MarkerEventKind::Drag, base.clone()));
    assert!(!deliver_to_marker(&mut listener, pin.clone(), MarkerEventKind::DragEnd, base.clone()));
    assert!(log.borrow().is_empty());
    assert!(deliver_to_marker(&mut listener, pin, MarkerEventKind::DragStart, base));
    assert_eq!(log.borrow().len(), 1);
}

#[test]
fn a_popup_keeps_its_position_and_its_configuration() {
    assert_eq!(to_json(&PopupOptions::new().build()), parse("{}"));
    let options = PopupOptions { class_name: Some("note".to_string()) };
    assert_eq!(to_json(&options.build()), parse(r#"{"className":"note"}"#));
    let position = LngLat::new(num(1.0), num(2.0));
    let popup = Popup::new(position, options);
    assert_eq!(popup.lnglat(), position);
    assert_eq!(to_json(popup.configuration()), parse(r#"{"className":"note"}"#));
}

#[test]
fn sources_that_are_added_later_have_their_wire_forms() {
    let source = VectorSourceSpec::new("mapbox://mapbox.mapbox-terrain-v2");
    assert_eq!(source.type_, "vector");
    assert_eq!(
        to_json(&source.to_wire()),
        parse(r#"{"type":"vector","url":"mapbox://mapbox.mapbox-terrain-v2"}"#)
    );
    let source = GeoJsonSourceSpec::new("https://example.com/data.geojson".to_string());
    assert_eq!(source.type_, "geojson");
    assert_eq!(
        to_json(&source.to_wire()),
        parse(r#"{"type":"geojson","data":"https://example.com/data.geojson"}"#)
    );
    let document = Value::Object(vec![
        ("type".to_string(), Value::string("FeatureCollection")),
        ("features".to_string(), Value::Array(vec![])),
    ]);
    assert_eq!(
        to_json(&GeoJsonSourceSpec::new(document).to_wire()),
        parse(r#"{"type":"geojson","data":{"type":"FeatureCollection","features":[]}}"#)
    );
}

#[test]
fn the_box_zoom_handler_has_its_name_and_its_default_option() {
    assert_eq!(HandlerType::BoxZoom.name(), "boxZoom");
    let option = BoxZoomHandlerOption::default();
    assert_eq!(option.click_tolerance(), 1);
    assert_eq!(to_json(&option.to_wire()), parse(r#"{"clickTolerance":1}"#));
}
