use mapboxgl::error::Error;
use mapboxgl::event::{
    decode_lng_lat, decode_lng_lats, decode_message, decode_point, decode_points, decode_strings,
    get_property, DecodeError, DragEvent, EventType, Field, LngLat, MapBaseEvent, MapBoxZoomEvent, MapDataEvent,
    MapEvent, MapMouseEvent, MapTouchEvent, MapWheelEvent, Point,
};
use mapboxgl::listener::{decode, MapEventKind, TypedEvent};
use mapboxgl::wire::{Number, Value};

fn from_json(value: &serde_json::Value) -> Value {
    match value {
        serde_json::Value::Null => Value::Null,
        serde_json::Value::Bool(b) => Value::Bool(*b),
        serde_json::Value::Number(n) => match n.as_i64() {
            Some(i) => Value::Number(Number::Int(i)),
            None => Value::Number(Number::Real(n.as_f64().unwrap().to_bits())),
        },
        serde_json::Value::String(s) => Value::String(s.clone()),
        serde_json::Value::Array(items) => Value::Array(items.iter().map(from_json).collect()),
        serde_json::Value::Object(entries) => {
            Value::Object(entries.iter().map(|(k, v)| (k.clone(), from_json(v))).collect())
        }
    }
}

fn json(text: &str) -> Value {
    from_json(&serde_json::from_str(text).unwrap())
}

fn num(x: f64) -> Number {
    Number::Real(x.to_bits())
}

fn without(payload: &Value, key: &str) -> Value {
    match payload {
        Value::Object(entries) => Value::Object(
            entries.iter().filter(|(k, _)| k != key).map(|(k, v)| (k.clone(), v.clone())).collect(),
        ),
        other => other.clone(),
    }
}

fn replaced(payload: &Value, key: &str, value: Value) -> Value {
    match without(payload, key) {
        Value::Object(mut entries) => {
            entries.push((key.to_string(), value));
            Value::Object(entries)
        }
        other => other,
    }
}

const MOUSE: &str = r#"{"type":"click","originalEvent":{"button":0},"point":{"x":1,"y":2},"lngLat":{"lng":10.0,"lat":20.0},"features":["a","b"]}"#;
const TOUCH: &str = r#"{"type":"touchstart","originalEvent":{"touches":2},"point":{"x":1.5,"y":2.5},"points":[{"x":1.5,"y":2.5},{"x":3.0,"y":4.0}],"lngLat":{"lng":10.0,"lat":20.0},"lngLats":[{"lng":10.0,"lat":20.0},{"lng":11.0,"lat":21.0}],"features":["f"]}"#;
const DATA: &str = r#"{"type":"sourcedata","dataType":"source","isSourceLoaded":true,"sourceDataType":"metadata","sourceId":"roads"}"#;

#[test]
fn a_base_event_is_its_type() {
    let event = MapBaseEvent::try_from(&json(r#"{"type":"load"}"#)).unwrap();
    assert_eq!(event.type_, "load");
}

#[test]
fn a_base_event_ignores_what_else_the_payload_holds() {
    let event = MapBaseEvent::try_from(&json(r#"{"target":{},"type":"idle","extra":[1]}"#)).unwrap();
    assert_eq!(event.type_, "idle");
}

#[test]
fn a_base_event_without_type_is_refused() {
    assert_eq!(
        MapBaseEvent::try_from(&json("{}")).unwrap_err(),
        DecodeError::MissingField(EventType::MapBaseEvent, Field::Type)
    );
}

#[test]
fn a_payload_that_is_no_object_lacks_every_field() {
    for text in ["null", "true", "1", "\"load\"", "[]", "[{\"type\":\"load\"}]"] {
        assert_eq!(
            MapBaseEvent::try_from(&json(text)).unwrap_err(),
            DecodeError::MissingField(EventType::MapBaseEvent, Field::Type)
        );
        assert_eq!(
            DragEvent::try_from(&json(text)).unwrap_err(),
            DecodeError::MissingField(EventType::DragEvent, Field::OriginalEvent)
        );
    }
}

#[test]
fn a_type_that_is_no_string_is_refused() {
    for text in [r#"{"type":null}"#, r#"{"type":7}"#, r#"{"type":["load"]}"#, r#"{"type":{}}"#] {
        assert_eq!(
            MapBaseEvent::try_from(&json(text)).unwrap_err(),
            DecodeError::InvalidField(EventType::MapBaseEvent, Field::Type)
        );
    }
}

#[test]
fn a_movement_may_lack_its_original_event() {
    let event = MapEvent::try_from(&json(r#"{"type":"move"}"#)).unwrap();
    assert_eq!(event.type_, "move");
    assert!(event.original_event.is_none());
    let event = MapEvent::try_from(&json(r#"{"type":"move","originalEvent":{"x":1}}"#)).unwrap();
    assert!(matches!(event.original_event, Some(Value::Object(_))));
    assert_eq!(
        MapEvent::try_from(&json(r#"{"originalEvent":{}}"#)).unwrap_err(),
        DecodeError::MissingField(EventType::MapEvent, Field::Type)
    );
}

#[test]
fn a_mouse_event_decodes_every_field() {
    let event = MapMouseEvent::try_from(&json(MOUSE)).unwrap();
    assert_eq!(event.type_, "click");
    assert!(matches!(event.original_event.get("button"), Some(Value::Number(Number::Int(0)))));
    assert_eq!(event.point, Point { x: Number::Int(1), y: Number::Int(2) });
    assert_eq!(event.lng_lat, LngLat { lng: num(10.0), lat: num(20.0) });
    assert_eq!(event.features, vec!["a".to_string(), "b".to_string()]);
}

#[test]
fn a_mouse_event_names_the_required_field_that_is_missing() {
    let payload = json(MOUSE);
    for (key, field) in [
        ("type", Field::Type),
        ("originalEvent", Field::OriginalEvent),
        ("point", Field::Point),
        ("lngLat", Field::LngLat),
    ] {
        assert_eq!(
            MapMouseEvent::try_from(&without(&payload, key)).unwrap_err(),
            DecodeError::MissingField(EventType::MapMouseEvent, field)
        );
    }
}

#[test]
fn a_mouse_event_reports_the_first_field_at_fault() {
    let payload = without(&without(&json(MOUSE), "lngLat"), "originalEvent");
    assert_eq!(
        MapMouseEvent::try_from(&payload).unwrap_err(),
        DecodeError::MissingField(EventType::MapMouseEvent, Field::OriginalEvent)
    );
    let payload = replaced(&without(&json(MOUSE), "lngLat"), "point", Value::Null);
    assert_eq!(
        MapMouseEvent::try_from(&payload).unwrap_err(),
        DecodeError::InvalidField(EventType::MapMouseEvent, Field::Point)
    );
}

#[test]
fn a_mouse_event_without_features_has_none() {
    let event = MapMouseEvent::try_from(&without(&json(MOUSE), "features")).unwrap();
    assert!(event.features.is_empty());
    assert_eq!(event.type_, "click");
}

#[test]
fn features_of_the_wrong_shape_count_as_none() {
    for features in ["null", "7", "\"a\"", "{}", "[\"a\", 1]", "[null]"] {
        let payload = replaced(&json(MOUSE), "features", json(features));
        let event = MapMouseEvent::try_from(&payload).unwrap();
        assert!(event.features.is_empty());
    }
    let payload = replaced(&json(MOUSE), "features", json("[]"));
    assert!(MapMouseEvent::try_from(&payload).unwrap().features.is_empty());
}

#[test]
fn a_point_of_the_wrong_shape_is_refused() {
    for point in ["null", "[1,2]", "{}", r#"{"x":1}"#, r#"{"x":"1","y":2}"#, r#"{"x":1,"y":null}"#] {
        let payload = replaced(&json(MOUSE), "point", json(point));
        assert_eq!(
            MapMouseEvent::try_from(&payload).unwrap_err(),
            DecodeError::InvalidField(EventType::MapMouseEvent, Field::Point)
        );
    }
    for position in ["null", "[1,2]", r#"{"lng":1}"#, r#"{"lng":1,"lat":"2"}"#, r#"{"x":1,"y":2}"#] {
        let payload = replaced(&json(MOUSE), "lngLat", json(position));
        assert_eq!(
            MapMouseEvent::try_from(&payload).unwrap_err(),
            DecodeError::InvalidField(EventType::MapMouseEvent, Field::LngLat)
        );
    }
}

#[test]
fn a_touch_event_decodes_every_field() {
    let event = MapTouchEvent::try_from(&json(TOUCH)).unwrap();
    assert_eq!(event.type_, "touchstart");
    assert!(matches!(event.original_event.get("touches"), Some(Value::Number(Number::Int(2)))));
    assert_eq!(event.point, Point { x: num(1.5), y: num(2.5) });
    assert_eq!(
        event.points,
        vec![Point { x: num(1.5), y: num(2.5) }, Point { x: num(3.0), y: num(4.0) }]
    );
    assert_eq!(event.lng_lat, LngLat { lng: num(10.0), lat: num(20.0) });
    assert_eq!(
        event.lng_lats,
        vec![LngLat { lng: num(10.0), lat: num(20.0) }, LngLat { lng: num(11.0), lat: num(21.0) }]
    );
    assert_eq!(event.features, vec!["f".to_string()]);
}

#[test]
fn a_touch_event_names_the_required_field_that_is_missing() {
    let payload = json(TOUCH);
    for (key, field) in [
        ("type", Field::Type),
        ("originalEvent", Field::OriginalEvent),
        ("point", Field::Point),
        ("lngLat", Field::LngLat),
    ] {
        assert_eq!(
            MapTouchEvent::try_from(&without(&payload, key)).unwrap_err(),
            DecodeError::MissingField(EventType::MapTouchEvent, field)
        );
    }
}

#[test]
fn a_touch_event_without_its_lists_has_them_empty() {
    let payload = without(&without(&without(&json(TOUCH), "points"), "lngLats"), "features");
    let event = MapTouchEvent::try_from(&payload).unwrap();
    assert!(event.points.is_empty());
    assert!(event.lng_lats.is_empty());
    assert!(event.features.is_empty());
    assert_eq!(event.point, Point { x: num(1.5), y: num(2.5) });
    let event = MapTouchEvent::try_from(&without(&json(TOUCH), "points")).unwrap();
    assert!(event.points.is_empty());
    assert_eq!(event.lng_lats.len(), 2);
}

#[test]
fn a_touch_event_refuses_lists_of_the_wrong_shape() {
    for points in ["null", "{}", "[1]", r#"[{"x":1,"y":2},{"x":1}]"#] {
        let payload = replaced(&json(TOUCH), "points", json(points));
        assert_eq!(
            MapTouchEvent::try_from(&payload).unwrap_err(),
            DecodeError::InvalidField(EventType::MapTouchEvent, Field::Points)
        );
    }
    for positions in ["null", "7", r#"[{"lng":1,"lat":2},{"lat":1}]"#] {
        let payload = replaced(&json(TOUCH), "lngLats", json(positions));
        assert_eq!(
            MapTouchEvent::try_from(&payload).unwrap_err(),
            DecodeError::InvalidField(EventType::MapTouchEvent, Field::LngLats)
        );
    }
    let payload = without(&replaced(&json(TOUCH), "points", json("7")), "lngLat");
    assert_eq!(
        MapTouchEvent::try_from(&payload).unwrap_err(),
        DecodeError::InvalidField(EventType::MapTouchEvent, Field::Points)
    );
}

#[test]
fn a_data_event_decodes_every_field() {
    let event = MapDataEvent::try_from(&json(DATA)).unwrap();
    assert_eq!(event.type_, "sourcedata");
    assert_eq!(event.data_type, "source");
    assert_eq!(event.is_source_loaded, Some(true));
    assert_eq!(event.source_data_type.as_deref(), Some("metadata"));
    assert_eq!(event.source_id.as_deref(), Some("roads"));
}

#[test]
fn a_data_event_may_lack_what_is_optional() {
    let event = MapDataEvent::try_from(&json(r#"{"type":"data","dataType":"style"}"#)).unwrap();
    assert_eq!(event.type_, "data");
    assert_eq!(event.data_type, "style");
    assert_eq!(event.is_source_loaded, None);
    assert_eq!(event.source_data_type, None);
    assert_eq!(event.source_id, None);
    let text = r#"{"type":"data","dataType":"style","isSourceLoaded":null,"sourceDataType":null,"sourceId":null}"#;
    let event = MapDataEvent::try_from(&json(text)).unwrap();
    assert_eq!(event.is_source_loaded, None);
    assert_eq!(event.source_data_type, None);
    assert_eq!(event.source_id, None);
}

#[test]
fn a_data_event_names_what_is_at_fault() {
    let payload = json(DATA);
    assert_eq!(
        MapDataEvent::try_from(&without(&payload, "type")).unwrap_err(),
        DecodeError::MissingField(EventType::MapDataEvent, Field::Type)
    );
    assert_eq!(
        MapDataEvent::try_from(&without(&payload, "dataType")).unwrap_err(),
        DecodeError::MissingField(EventType::MapDataEvent, Field::DataType)
    );
    assert_eq!(
        MapDataEvent::try_from(&replaced(&payload, "dataType", json("1"))).unwrap_err(),
        DecodeError::InvalidField(EventType::MapDataEvent, Field::DataType)
    );
    assert_eq!(
        MapDataEvent::try_from(&replaced(&payload, "isSourceLoaded", json("\"yes\""))).unwrap_err(),
        DecodeError::InvalidField(EventType::MapDataEvent, Field::IsSourceLoaded)
    );
    assert_eq!(
        MapDataEvent::try_from(&replaced(&payload, "sourceDataType", json("1"))).unwrap_err(),
        DecodeError::InvalidField(EventType::MapDataEvent, Field::SourceDataType)
    );
    assert_eq!(
        MapDataEvent::try_from(&replaced(&payload, "sourceId", json("false"))).unwrap_err(),
        DecodeError::InvalidField(EventType::MapDataEvent, Field::SourceId)
    );
}

#[test]
fn box_zoom_and_wheel_events_need_type_and_original_event() {
    let payload = json(r#"{"type":"boxzoomstart","originalEvent":{"shiftKey":true}}"#);
    let event = MapBoxZoomEvent::try_from(&payload).unwrap();
    assert_eq!(event.type_, "boxzoomstart");
    assert!(matches!(event.original_event.get("shiftKey"), Some(Value::Bool(true))));
    assert_eq!(
        MapBoxZoomEvent::try_from(&without(&payload, "type")).unwrap_err(),
        DecodeError::MissingField(EventType::MapBoxZoomEvent, Field::Type)
    );
    assert_eq!(
        MapBoxZoomEvent::try_from(&without(&payload, "originalEvent")).unwrap_err(),
        DecodeError::MissingField(EventType::MapBoxZoomEvent, Field::OriginalEvent)
    );
    let payload = json(r#"{"type":"wheel","originalEvent":{"deltaY":-3}}"#);
    let event = MapWheelEvent::try_from(&payload).unwrap();
    assert_eq!(event.type_, "wheel");
    assert!(matches!(event.original_event.get("deltaY"), Some(Value::Number(Number::Int(-3)))));
    assert_eq!(
        MapWheelEvent::try_from(&without(&payload, "type")).unwrap_err(),
        DecodeError::MissingField(EventType::MapWheelEvent, Field::Type)
    );
    assert_eq!(
        MapWheelEvent::try_from(&without(&payload, "originalEvent")).unwrap_err(),
        DecodeError::MissingField(EventType::MapWheelEvent, Field::OriginalEvent)
    );
}

#[test]
fn an_original_event_may_be_any_value() {
    let event = DragEvent::try_from(&json(r#"{"originalEvent":null}"#)).unwrap();
    assert!(event.original_event.is_null());
    let event = DragEvent::try_from(&json(r#"{"originalEvent":"drag"}"#)).unwrap();
    assert!(matches!(event.original_event, Value::String(_)));
}

#[test]
fn the_message_of_an_error_event_is_a_plain_string() {
    assert_eq!(decode_message(&json("\"style not found\"")).unwrap(), "style not found");
    assert_eq!(decode_message(&json("\"\"")).unwrap(), "");
    for text in ["null", "1", "{\"message\":\"x\"}", "[\"x\"]"] {
        assert_eq!(
            decode_message(&json(text)).unwrap_err(),
            DecodeError::InvalidPayload(EventType::Message)
        );
    }
}

#[test]
fn points_positions_and_strings_decode_one_by_one() {
    assert_eq!(decode_point(&json(r#"{"x":1,"y":2}"#)), Some(Point { x: Number::Int(1), y: Number::Int(2) }));
    assert_eq!(decode_point(&json(r#"{"y":2.5,"x":-1.5,"z":0}"#)), Some(Point { x: num(-1.5), y: num(2.5) }));
    assert_eq!(decode_point(&json(r#"{"x":1}"#)), None);
    assert_eq!(decode_point(&json("[1,2]")), None);
    assert_eq!(
        decode_lng_lat(&json(r#"{"lng":139.5,"lat":35.5}"#)),
        Some(LngLat { lng: num(139.5), lat: num(35.5) })
    );
    assert_eq!(decode_lng_lat(&json(r#"{"lng":139.5}"#)), None);
    assert_eq!(decode_points(&json("[]")), Some(vec![]));
    assert_eq!(decode_points(&json(r#"{"x":1,"y":2}"#)), None);
    assert_eq!(decode_lng_lats(&json("[]")), Some(vec![]));
    assert_eq!(decode_lng_lats(&json("[1]")), None);
    assert_eq!(decode_strings(&json(r#"["a",""]"#)), Some(vec!["a".to_string(), String::new()]));
    assert_eq!(decode_strings(&json(r#"["a",1]"#)), None);
    assert_eq!(decode_strings(&json("\"a\"")), None);
}

#[test]
fn every_kind_decodes_into_the_type_it_calls_for() {
    let payloads = [
        (EventType::MapBaseEvent, json(r#"{"type":"x"}"#)),
        (EventType::MapEvent, json(r#"{"type":"x"}"#)),
        (EventType::MapDataEvent, json(DATA)),
        (EventType::MapBoxZoomEvent, json(r#"{"type":"x","originalEvent":{}}"#)),
        (EventType::MapMouseEvent, json(MOUSE)),
        (EventType::MapTouchEvent, json(TOUCH)),
        (EventType::MapWheelEvent, json(r#"{"type":"x","originalEvent":{}}"#)),
        (EventType::DragEvent, json(r#"{"originalEvent":{}}"#)),
        (EventType::Message, json("\"x\"")),
    ];
    for kind in MapEventKind::all() {
        let payload = &payloads.iter().find(|(t, _)| *t == kind.event_type()).unwrap().1;
        let event = decode(payload, kind).unwrap();
        let fits = match (kind.event_type(), &event) {
            (EventType::MapBaseEvent, TypedEvent::Base(_)) => true,
            (EventType::MapEvent, TypedEvent::Movement(_)) => true,
            (EventType::MapDataEvent, TypedEvent::Data(_)) => true,
            (EventType::MapBoxZoomEvent, TypedEvent::BoxZoom(_)) => true,
            (EventType::MapMouseEvent, TypedEvent::Mouse(_)) => true,
            (EventType::MapTouchEvent, TypedEvent::Touch(_)) => true,
            (EventType::MapWheelEvent, TypedEvent::Wheel(_)) => true,
            (EventType::DragEvent, TypedEvent::Drag(_)) => true,
            (EventType::Message, TypedEvent::Message(_)) => true,
            _ => false,
        };
        assert!(fits, "{:?} decoded into {:?}", kind, event);
    }
}

#[test]
fn every_kind_refuses_a_payload_that_lacks_a_required_field() {
    let empty = json("{}");
    for kind in MapEventKind::all() {
        let expected = match kind.event_type() {
            EventType::DragEvent => DecodeError::MissingField(EventType::DragEvent, Field::OriginalEvent),
            EventType::Message => DecodeError::InvalidPayload(EventType::Message),
            other => DecodeError::MissingField(other, Field::Type),
        };
        assert_eq!(decode(&empty, kind).unwrap_err(), expected);
    }
}

#[test]
fn a_decode_error_is_reported_with_the_event_type_and_the_field() {
    let error = DecodeError::MissingField(EventType::MapMouseEvent, Field::LngLat).into_error();
    match &error {
        Error::BadEventFormat(event, reason) => {
            assert_eq!(*event, "MapMouseEvent");
            assert_eq!(reason, "property \"lngLat\" is missing");
        }
        other => panic!("unexpected error {:?}", other),
    }
    assert_eq!(
        error.message(),
        "The object is not compatible to MapMouseEvent: property \"lngLat\" is missing"
    );
    let error = DecodeError::InvalidField(EventType::MapTouchEvent, Field::Points).into_error();
    assert_eq!(
        error.message(),
        "The object is not compatible to MapTouchEvent: property \"points\" has an unexpected type"
    );
    let error = DecodeError::InvalidPayload(EventType::Message).into_error();
    assert_eq!(
        error.message(),
        "The object is not compatible to Message: the payload has an unexpected type"
    );
}

#[test]
fn event_types_and_fields_have_their_names() {
    let types = [
        (EventType::MapBaseEvent, "MapBaseEvent"),
        (EventType::MapEvent, "MapEvent"),
        (EventType::MapDataEvent, "MapDataEvent"),
        (EventType::MapBoxZoomEvent, "MapBoxZoomEvent"),
        (EventType::MapMouseEvent, "MapMouseEvent"),
        (EventType::MapTouchEvent, "MapTouchEvent"),
        (EventType::MapWheelEvent, "MapWheelEvent"),
        (EventType::DragEvent, "DragEvent"),
        (EventType::Message, "Message"),
    ];
    for (event, name) in types {
        assert_eq!(event.name(), name);
    }
    let fields = [
        (Field::Type, "type"),
        (Field::OriginalEvent, "originalEvent"),
        (Field::Point, "point"),
        (Field::Points, "points"),
        (Field::LngLat, "lngLat"),
        (Field::LngLats, "lngLats"),
        (Field::Features, "features"),
        (Field::DataType, "dataType"),
        (Field::IsSourceLoaded, "isSourceLoaded"),
        (Field::SourceDataType, "sourceDataType"),
        (Field::SourceId, "sourceId"),
    ];
    for (field, key) in fields {
        assert_eq!(field.key(), key);
    }
}

#[test]
fn errors_have_their_messages() {
    assert_eq!(
        Error::LoadImage(Value::String("timed out".to_string())).message(),
        "Failed to load image: timed out"
    );
    assert_eq!(Error::LoadImage(Value::Bool(false)).message(), "Failed to load image");
    assert_eq!(Error::BadGeoJson("no type".to_string()).message(), "Bad GeoJSON: no type");
    assert_eq!(
        Error::BadEventFormat("MapEvent", "broken".to_string()).message(),
        "The object is not compatible to MapEvent: broken"
    );
    assert_eq!(Error::Unexpected("oops".to_string()).message(), "Error: oops");
    assert_eq!(Error::JsError("bad".to_string()).message(), "JsError: bad");
    assert_eq!(Error::JsError(String::new()).message(), "JsError: ");
}

#[test]
fn a_property_that_is_not_there_is_missing_whatever_the_event_and_the_field() {
    let events = [
        EventType::MapBaseEvent,
        EventType::MapEvent,
        EventType::MapDataEvent,
        EventType::MapBoxZoomEvent,
        EventType::MapMouseEvent,
        EventType::MapTouchEvent,
        EventType::MapWheelEvent,
        EventType::DragEvent,
        EventType::Message,
    ];
    let fields = [
        Field::Type,
        Field::OriginalEvent,
        Field::Point,
        Field::Points,
        Field::LngLat,
        Field::LngLats,
        Field::Features,
        Field::DataType,
        Field::IsSourceLoaded,
        Field::SourceDataType,
        Field::SourceId,
    ];
    let empty = Value::Object(vec![]);
    let other = Value::Object(vec![("zoom".to_string(), Value::Bool(true))]);
    for event in events {
        for field in fields {
            for payload in [&empty, &other, &Value::Null, &Value::string("type")] {
                assert_eq!(
                    get_property(payload, event, field).err(),
                    Some(DecodeError::MissingField(event, field))
                );
            }
            let held = Value::Object(vec![(field.key().to_string(), Value::Null)]);
            assert!(get_property(&held, event, field).unwrap().is_null());
        }
    }
    let error = DecodeError::MissingField(EventType::MapMouseEvent, Field::LngLat).into_error();
    let text = error.message();
    assert!(text.contains("MapMouseEvent"), "{}", text);
    assert!(text.contains("lngLat"), "{}", text);
}
