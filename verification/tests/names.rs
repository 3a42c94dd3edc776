use mapboxgl::event::EventType;
use mapboxgl::listener::{event_name_of, MapEventKind, KIND_COUNT};
use std::collections::HashSet;

#[test]
fn the_event_name_is_the_method_name_without_on() {
    assert_eq!(event_name_of("on_mousedown"), "mousedown");
    assert_eq!(event_name_of("on_mousemove"), "mousemove");
    assert_eq!(event_name_of("on_error"), "error");
    assert_eq!(event_name_of("on_load"), "load");
}

#[test]
fn stripping_takes_every_leading_on_and_nothing_else() {
    assert_eq!(event_name_of(""), "");
    assert_eq!(event_name_of("on_"), "");
    assert_eq!(event_name_of("on"), "on");
    assert_eq!(event_name_of("click"), "click");
    assert_eq!(event_name_of("on_on_click"), "click");
    assert_eq!(event_name_of("on_on_"), "");
    assert_eq!(event_name_of("on_click_on_"), "click_on_");
    assert_eq!(event_name_of("ON_click"), "ON_click");
    assert_eq!(event_name_of("on-click"), "on-click");
    assert_eq!(event_name_of("on_キー"), "キー");
    assert_eq!(event_name_of("éon_x"), "éon_x");
}

#[test]
fn every_kind_is_named_after_its_method() {
    let kinds = MapEventKind::all();
    assert_eq!(kinds.len(), KIND_COUNT);
    assert_eq!(kinds.len(), 48);
    for kind in &kinds {
        assert_eq!(kind.method_name(), format!("on_{}", kind.event_name()));
        assert_eq!(event_name_of(kind.method_name()), kind.event_name());
    }
    let names: HashSet<&str> = kinds.iter().map(|k| k.event_name()).collect();
    assert_eq!(names.len(), 48);
}

#[test]
fn kinds_come_in_the_order_of_subscription() {
    let kinds = MapEventKind::all();
    let names: Vec<&str> = kinds.iter().map(|k| k.event_name()).collect();
    assert_eq!(
        names,
        vec![
            "resize", "remove", "mousedown", "mouseup", "preclick", "click", "dblclick",
            "mousemove", "mouseover", "mouseenter", "mouseleave", "mouseout", "contextmenu",
            "touchstart", "touchend", "touchcancel", "wheel", "movestart", "move", "moveend",
            "dragstart", "drag", "dragend", "zoomstart", "zoom", "zoomend", "rotatestart",
            "rotate", "rotateend", "pitchstart", "pitch", "pitchend", "boxzoomstart",
            "boxzoomend", "boxzoomcancel", "load", "render", "idle", "webglcontextlost",
            "webglcontextrestored", "data", "styledata", "sourcedata", "dataloading",
            "styledataloading", "sourcedataloading", "styleimagemissing", "error",
        ]
    );
    for (index, kind) in kinds.iter().enumerate() {
        assert_eq!(kind.index(), index);
        assert_eq!(MapEventKind::from_index(index), Some(*kind));
    }
    assert_eq!(MapEventKind::from_index(48), None);
    assert_eq!(MapEventKind::from_index(usize::MAX), None);
}

#[test]
fn every_kind_calls_for_its_event_type() {
    let expected = [
        (MapEventKind::Resize, EventType::MapBaseEvent),
        (MapEventKind::Remove, EventType::MapBaseEvent),
        (MapEventKind::MouseDown, EventType::MapMouseEvent),
        (MapEventKind::Click, EventType::MapMouseEvent),
        (MapEventKind::ContextMenu, EventType::MapMouseEvent),
        (MapEventKind::TouchStart, EventType::MapTouchEvent),
        (MapEventKind::TouchCancel, EventType::MapTouchEvent),
        (MapEventKind::Wheel, EventType::MapWheelEvent),
        (MapEventKind::MoveStart, EventType::DragEvent),
        (MapEventKind::Move, EventType::MapEvent),
        (MapEventKind::MoveEnd, EventType::DragEvent),
        (MapEventKind::DragStart, EventType::MapBaseEvent),
        (MapEventKind::Drag, EventType::DragEvent),
        (MapEventKind::DragEnd, EventType::DragEvent),
        (MapEventKind::Zoom, EventType::MapBaseEvent),
        (MapEventKind::BoxZoomStart, EventType::MapBoxZoomEvent),
        (MapEventKind::BoxZoomCancel, EventType::MapBoxZoomEvent),
        (MapEventKind::Load, EventType::MapBaseEvent),
        (MapEventKind::Data, EventType::MapDataEvent),
        (MapEventKind::StyleDataLoading, EventType::MapDataEvent),
        (MapEventKind::SourceDataLoading, EventType::MapBaseEvent),
        (MapEventKind::StyleImageMissing, EventType::MapBaseEvent),
        (MapEventKind::Error, EventType::Message),
    ];
    for (kind, event) in expected {
        assert_eq!(kind.event_type(), event);
    }
}
