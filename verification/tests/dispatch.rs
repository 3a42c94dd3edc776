use mapboxgl::event::{
    DecodeError, DragEvent, EventType, Field, LngLat as EventLngLat, MapBaseEvent,
    MapBoxZoomEvent, MapDataEvent, MapEvent, MapMouseEvent, MapTouchEvent, MapWheelEvent, Point,
};
use mapboxgl::handle::{DispatchError, Handle, WeakOwner};
use mapboxgl::listener::{deliver, MapEventKind, MapEventListener, TypedEvent};
use mapboxgl::lnglat::LngLat;
use mapboxgl::map::{MapDispatchError, MapboxMap};
use mapboxgl::options::MapOptions;
use mapboxgl::wire::{Number, Value};
use mapboxgl::{Error, MapListenerId};
use std::cell::RefCell;
use std::rc::{Rc, Weak};

fn from_json(value: &serde_json::Value) -> Value {
    match value {
        serde_json::Value::Null => Value::Null,
        serde_json::Value::Bool(b) => Value::Bool(*b),
        serde_json::Value::Number(n) => match n.as_i64() {
            Some(i) => Value::Number(Number::Int(i)),
            None => Value::Number(Number::Real(n.as_f64().unwrap().to_bits())),
        },
        serde_json::Value::String(s) => Value::String(s.clone()),
        serde_json::Value::Array(items) => Value::Array(items.iter().map(from_json).collect()),
        serde_json::Value::Object(entries) => {
            Value::Object(entries.iter().map(|(k, v)| (k.clone(), from_json(v))).collect())
        }
    }
}

fn json(text: &str) -> Value {
    from_json(&serde_json::from_str(text).unwrap())
}

fn num(x: f64) -> Number {
    Number::Real(x.to_bits())
}

type Log = Rc<RefCell<Vec<String>>>;

struct World {
    name: &'static str,
    map: RefCell<Option<MapboxMap<WeakWorld, Recorder, String, ()>>>,
}

#[derive(Clone)]
struct WeakWorld(Weak<World>);

impl WeakOwner for WeakWorld {
    type Owner = Rc<World>;

    fn upgrade(&self) -> Option<Rc<World>> {
        self.0.upgrade()
    }
}

/// Records every call that reaches it, under the name of the event. Where
/// `reenter` names a listener, a click tries to dispatch a load event to that
/// listener before it returns.
struct Recorder {
    log: Log,
    reenter: Rc<RefCell<Option<MapListenerId>>>,
}

impl Recorder {
    fn new(log: &Log) -> Recorder {
        Recorder { log: log.clone(), reenter: Rc::new(RefCell::new(None)) }
    }
}

impl MapEventListener<Rc<World>> for Recorder {
    fn on_load(&mut self, map: Rc<World>, e: MapBaseEvent) {
        self.log.borrow_mut().push(format!("load {} on {}", e.type_, map.name));
    }

    fn on_click(&mut self, map: Rc<World>, e: MapMouseEvent) {
        self.log.borrow_mut().push(format!(
            "click {} at {:?} {:?} with {:?}",
            e.type_, e.point, e.lng_lat, e.features
        ));
        let target = *self.reenter.borrow();
        if let Some(id) = target {
            let second = match map.map.borrow_mut().as_mut() {
                Some(state) => state
                    .begin_dispatch(&id, Some(map.clone()), MapEventKind::Load, &json(r#"{"type":"load"}"#))
                    .map(|_| ()),
                None => Ok(()),
            };
            self.log.borrow_mut().push(format!("second dispatch: {:?}", second));
        }
    }

    fn on_mousemove(&mut self, _map: Rc<World>, _e: MapMouseEvent) {
        self.log.borrow_mut().push("mousemove".to_string());
    }

    fn on_drag(&mut self, _map: Rc<World>, _e: DragEvent) {
        self.log.borrow_mut().push("drag".to_string());
    }

    fn on_error(&mut self, _map: Rc<World>, message: String) {
        self.log.borrow_mut().push(format!("error {}", message));
    }
    fn on_resize(&mut self, _map: Rc<World>, _e: MapBaseEvent) {
        self.log.borrow_mut().push("resize".to_string());
    }

    fn on_remove(&mut self, _map: Rc<World>, _e: MapBaseEvent) {
        self.log.borrow_mut().push("remove".to_string());
    }

    fn on_mousedown(&mut self, _map: Rc<World>, _e: MapMouseEvent) {
        self.log.borrow_mut().push("mousedown".to_string());
    }

    fn on_mouseup(&mut self, _map: Rc<World>, _e: MapMouseEvent) {
        self.log.borrow_mut().push("mouseup".to_string());
    }

    fn on_preclick(&mut self, _map: Rc<World>, _e: MapMouseEvent) {
        self.log.borrow_mut().push("preclick".to_string());
    }

    fn on_dblclick(&mut self, _map: Rc<World>, _e: MapMouseEvent) {
        self.log.borrow_mut().push("dblclick".to_string());
    }

    fn on_mouseover(&mut self, _map: Rc<World>, _e: MapMouseEvent) {
        self.log.borrow_mut().push("mouseover".to_string());
    }

    fn on_mouseenter(&mut self, _map: Rc<World>, _e: MapMouseEvent) {
        self.log.borrow_mut().push("mouseenter".to_string());
    }

    fn on_mouseleave(&mut self, _map: Rc<World>, _e: MapMouseEvent) {
        self.log.borrow_mut().push("mouseleave".to_string());
    }

    fn on_mouseout(&mut self, _map: Rc<World>, _e: MapMouseEvent) {
        self.log.borrow_mut().push("mouseout".to_string());
    }

    fn on_contextmenu(&mut self, _map: Rc<World>, _e: MapMouseEvent) {
        self.log.borrow_mut().push("contextmenu".to_string());
    }

    fn on_touchstart(&mut self, _map: Rc<World>, _e: MapTouchEvent) {
        self.log.borrow_mut().push("touchstart".to_string());
    }

    fn on_touchend(&mut self, _map: Rc<World>, _e: MapTouchEvent) {
        self.log.borrow_mut().push("touchend".to_string());
    }

    fn on_touchcancel(&mut self, _map: Rc<World>, _e: MapTouchEvent) {
        self.log.borrow_mut().push("touchcancel".to_string());
    }

    fn on_wheel(&mut self, _map: Rc<World>, _e: MapWheelEvent) {
        self.log.borrow_mut().push("wheel".to_string());
    }

    fn on_movestart(&mut self, _map: Rc<World>, _e: DragEvent) {
        self.log.borrow_mut().push("movestart".to_string());
    }

    fn on_move(&mut self, _map: Rc<World>, _e: MapEvent) {
        self.log.borrow_mut().push("move".to_string());
    }

    fn on_moveend(&mut self, _map: Rc<World>, _e: DragEvent) {
        self.log.borrow_mut().push("moveend".to_string());
    }

    fn on_dragstart(&mut self, _map: Rc<World>, _e: MapBaseEvent) {
        self.log.borrow_mut().push("dragstart".to_string());
    }

    fn on_dragend(&mut self, _map: Rc<World>, _e: DragEvent) {
        self.log.borrow_mut().push("dragend".to_string());
    }

    fn on_zoomstart(&mut self, _map: Rc<World>, _e: MapBaseEvent) {
        self.log.borrow_mut().push("zoomstart".to_string());
    }

    fn on_zoom(&mut self, _map: Rc<World>, _e: MapBaseEvent) {
        self.log.borrow_mut().push("zoom".to_string());
    }

    fn on_zoomend(&mut self, _map: Rc<World>, _e: MapBaseEvent) {
        self.log.borrow_mut().push("zoomend".to_string());
    }

    fn on_rotatestart(&mut self, _map: Rc<World>, _e: MapBaseEvent) {
        self.log.borrow_mut().push("rotatestart".to_string());
    }

    fn on_rotate(&mut self, _map: Rc<World>, _e: MapBaseEvent) {
        self.log.borrow_mut().push("rotate".to_string());
    }

    fn on_rotateend(&mut self, _map: Rc<World>, _e: MapBaseEvent) {
        self.log.borrow_mut().push("rotateend".to_string());
    }

    fn on_pitchstart(&mut self, _map: Rc<World>, _e: MapBaseEvent) {
        self.log.borrow_mut().push("pitchstart".to_string());
    }

    fn on_pitch(&mut self, _map: Rc<World>, _e: MapBaseEvent) {
        self.log.borrow_mut().push("pitch".to_string());
    }

    fn on_pitchend(&mut self, _map: Rc<World>, _e: MapBaseEvent) {
        self.log.borrow_mut().push("pitchend".to_string());
    }

    fn on_boxzoomstart(&mut self, _map: Rc<World>, _e: MapBoxZoomEvent) {
        self.log.borrow_mut().push("boxzoomstart".to_string());
    }

    fn on_boxzoomend(&mut self, _map: Rc<World>, _e: MapBoxZoomEvent) {
        self.log.borrow_mut().push("boxzoomend".to_string());
    }

    fn on_boxzoomcancel(&mut self, _map: Rc<World>, _e: MapBoxZoomEvent) {
        self.log.borrow_mut().push("boxzoomcancel".to_string());
    }

    fn on_render(&mut self, _map: Rc<World>, _e: MapBaseEvent) {
        self.log.borrow_mut().push("render".to_string());
    }

    fn on_idle(&mut self, _map: Rc<World>, _e: MapBaseEvent) {
        self.log.borrow_mut().push("idle".to_string());
    }

    fn on_webglcontextlost(&mut self, _map: Rc<World>, _e: MapBaseEvent) {
        self.log.borrow_mut().push("webglcontextlost".to_string());
    }

    fn on_webglcontextrestored(&mut self, _map: Rc<World>, _e: MapBaseEvent) {
        self.log.borrow_mut().push("webglcontextrestored".to_string());
    }

    fn on_data(&mut self, _map: Rc<World>, _e: MapDataEvent) {
        self.log.borrow_mut().push("data".to_string());
    }

    fn on_styledata(&mut self, _map: Rc<World>, _e: MapDataEvent) {
        self.log.borrow_mut().push("styledata".to_string());
    }

    fn on_sourcedata(&mut self, _map: Rc<World>, _e: MapDataEvent) {
        self.log.borrow_mut().push("sourcedata".to_string());
    }

    fn on_dataloading(&mut self, _map: Rc<World>, _e: MapDataEvent) {
        self.log.borrow_mut().push("dataloading".to_string());
    }

    fn on_styledataloading(&mut self, _map: Rc<World>, _e: MapDataEvent) {
        self.log.borrow_mut().push("styledataloading".to_string());
    }

    fn on_sourcedataloading(&mut self, _map: Rc<World>, _e: MapBaseEvent) {
        self.log.borrow_mut().push("sourcedataloading".to_string());
    }

    fn on_styleimagemissing(&mut self, _map: Rc<World>, _e: MapBaseEvent) {
        self.log.borrow_mut().push("styleimagemissing".to_string());
    }
}

fn options() -> MapOptions {
    MapOptions::new("token".to_string(), "map".to_string())
        .center(LngLat::new(num(10.0), num(20.0)))
        .zoom(num(5.0))
}

fn world() -> Rc<World> {
    let world = Rc::new(World { name: "world", map: RefCell::new(None) });
    let map = MapboxMap::new(options(), WeakWorld(Rc::downgrade(&world))).unwrap();
    *world.map.borrow_mut() = Some(map);
    world
}

/// One invocation by the engine, as the closure of a subscription makes it:
/// the borrow of the map is given up while the listener runs.
fn invoke(
    world: &Rc<World>,
    id: &MapListenerId,
    kind: MapEventKind,
    payload: &Value,
) -> Result<(), MapDispatchError> {
    let weak = match world.map.borrow().as_ref().and_then(|m| m.handle(id).map(|h| h.owner().clone())) {
        Some(weak) => weak,
        None => return Err(MapDispatchError::NotRegistered),
    };
    let owner = weak.upgrade();
    let claim = world.map.borrow_mut().as_mut().unwrap().begin_dispatch(id, owner, kind, payload)?;
    let mut listener = claim.listener;
    assert!(deliver(&mut listener, claim.owner, kind, claim.event));
    world.map.borrow_mut().as_mut().unwrap().finish_dispatch(id, listener);
    Ok(())
}

const CLICK: &str = r#"{"type":"click","originalEvent":{"button":0},"point":{"x":1,"y":2},"lngLat":{"lng":10.0,"lat":20.0}}"#;

#[test]
fn an_invocation_after_the_owner_is_gone_does_nothing() {
    let log: Log = Rc::new(RefCell::new(Vec::new()));
    let owner = Rc::new(World { name: "gone", map: RefCell::new(None) });
    let mut handle = Handle::new(WeakWorld(Rc::downgrade(&owner)), Recorder::new(&log));
    assert_eq!(handle.dispatch(MapEventKind::Load, &json(r#"{"type":"load"}"#)), Ok(()));
    assert_eq!(log.borrow().len(), 1);
    drop(owner);
    for kind in MapEventKind::all() {
        assert_eq!(
            handle.dispatch(kind, &json(r#"{"type":"load"}"#)),
            Err(DispatchError::OwnerDropped)
        );
        assert_eq!(handle.dispatch(kind, &Value::Null), Err(DispatchError::OwnerDropped));
    }
    assert_eq!(log.borrow().len(), 1);
    assert!(!handle.busy());
}

#[test]
fn a_gone_owner_is_noticed_before_anything_else() {
    let log: Log = Rc::new(RefCell::new(Vec::new()));
    let mut handle = Handle::new(WeakWorld(Weak::new()), Recorder::new(&log));
    let refused = handle.begin::<Rc<World>>(None, MapEventKind::Click, &json("{}"));
    assert_eq!(refused.err(), Some(DispatchError::OwnerDropped));
    assert_eq!(
        handle.dispatch_to(None, MapEventKind::Click, &json(CLICK)),
        Err(DispatchError::OwnerDropped)
    );
    assert!(log.borrow().is_empty());
}

#[test]
fn a_payload_that_does_not_decode_reaches_no_listener() {
    let log: Log = Rc::new(RefCell::new(Vec::new()));
    let owner = Rc::new(World { name: "w", map: RefCell::new(None) });
    let mut handle = Handle::new(WeakWorld(Rc::downgrade(&owner)), Recorder::new(&log));
    assert_eq!(
        handle.dispatch(MapEventKind::Click, &json(r#"{"type":"click"}"#)),
        Err(DispatchError::PayloadDecodeFailed(DecodeError::MissingField(
            EventType::MapMouseEvent,
            Field::OriginalEvent
        )))
    );
    assert_eq!(
        handle.dispatch(MapEventKind::Error, &json("{}")),
        Err(DispatchError::PayloadDecodeFailed(DecodeError::InvalidPayload(EventType::Message)))
    );
    assert!(log.borrow().is_empty());
    assert!(!handle.busy());
}

#[test]
fn a_busy_listener_refuses_a_second_dispatch() {
    let log: Log = Rc::new(RefCell::new(Vec::new()));
    let owner = Rc::new(World { name: "w", map: RefCell::new(None) });
    let mut handle = Handle::new(WeakWorld(Rc::downgrade(&owner)), Recorder::new(&log));
    let payload = json(r#"{"type":"load"}"#);
    let first = handle.begin(Some(owner.clone()), MapEventKind::Load, &payload).ok().unwrap();
    assert!(handle.busy());
    let second = handle.begin(Some(owner.clone()), MapEventKind::Load, &payload);
    assert_eq!(second.err(), Some(DispatchError::ListenerReentrancyConflict));
    assert_eq!(
        handle.dispatch(MapEventKind::Click, &json(CLICK)),
        Err(DispatchError::ListenerReentrancyConflict)
    );
    assert_eq!(
        handle.begin(Some(owner.clone()), MapEventKind::Click, &json("{}")).err(),
        Some(DispatchError::PayloadDecodeFailed(DecodeError::MissingField(
            EventType::MapMouseEvent,
            Field::Type
        )))
    );
    assert_eq!(
        handle.begin::<Rc<World>>(None, MapEventKind::Load, &payload).err(),
        Some(DispatchError::OwnerDropped)
    );
    assert!(handle.busy());
    assert!(log.borrow().is_empty());
    let mut listener = first.listener;
    assert!(deliver(&mut listener, first.owner, MapEventKind::Load, first.event));
    handle.finish(listener);
    assert!(!handle.busy());
    assert_eq!(*log.borrow(), vec!["load load on w".to_string()]);
    assert_eq!(handle.dispatch(MapEventKind::Load, &payload), Ok(()));
    assert_eq!(log.borrow().len(), 2);
}

#[test]
fn a_handler_that_triggers_a_dispatch_to_its_own_listener_is_not_reentered() {
    let log: Log = Rc::new(RefCell::new(Vec::new()));
    let world = world();
    let listener = Recorder::new(&log);
    let own_id = listener.reenter.clone();
    let id = world.map.borrow_mut().as_mut().unwrap().on(listener).unwrap();
    *own_id.borrow_mut() = Some(id);
    assert_eq!(invoke(&world, &id, MapEventKind::Click, &json(CLICK)), Ok(()));
    let log = log.borrow();
    assert_eq!(log.len(), 2);
    assert!(log[0].starts_with("click click"));
    assert_eq!(log[1], "second dispatch: Err(Refused(ListenerReentrancyConflict))");
}

#[test]
fn a_handler_may_trigger_a_dispatch_to_another_listener() {
    let log: Log = Rc::new(RefCell::new(Vec::new()));
    let world = world();
    let first = Recorder::new(&log);
    let target = first.reenter.clone();
    let first_id = world.map.borrow_mut().as_mut().unwrap().on(first).unwrap();
    let second_id = world.map.borrow_mut().as_mut().unwrap().on(Recorder::new(&log)).unwrap();
    *target.borrow_mut() = Some(second_id);
    assert_eq!(invoke(&world, &first_id, MapEventKind::Click, &json(CLICK)), Ok(()));
    assert_eq!(log.borrow()[1], "second dispatch: Ok(())");
    let map = world.map.borrow();
    assert!(map.as_ref().unwrap().handle(&second_id).unwrap().busy());
    assert!(!map.as_ref().unwrap().handle(&first_id).unwrap().busy());
}

#[test]
fn two_listeners_each_receive_the_event_in_the_matching_method() {
    let first_log: Log = Rc::new(RefCell::new(Vec::new()));
    let second_log: Log = Rc::new(RefCell::new(Vec::new()));
    let world = world();
    let first = world.map.borrow_mut().as_mut().unwrap().on(Recorder::new(&first_log)).unwrap();
    let second = world.map.borrow_mut().as_mut().unwrap().on(Recorder::new(&second_log)).unwrap();
    assert_ne!(first, second);
    assert_eq!(world.map.borrow().as_ref().unwrap().listener_count(), 2);
    for id in [first, second] {
        let res = world.map.borrow_mut().as_mut().unwrap().dispatch(
            &id,
            MapEventKind::Load,
            &json(r#"{"type":"load"}"#),
        );
        assert_eq!(res, Ok(()));
    }
    assert_eq!(*first_log.borrow(), vec!["load load on world".to_string()]);
    assert_eq!(*second_log.borrow(), vec!["load load on world".to_string()]);
    let res = world.map.borrow_mut().as_mut().unwrap().dispatch(
        &first,
        MapEventKind::MouseMove,
        &json(CLICK),
    );
    assert_eq!(res, Ok(()));
    assert_eq!(first_log.borrow().len(), 2);
    assert_eq!(first_log.borrow()[1], "mousemove");
    assert_eq!(second_log.borrow().len(), 1);
}

#[test]
fn an_event_reaches_the_method_of_its_kind_and_no_other() {
    let log: Log = Rc::new(RefCell::new(Vec::new()));
    let world = world();
    let id = world.map.borrow_mut().as_mut().unwrap().on(Recorder::new(&log)).unwrap();
    for kind in [MapEventKind::Resize, MapEventKind::Idle, MapEventKind::Zoom, MapEventKind::Render] {
        let res = world.map.borrow_mut().as_mut().unwrap().dispatch(&id, kind, &json(r#"{"type":"x"}"#));
        assert_eq!(res, Ok(()));
    }
    assert_eq!(*log.borrow(), vec!["resize", "idle", "zoom", "render"]);
}

#[test]
fn every_kind_of_event_reaches_the_method_that_is_named_after_it() {
    let payload = json(
        r#"{"type":"x","originalEvent":{},"point":{"x":1,"y":2},"lngLat":{"lng":3,"lat":4},"dataType":"style"}"#,
    );
    for kind in MapEventKind::all() {
        let log: Log = Rc::new(RefCell::new(Vec::new()));
        let world = world();
        let id = world.map.borrow_mut().as_mut().unwrap().on(Recorder::new(&log)).unwrap();
        let res = if kind == MapEventKind::Error {
            invoke(&world, &id, kind, &Value::string("x"))
        } else {
            invoke(&world, &id, kind, &payload)
        };
        assert_eq!(res, Ok(()), "{:?}", kind);
        let calls = log.borrow();
        assert_eq!(calls.len(), 1, "{:?}", kind);
        let name = calls[0].split(' ').next().unwrap().to_string();
        assert_eq!(name, kind.event_name(), "{:?}", kind);
    }
}

#[test]
fn load_then_click_then_a_mousemove_without_lng_lat() {
    let log: Log = Rc::new(RefCell::new(Vec::new()));
    let world = world();
    let id = world.map.borrow_mut().as_mut().unwrap().on(Recorder::new(&log)).unwrap();

    assert_eq!(MapEventKind::Load.event_name(), "load");
    let res = world.map.borrow_mut().as_mut().unwrap().dispatch(
        &id,
        MapEventKind::Load,
        &json(r#"{"type":"load"}"#),
    );
    assert_eq!(res, Ok(()));
    assert_eq!(*log.borrow(), vec!["load load on world".to_string()]);

    assert_eq!(MapEventKind::Click.event_name(), "click");
    let res = world.map.borrow_mut().as_mut().unwrap().dispatch(&id, MapEventKind::Click, &json(CLICK));
    assert_eq!(res, Ok(()));
    assert_eq!(log.borrow().len(), 2);
    let expected = format!(
        "click click at {:?} {:?} with {:?}",
        Point { x: Number::Int(1), y: Number::Int(2) },
        EventLngLat { lng: num(10.0), lat: num(20.0) },
        Vec::<String>::new()
    );
    assert_eq!(log.borrow()[1], expected);

    assert_eq!(MapEventKind::MouseMove.event_name(), "mousemove");
    let payload = json(r#"{"type":"mousemove","originalEvent":{},"point":{"x":1,"y":2}}"#);
    let res = world.map.borrow_mut().as_mut().unwrap().dispatch(&id, MapEventKind::MouseMove, &payload);
    let expected = DecodeError::MissingField(EventType::MapMouseEvent, Field::LngLat);
    assert_eq!(res, Err(MapDispatchError::Refused(DispatchError::PayloadDecodeFailed(expected))));
    assert_eq!(log.borrow().len(), 2);
    assert!(expected.into_error().message().contains("\"lngLat\""));
    match expected.into_error() {
        Error::BadEventFormat(event, reason) => {
            assert_eq!(event, "MapMouseEvent");
            assert_eq!(reason, "property \"lngLat\" is missing");
        }
        other => panic!("unexpected error {:?}", other),
    }
}

#[test]
fn the_message_of_an_error_event_reaches_on_error() {
    let log: Log = Rc::new(RefCell::new(Vec::new()));
    let world = world();
    let id = world.map.borrow_mut().as_mut().unwrap().on(Recorder::new(&log)).unwrap();
    let res = world.map.borrow_mut().as_mut().unwrap().dispatch(
        &id,
        MapEventKind::Error,
        &json("\"style not found\""),
    );
    assert_eq!(res, Ok(()));
    assert_eq!(*log.borrow(), vec!["error style not found".to_string()]);
}

#[test]
fn an_identifier_that_was_never_issued_reaches_nobody() {
    let log: Log = Rc::new(RefCell::new(Vec::new()));
    let world = world();
    let id = world.map.borrow_mut().as_mut().unwrap().on(Recorder::new(&log)).unwrap();
    let other = MapListenerId(id.0 ^ 1);
    let res = world.map.borrow_mut().as_mut().unwrap().dispatch(
        &other,
        MapEventKind::Load,
        &json(r#"{"type":"load"}"#),
    );
    assert_eq!(res, Err(MapDispatchError::NotRegistered));
    assert!(log.borrow().is_empty());
    assert!(world.map.borrow().as_ref().unwrap().has_listener(&id));
    assert!(!world.map.borrow().as_ref().unwrap().has_listener(&other));
}

#[test]
fn a_map_whose_owner_is_gone_registers_a_listener_that_nothing_reaches() {
    let log: Log = Rc::new(RefCell::new(Vec::new()));
    let mut map: MapboxMap<WeakWorld, Recorder, String, ()> =
        MapboxMap::new(options(), WeakWorld(Weak::new())).unwrap();
    assert!(map.weak_reference().upgrade().is_none());
    assert_eq!(map.listener_count(), 0);
    let id = map.on(Recorder::new(&log)).unwrap();
    let on_roads = map.on_layer("roads", Recorder::new(&log)).unwrap();
    assert_ne!(id, on_roads);
    assert_eq!(map.listener_count(), 2);
    assert_eq!(
        map.dispatch(&id, MapEventKind::Load, &json(r#"{"type":"load"}"#)),
        Err(MapDispatchError::Refused(DispatchError::OwnerDropped))
    );
    assert!(log.borrow().is_empty());
}

#[test]
fn a_handle_subscribes_to_every_kind_under_its_event_name() {
    let log: Log = Rc::new(RefCell::new(Vec::new()));
    let handle = Handle::new(WeakWorld(Weak::new()), Recorder::new(&log));
    let subscriptions = handle.subscriptions();
    assert_eq!(subscriptions.len(), 48);
    let kinds = MapEventKind::all();
    for (subscription, kind) in subscriptions.iter().zip(kinds.iter()) {
        assert_eq!(subscription.kind, *kind);
        assert_eq!(subscription.event, kind.event_name());
        assert_eq!(subscription.layer, None);
    }
    assert_eq!(subscriptions[0].event, "resize");
    assert_eq!(subscriptions[47].event, "error");
    let handle = Handle::for_layer(WeakWorld(Weak::new()), "roads", Recorder::new(&log));
    let subscriptions = handle.subscriptions();
    assert_eq!(subscriptions.len(), 48);
    assert!(subscriptions.iter().all(|s| s.layer.as_deref() == Some("roads")));
}

#[test]
fn an_event_of_the_wrong_type_is_delivered_to_no_method() {
    let log: Log = Rc::new(RefCell::new(Vec::new()));
    let owner = Rc::new(World { name: "w", map: RefCell::new(None) });
    let mut listener = Recorder::new(&log);
    let event = TypedEvent::Base(MapBaseEvent { type_: "load".to_string() });
    assert!(!deliver(&mut listener, owner.clone(), MapEventKind::Click, event.clone()));
    assert!(!deliver(&mut listener, owner.clone(), MapEventKind::Error, event.clone()));
    assert!(log.borrow().is_empty());
    assert!(deliver(&mut listener, owner, MapEventKind::Load, event));
    assert_eq!(log.borrow().len(), 1);
}

#[test]
fn markers_are_kept_under_the_identifiers_they_were_added_under() {
    let mut map: MapboxMap<WeakWorld, Recorder, String, ()> =
        MapboxMap::new(options(), WeakWorld(Weak::new())).unwrap();
    let first = map.add_marker("first".to_string());
    let second = map.add_marker("second".to_string());
    assert_ne!(first, second);
    assert_eq!(map.marker_count(), 2);
    assert!(map.has_marker(&first));
    assert_eq!(map.marker(&second).map(|m| m.as_str()), Some("second"));
    assert_eq!(map.remove_marker(&first), "first");
    assert!(!map.has_marker(&first));
    assert!(map.marker(&first).is_none());
    assert_eq!(map.marker_count(), 1);
    assert_eq!(map.remove_marker(&second), "second");
    assert_eq!(map.marker_count(), 0);
}

#[test]
fn every_registration_is_under_an_identifier_of_its_own() {
    let log: Log = Rc::new(RefCell::new(Vec::new()));
    let world = world();
    let mut seen = std::collections::HashSet::new();
    for _ in 0..10_000 {
        let id = world.map.borrow_mut().as_mut().unwrap().on(Recorder::new(&log)).unwrap();
        assert!(seen.insert(id));
    }
    assert_eq!(world.map.borrow().as_ref().unwrap().listener_count(), 10_000);
    let mut markers = std::collections::HashSet::new();
    for n in 0..10_000 {
        let id = world.map.borrow_mut().as_mut().unwrap().add_marker(format!("marker {}", n));
        assert!(markers.insert(id));
    }
    assert_eq!(world.map.borrow().as_ref().unwrap().marker_count(), 10_000);
}

#[test]
fn an_identifier_is_not_issued_again_once_its_registration_is_gone() {
    let world = world();
    let mut seen = std::collections::HashSet::new();
    let mut guard = world.map.borrow_mut();
    let map = guard.as_mut().unwrap();
    for n in 0..1_000 {
        let id = map.add_marker(format!("marker {n}"));
        assert!(seen.insert(id.0));
        assert_eq!(map.remove_marker(&id), format!("marker {n}"));
        assert_eq!(map.marker_count(), 0);
        let listener = map.on(Recorder::new(&Log::default())).unwrap();
        assert!(seen.insert(listener.0));
    }
    assert_eq!(map.listener_count(), 1_000);
}
