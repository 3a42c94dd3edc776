use mapboxgl::callback::CallbackStore;
use mapboxgl::id::CallbackId;
use mapboxgl::image::{load_image_result, ImageOptions};
use mapboxgl::map::MapboxMap;
use mapboxgl::options::MapOptions;
use mapboxgl::wire::{Number, ToWire, Value};
use mapboxgl::Error;

fn num(x: f64) -> Number {
    Number::Real(x.to_bits())
}

fn to_json(value: &Value) -> serde_json::Value {
    match value {
        Value::Null => serde_json::Value::Null,
        Value::Bool(b) => serde_json::Value::Bool(*b),
        Value::Number(Number::Int(n)) => serde_json::Value::from(*n),
        Value::Number(Number::Real(bits)) => serde_json::Value::from(f64::from_bits(*bits)),
        Value::String(s) => serde_json::Value::String(s.clone()),
        Value::Array(items) => serde_json::Value::Array(items.iter().map(to_json).collect()),
        Value::Object(entries) => serde_json::Value::Object(
            entries.iter().map(|(k, v)| (k.clone(), to_json(v))).collect(),
        ),
    }
}

fn parse(text: &str) -> serde_json::Value {
    serde_json::from_str(text).unwrap()
}

fn conflict(outcome: Result<(), Error>) -> bool {
    matches!(outcome, Err(Error::Unexpected(reason)) if reason == "Couldn't borrow cbs: already borrowed")
}

#[test]
fn a_new_store_retains_nothing() {
    let store: CallbackStore<String> = CallbackStore::new();
    assert_eq!(store.len(), 0);
    assert!(store.get(&CallbackId(1)).is_none());
}

#[test]
fn a_store_retains_what_is_added_until_it_is_removed() {
    let mut store = CallbackStore::new();
    assert!(store.add(CallbackId(1), "one".to_string()).is_ok());
    assert!(store.add(CallbackId(2), "two".to_string()).is_ok());
    assert_eq!(store.len(), 2);
    assert_eq!(store.get(&CallbackId(1)).map(|s| s.as_str()), Some("one"));
    assert_eq!(store.get(&CallbackId(2)).map(|s| s.as_str()), Some("two"));
    assert!(store.remove(&CallbackId(1)).is_ok());
    assert!(store.get(&CallbackId(1)).is_none());
    assert_eq!(store.len(), 1);
    assert_eq!(store.get(&CallbackId(2)).map(|s| s.as_str()), Some("two"));
}

#[test]
fn adding_under_an_identifier_twice_keeps_the_later_callback() {
    let mut store = CallbackStore::new();
    assert!(store.add(CallbackId(1), "one".to_string()).is_ok());
    assert!(store.add(CallbackId(1), "uno".to_string()).is_ok());
    assert_eq!(store.len(), 1);
    assert_eq!(store.get(&CallbackId(1)).map(|s| s.as_str()), Some("uno"));
}

#[test]
fn removing_what_is_not_there_succeeds_without_effect() {
    let mut store = CallbackStore::new();
    assert!(store.remove(&CallbackId(9)).is_ok());
    assert!(store.add(CallbackId(1), 1u8).is_ok());
    assert!(store.remove(&CallbackId(9)).is_ok());
    assert_eq!(store.len(), 1);
    assert!(store.remove(&CallbackId(1)).is_ok());
    assert!(store.remove(&CallbackId(1)).is_ok());
    assert_eq!(store.len(), 0);
}

#[test]
fn a_borrowed_store_refuses_to_change() {
    let mut store = CallbackStore::new();
    assert!(store.add(CallbackId(1), "one".to_string()).is_ok());
    assert!(store.try_borrow_mut().is_ok());
    assert!(conflict(store.try_borrow_mut()));
    assert!(conflict(store.add(CallbackId(2), "two".to_string())));
    assert!(conflict(store.remove(&CallbackId(1))));
    assert_eq!(store.len(), 1);
    assert_eq!(store.get(&CallbackId(1)).map(|s| s.as_str()), Some("one"));
    assert!(store.get(&CallbackId(2)).is_none());
    store.release();
    assert!(store.add(CallbackId(2), "two".to_string()).is_ok());
    assert!(store.remove(&CallbackId(1)).is_ok());
    assert_eq!(store.len(), 1);
    assert!(store.try_borrow_mut().is_ok());
}

#[test]
fn a_map_retains_the_callbacks_of_its_image_loads() {
    let options = MapOptions::new("t".to_string(), "c".to_string());
    let mut map: MapboxMap<(), (), (), String> = MapboxMap::new(options, ()).unwrap();
    let id = map.new_callback_id();
    assert!(map.image_callback(&id).is_none());
    assert!(map.retain_image_callback(id, "cat.png".to_string()).is_ok());
    assert_eq!(map.image_callback(&id).map(|s| s.as_str()), Some("cat.png"));
    assert!(map.release_image_callback(&id).is_ok());
    assert!(map.image_callback(&id).is_none());
    assert!(map.release_image_callback(&id).is_ok());
}

#[test]
fn an_image_is_loaded_when_the_engine_reports_null() {
    let loaded = load_image_result(&Value::Null, 42u32).unwrap();
    assert_eq!(loaded.inner, 42);
}

#[test]
fn an_image_is_not_loaded_when_the_engine_reports_anything_else() {
    let reports = [
        Value::string("404"),
        Value::Bool(false),
        Value::Number(Number::Int(0)),
        Value::Object(vec![]),
        Value::Array(vec![]),
    ];
    for report in reports {
        match load_image_result(&report, 42u32) {
            Err(Error::LoadImage(failure)) => {
                assert_eq!(format!("{:?}", failure), format!("{:?}", report))
            }
            _ => panic!("an image was loaded in spite of {:?}", report),
        }
    }
}

#[test]
fn a_failed_image_load_is_described_by_what_the_engine_reported() {
    match load_image_result(&Value::string("404 Not Found"), ()) {
        Err(error) => assert_eq!(error.message(), "Failed to load image: 404 Not Found"),
        Ok(_) => panic!("an image was loaded"),
    }
    match load_image_result(&Value::Bool(true), ()) {
        Err(error) => assert_eq!(error.message(), "Failed to load image"),
        Ok(_) => panic!("an image was loaded"),
    }
}

#[test]
fn image_options_leave_out_what_is_unset() {
    assert_eq!(to_json(&ImageOptions::default().to_wire()), parse("{}"));
    let options = ImageOptions {
        content: Some((num(1.0), num(2.0), num(3.0), num(4.0))),
        pixcel_ratio: Some(num(2.0)),
        sdf: Some(true),
        stretch_x: vec![(num(0.0), num(8.0)), (num(16.0), num(24.0))],
        stretch_y: vec![],
    };
    assert_eq!(
        to_json(&options.to_wire()),
        parse(
            r#"{"content":[1.0,2.0,3.0,4.0],"pixcelRatio":2.0,"sdf":true,"stretchX":[[0.0,8.0],[16.0,24.0]]}"#
        )
    );
}

#[test]
fn a_store_issues_identifiers_under_which_it_retains_nothing() {
    let mut store = CallbackStore::new();
    for n in 0..10_000u32 {
        let id = store.fresh_id();
        assert!(store.get(&id).is_none());
        assert!(store.add(id, n).is_ok());
    }
    assert_eq!(store.len(), 10_000);
    let options = MapOptions::new("t".to_string(), "c".to_string());
    let mut map: MapboxMap<(), (), (), u32> = MapboxMap::new(options, ()).unwrap();
    let first = map.new_callback_id();
    assert!(map.retain_image_callback(first, 1).is_ok());
    let second = map.new_callback_id();
    assert_ne!(first, second);
    assert!(map.image_callback(&second).is_none());
}

#[test]
fn a_map_whose_store_is_borrowed_retains_and_releases_nothing() {
    let options = MapOptions::new("t".to_string(), "c".to_string());
    let mut map: MapboxMap<(), (), (), u32> = MapboxMap::new(options, ()).unwrap();
    let id = map.new_callback_id();
    assert!(map.retain_image_callback(id, 1).is_ok());
    assert!(map.borrow_image_callbacks().is_ok());
    match map.borrow_image_callbacks() {
        Err(e) => assert_eq!(e.message(), "Error: Couldn't borrow cbs: already borrowed"),
        Ok(()) => panic!("the store was borrowed twice"),
    }
    let other = map.new_callback_id();
    assert_ne!(other, id);
    match map.retain_image_callback(other, 2) {
        Err(e) => assert_eq!(e.message(), "Error: Couldn't borrow cbs: already borrowed"),
        Ok(()) => panic!("a borrowed store retained a callback"),
    }
    assert!(map.image_callback(&other).is_none());
    match map.release_image_callback(&id) {
        Err(e) => assert_eq!(e.message(), "Error: Couldn't borrow cbs: already borrowed"),
        Ok(()) => panic!("a borrowed store let go of a callback"),
    }
    assert_eq!(map.image_callback(&id), Some(&1));
    map.return_image_callbacks();
    assert!(map.release_image_callback(&id).is_ok());
    assert!(map.image_callback(&id).is_none());
    assert!(map.retain_image_callback(other, 2).is_ok());
}

#[test]
fn a_store_never_issues_an_identifier_again() {
    let mut store: CallbackStore<u32> = CallbackStore::new();
    let mut seen = std::collections::HashSet::new();
    for n in 0..1_000u32 {
        let id = store.fresh_id();
        assert!(seen.insert(id));
        assert!(store.add(id, n).is_ok());
        assert!(store.remove(&id).is_ok());
    }
    assert_eq!(store.len(), 0);
    assert!(store.add(CallbackId(77), 0).is_ok());
    assert!(store.remove(&CallbackId(77)).is_ok());
    for _ in 0..100 {
        assert_ne!(store.fresh_id(), CallbackId(77));
    }
}
