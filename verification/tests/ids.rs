use mapboxgl::id::{first_free_from, fresh_token, CallbackId, Issued, MapListenerId, MarkerId};
use std::collections::{HashMap, HashSet};

const MASK: u128 = 0x00000000_0000_f000_c000_000000000000;
const MARKS: u128 = 0x00000000_0000_4000_8000_000000000000;

#[test]
fn a_million_listener_ids_are_distinct() {
    let mut seen = HashSet::new();
    for _ in 0..1_000_000 {
        assert!(seen.insert(MapListenerId::new_id()));
    }
    assert_eq!(seen.len(), 1_000_000);
}

#[test]
fn marker_ids_are_distinct() {
    let mut seen = HashSet::new();
    for _ in 0..10_000 {
        assert!(seen.insert(MarkerId::new_id()));
    }
}

#[test]
fn callback_ids_are_distinct() {
    let mut seen = HashSet::new();
    for _ in 0..10_000 {
        assert!(seen.insert(CallbackId::new_id()));
    }
}

#[test]
fn ids_carry_the_marks_of_a_random_token() {
    for _ in 0..100 {
        assert_eq!(MapListenerId::new_id().0 & MASK, MARKS);
        assert_eq!(MarkerId::new_id().0 & MASK, MARKS);
        assert_eq!(CallbackId::new_id().0 & MASK, MARKS);
    }
}

#[test]
fn ids_of_one_kind_compare_by_their_token() {
    assert_eq!(MapListenerId(7), MapListenerId(7));
    assert_ne!(MapListenerId(7), MapListenerId(8));
    assert_eq!(MarkerId(7), MarkerId(7));
    assert_ne!(CallbackId(1), CallbackId(2));
}

#[test]
fn the_first_free_token_is_the_start_itself_where_that_is_free() {
    let taken: HashMap<u128, ()> = HashMap::new();
    assert_eq!(first_free_from(0, &taken), 0);
    assert_eq!(first_free_from(41, &taken), 41);
    assert_eq!(first_free_from(u128::MAX, &taken), u128::MAX);
}

#[test]
fn the_first_free_token_lies_behind_every_taken_one_from_the_start_on() {
    let mut taken = HashMap::new();
    for token in [5u128, 6, 7, 9] {
        taken.insert(token, "taken");
    }
    assert_eq!(first_free_from(5, &taken), 8);
    assert_eq!(first_free_from(6, &taken), 8);
    assert_eq!(first_free_from(8, &taken), 8);
    assert_eq!(first_free_from(9, &taken), 10);
    assert_eq!(first_free_from(4, &taken), 4);
}

#[test]
fn the_search_for_a_free_token_goes_on_from_zero_behind_the_largest() {
    let mut taken = HashMap::new();
    taken.insert(u128::MAX, ());
    taken.insert(u128::MAX - 1, ());
    taken.insert(0, ());
    assert_eq!(first_free_from(u128::MAX - 1, &taken), 1);
    assert_eq!(first_free_from(u128::MAX, &taken), 1);
}

#[test]
fn a_fresh_token_is_not_taken() {
    let mut taken = HashMap::new();
    for _ in 0..1_000 {
        let token = fresh_token(&taken);
        assert!(taken.insert(token, ()).is_none());
    }
}

#[test]
fn no_token_is_issued_twice() {
    let mut issued = Issued::new();
    let mut seen = HashSet::new();
    for _ in 0..10_000 {
        let token = issued.issue();
        assert!(issued.contains(token));
        assert!(seen.insert(token));
    }
    assert!(!issued.contains(3));
    issued.record(3);
    assert!(issued.contains(3));
    for _ in 0..100 {
        assert_ne!(issued.issue(), 3);
    }
}
