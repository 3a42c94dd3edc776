//! The sources that are added to a map while it runs.

use vstd::prelude::*;
use crate::wire::{
    distinct_keys, flatten, law_lookup_of_distinct_keys, lemma_placed_keys_are_distinct,
    lemma_required_round_trip, lookup, read_required, required, FromWire, ObjectBuilder, Slots,
    ToWire, Value, ValueView,
};

verus! {

/// A GeoJSON source: the type `geojson` and the data, which is a document or
/// the URL of one.
#[derive(Debug, Clone)]
pub struct GeoJsonSourceSpec<S> {
    pub type_: String,
    pub data: S,
}

impl<S> GeoJsonSourceSpec<S> {
    /// The GeoJSON source with the given data.
    pub fn new(data: S) -> (res: GeoJsonSourceSpec<S>)
        ensures
            res.type_@ == "geojson"@,
            res.data == data,
    {
        GeoJsonSourceSpec { type_: "geojson".to_owned(), data }
    }
}

impl<S: ToWire> GeoJsonSourceSpec<S> {
    /// The properties of the wire form, in order.
    pub open spec fn slots(&self) -> Slots {
        seq![("type"@, Some(self.type_.wire())), ("data"@, Some(self.data.wire()))]
    }

    /// The place of the field with the wire name `key`, which the length of
    /// the name and a few of its characters tell.
    spec fn place_of(key: Seq<char>) -> int {
        if key.len() == 4 && key[0] == 't' {
            0
        } else if key.len() == 4 && key[0] == 'd' {
            1
        } else {
            -1
        }
    }

    /// No two fields have one wire name. So looking the wire name of a
    /// field up in the wire form finds the wire form of that field where it
    /// is set, and nothing where it is unset.
    pub proof fn law_wire_names_are_distinct(&self)
        ensures
            distinct_keys(self.slots()),
            forall|i: int|
                0 <= i < self.slots().len() ==> lookup(
                    flatten(self.slots()),
                    (#[trigger] self.slots()[i]).0,
                ) == self.slots()[i].1,
    {
        reveal_strlit("type");
        reveal_strlit("data");
        let slots = self.slots();
        assert(GeoJsonSourceSpec::<S>::place_of(slots[0].0) == 0);
        assert(GeoJsonSourceSpec::<S>::place_of(slots[1].0) == 1);
        assert forall|i: int| 0 <= i < slots.len() implies GeoJsonSourceSpec::<S>::place_of(
            (#[trigger] slots[i]).0,
        ) - 0 == i by {
        }
        lemma_placed_keys_are_distinct(slots, |key: Seq<char>| GeoJsonSourceSpec::<S>::place_of(key) - 0);
        assert forall|i: int| 0 <= i < slots.len() implies lookup(
            flatten(slots),
            (#[trigger] slots[i]).0,
        ) == slots[i].1 by {
            law_lookup_of_distinct_keys(slots, i);
        }
    }
}

impl<S: ToWire> ToWire for GeoJsonSourceSpec<S> {
    /// The object `{type, data}`.
    open spec fn wire(&self) -> ValueView {
        ValueView::Object(flatten(self.slots()))
    }

    fn to_wire(&self) -> (value: Value) {
        let mut b = ObjectBuilder::new();
        b.wire("type", &self.type_);
        b.wire("data", &self.data);
        assert(b@ =~= self.slots());
        b.finish()
    }
}

impl<S: FromWire> FromWire for GeoJsonSourceSpec<S> {
    /// A GeoJSON source is read from an object that holds `type` and `data`.
    /// Properties of other names are passed over.
    open spec fn spec_read(value: ValueView) -> Option<ValueView> {
        if value is Object && read_required::<String>(value.get("type"@)) is Some && read_required::<S>(value.get("data"@)) is Some {
            Some(
                ValueView::Object(
                    flatten(
                        seq![
                            ("type"@, read_required::<String>(value.get("type"@))->Some_0),
                            ("data"@, read_required::<S>(value.get("data"@))->Some_0),
                        ],
                    ),
                ),
            )
        } else {
            None
        }
    }

    open spec fn comes_back(&self) -> bool {
        self.type_.comes_back() && self.data.comes_back()
    }

    fn from_wire(value: &Value) -> (res: Option<GeoJsonSourceSpec<S>>) {
        match value {
            Value::Object(_) => {},
            _ => {
                return None;
            },
        }
        let type_ = match required::<String>(value.get("type")) {
            Some(read) => read,
            None => {
                return None;
            },
        };
        let data = match required::<S>(value.get("data")) {
            Some(read) => read,
            None => {
                return None;
            },
        };
        Some(GeoJsonSourceSpec { type_, data })
    }

    proof fn law_round_trip(&self) {
        let slots = self.slots();
        self.law_wire_names_are_distinct();
        assert(self.wire().get(slots[0].0) == slots[0].1);
        lemma_required_round_trip::<String>(self.type_);
        assert(self.wire().get(slots[1].0) == slots[1].1);
        lemma_required_round_trip::<S>(self.data);
    }
}

/// A vector source: the type `vector` and the URL of the tiles.
#[derive(Debug, Clone)]
pub struct VectorSourceSpec {
    pub type_: String,
    pub url: String,
}

impl VectorSourceSpec {
    /// The vector source with the given URL.
    pub fn new(url: &str) -> (res: VectorSourceSpec)
        ensures
            res.type_@ == "vector"@,
            res.url@ == url@,
    {
        VectorSourceSpec { type_: "vector".to_owned(), url: url.to_owned() }
    }
}

impl VectorSourceSpec {
    /// The properties of the wire form, in order.
    pub open spec fn slots(&self) -> Slots {
        seq![("type"@, Some(self.type_.wire())), ("url"@, Some(self.url.wire()))]
    }

    /// The place of the field with the wire name `key`, which the length of
    /// the name and a few of its characters tell.
    spec fn place_of(key: Seq<char>) -> int {
        if key.len() == 4 {
            0
        } else if key.len() == 3 {
            1
        } else {
            -1
        }
    }

    /// No two fields have one wire name. So looking the wire name of a
    /// field up in the wire form finds the wire form of that field where it
    /// is set, and nothing where it is unset.
    pub proof fn law_wire_names_are_distinct(&self)
        ensures
            distinct_keys(self.slots()),
            forall|i: int|
                0 <= i < self.slots().len() ==> lookup(
                    flatten(self.slots()),
                    (#[trigger] self.slots()[i]).0,
                ) == self.slots()[i].1,
    {
        reveal_strlit("type");
        reveal_strlit("url");
        let slots = self.slots();
        assert(VectorSourceSpec::place_of(slots[0].0) == 0);
        assert(VectorSourceSpec::place_of(slots[1].0) == 1);
        assert forall|i: int| 0 <= i < slots.len() implies VectorSourceSpec::place_of(
            (#[trigger] slots[i]).0,
        ) - 0 == i by {
        }
        lemma_placed_keys_are_distinct(slots, |key: Seq<char>| VectorSourceSpec::place_of(key) - 0);
        assert forall|i: int| 0 <= i < slots.len() implies lookup(
            flatten(slots),
            (#[trigger] slots[i]).0,
        ) == slots[i].1 by {
            law_lookup_of_distinct_keys(slots, i);
        }
    }
}

impl ToWire for VectorSourceSpec {
    /// The object `{type, url}`.
    open spec fn wire(&self) -> ValueView {
        ValueView::Object(flatten(self.slots()))
    }

    fn to_wire(&self) -> (value: Value) {
        let mut b = ObjectBuilder::new();
        b.wire("type", &self.type_);
        b.wire("url", &self.url);
        assert(b@ =~= self.slots());
        b.finish()
    }
}

impl FromWire for VectorSourceSpec {
    /// A vector source is read from an object that holds `type` and `url`.
    /// Properties of other names are passed over.
    open spec fn spec_read(value: ValueView) -> Option<ValueView> {
        if value is Object && read_required::<String>(value.get("type"@)) is Some && read_required::<String>(value.get("url"@)) is Some {
            Some(
                ValueView::Object(
                    flatten(
                        seq![
                            ("type"@, read_required::<String>(value.get("type"@))->Some_0),
                            ("url"@, read_required::<String>(value.get("url"@))->Some_0),
                        ],
                    ),
                ),
            )
        } else {
            None
        }
    }

    open spec fn comes_back(&self) -> bool {
        self.type_.comes_back() && self.url.comes_back()
    }

    fn from_wire(value: &Value) -> (res: Option<VectorSourceSpec>) {
        match value {
            Value::Object(_) => {},
            _ => {
                return None;
            },
        }
        let type_ = match required::<String>(value.get("type")) {
            Some(read) => read,
            None => {
                return None;
            },
        };
        let url = match required::<String>(value.get("url")) {
            Some(read) => read,
            None => {
                return None;
            },
        };
        Some(VectorSourceSpec { type_, url })
    }

    proof fn law_round_trip(&self) {
        let slots = self.slots();
        self.law_wire_names_are_distinct();
        assert(self.wire().get(slots[0].0) == slots[0].1);
        lemma_required_round_trip::<String>(self.type_);
        assert(self.wire().get(slots[1].0) == slots[1].1);
        lemma_required_round_trip::<String>(self.url);
    }
}

/// A GeoJSON source of a map. `S` is the engine's own handle to it.
#[derive(Debug, Clone)]
pub struct GeoJsonSource<S> {
    pub inner: S,
}

} // verus!
