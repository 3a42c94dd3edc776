//! Popups: a position and what the popup is built from.

use vstd::prelude::*;
use crate::lnglat::LngLat;
use crate::wire::{
    distinct_keys, flatten, law_lookup_of_distinct_keys, lemma_list_round_trip,
    lemma_optional_round_trip, lemma_placed_keys_are_distinct, lemma_required_round_trip,
    list, list_comes_back, lookup, nonempty_wire, optional, optional_comes_back, optional_wire,
    read_list, read_optional, read_required, required, str_eq, FromWire, Number, ObjectBuilder,
    Slots, ToWire, Value, ValueView,
};

verus! {

/// What a popup is built with.
#[derive(Debug, Clone)]
pub struct PopupOptions {
    pub class_name: Option<String>,
}

impl Default for PopupOptions {
    /// Every optional field is unset.
    fn default() -> (res: PopupOptions)
        ensures
            res.class_name is None,
    {
        PopupOptions {
            class_name: None,
        }
    }
}

impl PopupOptions {
    /// The options with nothing set.
    pub fn new() -> (res: PopupOptions)
        ensures
            res.class_name is None,
    {
        PopupOptions { class_name: None }
    }

    /// Encodes the options as the configuration that the engine builds a
    /// popup from.
    pub fn build(&self) -> (res: Value)
        ensures
            res@ == self.wire(),
    {
        self.to_wire()
    }

    /// The properties of the wire form, in order: each field under its wire
    /// name, with its wire form where it is set.
    pub open spec fn slots(&self) -> Slots {
        seq![
            ("className"@, optional_wire(self.class_name)),
        ]
    }

    /// Offers every field to a builder, in order.
    pub fn to_entries(&self) -> (b: ObjectBuilder)
        ensures
            b.wf(),
            b@ == self.slots(),
    {
        let mut b = ObjectBuilder::new();
        b.optional_wire("className", &self.class_name);
        b
    }

    /// The place of the field with the wire name `key`, which the length of
    /// the name and a few of its characters tell.
    spec fn place_of(key: Seq<char>) -> int {
        if key.len() == 9 {
            0
        } else {
            -1
        }
    }

    /// No two fields have one wire name. So looking the wire name of a
    /// field up in the wire form finds the wire form of that field where it
    /// is set, and nothing where it is unset.
    pub proof fn law_wire_names_are_distinct(&self)
        ensures
            distinct_keys(self.slots()),
            forall|i: int|
                0 <= i < self.slots().len() ==> lookup(
                    flatten(self.slots()),
                    (#[trigger] self.slots()[i]).0,
                ) == self.slots()[i].1,
    {
        reveal_strlit("className");
        let slots = self.slots();
        assert(PopupOptions::place_of(slots[0].0) == 0);
        assert forall|i: int| 0 <= i < slots.len() implies PopupOptions::place_of(
            (#[trigger] slots[i]).0,
        ) - 0 == i by {
        }
        lemma_placed_keys_are_distinct(slots, |key: Seq<char>| PopupOptions::place_of(key) - 0);
        assert forall|i: int| 0 <= i < slots.len() implies lookup(
            flatten(slots),
            (#[trigger] slots[i]).0,
        ) == slots[i].1 by {
            law_lookup_of_distinct_keys(slots, i);
        }
    }
}

impl ToWire for PopupOptions {
    /// The object of the fields that are set.
    open spec fn wire(&self) -> ValueView {
        ValueView::Object(flatten(self.slots()))
    }

    fn to_wire(&self) -> (value: Value) {
        self.to_entries().finish()
    }
}

impl PopupOptions {
    /// Whether every property of a wire value can be read: what must be there
    /// is there, and what is there has the right shape.
    pub open spec fn all_read(value: ValueView) -> bool {
        &&& read_optional::<String>(value.get("className"@)) is Some
    }

    /// The slots that the properties of a wire value are read as, in order.
    pub open spec fn read_slots(value: ValueView) -> Slots {
        seq![
            ("className"@, read_optional::<String>(value.get("className"@))->Some_0),
        ]
    }

    /// Reading an object in which looking up the name of each property of
    /// the value finds that property gives the value back.
    pub proof fn lemma_read_from(&self, entries: Seq<(Seq<char>, ValueView)>)
        requires
            self.comes_back(),
            forall|i: int|
                0 <= i < self.slots().len() ==> lookup(entries, (#[trigger] self.slots()[i]).0)
                    == self.slots()[i].1,
        ensures
            Self::spec_read(ValueView::Object(entries)) == Some(self.wire()),
    {
        let value = ValueView::Object(entries);
        let slots = self.slots();
        assert(value.get(slots[0].0) == slots[0].1);
        lemma_optional_round_trip::<String>(self.class_name);
    }
}

impl FromWire for PopupOptions {
    /// The value is read from an object, property by property. Properties of
    /// other names are passed over.
    open spec fn spec_read(value: ValueView) -> Option<ValueView> {
        if value is Object && Self::all_read(value) {
            Some(ValueView::Object(flatten(Self::read_slots(value))))
        } else {
            None
        }
    }

    open spec fn comes_back(&self) -> bool {
        &&& optional_comes_back(self.class_name)
    }

    fn from_wire(value: &Value) -> (res: Option<PopupOptions>) {
        match value {
            Value::Object(_) => {},
            _ => {
                return None;
            },
        }
        let class_name = match optional::<String>(value.get("className")) {
            Some(read) => read,
            None => {
                return None;
            },
        };
        Some(PopupOptions { class_name })
    }

    proof fn law_round_trip(&self) {
        self.law_wire_names_are_distinct();
        self.lemma_read_from(flatten(self.slots()));
    }
}

/// A popup: where it opens, and the configuration that its engine object is
/// built from.
#[derive(Debug, Clone)]
pub struct Popup {
    latlng: LngLat,
    config: Value,
}

impl Popup {
    /// Where the popup opens.
    pub closed spec fn position(&self) -> LngLat {
        self.latlng
    }

    /// The configuration that the engine object of the popup is built from.
    pub closed spec fn config(&self) -> ValueView {
        self.config@
    }

    /// A popup that opens at `latlng`, built with `options`.
    pub fn new(latlng: LngLat, options: PopupOptions) -> (res: Popup)
        ensures
            res.position() == latlng,
            res.config() == options.wire(),
    {
        Popup { latlng, config: options.build() }
    }

    /// Where the popup opens.
    pub fn lnglat(&self) -> (res: LngLat)
        ensures
            res == self.position(),
    {
        self.latlng
    }

    /// The configuration that the engine object of the popup is built from.
    pub fn configuration(&self) -> (res: &Value)
        ensures
            res@ == self.config(),
    {
        &self.config
    }
}

} // verus!
