//! Positions on the globe and the boxes that two of them span.

use vstd::prelude::*;
use crate::wire::{
    distinct_keys, flatten, items_view, law_lookup_of_distinct_keys,
    lemma_placed_keys_are_distinct, lookup, FromWire, Number, ObjectBuilder, Slots, ToWire,
    Value, ValueView,
};

verus! {

/// A position on the globe: longitude and latitude, in degrees.
#[derive(Debug, Clone, Copy, PartialEq, Eq, Structural)]
pub struct LngLat {
    lng: Number,
    lat: Number,
}

impl LngLat {
    /// The position with the given longitude and latitude.
    pub fn new(lng: Number, lat: Number) -> (res: LngLat)
        ensures
            res.lng() == lng,
            res.lat() == lat,
    {
        LngLat { lng, lat }
    }

    pub closed spec fn spec_lng(&self) -> Number {
        self.lng
    }

    pub closed spec fn spec_lat(&self) -> Number {
        self.lat
    }

    /// The longitude.
    #[verifier::when_used_as_spec(spec_lng)]
    pub fn lng(&self) -> (res: Number)
        ensures
            res == self.lng(),
    {
        self.lng
    }

    /// The latitude.
    #[verifier::when_used_as_spec(spec_lat)]
    pub fn lat(&self) -> (res: Number)
        ensures
            res == self.lat(),
    {
        self.lat
    }

    /// Replaces the longitude and keeps the latitude.
    pub fn set_lng(&mut self, v: Number)
        ensures
            final(self).lng() == v,
            final(self).lat() == old(self).lat(),
    {
        self.lng = v;
    }

    /// Replaces the latitude and keeps the longitude.
    pub fn set_lat(&mut self, v: Number)
        ensures
            final(self).lat() == v,
            final(self).lng() == old(self).lng(),
    {
        self.lat = v;
    }

    /// The pair `[lng, lat]`.
    pub fn to_array(&self) -> (res: Vec<Number>)
        ensures
            res@ == seq![self.lng(), self.lat()],
    {
        let mut res: Vec<Number> = Vec::new();
        res.push(self.lng);
        res.push(self.lat);
        assert(res@ =~= seq![self.lng(), self.lat()]);
        res
    }

    /// The position as the array `[lng, lat]`, the form in which a camera
    /// takes its center.
    pub open spec fn array_wire(&self) -> ValueView {
        ValueView::Array(seq![ValueView::Number(self.lng()), ValueView::Number(self.lat())])
    }

    /// Encodes the position as the array `[lng, lat]`.
    pub fn to_wire_array(&self) -> (res: Value)
        ensures
            res@ == self.array_wire(),
    {
        let mut items: Vec<Value> = Vec::new();
        items.push(Value::Number(self.lng));
        items.push(Value::Number(self.lat));
        assert(items_view(items@) =~= self.array_wire()->Array_0);
        Value::array(items)
    }
}

impl Default for LngLat {
    /// The position at longitude zero and latitude zero.
    fn default() -> (res: LngLat)
        ensures
            res.lng() == Number::Real(0),
            res.lat() == Number::Real(0),
    {
        LngLat { lng: Number::Real(0), lat: Number::Real(0) }
    }
}

impl LngLat {
    /// The properties of the wire form, in order.
    pub open spec fn slots(&self) -> Slots {
        seq![("lng"@, Some(self.lng().wire())), ("lat"@, Some(self.lat().wire()))]
    }

    /// The place of the coordinate with the wire name `key`, which the length of
    /// the name and a few of its characters tell.
    spec fn place_of(key: Seq<char>) -> int {
        if key.len() == 3 && key[1] == 'n' {
            0
        } else if key.len() == 3 && key[1] == 'a' {
            1
        } else {
            -1
        }
    }

    /// No two coordinates have one wire name. So looking the wire name of a
    /// coordinate up in the wire form finds the wire form of that coordinate where it
    /// is set, and nothing where it is unset.
    pub proof fn law_wire_names_are_distinct(&self)
        ensures
            distinct_keys(self.slots()),
            forall|i: int|
                0 <= i < self.slots().len() ==> lookup(
                    flatten(self.slots()),
                    (#[trigger] self.slots()[i]).0,
                ) == self.slots()[i].1,
    {
        reveal_strlit("lng");
        reveal_strlit("lat");
        let slots = self.slots();
        assert(LngLat::place_of(slots[0].0) == 0);
        assert(LngLat::place_of(slots[1].0) == 1);
        assert forall|i: int| 0 <= i < slots.len() implies LngLat::place_of(
            (#[trigger] slots[i]).0,
        ) - 0 == i by {
        }
        lemma_placed_keys_are_distinct(slots, |key: Seq<char>| LngLat::place_of(key) - 0);
        assert forall|i: int| 0 <= i < slots.len() implies lookup(
            flatten(slots),
            (#[trigger] slots[i]).0,
        ) == slots[i].1 by {
            law_lookup_of_distinct_keys(slots, i);
        }
    }
}

impl ToWire for LngLat {
    /// The object `{lng, lat}`.
    open spec fn wire(&self) -> ValueView {
        ValueView::Object(flatten(self.slots()))
    }

    fn to_wire(&self) -> (value: Value) {
        let mut b = ObjectBuilder::new();
        b.wire("lng", &self.lng);
        b.wire("lat", &self.lat);
        assert(b@ =~= self.slots());
        b.finish()
    }
}

impl FromWire for LngLat {
    /// A position is read from an object that holds numbers under `lng` and
    /// `lat`.
    open spec fn spec_read(value: ValueView) -> Option<ValueView> {
        match (value.get("lng"@), value.get("lat"@)) {
            (Some(ValueView::Number(lng)), Some(ValueView::Number(lat))) => Some(
                ValueView::Object(
                    flatten(
                        seq![
                            ("lng"@, Some(ValueView::Number(lng))),
                            ("lat"@, Some(ValueView::Number(lat))),
                        ],
                    ),
                ),
            ),
            _ => None,
        }
    }

    open spec fn comes_back(&self) -> bool {
        true
    }

    fn from_wire(value: &Value) -> (res: Option<LngLat>) {
        match (value.get("lng"), value.get("lat")) {
            (Some(Value::Number(lng)), Some(Value::Number(lat))) => Some(LngLat::new(*lng, *lat)),
            _ => None,
        }
    }

    proof fn law_round_trip(&self) {
        let slots = self.slots();
        self.law_wire_names_are_distinct();
        assert(self.wire().get(slots[0].0) == slots[0].1);
        assert(self.wire().get(slots[1].0) == slots[1].1);
    }
}

/// The box that a south-west and a north-east corner span.
#[derive(Debug, Clone, Copy, PartialEq, Eq, Structural)]
pub struct LngLatBounds {
    sw: LngLat,
    ne: LngLat,
}

impl LngLatBounds {
    /// The box with the given corners.
    pub fn new(sw: LngLat, ne: LngLat) -> (res: LngLatBounds)
        ensures
            res.south_west() == sw,
            res.north_east() == ne,
    {
        LngLatBounds { sw, ne }
    }

    /// The south-west corner.
    pub closed spec fn south_west(&self) -> LngLat {
        self.sw
    }

    /// The north-east corner.
    pub closed spec fn north_east(&self) -> LngLat {
        self.ne
    }

    /// The north-east corner. Despite its name this changes nothing.
    pub fn set_north_east(&self) -> (res: LngLat)
        ensures
            res == self.north_east(),
    {
        self.ne
    }

    /// The south-west corner.
    pub fn get_south_west(&self) -> (res: LngLat)
        ensures
            res == self.south_west(),
    {
        self.sw
    }

    /// The north-east corner.
    pub fn get_north_east(&self) -> (res: LngLat)
        ensures
            res == self.north_east(),
    {
        self.ne
    }
}

} // verus!
