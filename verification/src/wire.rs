//! The structured, JSON-compatible values exchanged with the mapping engine.
//!
//! Everything that crosses the foreign boundary is a [`Value`]: configuration
//! going out, event payloads coming in. Contracts speak of a value through its
//! view, [`ValueView`], a term over sequences of characters.

use vstd::prelude::*;

verus! {

/// Largest magnitude of an integer that the engine's number type holds exactly.
pub const MAX_SAFE_INTEGER: i64 = 9007199254740991;

/// A number on the wire: an exact integer, or an IEEE-754 binary64 value
/// carried by its bit pattern.
#[derive(Clone, Copy, Debug, PartialEq, Eq, Structural)]
pub enum Number {
    Int(i64),
    Real(u64),
}

/// Whether the engine's number type holds the integer `n` exactly.
pub open spec fn is_safe_integer(n: int) -> bool {
    -MAX_SAFE_INTEGER <= n <= MAX_SAFE_INTEGER
}

impl Number {
    /// The wire number for a signed integer, where one exists.
    pub fn from_i64(n: i64) -> (res: Option<Number>)
        ensures
            res == if is_safe_integer(n as int) {
                Some(Number::Int(n))
            } else {
                None
            },
    {
        if -MAX_SAFE_INTEGER <= n && n <= MAX_SAFE_INTEGER {
            Some(Number::Int(n))
        } else {
            None
        }
    }

    /// The wire number for an unsigned integer, where one exists.
    pub fn from_u64(n: u64) -> (res: Option<Number>)
        ensures
            res == if is_safe_integer(n as int) {
                Some(Number::Int(n as i64))
            } else {
                None
            },
    {
        if n <= MAX_SAFE_INTEGER as u64 {
            Some(Number::Int(n as i64))
        } else {
            None
        }
    }

    /// The wire number for a 32-bit unsigned integer, which always exists.
    pub fn from_u32(n: u32) -> (res: Number)
        ensures
            res == Number::Int(n as i64),
    {
        Number::Int(n as i64)
    }

    /// The wire number with the given binary64 bit pattern.
    pub fn from_bits(bits: u64) -> (res: Number)
        ensures
            res == Number::Real(bits),
    {
        Number::Real(bits)
    }
}

/// A wire value as a mathematical term.
pub enum ValueView {
    Null,
    Bool(bool),
    Number(Number),
    String(Seq<char>),
    Array(Seq<ValueView>),
    Object(Seq<(Seq<char>, ValueView)>),
}

/// The value that the first entry with key `key` holds, if there is one.
pub open spec fn lookup(entries: Seq<(Seq<char>, ValueView)>, key: Seq<char>) -> Option<ValueView>
    decreases entries.len(),
{
    if entries.len() == 0 {
        None
    } else {
        match lookup(entries.drop_last(), key) {
            Some(v) => Some(v),
            None => if entries.last().0 == key {
                Some(entries.last().1)
            } else {
                None
            },
        }
    }
}

/// No entry has key `key`.
pub open spec fn lacks(entries: Seq<(Seq<char>, ValueView)>, key: Seq<char>) -> bool {
    forall|i: int| 0 <= i < entries.len() ==> (#[trigger] entries[i]).0 != key
}

impl ValueView {
    /// The property `key` of an object; nothing else has properties.
    pub open spec fn get(self, key: Seq<char>) -> Option<ValueView> {
        match self {
            ValueView::Object(entries) => lookup(entries, key),
            _ => None,
        }
    }
}

/// `lookup` finds nothing exactly when no entry has the key.
pub proof fn lemma_lookup_none(entries: Seq<(Seq<char>, ValueView)>, key: Seq<char>)
    ensures
        lookup(entries, key) is None <==> lacks(entries, key),
    decreases entries.len(),
{
    if entries.len() > 0 {
        lemma_lookup_none(entries.drop_last(), key);
        if lacks(entries, key) {
            assert forall|i: int| 0 <= i < entries.drop_last().len() implies (
            #[trigger] entries.drop_last()[i]).0 != key by {
                assert(entries.drop_last()[i] == entries[i]);
            }
        } else {
            let i = choose|i: int| 0 <= i < entries.len() && (#[trigger] entries[i]).0 == key;
            if i < entries.len() - 1 {
                assert(entries.drop_last()[i] == entries[i]);
            }
        }
    }
}

/// `lookup` returns the value of the first entry that has the key.
pub proof fn lemma_lookup_first(entries: Seq<(Seq<char>, ValueView)>, key: Seq<char>, i: int)
    requires
        0 <= i < entries.len(),
        entries[i].0 == key,
        lacks(entries.take(i), key),
    ensures
        lookup(entries, key) == Some(entries[i].1),
    decreases entries.len(),
{
    let front = entries.drop_last();
    if i == entries.len() - 1 {
        assert(front =~= entries.take(i));
        lemma_lookup_none(front, key);
    } else {
        assert(front.take(i) =~= entries.take(i));
        assert(front[i] == entries[i]);
        lemma_lookup_first(front, key, i);
    }
}

/// A wire value.
#[derive(Debug)]
pub enum Value {
    Null,
    Bool(bool),
    Number(Number),
    String(String),
    Array(Vec<Value>),
    Object(Vec<(String, Value)>),
}

/// The term that a value denotes.
pub open spec fn value_view(v: Value) -> ValueView
    decreases v,
{
    match v {
        Value::Null => ValueView::Null,
        Value::Bool(b) => ValueView::Bool(b),
        Value::Number(n) => ValueView::Number(n),
        Value::String(s) => ValueView::String(s@),
        Value::Array(items) => ValueView::Array(
            Seq::new(
                items@.len(),
                |i: int|
                    if 0 <= i < items@.len() {
                        value_view(items@[i])
                    } else {
                        ValueView::Null
                    },
            ),
        ),
        Value::Object(entries) => ValueView::Object(
            Seq::new(
                entries@.len(),
                |i: int|
                    if 0 <= i < entries@.len() {
                        (entries@[i].0@, value_view(entries@[i].1))
                    } else {
                        (Seq::empty(), ValueView::Null)
                    },
            ),
        ),
    }
}

impl View for Value {
    type V = ValueView;

    open spec fn view(&self) -> ValueView {
        value_view(*self)
    }
}

/// The views of a vector of values, item by item.
pub open spec fn items_view(items: Seq<Value>) -> Seq<ValueView> {
    Seq::new(items.len(), |i: int| items[i]@)
}

/// The views of a vector of entries, entry by entry.
pub open spec fn entries_view(entries: Seq<(String, Value)>) -> Seq<(Seq<char>, ValueView)> {
    Seq::new(entries.len(), |i: int| (entries[i].0@, entries[i].1@))
}

/// The view of an array is the views of its items.
pub proof fn lemma_array_view(items: Vec<Value>)
    ensures
        Value::Array(items)@ == ValueView::Array(items_view(items@)),
{
    let v = Value::Array(items).view();
    assert(v is Array);
    assert(v->Array_0.len() == items@.len());
    assert forall|i: int| 0 <= i < items@.len() implies v->Array_0[i] == items_view(items@)[i] by {}
    assert(v->Array_0 =~= items_view(items@));
}

/// The view of an object is the views of its entries.
pub proof fn lemma_object_view(entries: Vec<(String, Value)>)
    ensures
        Value::Object(entries)@ == ValueView::Object(entries_view(entries@)),
{
    let v = Value::Object(entries)@;
    assert(v is Object);
    assert(v->Object_0.len() == entries@.len());
    assert forall|i: int| 0 <= i < entries@.len() implies v->Object_0[i] == entries_view(
        entries@,
    )[i] by {}
    assert(v->Object_0 =~= entries_view(entries@));
}

/// Whether two string slices hold the same characters.
pub fn str_eq(a: &str, b: &str) -> (res: bool)
    ensures
        res == (a@ == b@),
{
    a.to_owned() == b.to_owned()
}

impl Clone for Value {
    /// A deep copy: the copy has the view of what was copied.
    fn clone(&self) -> (res: Value)
        ensures
            res@ == self@,
        decreases self,
    {
        match self {
            Value::Null => Value::Null,
            Value::Bool(b) => Value::Bool(*b),
            Value::Number(n) => Value::Number(*n),
            Value::String(s) => Value::String(s.clone()),
            Value::Array(items) => {
                let mut out: Vec<Value> = Vec::new();
                let mut i: usize = 0;
                while i < items.len()
                    invariant
                        i <= items.len(),
                        out.len() == i,
                        forall|j: int| 0 <= j < i ==> (#[trigger] out@[j])@ == items@[j]@,
                        Value::Array(*items) == *self,
                    decreases items.len() - i,
                {
                    proof {
                        vstd::std_specs::vec::axiom_vec_index_decreases(*items, i as int);
                        assert(self->Array_0 == *items);
                        assert(decreases_to!(*self => self->Array_0));
                    }
                    let item = items[i].clone();
                    out.push(item);
                    i += 1;
                }
                proof {
                    lemma_array_view(*items);
                    lemma_array_view(out);
                    assert(items_view(out@) =~= items_view(items@));
                }
                Value::Array(out)
            },
            Value::Object(entries) => {
                let mut out: Vec<(String, Value)> = Vec::new();
                let mut i: usize = 0;
                while i < entries.len()
                    invariant
                        i <= entries.len(),
                        out.len() == i,
                        forall|j: int|
                            0 <= j < i ==> (#[trigger] out@[j]).0@ == entries@[j].0@ && out@[j].1@
                                == entries@[j].1@,
                        Value::Object(*entries) == *self,
                    decreases entries.len() - i,
                {
                    proof {
                        vstd::std_specs::vec::axiom_vec_index_decreases(*entries, i as int);
                        assert(self->Object_0 == *entries);
                        assert(decreases_to!(*self => self->Object_0));
                        assert(decreases_to!(entries[i as int] => entries[i as int].1));
                    }
                    let key = entries[i].0.clone();
                    let value = entries[i].1.clone();
                    out.push((key, value));
                    i += 1;
                }
                proof {
                    lemma_object_view(*entries);
                    lemma_object_view(out);
                    assert(entries_view(out@) =~= entries_view(entries@));
                }
                Value::Object(out)
            },
        }
    }
}

impl Value {
    /// The string value with the characters of `s`.
    pub fn string(s: &str) -> (res: Value)
        ensures
            res@ == ValueView::String(s@),
    {
        Value::String(s.to_owned())
    }

    /// The array that holds `items` in order.
    pub fn array(items: Vec<Value>) -> (res: Value)
        ensures
            res@ == ValueView::Array(items_view(items@)),
    {
        proof {
            lemma_array_view(items);
        }
        Value::Array(items)
    }

    /// The object that holds `entries` in order.
    pub fn object(entries: Vec<(String, Value)>) -> (res: Value)
        ensures
            res@ == ValueView::Object(entries_view(entries@)),
    {
        proof {
            lemma_object_view(entries);
        }
        Value::Object(entries)
    }

    /// Whether this is the null value.
    pub fn is_null(&self) -> (res: bool)
        ensures
            res == (self@ is Null),
    {
        match self {
            Value::Null => true,
            _ => false,
        }
    }

    /// The property `key` of an object: the value of the first entry with that
    /// key. A value that is no object has no properties.
    pub fn get(&self, key: &str) -> (res: Option<&Value>)
        ensures
            match res {
                Some(v) => self@.get(key@) == Some(v@),
                None => self@.get(key@) is None,
            },
    {
        match self {
            Value::Object(entries) => {
                proof {
                    lemma_object_view(*entries);
                }
                let ghost view = entries_view(entries@);
                let mut i: usize = 0;
                while i < entries.len()
                    invariant
                        i <= entries.len(),
                        view == entries_view(entries@),
                        self@ == ValueView::Object(view),
                        lacks(view.take(i as int), key@),
                    decreases entries.len() - i,
                {
                    if str_eq(entries[i].0.as_str(), key) {
                        proof {
                            assert(view[i as int] == (entries@[i as int].0@, entries@[i as int].1@));
                            lemma_lookup_first(view, key@, i as int);
                        }
                        return Some(&entries[i].1);
                    }
                    proof {
                        assert forall|j: int| 0 <= j < i + 1 implies (#[trigger] view.take(
                            i + 1,
                        )[j]).0 != key@ by {
                            if j < i {
                                assert(view.take(i as int)[j] == view[j]);
                            }
                        }
                    }
                    i += 1;
                }
                proof {
                    assert(view.take(i as int) =~= view);
                    lemma_lookup_none(view, key@);
                }
                None
            },
            _ => None,
        }
    }
}

/// The view of an optional value.
pub open spec fn option_view(value: Option<Value>) -> Option<ValueView> {
    match value {
        Some(v) => Some(v@),
        None => None,
    }
}

/// The one entry `key: value`.
pub open spec fn entry(key: Seq<char>, value: ValueView) -> Seq<(Seq<char>, ValueView)> {
    seq![(key, value)]
}

/// The entry that an optional property contributes: itself when set, nothing
/// when unset.
pub open spec fn optional_entry(key: Seq<char>, value: Option<ValueView>) -> Seq<
    (Seq<char>, ValueView),
> {
    match value {
        Some(v) => entry(key, v),
        None => Seq::empty(),
    }
}

/// Looking a key up among the entries `a` followed by the entries `b` finds
/// what it finds among `a`, and looks among `b` only where it finds nothing
/// there.
pub proof fn lemma_lookup_concat(
    a: Seq<(Seq<char>, ValueView)>,
    b: Seq<(Seq<char>, ValueView)>,
    key: Seq<char>,
)
    ensures
        lookup(a + b, key) == match lookup(a, key) {
            Some(v) => Some(v),
            None => lookup(b, key),
        },
    decreases b.len(),
{
    if b.len() == 0 {
        assert(a + b =~= a);
    } else {
        assert((a + b).drop_last() =~= a + b.drop_last());
        assert((a + b).last() == b.last());
        lemma_lookup_concat(a, b.drop_last(), key);
    }
}

/// Looking a key up in one entry finds the value of the entry under the key
/// of the entry, and nothing under any other key.
pub proof fn lemma_lookup_entry(k: Seq<char>, v: ValueView, key: Seq<char>)
    ensures
        lookup(entry(k, v), key) == if k == key {
            Some(v)
        } else {
            None
        },
        lookup(Seq::empty(), key) is None,
{
    assert(entry(k, v).drop_last() =~= Seq::<(Seq<char>, ValueView)>::empty());
    assert(entry(k, v).last() == (k, v));
    assert(lookup(entry(k, v).drop_last(), key) is None);
}

/// What has a wire form that always exists.
pub trait ToWire {
    /// The wire form, as a term.
    spec fn wire(&self) -> ValueView;

    /// Encodes the value in its wire form.
    fn to_wire(&self) -> (value: Value)
        ensures
            value@ == self.wire(),
    ;
}

/// The wire form of an optional value that has one.
pub open spec fn optional_wire<T: ToWire>(value: Option<T>) -> Option<ValueView> {
    match value {
        Some(t) => Some(t.wire()),
        None => None,
    }
}

/// The wire form of a list of values that have one.
pub open spec fn list_wire<T: ToWire>(items: Seq<T>) -> ValueView {
    ValueView::Array(Seq::new(items.len(), |i: int| items[i].wire()))
}

/// Encodes a list of values as an array.
pub fn list_to_wire<T: ToWire>(items: &Vec<T>) -> (res: Value)
    ensures
        res@ == list_wire(items@),
{
    let mut out: Vec<Value> = Vec::new();
    let mut i: usize = 0;
    while i < items.len()
        invariant
            i <= items.len(),
            out.len() == i,
            forall|j: int| 0 <= j < i ==> (#[trigger] out@[j])@ == items@[j].wire(),
        decreases items.len() - i,
    {
        out.push(items[i].to_wire());
        i += 1;
    }
    proof {
        assert(items_view(out@) =~= list_wire(items@)->Array_0);
    }
    Value::array(out)
}

impl ToWire for Number {
    open spec fn wire(&self) -> ValueView {
        ValueView::Number(*self)
    }

    fn to_wire(&self) -> (value: Value) {
        Value::Number(*self)
    }
}

impl ToWire for Value {
    /// A wire value is its own wire form.
    open spec fn wire(&self) -> ValueView {
        self@
    }

    fn to_wire(&self) -> (value: Value) {
        self.clone()
    }
}

impl ToWire for (Number, Number) {
    /// The array of the two numbers.
    open spec fn wire(&self) -> ValueView {
        ValueView::Array(seq![ValueView::Number(self.0), ValueView::Number(self.1)])
    }

    fn to_wire(&self) -> (value: Value) {
        let mut items: Vec<Value> = Vec::new();
        items.push(Value::Number(self.0));
        items.push(Value::Number(self.1));
        assert(items_view(items@) =~= self.wire()->Array_0);
        Value::array(items)
    }
}

impl ToWire for (Number, Number, Number, Number) {
    /// The array of the four numbers.
    open spec fn wire(&self) -> ValueView {
        ValueView::Array(
            seq![
                ValueView::Number(self.0),
                ValueView::Number(self.1),
                ValueView::Number(self.2),
                ValueView::Number(self.3),
            ],
        )
    }

    fn to_wire(&self) -> (value: Value) {
        let mut items: Vec<Value> = Vec::new();
        items.push(Value::Number(self.0));
        items.push(Value::Number(self.1));
        items.push(Value::Number(self.2));
        items.push(Value::Number(self.3));
        assert(items_view(items@) =~= self.wire()->Array_0);
        Value::array(items)
    }
}

impl ToWire for bool {
    open spec fn wire(&self) -> ValueView {
        ValueView::Bool(*self)
    }

    fn to_wire(&self) -> (value: Value) {
        Value::Bool(*self)
    }
}

impl ToWire for u32 {
    open spec fn wire(&self) -> ValueView {
        ValueView::Number(Number::Int(*self as i64))
    }

    fn to_wire(&self) -> (value: Value) {
        Value::Number(Number::from_u32(*self))
    }
}

impl ToWire for String {
    open spec fn wire(&self) -> ValueView {
        ValueView::String(self@)
    }

    fn to_wire(&self) -> (value: Value) {
        Value::String(self.clone())
    }
}

impl<T: ToWire> ToWire for Vec<T> {
    open spec fn wire(&self) -> ValueView {
        list_wire(self@)
    }

    fn to_wire(&self) -> (value: Value) {
        list_to_wire(self)
    }
}

/// The wire form of a list that is left out when empty.
pub open spec fn nonempty_wire<T: ToWire>(items: Seq<T>) -> Option<ValueView> {
    if items.len() == 0 {
        None
    } else {
        Some(list_wire(items))
    }
}

/// The properties that an object may have, in order: each a name and, where
/// the property is set, its value.
pub type Slots = Seq<(Seq<char>, Option<ValueView>)>;

/// The entries that slots come to: one for each slot that is set, in the
/// order of the slots. A slot that is unset contributes nothing, not even a
/// null.
pub open spec fn flatten(slots: Slots) -> Seq<(Seq<char>, ValueView)>
    decreases slots.len(),
{
    if slots.len() == 0 {
        Seq::empty()
    } else {
        flatten(slots.drop_last()) + optional_entry(slots.last().0, slots.last().1)
    }
}

/// The value of the first slot that is set and is named `key`.
pub open spec fn first_set(slots: Slots, key: Seq<char>) -> Option<ValueView>
    decreases slots.len(),
{
    if slots.len() == 0 {
        None
    } else {
        match first_set(slots.drop_last(), key) {
            Some(v) => Some(v),
            None => if slots.last().0 == key {
                slots.last().1
            } else {
                None
            },
        }
    }
}

/// No two slots have one name.
pub open spec fn distinct_keys(slots: Slots) -> bool {
    forall|i: int, j: int|
        0 <= i < slots.len() && 0 <= j < slots.len() && i != j ==> (#[trigger] slots[i]).0 != (
        #[trigger] slots[j]).0
}

/// One more slot contributes its entry behind those of the slots before it.
pub proof fn lemma_flatten_push(slots: Slots, key: Seq<char>, value: Option<ValueView>)
    ensures
        flatten(slots.push((key, value))) == flatten(slots) + optional_entry(key, value),
{
    assert(slots.push((key, value)).drop_last() =~= slots);
}

/// The entries of slots that follow one another follow one another.
pub proof fn lemma_flatten_concat(a: Slots, b: Slots)
    ensures
        flatten(a + b) == flatten(a) + flatten(b),
    decreases b.len(),
{
    if b.len() == 0 {
        assert(a + b =~= a);
        assert(flatten(a) + flatten(b) =~= flatten(a));
    } else {
        assert((a + b).drop_last() =~= a + b.drop_last());
        assert((a + b).last() == b.last());
        lemma_flatten_concat(a, b.drop_last());
        assert((flatten(a) + flatten(b.drop_last())) + optional_entry(b.last().0, b.last().1)
            =~= flatten(a) + (flatten(b.drop_last()) + optional_entry(b.last().0, b.last().1)));
    }
}

/// Every slot that is set is kept: the entries hold its name with its value.
pub proof fn law_set_slot_is_kept(slots: Slots, i: int)
    requires
        0 <= i < slots.len(),
        slots[i].1 is Some,
    ensures
        flatten(slots).contains((slots[i].0, slots[i].1->Some_0)),
    decreases slots.len(),
{
    let front = flatten(slots.drop_last());
    let back = optional_entry(slots.last().0, slots.last().1);
    if i == slots.len() - 1 {
        assert(back[0] == (slots[i].0, slots[i].1->Some_0));
        assert((front + back)[front.len() as int] == back[0]);
    } else {
        law_set_slot_is_kept(slots.drop_last(), i);
        let j = choose|j: int|
            0 <= j < front.len() && front[j] == (slots[i].0, slots[i].1->Some_0);
        assert((front + back)[j] == front[j]);
    }
}

/// Every slot that is unset is left out: each entry is the name and the value
/// of a slot that is set, and no entry stands for a slot without a value.
pub proof fn law_unset_slot_is_left_out(slots: Slots, j: int)
    requires
        0 <= j < flatten(slots).len(),
    ensures
        exists|i: int|
            0 <= i < slots.len() && #[trigger] slots[i] == (
                flatten(slots)[j].0,
                Some(flatten(slots)[j].1),
            ),
    decreases slots.len(),
{
    let front = flatten(slots.drop_last());
    let back = optional_entry(slots.last().0, slots.last().1);
    if j < front.len() {
        law_unset_slot_is_left_out(slots.drop_last(), j);
        let i = choose|i: int|
            0 <= i < slots.drop_last().len() && #[trigger] slots.drop_last()[i] == (
                front[j].0,
                Some(front[j].1),
            );
        assert(slots[i] == slots.drop_last()[i]);
    } else {
        assert(slots[slots.len() - 1] == (back[0].0, Some(back[0].1)));
    }
}

/// Looking a key up in the entries finds the value of the first slot that is
/// set and has the key for its name.
pub proof fn law_lookup_finds_first_set(slots: Slots, key: Seq<char>)
    ensures
        lookup(flatten(slots), key) == first_set(slots, key),
    decreases slots.len(),
{
    if slots.len() > 0 {
        law_lookup_finds_first_set(slots.drop_last(), key);
        let front = flatten(slots.drop_last());
        let back = optional_entry(slots.last().0, slots.last().1);
        lemma_lookup_concat(front, back, key);
        if slots.last().1 is Some {
            lemma_lookup_entry(slots.last().0, slots.last().1->Some_0, key);
        }
    }
}

/// Where no two slots have one name, looking the name of a slot up in the
/// entries finds the value of that slot where it is set, and nothing where it
/// is unset.
pub proof fn law_lookup_of_distinct_keys(slots: Slots, i: int)
    requires
        distinct_keys(slots),
        0 <= i < slots.len(),
    ensures
        lookup(flatten(slots), slots[i].0) == slots[i].1,
    decreases slots.len(),
{
    let key = slots[i].0;
    law_lookup_finds_first_set(slots, key);
    lemma_first_set_of_distinct_keys(slots, i);
}

proof fn lemma_first_set_of_distinct_keys(slots: Slots, i: int)
    requires
        distinct_keys(slots),
        0 <= i < slots.len(),
    ensures
        first_set(slots, slots[i].0) == slots[i].1,
    decreases slots.len(),
{
    let key = slots[i].0;
    let front = slots.drop_last();
    assert(distinct_keys(front)) by {
        assert forall|a: int, b: int|
            0 <= a < front.len() && 0 <= b < front.len() && a != b implies (#[trigger] front[a]).0
            != (#[trigger] front[b]).0 by {
            assert(front[a] == slots[a]);
            assert(front[b] == slots[b]);
        }
    }
    if i == slots.len() - 1 {
        assert forall|a: int| 0 <= a < front.len() implies (#[trigger] front[a]).0 != key by {
            assert(front[a] == slots[a]);
        }
        lemma_first_set_absent(front, key);
    } else {
        assert(front[i] == slots[i]);
        lemma_first_set_of_distinct_keys(front, i);
        assert(slots.last() == slots[slots.len() - 1]);
    }
}

proof fn lemma_first_set_absent(slots: Slots, key: Seq<char>)
    requires
        forall|a: int| 0 <= a < slots.len() ==> (#[trigger] slots[a]).0 != key,
    ensures
        first_set(slots, key) is None,
    decreases slots.len(),
{
    if slots.len() > 0 {
        let front = slots.drop_last();
        assert forall|a: int| 0 <= a < front.len() implies (#[trigger] front[a]).0 != key by {
            assert(front[a] == slots[a]);
        }
        lemma_first_set_absent(front, key);
        assert(slots.last() == slots[slots.len() - 1]);
    }
}

/// What can be read back from a wire value.
pub trait FromWire: ToWire + Sized {
    /// The wire form of what `value` is read as, where it can be read. A wire
    /// value may hold more than is read, or hold it in another order; what is
    /// read holds it in its own form.
    spec fn spec_read(value: ValueView) -> Option<ValueView>;

    /// Whether reading the wire form of the value gives the value back. It
    /// does unless the value holds, where it may hold something or nothing,
    /// something that has null for its wire form: null reads as nothing.
    spec fn comes_back(&self) -> bool;

    /// Reads a value from a wire value.
    fn from_wire(value: &Value) -> (res: Option<Self>)
        ensures
            match res {
                Some(x) => Self::spec_read(value@) == Some(x.wire()),
                None => Self::spec_read(value@) is None,
            },
    ;

    /// Reading the wire form of a value that comes back succeeds, and what is
    /// read has the wire form of the value.
    proof fn law_round_trip(&self)
        requires
            self.comes_back(),
        ensures
            Self::spec_read(self.wire()) == Some(self.wire()),
    ;
}

/// The view of an optional reference to a value.
pub open spec fn ref_view(found: Option<&Value>) -> Option<ValueView> {
    match found {
        Some(v) => Some(v@),
        None => None,
    }
}

/// What reading a property that must be there comes to: nothing where it is
/// absent or cannot be read, and else the wire form of what was read.
pub open spec fn read_required<T: FromWire>(found: Option<ValueView>) -> Option<Option<ValueView>> {
    match found {
        Some(x) => match T::spec_read(x) {
            Some(w) => Some(Some(w)),
            None => None,
        },
        None => None,
    }
}

/// What reading a property that may be unset comes to: unset where it is
/// absent or null, nothing where it cannot be read, and else the wire form of
/// what was read.
pub open spec fn read_optional<T: FromWire>(found: Option<ValueView>) -> Option<Option<ValueView>> {
    match found {
        None => Some(None),
        Some(ValueView::Null) => Some(None),
        Some(x) => match T::spec_read(x) {
            Some(w) => Some(Some(w)),
            None => None,
        },
    }
}

/// What reading a property that has a default comes to: the default where it
/// is absent, nothing where it cannot be read, and else the wire form of what
/// was read.
pub open spec fn read_defaulted<T: FromWire>(found: Option<ValueView>, default: ValueView) -> Option<
    Option<ValueView>,
> {
    match found {
        None => Some(Some(default)),
        Some(x) => match T::spec_read(x) {
            Some(w) => Some(Some(w)),
            None => None,
        },
    }
}

/// What reading a list that is left out when empty comes to: unset where it
/// is absent or empty, nothing where it cannot be read, and else the wire form
/// of the list that was read.
pub open spec fn read_list<T: FromWire>(found: Option<ValueView>) -> Option<Option<ValueView>> {
    match found {
        None => Some(None),
        Some(x) => match Vec::<T>::spec_read(x) {
            Some(w) => if w == ValueView::Array(Seq::empty()) {
                Some(None)
            } else {
                Some(Some(w))
            },
            None => None,
        },
    }
}

/// Whether an optional value comes back: where it is set, it comes back and
/// its wire form is not null.
pub open spec fn optional_comes_back<T: FromWire>(value: Option<T>) -> bool {
    match value {
        Some(t) => t.comes_back() && !(t.wire() is Null),
        None => true,
    }
}

/// Whether every item of a list comes back.
pub open spec fn list_comes_back<T: FromWire>(items: Seq<T>) -> bool {
    forall|i: int| 0 <= i < items.len() ==> (#[trigger] items[i]).comes_back()
}

/// Reads a property that must be there.
pub fn required<T: FromWire>(found: Option<&Value>) -> (res: Option<T>)
    ensures
        match res {
            Some(x) => read_required::<T>(ref_view(found)) == Some(Some(x.wire())),
            None => read_required::<T>(ref_view(found)) is None,
        },
{
    match found {
        Some(x) => T::from_wire(x),
        None => None,
    }
}

/// Reads a property that may be unset.
pub fn optional<T: FromWire>(found: Option<&Value>) -> (res: Option<Option<T>>)
    ensures
        match res {
            Some(x) => read_optional::<T>(ref_view(found)) == Some(optional_wire(x)),
            None => read_optional::<T>(ref_view(found)) is None,
        },
{
    match found {
        None => Some(None),
        Some(Value::Null) => Some(None),
        Some(x) => match T::from_wire(x) {
            Some(t) => Some(Some(t)),
            None => None,
        },
    }
}

/// Reads a list that is left out when empty.
pub fn list<T: FromWire>(found: Option<&Value>) -> (res: Option<Vec<T>>)
    ensures
        match res {
            Some(items) => read_list::<T>(ref_view(found)) == Some(nonempty_wire(items@)),
            None => read_list::<T>(ref_view(found)) is None,
        },
{
    match found {
        None => Some(Vec::new()),
        Some(x) => match Vec::<T>::from_wire(x) {
            Some(items) => {
                proof {
                    if items@.len() == 0 {
                        assert(list_wire(items@)->Array_0 =~= Seq::<ValueView>::empty());
                    } else {
                        assert(list_wire(items@)->Array_0.len() > 0);
                    }
                }
                Some(items)
            },
            None => None,
        },
    }
}

/// A required property whose value comes back is read as it was written.
pub proof fn lemma_required_round_trip<T: FromWire>(value: T)
    requires
        value.comes_back(),
    ensures
        read_required::<T>(Some(value.wire())) == Some(Some(value.wire())),
{
    value.law_round_trip();
}

/// An optional property whose value comes back is read as it was written.
pub proof fn lemma_optional_round_trip<T: FromWire>(value: Option<T>)
    requires
        optional_comes_back(value),
    ensures
        read_optional::<T>(optional_wire(value)) == Some(optional_wire(value)),
{
    match value {
        Some(t) => {
            t.law_round_trip();
        },
        None => {},
    }
}

/// A property with a default whose value comes back is read as it was
/// written.
pub proof fn lemma_defaulted_round_trip<T: FromWire>(value: T, default: ValueView)
    requires
        value.comes_back(),
    ensures
        read_defaulted::<T>(Some(value.wire()), default) == Some(Some(value.wire())),
{
    value.law_round_trip();
}

/// A list that is left out when empty and whose items come back is read as it
/// was written.
pub proof fn lemma_list_round_trip<T: FromWire>(items: Vec<T>)
    requires
        list_comes_back(items@),
    ensures
        read_list::<T>(nonempty_wire(items@)) == Some(nonempty_wire(items@)),
{
    if items@.len() > 0 {
        items.law_round_trip();
        assert(list_wire(items@)->Array_0.len() > 0);
    }
}

/// One slot that is set comes to its one entry.
pub proof fn lemma_flatten_one(key: Seq<char>, value: ValueView)
    ensures
        flatten(seq![(key, Some(value))]) == entry(key, value),
{
    let slots: Slots = seq![(key, Some(value))];
    assert(slots.len() == 1);
    assert(slots.last() == (key, Some(value)));
    assert(slots.drop_last() =~= Slots::empty());
    assert(flatten(slots.drop_last()) =~= Seq::<(Seq<char>, ValueView)>::empty());
    assert(flatten(slots) == flatten(slots.drop_last()) + entry(key, value));
    assert(flatten(slots) =~= entry(key, value));
}

impl FromWire for Value {
    /// Every wire value is read as itself.
    open spec fn spec_read(value: ValueView) -> Option<ValueView> {
        Some(value)
    }

    open spec fn comes_back(&self) -> bool {
        true
    }

    fn from_wire(value: &Value) -> (res: Option<Value>) {
        Some(value.clone())
    }

    proof fn law_round_trip(&self) {
    }
}

impl FromWire for Number {
    /// A number is read from a number.
    open spec fn spec_read(value: ValueView) -> Option<ValueView> {
        match value {
            ValueView::Number(_) => Some(value),
            _ => None,
        }
    }

    open spec fn comes_back(&self) -> bool {
        true
    }

    fn from_wire(value: &Value) -> (res: Option<Number>) {
        match value {
            Value::Number(n) => Some(*n),
            _ => None,
        }
    }

    proof fn law_round_trip(&self) {
    }
}

impl FromWire for bool {
    /// A truth value is read from a truth value.
    open spec fn spec_read(value: ValueView) -> Option<ValueView> {
        match value {
            ValueView::Bool(_) => Some(value),
            _ => None,
        }
    }

    open spec fn comes_back(&self) -> bool {
        true
    }

    fn from_wire(value: &Value) -> (res: Option<bool>) {
        match value {
            Value::Bool(b) => Some(*b),
            _ => None,
        }
    }

    proof fn law_round_trip(&self) {
    }
}

impl FromWire for u32 {
    /// A 32-bit unsigned integer is read from an integer in its range.
    open spec fn spec_read(value: ValueView) -> Option<ValueView> {
        match value {
            ValueView::Number(Number::Int(n)) => if 0 <= n <= u32::MAX {
                Some(value)
            } else {
                None
            },
            _ => None,
        }
    }

    open spec fn comes_back(&self) -> bool {
        true
    }

    fn from_wire(value: &Value) -> (res: Option<u32>) {
        match value {
            Value::Number(Number::Int(n)) => if 0 <= *n && *n <= 4294967295 {
                Some(*n as u32)
            } else {
                None
            },
            _ => None,
        }
    }

    proof fn law_round_trip(&self) {
    }
}

impl FromWire for String {
    /// A string is read from a string.
    open spec fn spec_read(value: ValueView) -> Option<ValueView> {
        match value {
            ValueView::String(_) => Some(value),
            _ => None,
        }
    }

    open spec fn comes_back(&self) -> bool {
        true
    }

    fn from_wire(value: &Value) -> (res: Option<String>) {
        match value {
            Value::String(s) => Some(s.clone()),
            _ => None,
        }
    }

    proof fn law_round_trip(&self) {
    }
}

impl FromWire for (Number, Number) {
    /// A pair of numbers is read from an array of two numbers.
    open spec fn spec_read(value: ValueView) -> Option<ValueView> {
        match value {
            ValueView::Array(items) => if items.len() == 2 && items[0] is Number
                && items[1] is Number {
                Some(value)
            } else {
                None
            },
            _ => None,
        }
    }

    open spec fn comes_back(&self) -> bool {
        true
    }

    fn from_wire(value: &Value) -> (res: Option<(Number, Number)>) {
        match value {
            Value::Array(items) => {
                proof {
                    lemma_array_view(*items);
                }
                if items.len() != 2 {
                    return None;
                }
                match (&items[0], &items[1]) {
                    (Value::Number(a), Value::Number(b)) => {
                        let res = (*a, *b);
                        assert(items_view(items@) =~= res.wire()->Array_0);
                        Some(res)
                    },
                    _ => None,
                }
            },
            _ => None,
        }
    }

    proof fn law_round_trip(&self) {
    }
}

impl FromWire for (Number, Number, Number, Number) {
    /// Four numbers are read from an array of four numbers.
    open spec fn spec_read(value: ValueView) -> Option<ValueView> {
        match value {
            ValueView::Array(items) => if items.len() == 4 && items[0] is Number
                && items[1] is Number && items[2] is Number && items[3] is Number {
                Some(value)
            } else {
                None
            },
            _ => None,
        }
    }

    open spec fn comes_back(&self) -> bool {
        true
    }

    fn from_wire(value: &Value) -> (res: Option<(Number, Number, Number, Number)>) {
        match value {
            Value::Array(items) => {
                proof {
                    lemma_array_view(*items);
                }
                if items.len() != 4 {
                    return None;
                }
                match (&items[0], &items[1], &items[2], &items[3]) {
                    (Value::Number(a), Value::Number(b), Value::Number(c), Value::Number(d)) => {
                        let res = (*a, *b, *c, *d);
                        assert(items_view(items@) =~= res.wire()->Array_0);
                        Some(res)
                    },
                    _ => None,
                }
            },
            _ => None,
        }
    }

    proof fn law_round_trip(&self) {
    }
}

/// The wire forms of what the items of a list are read as.
pub open spec fn read_items<T: FromWire>(items: Seq<ValueView>) -> Seq<ValueView> {
    Seq::new(items.len(), |i: int| T::spec_read(items[i])->Some_0)
}

/// Whether every item of a list can be read.
pub open spec fn items_readable<T: FromWire>(items: Seq<ValueView>) -> bool {
    forall|i: int| 0 <= i < items.len() ==> (#[trigger] T::spec_read(items[i])) is Some
}

impl<T: FromWire> FromWire for Vec<T> {
    /// A list is read from an array whose items can all be read.
    open spec fn spec_read(value: ValueView) -> Option<ValueView> {
        match value {
            ValueView::Array(items) => if items_readable::<T>(items) {
                Some(ValueView::Array(read_items::<T>(items)))
            } else {
                None
            },
            _ => None,
        }
    }

    open spec fn comes_back(&self) -> bool {
        list_comes_back(self@)
    }

    fn from_wire(value: &Value) -> (res: Option<Vec<T>>) {
        match value {
            Value::Array(items) => {
                proof {
                    lemma_array_view(*items);
                }
                let ghost views = items_view(items@);
                let mut out: Vec<T> = Vec::new();
                let mut i: usize = 0;
                while i < items.len()
                    invariant
                        i <= items.len(),
                        out.len() == i,
                        views == items_view(items@),
                        value@ == ValueView::Array(views),
                        forall|j: int|
                            0 <= j < i ==> T::spec_read(views[j]) == Some(
                                (#[trigger] out@[j]).wire(),
                            ),
                    decreases items.len() - i,
                {
                    match T::from_wire(&items[i]) {
                        Some(item) => {
                            out.push(item);
                        },
                        None => {
                            assert(T::spec_read(views[i as int]) is None);
                            return None;
                        },
                    }
                    i += 1;
                }
                proof {
                    assert forall|j: int| 0 <= j < views.len() implies (#[trigger] T::spec_read(
                        views[j],
                    )) is Some by {
                        assert(T::spec_read(views[j]) == Some(out@[j].wire()));
                    }
                    assert(read_items::<T>(views) =~= list_wire(out@)->Array_0);
                }
                Some(out)
            },
            _ => None,
        }
    }

    proof fn law_round_trip(&self) {
        let items = list_wire(self@)->Array_0;
        assert forall|i: int| 0 <= i < items.len() implies (#[trigger] T::spec_read(items[i]))
            == Some(items[i]) by {
            self@[i].law_round_trip();
        }
        assert(read_items::<T>(items) =~= items);
    }
}

/// Where a function gives every slot its place by its name, no two slots have
/// one name.
pub proof fn lemma_placed_keys_are_distinct(slots: Slots, place_of: spec_fn(Seq<char>) -> int)
    requires
        forall|i: int| 0 <= i < slots.len() ==> place_of((#[trigger] slots[i]).0) == i,
    ensures
        distinct_keys(slots),
{
}

/// Collects the properties of an object in order.
pub struct ObjectBuilder {
    entries: Vec<(String, Value)>,
    slots: Ghost<Slots>,
}

impl View for ObjectBuilder {
    type V = Slots;

    /// The slots that were offered so far, set or unset.
    closed spec fn view(&self) -> Slots {
        self.slots@
    }
}

impl ObjectBuilder {
    /// The builder holds the entries of the slots that it was offered.
    pub closed spec fn wf(&self) -> bool {
        entries_view(self.entries@) == flatten(self.slots@)
    }

    /// A builder that was offered nothing.
    pub fn new() -> (res: ObjectBuilder)
        ensures
            res.wf(),
            res@ == Slots::empty(),
    {
        let res = ObjectBuilder { entries: Vec::new(), slots: Ghost(Seq::empty()) };
        assert(entries_view(res.entries@) =~= flatten(res.slots@));
        res
    }

    /// Offers the property `key` with the value `value`, if there is one.
    pub fn optional(&mut self, key: &str, value: Option<Value>)
        requires
            old(self).wf(),
        ensures
            final(self).wf(),
            final(self)@ == old(self)@.push((key@, option_view(value))),
    {
        proof {
            lemma_flatten_push(self.slots@, key@, option_view(value));
        }
        let ghost before = entries_view(self.entries@);
        match value {
            Some(v) => {
                self.entries.push((key.to_owned(), v));
                assert(entries_view(self.entries@) =~= before + entry(key@, v@));
            },
            None => {
                assert(before + Seq::<(Seq<char>, ValueView)>::empty() =~= before);
            },
        }
        self.slots = Ghost(self.slots@.push((key@, option_view(value))));
    }

    /// Offers the property `key` with the value `value`.
    pub fn field(&mut self, key: &str, value: Value)
        requires
            old(self).wf(),
        ensures
            final(self).wf(),
            final(self)@ == old(self)@.push((key@, Some(value@))),
    {
        self.optional(key, Some(value));
    }

    /// Offers the property `key` with a string for its value.
    pub fn string(&mut self, key: &str, value: &str)
        requires
            old(self).wf(),
        ensures
            final(self).wf(),
            final(self)@ == old(self)@.push((key@, Some(ValueView::String(value@)))),
    {
        self.optional(key, Some(Value::string(value)));
    }

    /// Offers the property `key` with the wire form of `value`.
    pub fn wire<T: ToWire>(&mut self, key: &str, value: &T)
        requires
            old(self).wf(),
        ensures
            final(self).wf(),
            final(self)@ == old(self)@.push((key@, Some(value.wire()))),
    {
        self.optional(key, Some(value.to_wire()));
    }

    /// Offers the property `key` with the wire form of `value`, if there is a
    /// value.
    pub fn optional_wire<T: ToWire>(&mut self, key: &str, value: &Option<T>)
        requires
            old(self).wf(),
        ensures
            final(self).wf(),
            final(self)@ == old(self)@.push((key@, optional_wire(*value))),
    {
        let wire = match value {
            Some(t) => Some(t.to_wire()),
            None => None,
        };
        self.optional(key, wire);
    }

    /// Offers the property `key` with a list for its value, unless the list
    /// is empty.
    pub fn nonempty<T: ToWire>(&mut self, key: &str, value: &Vec<T>)
        requires
            old(self).wf(),
        ensures
            final(self).wf(),
            final(self)@ == old(self)@.push((key@, nonempty_wire(value@))),
    {
        let wire = if value.len() == 0 {
            None
        } else {
            Some(list_to_wire(value))
        };
        self.optional(key, wire);
    }

    /// Offers what `other` was offered, in order.
    pub fn extend(&mut self, other: ObjectBuilder)
        requires
            old(self).wf(),
            other.wf(),
        ensures
            final(self).wf(),
            final(self)@ == old(self)@ + other@,
    {
        let mut other = other;
        let ghost before = entries_view(self.entries@);
        let ghost added = entries_view(other.entries@);
        proof {
            lemma_flatten_concat(self.slots@, other.slots@);
        }
        self.entries.append(&mut other.entries);
        assert(entries_view(self.entries@) =~= before + added);
        self.slots = Ghost(self.slots@ + other.slots@);
    }

    /// The object of the properties that are set, in the order in which they
    /// were offered.
    pub fn finish(self) -> (res: Value)
        requires
            self.wf(),
        ensures
            res@ == ValueView::Object(flatten(self@)),
    {
        Value::object(self.entries)
    }
}

} // verus!
