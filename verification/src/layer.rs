//! Layers: what a style draws, and how.
//!
//! A layer has an identifier, most have a source, and each has layout and
//! paint properties. A property is left out of the wire form while it is
//! unset. The value of a property is an [`Expression`]: a constant, or a list
//! that the engine evaluates.

use vstd::prelude::*;
use crate::wire::{
    distinct_keys, entry, flatten, items_view, law_lookup_of_distinct_keys, lemma_array_view,
    lemma_defaulted_round_trip, lemma_flatten_concat, lemma_flatten_one,
    lemma_optional_round_trip, lemma_placed_keys_are_distinct, lemma_required_round_trip, lookup,
    optional, optional_comes_back, optional_wire, read_defaulted, read_optional, read_required,
    required, str_eq, FromWire, Number, ObjectBuilder, Slots, ToWire, Value, ValueView,
};

verus! {

/// The value of a layer property: a constant of the property's own
/// vocabulary, a string, a number, a truth value, or a list of expressions.
#[derive(Debug)]
pub enum Expression<T> {
    Enum(T),
    String(String),
    Number(Number),
    Bool(bool),
    List(Vec<Expression<T>>),
}

impl<T: Clone> Clone for Expression<T> {
    /// A deep copy. A copy has the variant of what was copied, and its strings,
    /// numbers and truth values; of a constant it holds what the constant's
    /// own `clone` gives.
    fn clone(&self) -> (res: Expression<T>)
        ensures
            self is Enum ==> res is Enum,
            self is String ==> res is String && res->String_0@ == self->String_0@,
            self is Number ==> res == *self,
            self is Bool ==> res == *self,
            self is List ==> res is List && res->List_0@.len() == self->List_0@.len(),
        decreases self,
    {
        match self {
            Expression::Enum(t) => Expression::Enum(t.clone()),
            Expression::String(s) => Expression::String(s.clone()),
            Expression::Number(n) => Expression::Number(*n),
            Expression::Bool(b) => Expression::Bool(*b),
            Expression::List(items) => {
                let mut out: Vec<Expression<T>> = Vec::new();
                let mut i: usize = 0;
                while i < items.len()
                    invariant
                        i <= items.len(),
                        out.len() == i,
                        Expression::List(*items) == *self,
                    decreases items.len() - i,
                {
                    proof {
                        vstd::std_specs::vec::axiom_vec_index_decreases(*items, i as int);
                        assert(self->List_0 == *items);
                        assert(decreases_to!(*self => self->List_0));
                    }
                    let item = items[i].clone();
                    out.push(item);
                    i += 1;
                }
                Expression::List(out)
            },
        }
    }
}

/// Marks the vocabularies that an [`Expression`] can hold as a constant.
pub trait EnumMarker {

}

/// The wire form of an expression: the wire form of the constant, or the
/// array of the wire forms of the items of a list.
pub open spec fn expression_wire<T: ToWire>(e: Expression<T>) -> ValueView
    decreases e,
{
    match e {
        Expression::Enum(t) => t.wire(),
        Expression::String(s) => ValueView::String(s@),
        Expression::Number(n) => ValueView::Number(n),
        Expression::Bool(b) => ValueView::Bool(b),
        Expression::List(items) => ValueView::Array(
            Seq::new(
                items@.len(),
                |i: int|
                    if 0 <= i < items@.len() {
                        expression_wire(items@[i])
                    } else {
                        ValueView::Null
                    },
            ),
        ),
    }
}

/// Encodes an expression in its wire form.
pub fn expression_to_wire<T: ToWire>(e: &Expression<T>) -> (res: Value)
    ensures
        res@ == expression_wire(*e),
    decreases e,
{
    match e {
        Expression::Enum(t) => t.to_wire(),
        Expression::String(s) => Value::String(s.clone()),
        Expression::Number(n) => Value::Number(*n),
        Expression::Bool(b) => Value::Bool(*b),
        Expression::List(items) => {
            let mut out: Vec<Value> = Vec::new();
            let mut i: usize = 0;
            while i < items.len()
                invariant
                    i <= items.len(),
                    out.len() == i,
                    forall|j: int| 0 <= j < i ==> (#[trigger] out@[j])@ == expression_wire(items@[j]),
                    Expression::List(*items) == *e,
                decreases items.len() - i,
            {
                proof {
                    vstd::std_specs::vec::axiom_vec_index_decreases(*items, i as int);
                    assert(e->List_0 == *items);
                    assert(decreases_to!(*e => e->List_0));
                }
                let item = expression_to_wire(&items[i]);
                out.push(item);
                i += 1;
            }
            proof {
                assert(items_view(out@) =~= expression_wire(*e)->Array_0);
            }
            Value::array(out)
        },
    }
}

impl<T: ToWire> ToWire for Expression<T> {
    open spec fn wire(&self) -> ValueView {
        expression_wire(*self)
    }

    fn to_wire(&self) -> (value: Value) {
        expression_to_wire(self)
    }
}

impl ToWire for () {
    /// An expression without a vocabulary of its own has no constants; the
    /// unit value is null on the wire.
    open spec fn wire(&self) -> ValueView {
        ValueView::Null
    }

    fn to_wire(&self) -> (value: Value) {
        Value::Null
    }
}

/// What is read exactly: reading gives back the very wire value that was read,
/// and every value comes back.
pub trait ExactWire: FromWire {
    /// What can be read is read as itself.
    proof fn law_read_is_exact(value: ValueView)
        ensures
            Self::spec_read(value) matches Some(w) ==> w == value,
    ;

    /// Every value comes back.
    proof fn law_always_comes_back(&self)
        ensures
            self.comes_back(),
    ;
}

impl FromWire for () {
    /// The unit value is read from null.
    open spec fn spec_read(value: ValueView) -> Option<ValueView> {
        match value {
            ValueView::Null => Some(value),
            _ => None,
        }
    }

    open spec fn comes_back(&self) -> bool {
        true
    }

    fn from_wire(value: &Value) -> (res: Option<()>) {
        match value {
            Value::Null => Some(()),
            _ => None,
        }
    }

    proof fn law_round_trip(&self) {
    }
}

impl ExactWire for () {
    proof fn law_read_is_exact(value: ValueView) {
    }

    proof fn law_always_comes_back(&self) {
    }
}

/// What a wire value is read as, as an expression: a constant where it can be
/// read as one, and else the string, the number, the truth value or the list
/// of expressions that it is. Nothing else is an expression.
pub open spec fn expression_read<T: FromWire>(v: ValueView) -> Option<ValueView>
    decreases v,
{
    if T::spec_read(v) is Some {
        T::spec_read(v)
    } else {
        match v {
            ValueView::String(_) => Some(v),
            ValueView::Number(_) => Some(v),
            ValueView::Bool(_) => Some(v),
            ValueView::Array(items) => if forall|i: int|
                0 <= i < items.len() ==> expression_read::<T>(#[trigger] items[i]) is Some {
                Some(
                    ValueView::Array(
                        Seq::new(
                            items.len(),
                            |i: int|
                                if 0 <= i < items.len() {
                                    expression_read::<T>(items[i])->Some_0
                                } else {
                                    ValueView::Null
                                },
                        ),
                    ),
                )
            } else {
                None
            },
            _ => None,
        }
    }
}

/// Reads an expression from a wire value.
pub fn expression_from_wire<T: FromWire>(v: &Value) -> (res: Option<Expression<T>>)
    ensures
        match res {
            Some(e) => expression_read::<T>(v@) == Some(expression_wire(e)),
            None => expression_read::<T>(v@) is None,
        },
    decreases v,
{
    match T::from_wire(v) {
        Some(t) => {
            return Some(Expression::Enum(t));
        },
        None => {},
    }
    match v {
        Value::String(s) => Some(Expression::String(s.clone())),
        Value::Number(n) => Some(Expression::Number(*n)),
        Value::Bool(b) => Some(Expression::Bool(*b)),
        Value::Array(items) => {
            proof {
                lemma_array_view(*items);
            }
            let ghost views = items_view(items@);
            let mut out: Vec<Expression<T>> = Vec::new();
            let mut i: usize = 0;
            while i < items.len()
                invariant
                    i <= items.len(),
                    out.len() == i,
                    views == items_view(items@),
                    v@ == ValueView::Array(views),
                    Value::Array(*items) == *v,
                    T::spec_read(v@) is None,
                    forall|j: int|
                        0 <= j < i ==> expression_read::<T>(views[j]) == Some(
                            expression_wire(#[trigger] out@[j]),
                        ),
                decreases items.len() - i,
            {
                proof {
                    vstd::std_specs::vec::axiom_vec_index_decreases(*items, i as int);
                    assert(v->Array_0 == *items);
                    assert(decreases_to!(*v => v->Array_0));
                }
                match expression_from_wire::<T>(&items[i]) {
                    Some(item) => {
                        out.push(item);
                    },
                    None => {
                        assert(expression_read::<T>(views[i as int]) is None);
                        return None;
                    },
                }
                i += 1;
            }
            let res = Expression::List(out);
            proof {
                assert forall|j: int| 0 <= j < views.len() implies expression_read::<T>(
                    #[trigger] views[j],
                ) is Some by {
                    assert(expression_read::<T>(views[j]) == Some(expression_wire(out@[j])));
                }
                assert(expression_read::<T>(v@)->Some_0->Array_0 =~= expression_wire(
                    res,
                )->Array_0);
            }
            Some(res)
        },
        _ => None,
    }
}

/// Reading the wire form of an expression gives the wire form back.
pub proof fn lemma_expression_round_trip<T: ExactWire>(e: Expression<T>)
    ensures
        expression_read::<T>(expression_wire(e)) == Some(expression_wire(e)),
    decreases e,
{
    let v = expression_wire(e);
    T::law_read_is_exact(v);
    match e {
        Expression::Enum(t) => {
            t.law_always_comes_back();
            t.law_round_trip();
            assert(v == t.wire());
            assert(T::spec_read(v) == Some(v));
            assert(expression_read::<T>(v) == T::spec_read(v));
        },
        Expression::List(items) => {
            let views = v->Array_0;
            assert forall|i: int| 0 <= i < views.len() implies expression_read::<T>(
                #[trigger] views[i],
            ) == Some(views[i]) by {
                lemma_expression_round_trip::<T>(items@[i]);
            }
            if T::spec_read(v) is None {
                assert(expression_read::<T>(v)->Some_0->Array_0 =~= views);
            }
        },
        _ => {},
    }
}

impl<T: ExactWire> FromWire for Expression<T> {
    open spec fn spec_read(value: ValueView) -> Option<ValueView> {
        expression_read::<T>(value)
    }

    /// Every expression comes back.
    open spec fn comes_back(&self) -> bool {
        true
    }

    fn from_wire(value: &Value) -> (res: Option<Expression<T>>) {
        expression_from_wire(value)
    }

    proof fn law_round_trip(&self) {
        lemma_expression_round_trip::<T>(*self);
    }
}

impl<T: EnumMarker> From<T> for Expression<T> {
    /// The constant `item`.
    fn from(item: T) -> (res: Expression<T>) {
        Expression::Enum(item)
    }
}

impl<T: EnumMarker> vstd::std_specs::convert::FromSpecImpl<T> for Expression<T> {
    open spec fn obeys_from_spec() -> bool {
        true
    }

    open spec fn from_spec(item: T) -> Expression<T> {
        Expression::Enum(item)
    }
}

impl<T> From<String> for Expression<T> {
    /// The string `value`.
    fn from(value: String) -> (res: Expression<T>) {
        Expression::String(value)
    }
}

impl<T> vstd::std_specs::convert::FromSpecImpl<String> for Expression<T> {
    open spec fn obeys_from_spec() -> bool {
        true
    }

    open spec fn from_spec(value: String) -> Expression<T> {
        Expression::String(value)
    }
}

impl<T> From<Number> for Expression<T> {
    /// The number `value`.
    fn from(value: Number) -> (res: Expression<T>) {
        Expression::Number(value)
    }
}

impl<T> vstd::std_specs::convert::FromSpecImpl<Number> for Expression<T> {
    open spec fn obeys_from_spec() -> bool {
        true
    }

    open spec fn from_spec(value: Number) -> Expression<T> {
        Expression::Number(value)
    }
}

impl<T> From<bool> for Expression<T> {
    /// The truth value `value`.
    fn from(value: bool) -> (res: Expression<T>) {
        Expression::Bool(value)
    }
}

impl<T> vstd::std_specs::convert::FromSpecImpl<bool> for Expression<T> {
    open spec fn obeys_from_spec() -> bool {
        true
    }

    open spec fn from_spec(value: bool) -> Expression<T> {
        Expression::Bool(value)
    }
}

impl<T> Expression<T> {
    /// The string with the characters of `value`.
    pub fn string(value: &str) -> (res: Expression<T>)
        ensures
            res is String,
            res->String_0@ == value@,
    {
        Expression::String(value.to_owned())
    }

    /// The list of the given strings.
    pub fn strings(values: Vec<&str>) -> (res: Expression<T>)
        ensures
            res is List,
            res->List_0@.len() == values@.len(),
            forall|i: int|
                0 <= i < values@.len() ==> (#[trigger] res->List_0@[i]) is String
                    && res->List_0@[i]->String_0@ == values@[i]@,
    {
        let mut items: Vec<Expression<T>> = Vec::new();
        let mut i: usize = 0;
        while i < values.len()
            invariant
                i <= values.len(),
                items.len() == i,
                forall|j: int|
                    0 <= j < i ==> (#[trigger] items@[j]) is String && items@[j]->String_0@
                        == values@[j]@,
            decreases values.len() - i,
        {
            items.push(Expression::String(values[i].to_owned()));
            i += 1;
        }
        Expression::List(items)
    }
}

/// Whether a layer is drawn.
#[derive(Debug, Clone, Copy, PartialEq, Eq, Structural)]
pub enum Visibility {
    Visible,
    Off,
}

impl Default for Visibility {
    fn default() -> (res: Visibility)
        ensures
            res == Visibility::Visible,
    {
        Visibility::Visible
    }
}

impl Visibility {
    /// The name of the constant on the wire.
    pub open spec fn spec_name(self) -> Seq<char> {
        match self {
            Visibility::Visible => "visible"@,
            Visibility::Off => "none"@,
        }
    }

    /// The name of the constant on the wire.
    pub fn name(&self) -> (res: &'static str)
        ensures
            res@ == self.spec_name(),
    {
        match self {
            Visibility::Visible => "visible",
            Visibility::Off => "none",
        }
    }
}

impl ToWire for Visibility {
    open spec fn wire(&self) -> ValueView {
        ValueView::String(self.spec_name())
    }

    fn to_wire(&self) -> (value: Value) {
        Value::string(self.name())
    }
}

impl Visibility {
    /// The constant with the wire name `name`, if there is one.
    pub open spec fn spec_named(name: Seq<char>) -> Option<Visibility> {
        if name == "visible"@ {
            Some(Visibility::Visible)
        } else if name == "none"@ {
            Some(Visibility::Off)
        } else {
            None
        }
    }

    /// The constant with the wire name `name`, if there is one.
    pub fn named(name: &str) -> (res: Option<Visibility>)
        ensures
            res == Self::spec_named(name@),
    {
        if str_eq(name, "visible") {
            Some(Visibility::Visible)
        } else if str_eq(name, "none") {
            Some(Visibility::Off)
        } else {
            None
        }
    }

    /// Every constant is the constant with its own wire name.
    pub proof fn law_named(self)
        ensures
            Self::spec_named(self.spec_name()) == Some(self),
    {
        reveal_strlit("visible");
        reveal_strlit("none");
        assert("visible"@.len() == 7);
        assert("none"@.len() == 4);
    }
}

impl FromWire for Visibility {
    /// A constant is read from the string of its wire name.
    open spec fn spec_read(value: ValueView) -> Option<ValueView> {
        match value {
            ValueView::String(name) => if Self::spec_named(name) is Some {
                Some(value)
            } else {
                None
            },
            _ => None,
        }
    }

    open spec fn comes_back(&self) -> bool {
        true
    }

    fn from_wire(value: &Value) -> (res: Option<Visibility>) {
        match value {
            Value::String(name) => match Self::named(name.as_str()) {
                Some(constant) => {
                    proof {
                        Self::lemma_named_is_named(name@);
                    }
                    Some(constant)
                },
                None => None,
            },
            _ => None,
        }
    }

    proof fn law_round_trip(&self) {
        self.law_named();
    }
}

impl Visibility {
    /// The constant with a wire name has that wire name.
    pub proof fn lemma_named_is_named(name: Seq<char>)
        ensures
            Self::spec_named(name) matches Some(constant) ==> constant.spec_name() == name,
    {
    }
}

impl ExactWire for Visibility {
    proof fn law_read_is_exact(value: ValueView) {
    }

    proof fn law_always_comes_back(&self) {
    }
}

/// What the engine tells of a layer of the style.
#[derive(Debug, Clone)]
pub struct GetLayer {
    pub id: String,
    pub type_: String,
    pub maxzoom: Option<Number>,
    pub minzoom: Option<Number>,
    pub visibility: Option<Visibility>,
}

impl GetLayer {
    /// The properties of the wire form, in order: each under its wire name,
    /// with its wire form where it is set.
    pub open spec fn slots(&self) -> Slots {
        seq![
            ("id"@, Some(self.id.wire())),
            ("type"@, Some(self.type_.wire())),
            ("maxzoom"@, optional_wire(self.maxzoom)),
            ("minzoom"@, optional_wire(self.minzoom)),
            ("visibility"@, optional_wire(self.visibility)),
        ]
    }

    /// Offers every property to a builder, in order.
    pub fn to_entries(&self) -> (b: ObjectBuilder)
        ensures
            b.wf(),
            b@ == self.slots(),
    {
        let mut b = ObjectBuilder::new();
        b.wire("id", &self.id);
        b.wire("type", &self.type_);
        b.optional_wire("maxzoom", &self.maxzoom);
        b.optional_wire("minzoom", &self.minzoom);
        b.optional_wire("visibility", &self.visibility);
        b
    }

    /// The place of the property with the wire name `key`, which the length of
    /// the name and a few of its characters tell.
    spec fn place_of(key: Seq<char>) -> int {
        if key.len() == 2 && key[1] == 'd' {
            0
        } else if key.len() == 4 && key[1] == 'y' {
            1
        } else if key.len() == 7 && key[1] == 'a' {
            2
        } else if key.len() == 7 && key[1] == 'i' {
            3
        } else if key.len() == 10 && key[1] == 'i' {
            4
        } else {
            -1
        }
    }

    /// No two properties have one wire name. So looking the wire name of a
    /// property up in the wire form finds the wire form of that property where it
    /// is set, and nothing where it is unset.
    pub proof fn law_wire_names_are_distinct(&self)
        ensures
            distinct_keys(self.slots()),
            forall|i: int|
                0 <= i < self.slots().len() ==> lookup(
                    flatten(self.slots()),
                    (#[trigger] self.slots()[i]).0,
                ) == self.slots()[i].1,
    {
        reveal_strlit("id");
        reveal_strlit("type");
        reveal_strlit("maxzoom");
        reveal_strlit("minzoom");
        reveal_strlit("visibility");
        let slots = self.slots();
        assert(GetLayer::place_of(slots[0].0) == 0);
        assert(GetLayer::place_of(slots[1].0) == 1);
        assert(GetLayer::place_of(slots[2].0) == 2);
        assert(GetLayer::place_of(slots[3].0) == 3);
        assert(GetLayer::place_of(slots[4].0) == 4);
        assert forall|i: int| 0 <= i < slots.len() implies GetLayer::place_of(
            (#[trigger] slots[i]).0,
        ) - 0 == i by {
        }
        lemma_placed_keys_are_distinct(slots, |key: Seq<char>| GetLayer::place_of(key) - 0);
        assert forall|i: int| 0 <= i < slots.len() implies lookup(
            flatten(slots),
            (#[trigger] slots[i]).0,
        ) == slots[i].1 by {
            law_lookup_of_distinct_keys(slots, i);
        }
    }
}

impl ToWire for GetLayer {
    /// The object of the properties that are set.
    open spec fn wire(&self) -> ValueView {
        ValueView::Object(flatten(self.slots()))
    }

    fn to_wire(&self) -> (value: Value) {
        self.to_entries().finish()
    }
}

impl GetLayer {
    /// Whether every property of a wire value can be read: what must be there
    /// is there, and what is there has the right shape.
    pub open spec fn all_read(value: ValueView) -> bool {
        &&& read_required::<String>(value.get("id"@)) is Some
        &&& read_required::<String>(value.get("type"@)) is Some
        &&& read_optional::<Number>(value.get("maxzoom"@)) is Some
        &&& read_optional::<Number>(value.get("minzoom"@)) is Some
        &&& read_optional::<Visibility>(value.get("visibility"@)) is Some
    }

    /// The slots that the properties of a wire value are read as, in order.
    pub open spec fn read_slots(value: ValueView) -> Slots {
        seq![
            ("id"@, read_required::<String>(value.get("id"@))->Some_0),
            ("type"@, read_required::<String>(value.get("type"@))->Some_0),
            ("maxzoom"@, read_optional::<Number>(value.get("maxzoom"@))->Some_0),
            ("minzoom"@, read_optional::<Number>(value.get("minzoom"@))->Some_0),
            ("visibility"@, read_optional::<Visibility>(value.get("visibility"@))->Some_0),
        ]
    }

    /// Reading an object in which looking up the name of each property of
    /// the value finds that property gives the value back.
    pub proof fn lemma_read_from(&self, entries: Seq<(Seq<char>, ValueView)>)
        requires
            self.comes_back(),
            forall|i: int|
                0 <= i < self.slots().len() ==> lookup(entries, (#[trigger] self.slots()[i]).0)
                    == self.slots()[i].1,
        ensures
            Self::spec_read(ValueView::Object(entries)) == Some(self.wire()),
    {
        let value = ValueView::Object(entries);
        let slots = self.slots();
        assert(value.get(slots[0].0) == slots[0].1);
        lemma_required_round_trip::<String>(self.id);
        assert(value.get(slots[1].0) == slots[1].1);
        lemma_required_round_trip::<String>(self.type_);
        assert(value.get(slots[2].0) == slots[2].1);
        lemma_optional_round_trip::<Number>(self.maxzoom);
        assert(value.get(slots[3].0) == slots[3].1);
        lemma_optional_round_trip::<Number>(self.minzoom);
        assert(value.get(slots[4].0) == slots[4].1);
        lemma_optional_round_trip::<Visibility>(self.visibility);
    }
}

impl FromWire for GetLayer {
    /// The value is read from an object, property by property. Properties of
    /// other names are passed over.
    open spec fn spec_read(value: ValueView) -> Option<ValueView> {
        if value is Object && Self::all_read(value) {
            Some(ValueView::Object(flatten(Self::read_slots(value))))
        } else {
            None
        }
    }

    open spec fn comes_back(&self) -> bool {
        &&& self.id.comes_back()
        &&& self.type_.comes_back()
        &&& optional_comes_back(self.maxzoom)
        &&& optional_comes_back(self.minzoom)
        &&& optional_comes_back(self.visibility)
    }

    fn from_wire(value: &Value) -> (res: Option<GetLayer>) {
        match value {
            Value::Object(_) => {},
            _ => {
                return None;
            },
        }
        let id = match required::<String>(value.get("id")) {
            Some(read) => read,
            None => {
                return None;
            },
        };
        let type_ = match required::<String>(value.get("type")) {
            Some(read) => read,
            None => {
                return None;
            },
        };
        let maxzoom = match optional::<Number>(value.get("maxzoom")) {
            Some(read) => read,
            None => {
                return None;
            },
        };
        let minzoom = match optional::<Number>(value.get("minzoom")) {
            Some(read) => read,
            None => {
                return None;
            },
        };
        let visibility = match optional::<Visibility>(value.get("visibility")) {
            Some(read) => read,
            None => {
                return None;
            },
        };
        Some(GetLayer { id, type_, maxzoom, minzoom, visibility })
    }

    proof fn law_round_trip(&self) {
        self.law_wire_names_are_distinct();
        self.lemma_read_from(flatten(self.slots()));
    }
}

/// A layer of any type.
#[derive(Debug, Clone)]
pub enum Layer {
    Custom(CustomLayer),
    Background(BackgroundLayer),
    Fill(FillLayer),
    Line(LineLayer),
    Symbol(SymbolLayer),
    Raster(RasterLayer),
    RasterParticle(RasterParticleLayer),
    Circle(CircleLayer),
    FillExtrusion(FillExtrusionLayer),
    Heatmap(HeatmapLayer),
    Hillshade(HillshadeLayer),
    Sky(SkyLayer),
    Model(ModelLayer),
}

/// What can be turned into a [`Layer`].
pub trait IntoLayer: Sized {
    /// The layer that the value becomes.
    spec fn spec_into_layer(self) -> Layer;

    /// Wraps the value as a layer.
    fn into_layer(self) -> (res: Layer)
        ensures
            res == self.spec_into_layer(),
    ;
}

impl Layer {
    /// The type of the layer as the wire names it.
    pub open spec fn spec_tag(&self) -> Seq<char> {
        match self {
            Layer::Custom(_) => "custom"@,
            Layer::Background(_) => "background"@,
            Layer::Fill(_) => "fill"@,
            Layer::Line(_) => "line"@,
            Layer::Symbol(_) => "symbol"@,
            Layer::Raster(_) => "raster"@,
            Layer::RasterParticle(_) => "raster-particle"@,
            Layer::Circle(_) => "circle"@,
            Layer::FillExtrusion(_) => "fill-extrusion"@,
            Layer::Heatmap(_) => "heatmap"@,
            Layer::Hillshade(_) => "hillshade"@,
            Layer::Sky(_) => "sky"@,
            Layer::Model(_) => "model"@,
        }
    }

    /// The type of the layer as the wire names it.
    pub fn tag(&self) -> (res: &'static str)
        ensures
            res@ == self.spec_tag(),
    {
        match self {
            Layer::Custom(_) => "custom",
            Layer::Background(_) => "background",
            Layer::Fill(_) => "fill",
            Layer::Line(_) => "line",
            Layer::Symbol(_) => "symbol",
            Layer::Raster(_) => "raster",
            Layer::RasterParticle(_) => "raster-particle",
            Layer::Circle(_) => "circle",
            Layer::FillExtrusion(_) => "fill-extrusion",
            Layer::Heatmap(_) => "heatmap",
            Layer::Hillshade(_) => "hillshade",
            Layer::Sky(_) => "sky",
            Layer::Model(_) => "model",
        }
    }

    /// The properties of the layer itself, without its type.
    pub open spec fn layer_slots(&self) -> Slots {
        match self {
            Layer::Custom(layer) => layer.slots(),
            Layer::Background(layer) => layer.slots(),
            Layer::Fill(layer) => layer.slots(),
            Layer::Line(layer) => layer.slots(),
            Layer::Symbol(layer) => layer.slots(),
            Layer::Raster(layer) => layer.slots(),
            Layer::RasterParticle(layer) => layer.slots(),
            Layer::Circle(layer) => layer.slots(),
            Layer::FillExtrusion(layer) => layer.slots(),
            Layer::Heatmap(layer) => layer.slots(),
            Layer::Hillshade(layer) => layer.slots(),
            Layer::Sky(layer) => layer.slots(),
            Layer::Model(layer) => layer.slots(),
        }
    }

    /// The properties of the wire form, in order: the type of the layer under
    /// `type`, followed by the properties of the layer.
    pub open spec fn slots(&self) -> Slots {
        seq![("type"@, Some(ValueView::String(self.spec_tag())))] + self.layer_slots()
    }

    /// No two properties of a layer have one wire name, and none is named
    /// `type`. So looking a wire name up in the wire form finds the wire form
    /// of the property of that name where it is set, and nothing where it is
    /// unset; and `type` finds the type of the layer.
    pub proof fn law_wire_names_are_distinct(&self)
        ensures
            distinct_keys(self.slots()),
            forall|i: int|
                0 <= i < self.slots().len() ==> lookup(
                    flatten(self.slots()),
                    (#[trigger] self.slots()[i]).0,
                ) == self.slots()[i].1,
    {
        let first = Some(ValueView::String(self.spec_tag()));
        match self {
            Layer::Custom(layer) => layer.law_wire_names_leave_room(first),
            Layer::Background(layer) => layer.law_wire_names_leave_room(first),
            Layer::Fill(layer) => layer.law_wire_names_leave_room(first),
            Layer::Line(layer) => layer.law_wire_names_leave_room(first),
            Layer::Symbol(layer) => layer.law_wire_names_leave_room(first),
            Layer::Raster(layer) => layer.law_wire_names_leave_room(first),
            Layer::RasterParticle(layer) => layer.law_wire_names_leave_room(first),
            Layer::Circle(layer) => layer.law_wire_names_leave_room(first),
            Layer::FillExtrusion(layer) => layer.law_wire_names_leave_room(first),
            Layer::Heatmap(layer) => layer.law_wire_names_leave_room(first),
            Layer::Hillshade(layer) => layer.law_wire_names_leave_room(first),
            Layer::Sky(layer) => layer.law_wire_names_leave_room(first),
            Layer::Model(layer) => layer.law_wire_names_leave_room(first),
        }
        let slots = self.slots();
        assert forall|i: int| 0 <= i < slots.len() implies lookup(
            flatten(slots),
            (#[trigger] slots[i]).0,
        ) == slots[i].1 by {
            law_lookup_of_distinct_keys(slots, i);
        }
    }
}

impl ToWire for Layer {
    /// The object of the type of the layer and of the properties that are set.
    open spec fn wire(&self) -> ValueView {
        ValueView::Object(flatten(self.slots()))
    }

    fn to_wire(&self) -> (value: Value) {
        let mut b = ObjectBuilder::new();
        b.string("type", self.tag());
        let entries = match self {
            Layer::Custom(layer) => layer.to_entries(),
            Layer::Background(layer) => layer.to_entries(),
            Layer::Fill(layer) => layer.to_entries(),
            Layer::Line(layer) => layer.to_entries(),
            Layer::Symbol(layer) => layer.to_entries(),
            Layer::Raster(layer) => layer.to_entries(),
            Layer::RasterParticle(layer) => layer.to_entries(),
            Layer::Circle(layer) => layer.to_entries(),
            Layer::FillExtrusion(layer) => layer.to_entries(),
            Layer::Heatmap(layer) => layer.to_entries(),
            Layer::Hillshade(layer) => layer.to_entries(),
            Layer::Sky(layer) => layer.to_entries(),
            Layer::Model(layer) => layer.to_entries(),
        };
        b.extend(entries);
        b.finish()
    }
}

/// The object that the type of a layer and the properties read behind it
/// make.
pub open spec fn tagged(tag: Seq<char>, read: Option<ValueView>) -> Option<ValueView> {
    match read {
        Some(ValueView::Object(entries)) => Some(
            ValueView::Object(entry("type"@, ValueView::String(tag)) + entries),
        ),
        _ => None,
    }
}

impl Layer {
    /// The wire form of a layer is the type of the layer before the wire form
    /// of the layer itself.
    pub proof fn lemma_wire_is_tagged(&self)
        ensures
            Some(self.wire()) == tagged(
                self.spec_tag(),
                Some(ValueView::Object(flatten(self.layer_slots()))),
            ),
    {
        let first: Slots = seq![("type"@, Some(ValueView::String(self.spec_tag())))];
        lemma_flatten_concat(first, self.layer_slots());
        lemma_flatten_one("type"@, ValueView::String(self.spec_tag()));
    }

    /// No two types of layers have one wire name.
    proof fn lemma_tags_are_distinct()
        ensures
            "custom"@ != "background"@,
            "custom"@ != "fill"@,
            "background"@ != "fill"@,
            "custom"@ != "line"@,
            "background"@ != "line"@,
            "fill"@ != "line"@,
            "custom"@ != "symbol"@,
            "background"@ != "symbol"@,
            "fill"@ != "symbol"@,
            "line"@ != "symbol"@,
            "custom"@ != "raster"@,
            "background"@ != "raster"@,
            "fill"@ != "raster"@,
            "line"@ != "raster"@,
            "symbol"@ != "raster"@,
            "custom"@ != "raster-particle"@,
            "background"@ != "raster-particle"@,
            "fill"@ != "raster-particle"@,
            "line"@ != "raster-particle"@,
            "symbol"@ != "raster-particle"@,
            "raster"@ != "raster-particle"@,
            "custom"@ != "circle"@,
            "background"@ != "circle"@,
            "fill"@ != "circle"@,
            "line"@ != "circle"@,
            "symbol"@ != "circle"@,
            "raster"@ != "circle"@,
            "raster-particle"@ != "circle"@,
            "custom"@ != "fill-extrusion"@,
            "background"@ != "fill-extrusion"@,
            "fill"@ != "fill-extrusion"@,
            "line"@ != "fill-extrusion"@,
            "symbol"@ != "fill-extrusion"@,
            "raster"@ != "fill-extrusion"@,
            "raster-particle"@ != "fill-extrusion"@,
            "circle"@ != "fill-extrusion"@,
            "custom"@ != "heatmap"@,
            "background"@ != "heatmap"@,
            "fill"@ != "heatmap"@,
            "line"@ != "heatmap"@,
            "symbol"@ != "heatmap"@,
            "raster"@ != "heatmap"@,
            "raster-particle"@ != "heatmap"@,
            "circle"@ != "heatmap"@,
            "fill-extrusion"@ != "heatmap"@,
            "custom"@ != "hillshade"@,
            "background"@ != "hillshade"@,
            "fill"@ != "hillshade"@,
            "line"@ != "hillshade"@,
            "symbol"@ != "hillshade"@,
            "raster"@ != "hillshade"@,
            "raster-particle"@ != "hillshade"@,
            "circle"@ != "hillshade"@,
            "fill-extrusion"@ != "hillshade"@,
            "heatmap"@ != "hillshade"@,
            "custom"@ != "sky"@,
            "background"@ != "sky"@,
            "fill"@ != "sky"@,
            "line"@ != "sky"@,
            "symbol"@ != "sky"@,
            "raster"@ != "sky"@,
            "raster-particle"@ != "sky"@,
            "circle"@ != "sky"@,
            "fill-extrusion"@ != "sky"@,
            "heatmap"@ != "sky"@,
            "hillshade"@ != "sky"@,
            "custom"@ != "model"@,
            "background"@ != "model"@,
            "fill"@ != "model"@,
            "line"@ != "model"@,
            "symbol"@ != "model"@,
            "raster"@ != "model"@,
            "raster-particle"@ != "model"@,
            "circle"@ != "model"@,
            "fill-extrusion"@ != "model"@,
            "heatmap"@ != "model"@,
            "hillshade"@ != "model"@,
            "sky"@ != "model"@,
    {
        reveal_strlit("custom");
        reveal_strlit("background");
        reveal_strlit("fill");
        reveal_strlit("line");
        reveal_strlit("symbol");
        reveal_strlit("raster");
        reveal_strlit("raster-particle");
        reveal_strlit("circle");
        reveal_strlit("fill-extrusion");
        reveal_strlit("heatmap");
        reveal_strlit("hillshade");
        reveal_strlit("sky");
        reveal_strlit("model");
        assert("custom"@.len() != "background"@.len());
        assert("custom"@.len() != "fill"@.len());
        assert("background"@.len() != "fill"@.len());
        assert("custom"@.len() != "line"@.len());
        assert("background"@.len() != "line"@.len());
        assert("fill"@[0] != "line"@[0]);
        assert("custom"@[0] != "symbol"@[0]);
        assert("background"@.len() != "symbol"@.len());
        assert("fill"@.len() != "symbol"@.len());
        assert("line"@.len() != "symbol"@.len());
        assert("custom"@[0] != "raster"@[0]);
        assert("background"@.len() != "raster"@.len());
        assert("fill"@.len() != "raster"@.len());
        assert("line"@.len() != "raster"@.len());
        assert("symbol"@[0] != "raster"@[0]);
        assert("custom"@.len() != "raster-particle"@.len());
        assert("background"@.len() != "raster-particle"@.len());
        assert("fill"@.len() != "raster-particle"@.len());
        assert("line"@.len() != "raster-particle"@.len());
        assert("symbol"@.len() != "raster-particle"@.len());
        assert("raster"@.len() != "raster-particle"@.len());
        assert("custom"@[1] != "circle"@[1]);
        assert("background"@.len() != "circle"@.len());
        assert("fill"@.len() != "circle"@.len());
        assert("line"@.len() != "circle"@.len());
        assert("symbol"@[0] != "circle"@[0]);
        assert("raster"@[0] != "circle"@[0]);
        assert("raster-particle"@.len() != "circle"@.len());
        assert("custom"@.len() != "fill-extrusion"@.len());
        assert("background"@.len() != "fill-extrusion"@.len());
        assert("fill"@.len() != "fill-extrusion"@.len());
        assert("line"@.len() != "fill-extrusion"@.len());
        assert("symbol"@.len() != "fill-extrusion"@.len());
        assert("raster"@.len() != "fill-extrusion"@.len());
        assert("raster-particle"@.len() != "fill-extrusion"@.len());
        assert("circle"@.len() != "fill-extrusion"@.len());
        assert("custom"@.len() != "heatmap"@.len());
        assert("background"@.len() != "heatmap"@.len());
        assert("fill"@.len() != "heatmap"@.len());
        assert("line"@.len() != "heatmap"@.len());
        assert("symbol"@.len() != "heatmap"@.len());
        assert("raster"@.len() != "heatmap"@.len());
        assert("raster-particle"@.len() != "heatmap"@.len());
        assert("circle"@.len() != "heatmap"@.len());
        assert("fill-extrusion"@.len() != "heatmap"@.len());
        assert("custom"@.len() != "hillshade"@.len());
        assert("background"@.len() != "hillshade"@.len());
        assert("fill"@.len() != "hillshade"@.len());
        assert("line"@.len() != "hillshade"@.len());
        assert("symbol"@.len() != "hillshade"@.len());
        assert("raster"@.len() != "hillshade"@.len());
        assert("raster-particle"@.len() != "hillshade"@.len());
        assert("circle"@.len() != "hillshade"@.len());
        assert("fill-extrusion"@.len() != "hillshade"@.len());
        assert("heatmap"@.len() != "hillshade"@.len());
        assert("custom"@.len() != "sky"@.len());
        assert("background"@.len() != "sky"@.len());
        assert("fill"@.len() != "sky"@.len());
        assert("line"@.len() != "sky"@.len());
        assert("symbol"@.len() != "sky"@.len());
        assert("raster"@.len() != "sky"@.len());
        assert("raster-particle"@.len() != "sky"@.len());
        assert("circle"@.len() != "sky"@.len());
        assert("fill-extrusion"@.len() != "sky"@.len());
        assert("heatmap"@.len() != "sky"@.len());
        assert("hillshade"@.len() != "sky"@.len());
        assert("custom"@.len() != "model"@.len());
        assert("background"@.len() != "model"@.len());
        assert("fill"@.len() != "model"@.len());
        assert("line"@.len() != "model"@.len());
        assert("symbol"@.len() != "model"@.len());
        assert("raster"@.len() != "model"@.len());
        assert("raster-particle"@.len() != "model"@.len());
        assert("circle"@.len() != "model"@.len());
        assert("fill-extrusion"@.len() != "model"@.len());
        assert("heatmap"@.len() != "model"@.len());
        assert("hillshade"@.len() != "model"@.len());
        assert("sky"@.len() != "model"@.len());
    }
}

impl Layer {
    fn read_custom(value: &Value) -> (res: Option<Layer>)
        requires
            value@.get("type"@) == Some(ValueView::String("custom"@)),
        ensures
            match res {
                Some(layer) => Self::spec_read(value@) == Some(layer.wire()),
                None => Self::spec_read(value@) is None,
            },
    {
        proof {
            Self::lemma_tags_are_distinct();
        }
        match CustomLayer::from_wire(value) {
            Some(layer) => {
                let res = Layer::Custom(layer);
                proof {
                    res.lemma_wire_is_tagged();
                }
                Some(res)
            },
            None => None,
        }
    }

    proof fn lemma_round_trip_custom(&self, layer: CustomLayer)
        requires
            *self == Layer::Custom(layer),
            layer.comes_back(),
        ensures
            Self::spec_read(self.wire()) == Some(self.wire()),
    {
        let value = self.wire();
        let slots = self.slots();
        self.law_wire_names_are_distinct();
        assert(value.get(slots[0].0) == slots[0].1);
        Self::lemma_tags_are_distinct();
        self.lemma_wire_is_tagged();
        assert forall|i: int| 0 <= i < layer.slots().len() implies lookup(
            flatten(slots),
            (#[trigger] layer.slots()[i]).0,
        ) == layer.slots()[i].1 by {
            assert(slots[i + 1] == layer.slots()[i]);
        }
        layer.lemma_read_from(flatten(slots));
    }

    fn read_background(value: &Value) -> (res: Option<Layer>)
        requires
            value@.get("type"@) == Some(ValueView::String("background"@)),
        ensures
            match res {
                Some(layer) => Self::spec_read(value@) == Some(layer.wire()),
                None => Self::spec_read(value@) is None,
            },
    {
        proof {
            Self::lemma_tags_are_distinct();
        }
        match BackgroundLayer::from_wire(value) {
            Some(layer) => {
                let res = Layer::Background(layer);
                proof {
                    res.lemma_wire_is_tagged();
                }
                Some(res)
            },
            None => None,
        }
    }

    proof fn lemma_round_trip_background(&self, layer: BackgroundLayer)
        requires
            *self == Layer::Background(layer),
            layer.comes_back(),
        ensures
            Self::spec_read(self.wire()) == Some(self.wire()),
    {
        let value = self.wire();
        let slots = self.slots();
        self.law_wire_names_are_distinct();
        assert(value.get(slots[0].0) == slots[0].1);
        Self::lemma_tags_are_distinct();
        self.lemma_wire_is_tagged();
        assert forall|i: int| 0 <= i < layer.slots().len() implies lookup(
            flatten(slots),
            (#[trigger] layer.slots()[i]).0,
        ) == layer.slots()[i].1 by {
            assert(slots[i + 1] == layer.slots()[i]);
        }
        layer.lemma_read_from(flatten(slots));
    }

    fn read_fill(value: &Value) -> (res: Option<Layer>)
        requires
            value@.get("type"@) == Some(ValueView::String("fill"@)),
        ensures
            match res {
                Some(layer) => Self::spec_read(value@) == Some(layer.wire()),
                None => Self::spec_read(value@) is None,
            },
    {
        proof {
            Self::lemma_tags_are_distinct();
        }
        match FillLayer::from_wire(value) {
            Some(layer) => {
                let res = Layer::Fill(layer);
                proof {
                    res.lemma_wire_is_tagged();
                }
                Some(res)
            },
            None => None,
        }
    }

    proof fn lemma_round_trip_fill(&self, layer: FillLayer)
        requires
            *self == Layer::Fill(layer),
            layer.comes_back(),
        ensures
            Self::spec_read(self.wire()) == Some(self.wire()),
    {
        let value = self.wire();
        let slots = self.slots();
        self.law_wire_names_are_distinct();
        assert(value.get(slots[0].0) == slots[0].1);
        Self::lemma_tags_are_distinct();
        self.lemma_wire_is_tagged();
        assert forall|i: int| 0 <= i < layer.slots().len() implies lookup(
            flatten(slots),
            (#[trigger] layer.slots()[i]).0,
        ) == layer.slots()[i].1 by {
            assert(slots[i + 1] == layer.slots()[i]);
        }
        layer.lemma_read_from(flatten(slots));
    }

    fn read_line(value: &Value) -> (res: Option<Layer>)
        requires
            value@.get("type"@) == Some(ValueView::String("line"@)),
        ensures
            match res {
                Some(layer) => Self::spec_read(value@) == Some(layer.wire()),
                None => Self::spec_read(value@) is None,
            },
    {
        proof {
            Self::lemma_tags_are_distinct();
        }
        match LineLayer::from_wire(value) {
            Some(layer) => {
                let res = Layer::Line(layer);
                proof {
                    res.lemma_wire_is_tagged();
                }
                Some(res)
            },
            None => None,
        }
    }

    proof fn lemma_round_trip_line(&self, layer: LineLayer)
        requires
            *self == Layer::Line(layer),
            layer.comes_back(),
        ensures
            Self::spec_read(self.wire()) == Some(self.wire()),
    {
        let value = self.wire();
        let slots = self.slots();
        self.law_wire_names_are_distinct();
        assert(value.get(slots[0].0) == slots[0].1);
        Self::lemma_tags_are_distinct();
        self.lemma_wire_is_tagged();
        assert forall|i: int| 0 <= i < layer.slots().len() implies lookup(
            flatten(slots),
            (#[trigger] layer.slots()[i]).0,
        ) == layer.slots()[i].1 by {
            assert(slots[i + 1] == layer.slots()[i]);
        }
        layer.lemma_read_from(flatten(slots));
    }

    fn read_symbol(value: &Value) -> (res: Option<Layer>)
        requires
            value@.get("type"@) == Some(ValueView::String("symbol"@)),
        ensures
            match res {
                Some(layer) => Self::spec_read(value@) == Some(layer.wire()),
                None => Self::spec_read(value@) is None,
            },
    {
        proof {
            Self::lemma_tags_are_distinct();
        }
        match SymbolLayer::from_wire(value) {
            Some(layer) => {
                let res = Layer::Symbol(layer);
                proof {
                    res.lemma_wire_is_tagged();
                }
                Some(res)
            },
            None => None,
        }
    }

    proof fn lemma_round_trip_symbol(&self, layer: SymbolLayer)
        requires
            *self == Layer::Symbol(layer),
            layer.comes_back(),
        ensures
            Self::spec_read(self.wire()) == Some(self.wire()),
    {
        let value = self.wire();
        let slots = self.slots();
        self.law_wire_names_are_distinct();
        assert(value.get(slots[0].0) == slots[0].1);
        Self::lemma_tags_are_distinct();
        self.lemma_wire_is_tagged();
        assert forall|i: int| 0 <= i < layer.slots().len() implies lookup(
            flatten(slots),
            (#[trigger] layer.slots()[i]).0,
        ) == layer.slots()[i].1 by {
            assert(slots[i + 1] == layer.slots()[i]);
        }
        layer.lemma_read_from(flatten(slots));
    }

    fn read_raster(value: &Value) -> (res: Option<Layer>)
        requires
            value@.get("type"@) == Some(ValueView::String("raster"@)),
        ensures
            match res {
                Some(layer) => Self::spec_read(value@) == Some(layer.wire()),
                None => Self::spec_read(value@) is None,
            },
    {
        proof {
            Self::lemma_tags_are_distinct();
        }
        match RasterLayer::from_wire(value) {
            Some(layer) => {
                let res = Layer::Raster(layer);
                proof {
                    res.lemma_wire_is_tagged();
                }
                Some(res)
            },
            None => None,
        }
    }

    proof fn lemma_round_trip_raster(&self, layer: RasterLayer)
        requires
            *self == Layer::Raster(layer),
            layer.comes_back(),
        ensures
            Self::spec_read(self.wire()) == Some(self.wire()),
    {
        let value = self.wire();
        let slots = self.slots();
        self.law_wire_names_are_distinct();
        assert(value.get(slots[0].0) == slots[0].1);
        Self::lemma_tags_are_distinct();
        self.lemma_wire_is_tagged();
        assert forall|i: int| 0 <= i < layer.slots().len() implies lookup(
            flatten(slots),
            (#[trigger] layer.slots()[i]).0,
        ) == layer.slots()[i].1 by {
            assert(slots[i + 1] == layer.slots()[i]);
        }
        layer.lemma_read_from(flatten(slots));
    }

    fn read_raster_particle(value: &Value) -> (res: Option<Layer>)
        requires
            value@.get("type"@) == Some(ValueView::String("raster-particle"@)),
        ensures
            match res {
                Some(layer) => Self::spec_read(value@) == Some(layer.wire()),
                None => Self::spec_read(value@) is None,
            },
    {
        proof {
            Self::lemma_tags_are_distinct();
        }
        match RasterParticleLayer::from_wire(value) {
            Some(layer) => {
                let res = Layer::RasterParticle(layer);
                proof {
                    res.lemma_wire_is_tagged();
                }
                Some(res)
            },
            None => None,
        }
    }

    proof fn lemma_round_trip_raster_particle(&self, layer: RasterParticleLayer)
        requires
            *self == Layer::RasterParticle(layer),
            layer.comes_back(),
        ensures
            Self::spec_read(self.wire()) == Some(self.wire()),
    {
        let value = self.wire();
        let slots = self.slots();
        self.law_wire_names_are_distinct();
        assert(value.get(slots[0].0) == slots[0].1);
        Self::lemma_tags_are_distinct();
        self.lemma_wire_is_tagged();
        assert forall|i: int| 0 <= i < layer.slots().len() implies lookup(
            flatten(slots),
            (#[trigger] layer.slots()[i]).0,
        ) == layer.slots()[i].1 by {
            assert(slots[i + 1] == layer.slots()[i]);
        }
        layer.lemma_read_from(flatten(slots));
    }

    fn read_circle(value: &Value) -> (res: Option<Layer>)
        requires
            value@.get("type"@) == Some(ValueView::String("circle"@)),
        ensures
            match res {
                Some(layer) => Self::spec_read(value@) == Some(layer.wire()),
                None => Self::spec_read(value@) is None,
            },
    {
        proof {
            Self::lemma_tags_are_distinct();
        }
        match CircleLayer::from_wire(value) {
            Some(layer) => {
                let res = Layer::Circle(layer);
                proof {
                    res.lemma_wire_is_tagged();
                }
                Some(res)
            },
            None => None,
        }
    }

    proof fn lemma_round_trip_circle(&self, layer: CircleLayer)
        requires
            *self == Layer::Circle(layer),
            layer.comes_back(),
        ensures
            Self::spec_read(self.wire()) == Some(self.wire()),
    {
        let value = self.wire();
        let slots = self.slots();
        self.law_wire_names_are_distinct();
        assert(value.get(slots[0].0) == slots[0].1);
        Self::lemma_tags_are_distinct();
        self.lemma_wire_is_tagged();
        assert forall|i: int| 0 <= i < layer.slots().len() implies lookup(
            flatten(slots),
            (#[trigger] layer.slots()[i]).0,
        ) == layer.slots()[i].1 by {
            assert(slots[i + 1] == layer.slots()[i]);
        }
        layer.lemma_read_from(flatten(slots));
    }

    fn read_fill_extrusion(value: &Value) -> (res: Option<Layer>)
        requires
            value@.get("type"@) == Some(ValueView::String("fill-extrusion"@)),
        ensures
            match res {
                Some(layer) => Self::spec_read(value@) == Some(layer.wire()),
                None => Self::spec_read(value@) is None,
            },
    {
        proof {
            Self::lemma_tags_are_distinct();
        }
        match FillExtrusionLayer::from_wire(value) {
            Some(layer) => {
                let res = Layer::FillExtrusion(layer);
                proof {
                    res.lemma_wire_is_tagged();
                }
                Some(res)
            },
            None => None,
        }
    }

    proof fn lemma_round_trip_fill_extrusion(&self, layer: FillExtrusionLayer)
        requires
            *self == Layer::FillExtrusion(layer),
            layer.comes_back(),
        ensures
            Self::spec_read(self.wire()) == Some(self.wire()),
    {
        let value = self.wire();
        let slots = self.slots();
        self.law_wire_names_are_distinct();
        assert(value.get(slots[0].0) == slots[0].1);
        Self::lemma_tags_are_distinct();
        self.lemma_wire_is_tagged();
        assert forall|i: int| 0 <= i < layer.slots().len() implies lookup(
            flatten(slots),
            (#[trigger] layer.slots()[i]).0,
        ) == layer.slots()[i].1 by {
            assert(slots[i + 1] == layer.slots()[i]);
        }
        layer.lemma_read_from(flatten(slots));
    }

    fn read_heatmap(value: &Value) -> (res: Option<Layer>)
        requires
            value@.get("type"@) == Some(ValueView::String("heatmap"@)),
        ensures
            match res {
                Some(layer) => Self::spec_read(value@) == Some(layer.wire()),
                None => Self::spec_read(value@) is None,
            },
    {
        proof {
            Self::lemma_tags_are_distinct();
        }
        match HeatmapLayer::from_wire(value) {
            Some(layer) => {
                let res = Layer::Heatmap(layer);
                proof {
                    res.lemma_wire_is_tagged();
                }
                Some(res)
            },
            None => None,
        }
    }

    proof fn lemma_round_trip_heatmap(&self, layer: HeatmapLayer)
        requires
            *self == Layer::Heatmap(layer),
            layer.comes_back(),
        ensures
            Self::spec_read(self.wire()) == Some(self.wire()),
    {
        let value = self.wire();
        let slots = self.slots();
        self.law_wire_names_are_distinct();
        assert(value.get(slots[0].0) == slots[0].1);
        Self::lemma_tags_are_distinct();
        self.lemma_wire_is_tagged();
        assert forall|i: int| 0 <= i < layer.slots().len() implies lookup(
            flatten(slots),
            (#[trigger] layer.slots()[i]).0,
        ) == layer.slots()[i].1 by {
            assert(slots[i + 1] == layer.slots()[i]);
        }
        layer.lemma_read_from(flatten(slots));
    }

    fn read_hillshade(value: &Value) -> (res: Option<Layer>)
        requires
            value@.get("type"@) == Some(ValueView::String("hillshade"@)),
        ensures
            match res {
                Some(layer) => Self::spec_read(value@) == Some(layer.wire()),
                None => Self::spec_read(value@) is None,
            },
    {
        proof {
            Self::lemma_tags_are_distinct();
        }
        match HillshadeLayer::from_wire(value) {
            Some(layer) => {
                let res = Layer::Hillshade(layer);
                proof {
                    res.lemma_wire_is_tagged();
                }
                Some(res)
            },
            None => None,
        }
    }

    proof fn lemma_round_trip_hillshade(&self, layer: HillshadeLayer)
        requires
            *self == Layer::Hillshade(layer),
            layer.comes_back(),
        ensures
            Self::spec_read(self.wire()) == Some(self.wire()),
    {
        let value = self.wire();
        let slots = self.slots();
        self.law_wire_names_are_distinct();
        assert(value.get(slots[0].0) == slots[0].1);
        Self::lemma_tags_are_distinct();
        self.lemma_wire_is_tagged();
        assert forall|i: int| 0 <= i < layer.slots().len() implies lookup(
            flatten(slots),
            (#[trigger] layer.slots()[i]).0,
        ) == layer.slots()[i].1 by {
            assert(slots[i + 1] == layer.slots()[i]);
        }
        layer.lemma_read_from(flatten(slots));
    }

    fn read_sky(value: &Value) -> (res: Option<Layer>)
        requires
            value@.get("type"@) == Some(ValueView::String("sky"@)),
        ensures
            match res {
                Some(layer) => Self::spec_read(value@) == Some(layer.wire()),
                None => Self::spec_read(value@) is None,
            },
    {
        proof {
            Self::lemma_tags_are_distinct();
        }
        match SkyLayer::from_wire(value) {
            Some(layer) => {
                let res = Layer::Sky(layer);
                proof {
                    res.lemma_wire_is_tagged();
                }
                Some(res)
            },
            None => None,
        }
    }

    proof fn lemma_round_trip_sky(&self, layer: SkyLayer)
        requires
            *self == Layer::Sky(layer),
            layer.comes_back(),
        ensures
            Self::spec_read(self.wire()) == Some(self.wire()),
    {
        let value = self.wire();
        let slots = self.slots();
        self.law_wire_names_are_distinct();
        assert(value.get(slots[0].0) == slots[0].1);
        Self::lemma_tags_are_distinct();
        self.lemma_wire_is_tagged();
        assert forall|i: int| 0 <= i < layer.slots().len() implies lookup(
            flatten(slots),
            (#[trigger] layer.slots()[i]).0,
        ) == layer.slots()[i].1 by {
            assert(slots[i + 1] == layer.slots()[i]);
        }
        layer.lemma_read_from(flatten(slots));
    }

    fn read_model(value: &Value) -> (res: Option<Layer>)
        requires
            value@.get("type"@) == Some(ValueView::String("model"@)),
        ensures
            match res {
                Some(layer) => Self::spec_read(value@) == Some(layer.wire()),
                None => Self::spec_read(value@) is None,
            },
    {
        proof {
            Self::lemma_tags_are_distinct();
        }
        match ModelLayer::from_wire(value) {
            Some(layer) => {
                let res = Layer::Model(layer);
                proof {
                    res.lemma_wire_is_tagged();
                }
                Some(res)
            },
            None => None,
        }
    }

    proof fn lemma_round_trip_model(&self, layer: ModelLayer)
        requires
            *self == Layer::Model(layer),
            layer.comes_back(),
        ensures
            Self::spec_read(self.wire()) == Some(self.wire()),
    {
        let value = self.wire();
        let slots = self.slots();
        self.law_wire_names_are_distinct();
        assert(value.get(slots[0].0) == slots[0].1);
        Self::lemma_tags_are_distinct();
        self.lemma_wire_is_tagged();
        assert forall|i: int| 0 <= i < layer.slots().len() implies lookup(
            flatten(slots),
            (#[trigger] layer.slots()[i]).0,
        ) == layer.slots()[i].1 by {
            assert(slots[i + 1] == layer.slots()[i]);
        }
        layer.lemma_read_from(flatten(slots));
    }

}

impl FromWire for Layer {
    /// A layer is read from an object that names the type of the layer under
    /// `type`: the rest is read as a layer of that type.
    open spec fn spec_read(value: ValueView) -> Option<ValueView> {
        match value.get("type"@) {
            Some(ValueView::String(tag)) => if tag == "custom"@ {
                tagged(tag, CustomLayer::spec_read(value))
            } else if tag == "background"@ {
                tagged(tag, BackgroundLayer::spec_read(value))
            } else if tag == "fill"@ {
                tagged(tag, FillLayer::spec_read(value))
            } else if tag == "line"@ {
                tagged(tag, LineLayer::spec_read(value))
            } else if tag == "symbol"@ {
                tagged(tag, SymbolLayer::spec_read(value))
            } else if tag == "raster"@ {
                tagged(tag, RasterLayer::spec_read(value))
            } else if tag == "raster-particle"@ {
                tagged(tag, RasterParticleLayer::spec_read(value))
            } else if tag == "circle"@ {
                tagged(tag, CircleLayer::spec_read(value))
            } else if tag == "fill-extrusion"@ {
                tagged(tag, FillExtrusionLayer::spec_read(value))
            } else if tag == "heatmap"@ {
                tagged(tag, HeatmapLayer::spec_read(value))
            } else if tag == "hillshade"@ {
                tagged(tag, HillshadeLayer::spec_read(value))
            } else if tag == "sky"@ {
                tagged(tag, SkyLayer::spec_read(value))
            } else if tag == "model"@ {
                tagged(tag, ModelLayer::spec_read(value))
            } else {
                None
            },
            _ => None,
        }
    }

    open spec fn comes_back(&self) -> bool {
        match self {
            Layer::Custom(layer) => layer.comes_back(),
            Layer::Background(layer) => layer.comes_back(),
            Layer::Fill(layer) => layer.comes_back(),
            Layer::Line(layer) => layer.comes_back(),
            Layer::Symbol(layer) => layer.comes_back(),
            Layer::Raster(layer) => layer.comes_back(),
            Layer::RasterParticle(layer) => layer.comes_back(),
            Layer::Circle(layer) => layer.comes_back(),
            Layer::FillExtrusion(layer) => layer.comes_back(),
            Layer::Heatmap(layer) => layer.comes_back(),
            Layer::Hillshade(layer) => layer.comes_back(),
            Layer::Sky(layer) => layer.comes_back(),
            Layer::Model(layer) => layer.comes_back(),
        }
    }

    fn from_wire(value: &Value) -> (res: Option<Layer>) {
        let tag = match value.get("type") {
            Some(Value::String(tag)) => tag,
            _ => {
                return None;
            },
        };
        if str_eq(tag.as_str(), "custom") {
            Self::read_custom(value)
        } else if str_eq(tag.as_str(), "background") {
            Self::read_background(value)
        } else if str_eq(tag.as_str(), "fill") {
            Self::read_fill(value)
        } else if str_eq(tag.as_str(), "line") {
            Self::read_line(value)
        } else if str_eq(tag.as_str(), "symbol") {
            Self::read_symbol(value)
        } else if str_eq(tag.as_str(), "raster") {
            Self::read_raster(value)
        } else if str_eq(tag.as_str(), "raster-particle") {
            Self::read_raster_particle(value)
        } else if str_eq(tag.as_str(), "circle") {
            Self::read_circle(value)
        } else if str_eq(tag.as_str(), "fill-extrusion") {
            Self::read_fill_extrusion(value)
        } else if str_eq(tag.as_str(), "heatmap") {
            Self::read_heatmap(value)
        } else if str_eq(tag.as_str(), "hillshade") {
            Self::read_hillshade(value)
        } else if str_eq(tag.as_str(), "sky") {
            Self::read_sky(value)
        } else if str_eq(tag.as_str(), "model") {
            Self::read_model(value)
        } else {
            None
        }
    }

    proof fn law_round_trip(&self) {
        match self {
            Layer::Custom(layer) => self.lemma_round_trip_custom(*layer),
            Layer::Background(layer) => self.lemma_round_trip_background(*layer),
            Layer::Fill(layer) => self.lemma_round_trip_fill(*layer),
            Layer::Line(layer) => self.lemma_round_trip_line(*layer),
            Layer::Symbol(layer) => self.lemma_round_trip_symbol(*layer),
            Layer::Raster(layer) => self.lemma_round_trip_raster(*layer),
            Layer::RasterParticle(layer) => self.lemma_round_trip_raster_particle(*layer),
            Layer::Circle(layer) => self.lemma_round_trip_circle(*layer),
            Layer::FillExtrusion(layer) => self.lemma_round_trip_fill_extrusion(*layer),
            Layer::Heatmap(layer) => self.lemma_round_trip_heatmap(*layer),
            Layer::Hillshade(layer) => self.lemma_round_trip_hillshade(*layer),
            Layer::Sky(layer) => self.lemma_round_trip_sky(*layer),
            Layer::Model(layer) => self.lemma_round_trip_model(*layer),
        }
    }
}

/// A custom layer.
#[derive(Debug, Clone)]
pub struct CustomLayer {
    pub id: String,
    pub maxzoom: Option<Number>,
    pub minzoom: Option<Number>,
    pub source: String,
    pub filter: Option<Expression<()>>,
    pub source_layer: Option<String>,
    pub slot: Option<String>,
    pub rendering_mode: Option<String>,
}

impl CustomLayer {
    /// The layer with the given identifier and source and nothing else set.
    pub fn new(id: &str, source: &str) -> (res: CustomLayer)
        ensures
            res.id@ == id@,
            res.maxzoom is None,
            res.minzoom is None,
            res.source@ == source@,
            res.filter is None,
            res.source_layer is None,
            res.slot is None,
            res.rendering_mode is None,
    {
        CustomLayer {
            id: id.to_owned(),
            maxzoom: None,
            minzoom: None,
            source: source.to_owned(),
            filter: None,
            source_layer: None,
            slot: None,
            rendering_mode: None,
        }
    }

    /// The properties of the wire form, in order: each under its wire name,
    /// with its wire form where it is set.
    pub open spec fn slots(&self) -> Slots {
        seq![
            ("id"@, Some(self.id.wire())),
            ("maxzoom"@, optional_wire(self.maxzoom)),
            ("minzoom"@, optional_wire(self.minzoom)),
            ("source"@, Some(self.source.wire())),
            ("filter"@, optional_wire(self.filter)),
            ("source-layer"@, optional_wire(self.source_layer)),
            ("slot"@, optional_wire(self.slot)),
            ("renderingMode"@, optional_wire(self.rendering_mode)),
        ]
    }

    /// Offers every property to a builder, in order.
    pub fn to_entries(&self) -> (b: ObjectBuilder)
        ensures
            b.wf(),
            b@ == self.slots(),
    {
        let mut b = ObjectBuilder::new();
        b.wire("id", &self.id);
        b.optional_wire("maxzoom", &self.maxzoom);
        b.optional_wire("minzoom", &self.minzoom);
        b.wire("source", &self.source);
        b.optional_wire("filter", &self.filter);
        b.optional_wire("source-layer", &self.source_layer);
        b.optional_wire("slot", &self.slot);
        b.optional_wire("renderingMode", &self.rendering_mode);
        b
    }

    /// The place of the property with the wire name `key`, which the length of
    /// the name and a few of its characters tell.
    spec fn place_of(key: Seq<char>) -> int {
        if key.len() == 4 && key[1] == 'y' {
            0
        } else if key.len() == 2 && key[1] == 'd' {
            1
        } else if key.len() == 7 && key[1] == 'a' {
            2
        } else if key.len() == 7 && key[1] == 'i' {
            3
        } else if key.len() == 6 && key[1] == 'o' {
            4
        } else if key.len() == 6 && key[1] == 'i' {
            5
        } else if key.len() == 12 && key[1] == 'o' {
            6
        } else if key.len() == 4 && key[1] == 'l' {
            7
        } else if key.len() == 13 && key[1] == 'e' {
            8
        } else {
            -1
        }
    }

    /// No two properties have one wire name. So looking the wire name of a
    /// property up in the wire form finds the wire form of that property where it
    /// is set, and nothing where it is unset.
    pub proof fn law_wire_names_are_distinct(&self)
        ensures
            distinct_keys(self.slots()),
            forall|i: int|
                0 <= i < self.slots().len() ==> lookup(
                    flatten(self.slots()),
                    (#[trigger] self.slots()[i]).0,
                ) == self.slots()[i].1,
    {
        reveal_strlit("id");
        reveal_strlit("maxzoom");
        reveal_strlit("minzoom");
        reveal_strlit("source");
        reveal_strlit("filter");
        reveal_strlit("source-layer");
        reveal_strlit("slot");
        reveal_strlit("renderingMode");
        let slots = self.slots();
        assert(CustomLayer::place_of(slots[0].0) == 1);
        assert(CustomLayer::place_of(slots[1].0) == 2);
        assert(CustomLayer::place_of(slots[2].0) == 3);
        assert(CustomLayer::place_of(slots[3].0) == 4);
        assert(CustomLayer::place_of(slots[4].0) == 5);
        assert(CustomLayer::place_of(slots[5].0) == 6);
        assert(CustomLayer::place_of(slots[6].0) == 7);
        assert(CustomLayer::place_of(slots[7].0) == 8);
        assert forall|i: int| 0 <= i < slots.len() implies CustomLayer::place_of(
            (#[trigger] slots[i]).0,
        ) - 1 == i by {
        }
        lemma_placed_keys_are_distinct(slots, |key: Seq<char>| CustomLayer::place_of(key) - 1);
        assert forall|i: int| 0 <= i < slots.len() implies lookup(
            flatten(slots),
            (#[trigger] slots[i]).0,
        ) == slots[i].1 by {
            law_lookup_of_distinct_keys(slots, i);
        }
    }

    /// No wire name is `type`, and no two are one: behind a slot named
    /// `type` the properties still have names of their own.
    pub proof fn law_wire_names_leave_room(&self, first: Option<ValueView>)
        ensures
            distinct_keys(seq![("type"@, first)] + self.slots()),
    {
        reveal_strlit("type");
        reveal_strlit("id");
        reveal_strlit("maxzoom");
        reveal_strlit("minzoom");
        reveal_strlit("source");
        reveal_strlit("filter");
        reveal_strlit("source-layer");
        reveal_strlit("slot");
        reveal_strlit("renderingMode");
        let slots = self.slots();
        let tagged = seq![("type"@, first)] + slots;
        assert(CustomLayer::place_of(tagged[0].0) == 0);
        assert(tagged[1] == slots[0]);
        assert(CustomLayer::place_of(slots[0].0) == 1);
        assert(tagged[2] == slots[1]);
        assert(CustomLayer::place_of(slots[1].0) == 2);
        assert(tagged[3] == slots[2]);
        assert(CustomLayer::place_of(slots[2].0) == 3);
        assert(tagged[4] == slots[3]);
        assert(CustomLayer::place_of(slots[3].0) == 4);
        assert(tagged[5] == slots[4]);
        assert(CustomLayer::place_of(slots[4].0) == 5);
        assert(tagged[6] == slots[5]);
        assert(CustomLayer::place_of(slots[5].0) == 6);
        assert(tagged[7] == slots[6]);
        assert(CustomLayer::place_of(slots[6].0) == 7);
        assert(tagged[8] == slots[7]);
        assert(CustomLayer::place_of(slots[7].0) == 8);
        assert forall|i: int| 0 <= i < tagged.len() implies CustomLayer::place_of(
            (#[trigger] tagged[i]).0,
        ) == i by {
        }
        lemma_placed_keys_are_distinct(tagged, |key: Seq<char>| CustomLayer::place_of(key));
    }
}

impl ToWire for CustomLayer {
    /// The object of the properties that are set.
    open spec fn wire(&self) -> ValueView {
        ValueView::Object(flatten(self.slots()))
    }

    fn to_wire(&self) -> (value: Value) {
        self.to_entries().finish()
    }
}

impl CustomLayer {
    /// Whether every property of a wire value can be read: what must be there
    /// is there, and what is there has the right shape.
    pub open spec fn all_read(value: ValueView) -> bool {
        &&& read_required::<String>(value.get("id"@)) is Some
        &&& read_optional::<Number>(value.get("maxzoom"@)) is Some
        &&& read_optional::<Number>(value.get("minzoom"@)) is Some
        &&& read_required::<String>(value.get("source"@)) is Some
        &&& read_optional::<Expression<()>>(value.get("filter"@)) is Some
        &&& read_optional::<String>(value.get("source-layer"@)) is Some
        &&& read_optional::<String>(value.get("slot"@)) is Some
        &&& read_optional::<String>(value.get("renderingMode"@)) is Some
    }

    /// The slots that the properties of a wire value are read as, in order.
    pub open spec fn read_slots(value: ValueView) -> Slots {
        seq![
            ("id"@, read_required::<String>(value.get("id"@))->Some_0),
            ("maxzoom"@, read_optional::<Number>(value.get("maxzoom"@))->Some_0),
            ("minzoom"@, read_optional::<Number>(value.get("minzoom"@))->Some_0),
            ("source"@, read_required::<String>(value.get("source"@))->Some_0),
            ("filter"@, read_optional::<Expression<()>>(value.get("filter"@))->Some_0),
            ("source-layer"@, read_optional::<String>(value.get("source-layer"@))->Some_0),
            ("slot"@, read_optional::<String>(value.get("slot"@))->Some_0),
            ("renderingMode"@, read_optional::<String>(value.get("renderingMode"@))->Some_0),
        ]
    }

    /// Reading an object in which looking up the name of each property of
    /// the value finds that property gives the value back.
    pub proof fn lemma_read_from(&self, entries: Seq<(Seq<char>, ValueView)>)
        requires
            self.comes_back(),
            forall|i: int|
                0 <= i < self.slots().len() ==> lookup(entries, (#[trigger] self.slots()[i]).0)
                    == self.slots()[i].1,
        ensures
            Self::spec_read(ValueView::Object(entries)) == Some(self.wire()),
    {
        let value = ValueView::Object(entries);
        let slots = self.slots();
        assert(value.get(slots[0].0) == slots[0].1);
        lemma_required_round_trip::<String>(self.id);
        assert(value.get(slots[1].0) == slots[1].1);
        lemma_optional_round_trip::<Number>(self.maxzoom);
        assert(value.get(slots[2].0) == slots[2].1);
        lemma_optional_round_trip::<Number>(self.minzoom);
        assert(value.get(slots[3].0) == slots[3].1);
        lemma_required_round_trip::<String>(self.source);
        assert(value.get(slots[4].0) == slots[4].1);
        lemma_optional_round_trip::<Expression<()>>(self.filter);
        assert(value.get(slots[5].0) == slots[5].1);
        lemma_optional_round_trip::<String>(self.source_layer);
        assert(value.get(slots[6].0) == slots[6].1);
        lemma_optional_round_trip::<String>(self.slot);
        assert(value.get(slots[7].0) == slots[7].1);
        lemma_optional_round_trip::<String>(self.rendering_mode);
    }
}

impl FromWire for CustomLayer {
    /// The value is read from an object, property by property. Properties of
    /// other names are passed over.
    open spec fn spec_read(value: ValueView) -> Option<ValueView> {
        if value is Object && Self::all_read(value) {
            Some(ValueView::Object(flatten(Self::read_slots(value))))
        } else {
            None
        }
    }

    open spec fn comes_back(&self) -> bool {
        &&& self.id.comes_back()
        &&& optional_comes_back(self.maxzoom)
        &&& optional_comes_back(self.minzoom)
        &&& self.source.comes_back()
        &&& optional_comes_back(self.filter)
        &&& optional_comes_back(self.source_layer)
        &&& optional_comes_back(self.slot)
        &&& optional_comes_back(self.rendering_mode)
    }

    fn from_wire(value: &Value) -> (res: Option<CustomLayer>) {
        match value {
            Value::Object(_) => {},
            _ => {
                return None;
            },
        }
        let id = match required::<String>(value.get("id")) {
            Some(read) => read,
            None => {
                return None;
            },
        };
        let maxzoom = match optional::<Number>(value.get("maxzoom")) {
            Some(read) => read,
            None => {
                return None;
            },
        };
        let minzoom = match optional::<Number>(value.get("minzoom")) {
            Some(read) => read,
            None => {
                return None;
            },
        };
        let source = match required::<String>(value.get("source")) {
            Some(read) => read,
            None => {
                return None;
            },
        };
        let filter = match optional::<Expression<()>>(value.get("filter")) {
            Some(read) => read,
            None => {
                return None;
            },
        };
        let source_layer = match optional::<String>(value.get("source-layer")) {
            Some(read) => read,
            None => {
                return None;
            },
        };
        let slot = match optional::<String>(value.get("slot")) {
            Some(read) => read,
            None => {
                return None;
            },
        };
        let rendering_mode = match optional::<String>(value.get("renderingMode")) {
            Some(read) => read,
            None => {
                return None;
            },
        };
        Some(CustomLayer { id, maxzoom, minzoom, source, filter, source_layer, slot, rendering_mode })
    }

    proof fn law_round_trip(&self) {
        self.law_wire_names_are_distinct();
        self.lemma_read_from(flatten(self.slots()));
    }
}

impl IntoLayer for CustomLayer {
    open spec fn spec_into_layer(self) -> Layer {
        Layer::Custom(self)
    }

    fn into_layer(self) -> (res: Layer) {
        Layer::Custom(self)
    }
}

/// A background layer.
#[derive(Debug, Clone)]
pub struct BackgroundLayer {
    pub id: String,
    pub layout: BackgroundLayout,
    pub paint: BackgroundPaint,
}

impl BackgroundLayer {
    /// The layer with the given identifier and nothing else set.
    pub fn new(id: &str) -> (res: BackgroundLayer)
        ensures
            res.id@ == id@,
            res.layout == BackgroundLayout::unset(),
            res.paint == BackgroundPaint::unset(),
    {
        BackgroundLayer {
            id: id.to_owned(),
            layout: BackgroundLayout::default(),
            paint: BackgroundPaint::default(),
        }
    }

    /// The properties of the wire form, in order: each under its wire name,
    /// with its wire form where it is set.
    pub open spec fn slots(&self) -> Slots {
        seq![
            ("id"@, Some(self.id.wire())),
            ("layout"@, Some(self.layout.wire())),
            ("paint"@, Some(self.paint.wire())),
        ]
    }

    /// Offers every property to a builder, in order.
    pub fn to_entries(&self) -> (b: ObjectBuilder)
        ensures
            b.wf(),
            b@ == self.slots(),
    {
        let mut b = ObjectBuilder::new();
        b.wire("id", &self.id);
        b.wire("layout", &self.layout);
        b.wire("paint", &self.paint);
        b
    }

    /// The place of the property with the wire name `key`, which the length of
    /// the name and a few of its characters tell.
    spec fn place_of(key: Seq<char>) -> int {
        if key.len() == 4 {
            0
        } else if key.len() == 2 {
            1
        } else if key.len() == 6 {
            2
        } else if key.len() == 5 {
            3
        } else {
            -1
        }
    }

    /// No two properties have one wire name. So looking the wire name of a
    /// property up in the wire form finds the wire form of that property where it
    /// is set, and nothing where it is unset.
    pub proof fn law_wire_names_are_distinct(&self)
        ensures
            distinct_keys(self.slots()),
            forall|i: int|
                0 <= i < self.slots().len() ==> lookup(
                    flatten(self.slots()),
                    (#[trigger] self.slots()[i]).0,
                ) == self.slots()[i].1,
    {
        reveal_strlit("id");
        reveal_strlit("layout");
        reveal_strlit("paint");
        let slots = self.slots();
        assert(BackgroundLayer::place_of(slots[0].0) == 1);
        assert(BackgroundLayer::place_of(slots[1].0) == 2);
        assert(BackgroundLayer::place_of(slots[2].0) == 3);
        assert forall|i: int| 0 <= i < slots.len() implies BackgroundLayer::place_of(
            (#[trigger] slots[i]).0,
        ) - 1 == i by {
        }
        lemma_placed_keys_are_distinct(slots, |key: Seq<char>| BackgroundLayer::place_of(key) - 1);
        assert forall|i: int| 0 <= i < slots.len() implies lookup(
            flatten(slots),
            (#[trigger] slots[i]).0,
        ) == slots[i].1 by {
            law_lookup_of_distinct_keys(slots, i);
        }
    }

    /// No wire name is `type`, and no two are one: behind a slot named
    /// `type` the properties still have names of their own.
    pub proof fn law_wire_names_leave_room(&self, first: Option<ValueView>)
        ensures
            distinct_keys(seq![("type"@, first)] + self.slots()),
    {
        reveal_strlit("type");
        reveal_strlit("id");
        reveal_strlit("layout");
        reveal_strlit("paint");
        let slots = self.slots();
        let tagged = seq![("type"@, first)] + slots;
        assert(BackgroundLayer::place_of(tagged[0].0) == 0);
        assert(tagged[1] == slots[0]);
        assert(BackgroundLayer::place_of(slots[0].0) == 1);
        assert(tagged[2] == slots[1]);
        assert(BackgroundLayer::place_of(slots[1].0) == 2);
        assert(tagged[3] == slots[2]);
        assert(BackgroundLayer::place_of(slots[2].0) == 3);
        assert forall|i: int| 0 <= i < tagged.len() implies BackgroundLayer::place_of(
            (#[trigger] tagged[i]).0,
        ) == i by {
        }
        lemma_placed_keys_are_distinct(tagged, |key: Seq<char>| BackgroundLayer::place_of(key));
    }
}

impl ToWire for BackgroundLayer {
    /// The object of the properties that are set.
    open spec fn wire(&self) -> ValueView {
        ValueView::Object(flatten(self.slots()))
    }

    fn to_wire(&self) -> (value: Value) {
        self.to_entries().finish()
    }
}

impl BackgroundLayer {
    /// Whether every property of a wire value can be read: what must be there
    /// is there, and what is there has the right shape.
    pub open spec fn all_read(value: ValueView) -> bool {
        &&& read_required::<String>(value.get("id"@)) is Some
        &&& read_defaulted::<BackgroundLayout>(value.get("layout"@), BackgroundLayout::unset().wire()) is Some
        &&& read_defaulted::<BackgroundPaint>(value.get("paint"@), BackgroundPaint::unset().wire()) is Some
    }

    /// The slots that the properties of a wire value are read as, in order.
    pub open spec fn read_slots(value: ValueView) -> Slots {
        seq![
            ("id"@, read_required::<String>(value.get("id"@))->Some_0),
            ("layout"@, read_defaulted::<BackgroundLayout>(value.get("layout"@), BackgroundLayout::unset().wire())->Some_0),
            ("paint"@, read_defaulted::<BackgroundPaint>(value.get("paint"@), BackgroundPaint::unset().wire())->Some_0),
        ]
    }

    /// Reading an object in which looking up the name of each property of
    /// the value finds that property gives the value back.
    pub proof fn lemma_read_from(&self, entries: Seq<(Seq<char>, ValueView)>)
        requires
            self.comes_back(),
            forall|i: int|
                0 <= i < self.slots().len() ==> lookup(entries, (#[trigger] self.slots()[i]).0)
                    == self.slots()[i].1,
        ensures
            Self::spec_read(ValueView::Object(entries)) == Some(self.wire()),
    {
        let value = ValueView::Object(entries);
        let slots = self.slots();
        assert(value.get(slots[0].0) == slots[0].1);
        lemma_required_round_trip::<String>(self.id);
        assert(value.get(slots[1].0) == slots[1].1);
        lemma_defaulted_round_trip::<BackgroundLayout>(self.layout, BackgroundLayout::unset().wire());
        assert(value.get(slots[2].0) == slots[2].1);
        lemma_defaulted_round_trip::<BackgroundPaint>(self.paint, BackgroundPaint::unset().wire());
    }
}

impl FromWire for BackgroundLayer {
    /// The value is read from an object, property by property. Properties of
    /// other names are passed over.
    open spec fn spec_read(value: ValueView) -> Option<ValueView> {
        if value is Object && Self::all_read(value) {
            Some(ValueView::Object(flatten(Self::read_slots(value))))
        } else {
            None
        }
    }

    open spec fn comes_back(&self) -> bool {
        &&& self.id.comes_back()
        &&& self.layout.comes_back()
        &&& self.paint.comes_back()
    }

    fn from_wire(value: &Value) -> (res: Option<BackgroundLayer>) {
        match value {
            Value::Object(_) => {},
            _ => {
                return None;
            },
        }
        let id = match required::<String>(value.get("id")) {
            Some(read) => read,
            None => {
                return None;
            },
        };
        let layout = match value.get("layout") {
            Some(found) => match BackgroundLayout::from_wire(found) {
                Some(read) => read,
                None => {
                    return None;
                },
            },
            None => BackgroundLayout::default(),
        };
        let paint = match value.get("paint") {
            Some(found) => match BackgroundPaint::from_wire(found) {
                Some(read) => read,
                None => {
                    return None;
                },
            },
            None => BackgroundPaint::default(),
        };
        Some(BackgroundLayer { id, layout, paint })
    }

    proof fn law_round_trip(&self) {
        self.law_wire_names_are_distinct();
        self.lemma_read_from(flatten(self.slots()));
    }
}

impl IntoLayer for BackgroundLayer {
    open spec fn spec_into_layer(self) -> Layer {
        Layer::Background(self)
    }

    fn into_layer(self) -> (res: Layer) {
        Layer::Background(self)
    }
}

/// How a background layer is painted.
#[derive(Debug, Clone)]
pub struct BackgroundPaint {
    pub background_color: Option<Expression<()>>,
    pub background_emissive_strength: Option<Expression<()>>,
    pub background_opacity: Option<Expression<()>>,
    pub background_pattern: Option<Expression<()>>,
}

impl Default for BackgroundPaint {
    /// Every property is unset.
    fn default() -> (res: BackgroundPaint)
        ensures
            res == BackgroundPaint::unset(),
    {
        BackgroundPaint {
            background_color: None,
            background_emissive_strength: None,
            background_opacity: None,
            background_pattern: None,
        }
    }
}

impl BackgroundPaint {
    /// The properties with every one unset.
    pub open spec fn unset() -> BackgroundPaint {
        BackgroundPaint {
            background_color: None,
            background_emissive_strength: None,
            background_opacity: None,
            background_pattern: None,
        }
    }

    /// The properties of the wire form, in order: each under its wire name,
    /// with its wire form where it is set.
    pub open spec fn slots(&self) -> Slots {
        seq![
            ("background-color"@, optional_wire(self.background_color)),
            ("background-emissive-strength"@, optional_wire(self.background_emissive_strength)),
            ("background-opacity"@, optional_wire(self.background_opacity)),
            ("background-pattern"@, optional_wire(self.background_pattern)),
        ]
    }

    /// Offers every property to a builder, in order.
    pub fn to_entries(&self) -> (b: ObjectBuilder)
        ensures
            b.wf(),
            b@ == self.slots(),
    {
        let mut b = ObjectBuilder::new();
        b.optional_wire("background-color", &self.background_color);
        b.optional_wire("background-emissive-strength", &self.background_emissive_strength);
        b.optional_wire("background-opacity", &self.background_opacity);
        b.optional_wire("background-pattern", &self.background_pattern);
        b
    }

    /// The place of the property with the wire name `key`, which the length of
    /// the name and a few of its characters tell.
    spec fn place_of(key: Seq<char>) -> int {
        if key.len() == 16 && key[11] == 'c' {
            0
        } else if key.len() == 28 && key[11] == 'e' {
            1
        } else if key.len() == 18 && key[11] == 'o' {
            2
        } else if key.len() == 18 && key[11] == 'p' {
            3
        } else {
            -1
        }
    }

    /// No two properties have one wire name. So looking the wire name of a
    /// property up in the wire form finds the wire form of that property where it
    /// is set, and nothing where it is unset.
    pub proof fn law_wire_names_are_distinct(&self)
        ensures
            distinct_keys(self.slots()),
            forall|i: int|
                0 <= i < self.slots().len() ==> lookup(
                    flatten(self.slots()),
                    (#[trigger] self.slots()[i]).0,
                ) == self.slots()[i].1,
    {
        reveal_strlit("background-color");
        reveal_strlit("background-emissive-strength");
        reveal_strlit("background-opacity");
        reveal_strlit("background-pattern");
        let slots = self.slots();
        assert(BackgroundPaint::place_of(slots[0].0) == 0);
        assert(BackgroundPaint::place_of(slots[1].0) == 1);
        assert(BackgroundPaint::place_of(slots[2].0) == 2);
        assert(BackgroundPaint::place_of(slots[3].0) == 3);
        assert forall|i: int| 0 <= i < slots.len() implies BackgroundPaint::place_of(
            (#[trigger] slots[i]).0,
        ) - 0 == i by {
        }
        lemma_placed_keys_are_distinct(slots, |key: Seq<char>| BackgroundPaint::place_of(key) - 0);
        assert forall|i: int| 0 <= i < slots.len() implies lookup(
            flatten(slots),
            (#[trigger] slots[i]).0,
        ) == slots[i].1 by {
            law_lookup_of_distinct_keys(slots, i);
        }
    }
}

impl ToWire for BackgroundPaint {
    /// The object of the properties that are set.
    open spec fn wire(&self) -> ValueView {
        ValueView::Object(flatten(self.slots()))
    }

    fn to_wire(&self) -> (value: Value) {
        self.to_entries().finish()
    }
}

impl BackgroundPaint {
    /// Whether every property of a wire value can be read: what must be there
    /// is there, and what is there has the right shape.
    pub open spec fn all_read(value: ValueView) -> bool {
        &&& read_optional::<Expression<()>>(value.get("background-color"@)) is Some
        &&& read_optional::<Expression<()>>(value.get("background-emissive-strength"@)) is Some
        &&& read_optional::<Expression<()>>(value.get("background-opacity"@)) is Some
        &&& read_optional::<Expression<()>>(value.get("background-pattern"@)) is Some
    }

    /// The slots that the properties of a wire value are read as, in order.
    pub open spec fn read_slots(value: ValueView) -> Slots {
        seq![
            ("background-color"@, read_optional::<Expression<()>>(value.get("background-color"@))->Some_0),
            ("background-emissive-strength"@, read_optional::<Expression<()>>(value.get("background-emissive-strength"@))->Some_0),
            ("background-opacity"@, read_optional::<Expression<()>>(value.get("background-opacity"@))->Some_0),
            ("background-pattern"@, read_optional::<Expression<()>>(value.get("background-pattern"@))->Some_0),
        ]
    }

    /// Reading an object in which looking up the name of each property of
    /// the value finds that property gives the value back.
    pub proof fn lemma_read_from(&self, entries: Seq<(Seq<char>, ValueView)>)
        requires
            self.comes_back(),
            forall|i: int|
                0 <= i < self.slots().len() ==> lookup(entries, (#[trigger] self.slots()[i]).0)
                    == self.slots()[i].1,
        ensures
            Self::spec_read(ValueView::Object(entries)) == Some(self.wire()),
    {
        let value = ValueView::Object(entries);
        let slots = self.slots();
        assert(value.get(slots[0].0) == slots[0].1);
        lemma_optional_round_trip::<Expression<()>>(self.background_color);
        assert(value.get(slots[1].0) == slots[1].1);
        lemma_optional_round_trip::<Expression<()>>(self.background_emissive_strength);
        assert(value.get(slots[2].0) == slots[2].1);
        lemma_optional_round_trip::<Expression<()>>(self.background_opacity);
        assert(value.get(slots[3].0) == slots[3].1);
        lemma_optional_round_trip::<Expression<()>>(self.background_pattern);
    }
}

impl FromWire for BackgroundPaint {
    /// The value is read from an object, property by property. Properties of
    /// other names are passed over.
    open spec fn spec_read(value: ValueView) -> Option<ValueView> {
        if value is Object && Self::all_read(value) {
            Some(ValueView::Object(flatten(Self::read_slots(value))))
        } else {
            None
        }
    }

    open spec fn comes_back(&self) -> bool {
        &&& optional_comes_back(self.background_color)
        &&& optional_comes_back(self.background_emissive_strength)
        &&& optional_comes_back(self.background_opacity)
        &&& optional_comes_back(self.background_pattern)
    }

    fn from_wire(value: &Value) -> (res: Option<BackgroundPaint>) {
        match value {
            Value::Object(_) => {},
            _ => {
                return None;
            },
        }
        let background_color = match optional::<Expression<()>>(value.get("background-color")) {
            Some(read) => read,
            None => {
                return None;
            },
        };
        let background_emissive_strength = match optional::<Expression<()>>(value.get("background-emissive-strength")) {
            Some(read) => read,
            None => {
                return None;
            },
        };
        let background_opacity = match optional::<Expression<()>>(value.get("background-opacity")) {
            Some(read) => read,
            None => {
                return None;
            },
        };
        let background_pattern = match optional::<Expression<()>>(value.get("background-pattern")) {
            Some(read) => read,
            None => {
                return None;
            },
        };
        Some(BackgroundPaint { background_color, background_emissive_strength, background_opacity, background_pattern })
    }

    proof fn law_round_trip(&self) {
        self.law_wire_names_are_distinct();
        self.lemma_read_from(flatten(self.slots()));
    }
}

/// How a background layer is laid out.
#[derive(Debug, Clone)]
pub struct BackgroundLayout {
    pub visibility: Option<Visibility>,
}

impl Default for BackgroundLayout {
    /// Every property is unset.
    fn default() -> (res: BackgroundLayout)
        ensures
            res == BackgroundLayout::unset(),
    {
        BackgroundLayout {
            visibility: None,
        }
    }
}

impl BackgroundLayout {
    /// The properties with every one unset.
    pub open spec fn unset() -> BackgroundLayout {
        BackgroundLayout {
            visibility: None,
        }
    }

    /// The properties of the wire form, in order: each under its wire name,
    /// with its wire form where it is set.
    pub open spec fn slots(&self) -> Slots {
        seq![
            ("visibility"@, optional_wire(self.visibility)),
        ]
    }

    /// Offers every property to a builder, in order.
    pub fn to_entries(&self) -> (b: ObjectBuilder)
        ensures
            b.wf(),
            b@ == self.slots(),
    {
        let mut b = ObjectBuilder::new();
        b.optional_wire("visibility", &self.visibility);
        b
    }

    /// The place of the property with the wire name `key`, which the length of
    /// the name and a few of its characters tell.
    spec fn place_of(key: Seq<char>) -> int {
        if key.len() == 10 {
            0
        } else {
            -1
        }
    }

    /// No two properties have one wire name. So looking the wire name of a
    /// property up in the wire form finds the wire form of that property where it
    /// is set, and nothing where it is unset.
    pub proof fn law_wire_names_are_distinct(&self)
        ensures
            distinct_keys(self.slots()),
            forall|i: int|
                0 <= i < self.slots().len() ==> lookup(
                    flatten(self.slots()),
                    (#[trigger] self.slots()[i]).0,
                ) == self.slots()[i].1,
    {
        reveal_strlit("visibility");
        let slots = self.slots();
        assert(BackgroundLayout::place_of(slots[0].0) == 0);
        assert forall|i: int| 0 <= i < slots.len() implies BackgroundLayout::place_of(
            (#[trigger] slots[i]).0,
        ) - 0 == i by {
        }
        lemma_placed_keys_are_distinct(slots, |key: Seq<char>| BackgroundLayout::place_of(key) - 0);
        assert forall|i: int| 0 <= i < slots.len() implies lookup(
            flatten(slots),
            (#[trigger] slots[i]).0,
        ) == slots[i].1 by {
            law_lookup_of_distinct_keys(slots, i);
        }
    }
}

impl ToWire for BackgroundLayout {
    /// The object of the properties that are set.
    open spec fn wire(&self) -> ValueView {
        ValueView::Object(flatten(self.slots()))
    }

    fn to_wire(&self) -> (value: Value) {
        self.to_entries().finish()
    }
}

impl BackgroundLayout {
    /// Whether every property of a wire value can be read: what must be there
    /// is there, and what is there has the right shape.
    pub open spec fn all_read(value: ValueView) -> bool {
        &&& read_optional::<Visibility>(value.get("visibility"@)) is Some
    }

    /// The slots that the properties of a wire value are read as, in order.
    pub open spec fn read_slots(value: ValueView) -> Slots {
        seq![
            ("visibility"@, read_optional::<Visibility>(value.get("visibility"@))->Some_0),
        ]
    }

    /// Reading an object in which looking up the name of each property of
    /// the value finds that property gives the value back.
    pub proof fn lemma_read_from(&self, entries: Seq<(Seq<char>, ValueView)>)
        requires
            self.comes_back(),
            forall|i: int|
                0 <= i < self.slots().len() ==> lookup(entries, (#[trigger] self.slots()[i]).0)
                    == self.slots()[i].1,
        ensures
            Self::spec_read(ValueView::Object(entries)) == Some(self.wire()),
    {
        let value = ValueView::Object(entries);
        let slots = self.slots();
        assert(value.get(slots[0].0) == slots[0].1);
        lemma_optional_round_trip::<Visibility>(self.visibility);
    }
}

impl FromWire for BackgroundLayout {
    /// The value is read from an object, property by property. Properties of
    /// other names are passed over.
    open spec fn spec_read(value: ValueView) -> Option<ValueView> {
        if value is Object && Self::all_read(value) {
            Some(ValueView::Object(flatten(Self::read_slots(value))))
        } else {
            None
        }
    }

    open spec fn comes_back(&self) -> bool {
        &&& optional_comes_back(self.visibility)
    }

    fn from_wire(value: &Value) -> (res: Option<BackgroundLayout>) {
        match value {
            Value::Object(_) => {},
            _ => {
                return None;
            },
        }
        let visibility = match optional::<Visibility>(value.get("visibility")) {
            Some(read) => read,
            None => {
                return None;
            },
        };
        Some(BackgroundLayout { visibility })
    }

    proof fn law_round_trip(&self) {
        self.law_wire_names_are_distinct();
        self.lemma_read_from(flatten(self.slots()));
    }
}

/// A fill layer.
#[derive(Debug, Clone)]
pub struct FillLayer {
    pub id: String,
    pub maxzoom: Option<Number>,
    pub minzoom: Option<Number>,
    pub source: String,
    pub filter: Option<Expression<()>>,
    pub source_layer: Option<String>,
    pub slot: Option<String>,
    pub layout: FillLayout,
    pub paint: FillPaint,
}

impl FillLayer {
    /// The layer with the given identifier and source and nothing else set.
    pub fn new(id: &str, source: &str) -> (res: FillLayer)
        ensures
            res.id@ == id@,
            res.maxzoom is None,
            res.minzoom is None,
            res.source@ == source@,
            res.filter is None,
            res.source_layer is None,
            res.slot is None,
            res.layout == FillLayout::unset(),
            res.paint == FillPaint::unset(),
    {
        FillLayer {
            id: id.to_owned(),
            maxzoom: None,
            minzoom: None,
            source: source.to_owned(),
            filter: None,
            source_layer: None,
            slot: None,
            layout: FillLayout::default(),
            paint: FillPaint::default(),
        }
    }

    /// The properties of the wire form, in order: each under its wire name,
    /// with its wire form where it is set.
    pub open spec fn slots(&self) -> Slots {
        seq![
            ("id"@, Some(self.id.wire())),
            ("maxzoom"@, optional_wire(self.maxzoom)),
            ("minzoom"@, optional_wire(self.minzoom)),
            ("source"@, Some(self.source.wire())),
            ("filter"@, optional_wire(self.filter)),
            ("source-layer"@, optional_wire(self.source_layer)),
            ("slot"@, optional_wire(self.slot)),
            ("layout"@, Some(self.layout.wire())),
            ("paint"@, Some(self.paint.wire())),
        ]
    }

    /// Offers every property to a builder, in order.
    pub fn to_entries(&self) -> (b: ObjectBuilder)
        ensures
            b.wf(),
            b@ == self.slots(),
    {
        let mut b = ObjectBuilder::new();
        b.wire("id", &self.id);
        b.optional_wire("maxzoom", &self.maxzoom);
        b.optional_wire("minzoom", &self.minzoom);
        b.wire("source", &self.source);
        b.optional_wire("filter", &self.filter);
        b.optional_wire("source-layer", &self.source_layer);
        b.optional_wire("slot", &self.slot);
        b.wire("layout", &self.layout);
        b.wire("paint", &self.paint);
        b
    }

    /// The place of the property with the wire name `key`, which the length of
    /// the name and a few of its characters tell.
    spec fn place_of(key: Seq<char>) -> int {
        if key.len() == 4 && key[1] == 'y' {
            0
        } else if key.len() == 2 && key[1] == 'd' {
            1
        } else if key.len() == 7 && key[1] == 'a' {
            2
        } else if key.len() == 7 && key[1] == 'i' {
            3
        } else if key.len() == 6 && key[1] == 'o' {
            4
        } else if key.len() == 6 && key[1] == 'i' {
            5
        } else if key.len() == 12 && key[1] == 'o' {
            6
        } else if key.len() == 4 && key[1] == 'l' {
            7
        } else if key.len() == 6 && key[1] == 'a' {
            8
        } else if key.len() == 5 && key[1] == 'a' {
            9
        } else {
            -1
        }
    }

    /// No two properties have one wire name. So looking the wire name of a
    /// property up in the wire form finds the wire form of that property where it
    /// is set, and nothing where it is unset.
    pub proof fn law_wire_names_are_distinct(&self)
        ensures
            distinct_keys(self.slots()),
            forall|i: int|
                0 <= i < self.slots().len() ==> lookup(
                    flatten(self.slots()),
                    (#[trigger] self.slots()[i]).0,
                ) == self.slots()[i].1,
    {
        reveal_strlit("id");
        reveal_strlit("maxzoom");
        reveal_strlit("minzoom");
        reveal_strlit("source");
        reveal_strlit("filter");
        reveal_strlit("source-layer");
        reveal_strlit("slot");
        reveal_strlit("layout");
        reveal_strlit("paint");
        let slots = self.slots();
        assert(FillLayer::place_of(slots[0].0) == 1);
        assert(FillLayer::place_of(slots[1].0) == 2);
        assert(FillLayer::place_of(slots[2].0) == 3);
        assert(FillLayer::place_of(slots[3].0) == 4);
        assert(FillLayer::place_of(slots[4].0) == 5);
        assert(FillLayer::place_of(slots[5].0) == 6);
        assert(FillLayer::place_of(slots[6].0) == 7);
        assert(FillLayer::place_of(slots[7].0) == 8);
        assert(FillLayer::place_of(slots[8].0) == 9);
        assert forall|i: int| 0 <= i < slots.len() implies FillLayer::place_of(
            (#[trigger] slots[i]).0,
        ) - 1 == i by {
        }
        lemma_placed_keys_are_distinct(slots, |key: Seq<char>| FillLayer::place_of(key) - 1);
        assert forall|i: int| 0 <= i < slots.len() implies lookup(
            flatten(slots),
            (#[trigger] slots[i]).0,
        ) == slots[i].1 by {
            law_lookup_of_distinct_keys(slots, i);
        }
    }

    /// No wire name is `type`, and no two are one: behind a slot named
    /// `type` the properties still have names of their own.
    pub proof fn law_wire_names_leave_room(&self, first: Option<ValueView>)
        ensures
            distinct_keys(seq![("type"@, first)] + self.slots()),
    {
        reveal_strlit("type");
        reveal_strlit("id");
        reveal_strlit("maxzoom");
        reveal_strlit("minzoom");
        reveal_strlit("source");
        reveal_strlit("filter");
        reveal_strlit("source-layer");
        reveal_strlit("slot");
        reveal_strlit("layout");
        reveal_strlit("paint");
        let slots = self.slots();
        let tagged = seq![("type"@, first)] + slots;
        assert(FillLayer::place_of(tagged[0].0) == 0);
        assert(tagged[1] == slots[0]);
        assert(FillLayer::place_of(slots[0].0) == 1);
        assert(tagged[2] == slots[1]);
        assert(FillLayer::place_of(slots[1].0) == 2);
        assert(tagged[3] == slots[2]);
        assert(FillLayer::place_of(slots[2].0) == 3);
        assert(tagged[4] == slots[3]);
        assert(FillLayer::place_of(slots[3].0) == 4);
        assert(tagged[5] == slots[4]);
        assert(FillLayer::place_of(slots[4].0) == 5);
        assert(tagged[6] == slots[5]);
        assert(FillLayer::place_of(slots[5].0) == 6);
        assert(tagged[7] == slots[6]);
        assert(FillLayer::place_of(slots[6].0) == 7);
        assert(tagged[8] == slots[7]);
        assert(FillLayer::place_of(slots[7].0) == 8);
        assert(tagged[9] == slots[8]);
        assert(FillLayer::place_of(slots[8].0) == 9);
        assert forall|i: int| 0 <= i < tagged.len() implies FillLayer::place_of(
            (#[trigger] tagged[i]).0,
        ) == i by {
        }
        lemma_placed_keys_are_distinct(tagged, |key: Seq<char>| FillLayer::place_of(key));
    }
}

impl ToWire for FillLayer {
    /// The object of the properties that are set.
    open spec fn wire(&self) -> ValueView {
        ValueView::Object(flatten(self.slots()))
    }

    fn to_wire(&self) -> (value: Value) {
        self.to_entries().finish()
    }
}

impl FillLayer {
    /// Whether every property of a wire value can be read: what must be there
    /// is there, and what is there has the right shape.
    pub open spec fn all_read(value: ValueView) -> bool {
        &&& read_required::<String>(value.get("id"@)) is Some
        &&& read_optional::<Number>(value.get("maxzoom"@)) is Some
        &&& read_optional::<Number>(value.get("minzoom"@)) is Some
        &&& read_required::<String>(value.get("source"@)) is Some
        &&& read_optional::<Expression<()>>(value.get("filter"@)) is Some
        &&& read_optional::<String>(value.get("source-layer"@)) is Some
        &&& read_optional::<String>(value.get("slot"@)) is Some
        &&& read_defaulted::<FillLayout>(value.get("layout"@), FillLayout::unset().wire()) is Some
        &&& read_defaulted::<FillPaint>(value.get("paint"@), FillPaint::unset().wire()) is Some
    }

    /// The slots that the properties of a wire value are read as, in order.
    pub open spec fn read_slots(value: ValueView) -> Slots {
        seq![
            ("id"@, read_required::<String>(value.get("id"@))->Some_0),
            ("maxzoom"@, read_optional::<Number>(value.get("maxzoom"@))->Some_0),
            ("minzoom"@, read_optional::<Number>(value.get("minzoom"@))->Some_0),
            ("source"@, read_required::<String>(value.get("source"@))->Some_0),
            ("filter"@, read_optional::<Expression<()>>(value.get("filter"@))->Some_0),
            ("source-layer"@, read_optional::<String>(value.get("source-layer"@))->Some_0),
            ("slot"@, read_optional::<String>(value.get("slot"@))->Some_0),
            ("layout"@, read_defaulted::<FillLayout>(value.get("layout"@), FillLayout::unset().wire())->Some_0),
            ("paint"@, read_defaulted::<FillPaint>(value.get("paint"@), FillPaint::unset().wire())->Some_0),
        ]
    }

    fn read_part_0(value: &Value) -> (res: Option<(String, Option<Number>, Option<Number>, String, Option<Expression<()>>, Option<String>, Option<String>, FillLayout,)>)
        ensures
            match res {
                Some(part) => {
                    &&& read_required::<String>(value@.get("id"@)) == Some(Some(part.0.wire()))
                    &&& read_optional::<Number>(value@.get("maxzoom"@)) == Some(optional_wire(part.1))
                    &&& read_optional::<Number>(value@.get("minzoom"@)) == Some(optional_wire(part.2))
                    &&& read_required::<String>(value@.get("source"@)) == Some(Some(part.3.wire()))
                    &&& read_optional::<Expression<()>>(value@.get("filter"@)) == Some(optional_wire(part.4))
                    &&& read_optional::<String>(value@.get("source-layer"@)) == Some(optional_wire(part.5))
                    &&& read_optional::<String>(value@.get("slot"@)) == Some(optional_wire(part.6))
                    &&& read_defaulted::<FillLayout>(value@.get("layout"@), FillLayout::unset().wire()) == Some(Some(part.7.wire()))
                },
                None => !Self::all_read(value@),
            },
    {
        let id = match required::<String>(value.get("id")) {
            Some(read) => read,
            None => {
                return None;
            },
        };
        let maxzoom = match optional::<Number>(value.get("maxzoom")) {
            Some(read) => read,
            None => {
                return None;
            },
        };
        let minzoom = match optional::<Number>(value.get("minzoom")) {
            Some(read) => read,
            None => {
                return None;
            },
        };
        let source = match required::<String>(value.get("source")) {
            Some(read) => read,
            None => {
                return None;
            },
        };
        let filter = match optional::<Expression<()>>(value.get("filter")) {
            Some(read) => read,
            None => {
                return None;
            },
        };
        let source_layer = match optional::<String>(value.get("source-layer")) {
            Some(read) => read,
            None => {
                return None;
            },
        };
        let slot = match optional::<String>(value.get("slot")) {
            Some(read) => read,
            None => {
                return None;
            },
        };
        let layout = match value.get("layout") {
            Some(found) => match FillLayout::from_wire(found) {
                Some(read) => read,
                None => {
                    return None;
                },
            },
            None => FillLayout::default(),
        };
        Some((id, maxzoom, minzoom, source, filter, source_layer, slot, layout,))
    }

    fn read_part_1(value: &Value) -> (res: Option<(FillPaint,)>)
        ensures
            match res {
                Some(part) => {
                    &&& read_defaulted::<FillPaint>(value@.get("paint"@), FillPaint::unset().wire()) == Some(Some(part.0.wire()))
                },
                None => !Self::all_read(value@),
            },
    {
        let paint = match value.get("paint") {
            Some(found) => match FillPaint::from_wire(found) {
                Some(read) => read,
                None => {
                    return None;
                },
            },
            None => FillPaint::default(),
        };
        Some((paint,))
    }

    /// Reading an object in which looking up the name of each property of
    /// the value finds that property gives the value back.
    pub proof fn lemma_read_from(&self, entries: Seq<(Seq<char>, ValueView)>)
        requires
            self.comes_back(),
            forall|i: int|
                0 <= i < self.slots().len() ==> lookup(entries, (#[trigger] self.slots()[i]).0)
                    == self.slots()[i].1,
        ensures
            Self::spec_read(ValueView::Object(entries)) == Some(self.wire()),
    {
        let value = ValueView::Object(entries);
        let slots = self.slots();
        assert(value.get(slots[0].0) == slots[0].1);
        lemma_required_round_trip::<String>(self.id);
        assert(value.get(slots[1].0) == slots[1].1);
        lemma_optional_round_trip::<Number>(self.maxzoom);
        assert(value.get(slots[2].0) == slots[2].1);
        lemma_optional_round_trip::<Number>(self.minzoom);
        assert(value.get(slots[3].0) == slots[3].1);
        lemma_required_round_trip::<String>(self.source);
        assert(value.get(slots[4].0) == slots[4].1);
        lemma_optional_round_trip::<Expression<()>>(self.filter);
        assert(value.get(slots[5].0) == slots[5].1);
        lemma_optional_round_trip::<String>(self.source_layer);
        assert(value.get(slots[6].0) == slots[6].1);
        lemma_optional_round_trip::<String>(self.slot);
        assert(value.get(slots[7].0) == slots[7].1);
        lemma_defaulted_round_trip::<FillLayout>(self.layout, FillLayout::unset().wire());
        assert(value.get(slots[8].0) == slots[8].1);
        lemma_defaulted_round_trip::<FillPaint>(self.paint, FillPaint::unset().wire());
    }
}

impl FromWire for FillLayer {
    /// The value is read from an object, property by property. Properties of
    /// other names are passed over.
    open spec fn spec_read(value: ValueView) -> Option<ValueView> {
        if value is Object && Self::all_read(value) {
            Some(ValueView::Object(flatten(Self::read_slots(value))))
        } else {
            None
        }
    }

    open spec fn comes_back(&self) -> bool {
        &&& self.id.comes_back()
        &&& optional_comes_back(self.maxzoom)
        &&& optional_comes_back(self.minzoom)
        &&& self.source.comes_back()
        &&& optional_comes_back(self.filter)
        &&& optional_comes_back(self.source_layer)
        &&& optional_comes_back(self.slot)
        &&& self.layout.comes_back()
        &&& self.paint.comes_back()
    }

    fn from_wire(value: &Value) -> (res: Option<FillLayer>) {
        match value {
            Value::Object(_) => {},
            _ => {
                return None;
            },
        }
        let part_0 = match Self::read_part_0(value) {
            Some(part) => part,
            None => {
                return None;
            },
        };
        let part_1 = match Self::read_part_1(value) {
            Some(part) => part,
            None => {
                return None;
            },
        };
        Some(
            FillLayer {
                id: part_0.0,
                maxzoom: part_0.1,
                minzoom: part_0.2,
                source: part_0.3,
                filter: part_0.4,
                source_layer: part_0.5,
                slot: part_0.6,
                layout: part_0.7,
                paint: part_1.0,
            },
        )
    }

    proof fn law_round_trip(&self) {
        self.law_wire_names_are_distinct();
        self.lemma_read_from(flatten(self.slots()));
    }
}

impl IntoLayer for FillLayer {
    open spec fn spec_into_layer(self) -> Layer {
        Layer::Fill(self)
    }

    fn into_layer(self) -> (res: Layer) {
        Layer::Fill(self)
    }
}

/// The vocabulary of the translate anchor properties.
#[derive(Debug, Clone, Copy, PartialEq, Eq, Structural)]
pub enum TranslateAnchor {
    MapPlane,
    Viewport,
}

impl EnumMarker for TranslateAnchor {

}

impl Default for TranslateAnchor {
    fn default() -> (res: TranslateAnchor)
        ensures
            res == TranslateAnchor::MapPlane,
    {
        TranslateAnchor::MapPlane
    }
}

impl TranslateAnchor {
    /// The name of the constant on the wire.
    pub open spec fn spec_name(self) -> Seq<char> {
        match self {
            TranslateAnchor::MapPlane => "map"@,
            TranslateAnchor::Viewport => "viewport"@,
        }
    }

    /// The name of the constant on the wire.
    pub fn name(&self) -> (res: &'static str)
        ensures
            res@ == self.spec_name(),
    {
        match self {
            TranslateAnchor::MapPlane => "map",
            TranslateAnchor::Viewport => "viewport",
        }
    }
}

impl ToWire for TranslateAnchor {
    open spec fn wire(&self) -> ValueView {
        ValueView::String(self.spec_name())
    }

    fn to_wire(&self) -> (value: Value) {
        Value::string(self.name())
    }
}

impl TranslateAnchor {
    /// The constant with the wire name `name`, if there is one.
    pub open spec fn spec_named(name: Seq<char>) -> Option<TranslateAnchor> {
        if name == "map"@ {
            Some(TranslateAnchor::MapPlane)
        } else if name == "viewport"@ {
            Some(TranslateAnchor::Viewport)
        } else {
            None
        }
    }

    /// The constant with the wire name `name`, if there is one.
    pub fn named(name: &str) -> (res: Option<TranslateAnchor>)
        ensures
            res == Self::spec_named(name@),
    {
        if str_eq(name, "map") {
            Some(TranslateAnchor::MapPlane)
        } else if str_eq(name, "viewport") {
            Some(TranslateAnchor::Viewport)
        } else {
            None
        }
    }

    /// Every constant is the constant with its own wire name.
    pub proof fn law_named(self)
        ensures
            Self::spec_named(self.spec_name()) == Some(self),
    {
        reveal_strlit("map");
        reveal_strlit("viewport");
        assert("map"@.len() == 3);
        assert("viewport"@.len() == 8);
    }
}

impl FromWire for TranslateAnchor {
    /// A constant is read from the string of its wire name.
    open spec fn spec_read(value: ValueView) -> Option<ValueView> {
        match value {
            ValueView::String(name) => if Self::spec_named(name) is Some {
                Some(value)
            } else {
                None
            },
            _ => None,
        }
    }

    open spec fn comes_back(&self) -> bool {
        true
    }

    fn from_wire(value: &Value) -> (res: Option<TranslateAnchor>) {
        match value {
            Value::String(name) => match Self::named(name.as_str()) {
                Some(constant) => {
                    proof {
                        Self::lemma_named_is_named(name@);
                    }
                    Some(constant)
                },
                None => None,
            },
            _ => None,
        }
    }

    proof fn law_round_trip(&self) {
        self.law_named();
    }
}

impl TranslateAnchor {
    /// The constant with a wire name has that wire name.
    pub proof fn lemma_named_is_named(name: Seq<char>)
        ensures
            Self::spec_named(name) matches Some(constant) ==> constant.spec_name() == name,
    {
    }
}

impl ExactWire for TranslateAnchor {
    proof fn law_read_is_exact(value: ValueView) {
    }

    proof fn law_always_comes_back(&self) {
    }
}

/// How a fill layer is painted.
#[derive(Debug, Clone)]
pub struct FillPaint {
    pub fill_antialias: Option<Expression<()>>,
    pub fill_color: Option<Expression<()>>,
    pub fill_emissive_strength: Option<Expression<()>>,
    pub fill_opacity: Option<Expression<()>>,
    pub fill_outline_color: Option<Expression<()>>,
    pub fill_pattern: Option<Expression<()>>,
    pub fill_translate: Option<Expression<()>>,
    pub fill_translate_anchor: Option<Expression<TranslateAnchor>>,
}

impl Default for FillPaint {
    /// Every property is unset.
    fn default() -> (res: FillPaint)
        ensures
            res == FillPaint::unset(),
    {
        FillPaint {
            fill_antialias: None,
            fill_color: None,
            fill_emissive_strength: None,
            fill_opacity: None,
            fill_outline_color: None,
            fill_pattern: None,
            fill_translate: None,
            fill_translate_anchor: None,
        }
    }
}

impl FillPaint {
    /// The properties with every one unset.
    pub open spec fn unset() -> FillPaint {
        FillPaint {
            fill_antialias: None,
            fill_color: None,
            fill_emissive_strength: None,
            fill_opacity: None,
            fill_outline_color: None,
            fill_pattern: None,
            fill_translate: None,
            fill_translate_anchor: None,
        }
    }

    /// The properties of the wire form, in order: each under its wire name,
    /// with its wire form where it is set.
    pub open spec fn slots(&self) -> Slots {
        seq![
            ("fill-antialias"@, optional_wire(self.fill_antialias)),
            ("fill-color"@, optional_wire(self.fill_color)),
            ("fill-emissive-strength"@, optional_wire(self.fill_emissive_strength)),
            ("fill-opacity"@, optional_wire(self.fill_opacity)),
            ("fill-outline-color"@, optional_wire(self.fill_outline_color)),
            ("fill-pattern"@, optional_wire(self.fill_pattern)),
            ("fill-translate"@, optional_wire(self.fill_translate)),
            ("fill-translate-anchor"@, optional_wire(self.fill_translate_anchor)),
        ]
    }

    /// Offers every property to a builder, in order.
    pub fn to_entries(&self) -> (b: ObjectBuilder)
        ensures
            b.wf(),
            b@ == self.slots(),
    {
        let mut b = ObjectBuilder::new();
        b.optional_wire("fill-antialias", &self.fill_antialias);
        b.optional_wire("fill-color", &self.fill_color);
        b.optional_wire("fill-emissive-strength", &self.fill_emissive_strength);
        b.optional_wire("fill-opacity", &self.fill_opacity);
        b.optional_wire("fill-outline-color", &self.fill_outline_color);
        b.optional_wire("fill-pattern", &self.fill_pattern);
        b.optional_wire("fill-translate", &self.fill_translate);
        b.optional_wire("fill-translate-anchor", &self.fill_translate_anchor);
        b
    }

    /// The place of the property with the wire name `key`, which the length of
    /// the name and a few of its characters tell.
    spec fn place_of(key: Seq<char>) -> int {
        if key.len() == 14 && key[5] == 'a' {
            0
        } else if key.len() == 10 && key[5] == 'c' {
            1
        } else if key.len() == 22 && key[5] == 'e' {
            2
        } else if key.len() == 12 && key[5] == 'o' {
            3
        } else if key.len() == 18 && key[5] == 'o' {
            4
        } else if key.len() == 12 && key[5] == 'p' {
            5
        } else if key.len() == 14 && key[5] == 't' {
            6
        } else if key.len() == 21 && key[5] == 't' {
            7
        } else {
            -1
        }
    }

    /// No two properties have one wire name. So looking the wire name of a
    /// property up in the wire form finds the wire form of that property where it
    /// is set, and nothing where it is unset.
    pub proof fn law_wire_names_are_distinct(&self)
        ensures
            distinct_keys(self.slots()),
            forall|i: int|
                0 <= i < self.slots().len() ==> lookup(
                    flatten(self.slots()),
                    (#[trigger] self.slots()[i]).0,
                ) == self.slots()[i].1,
    {
        reveal_strlit("fill-antialias");
        reveal_strlit("fill-color");
        reveal_strlit("fill-emissive-strength");
        reveal_strlit("fill-opacity");
        reveal_strlit("fill-outline-color");
        reveal_strlit("fill-pattern");
        reveal_strlit("fill-translate");
        reveal_strlit("fill-translate-anchor");
        let slots = self.slots();
        assert(FillPaint::place_of(slots[0].0) == 0);
        assert(FillPaint::place_of(slots[1].0) == 1);
        assert(FillPaint::place_of(slots[2].0) == 2);
        assert(FillPaint::place_of(slots[3].0) == 3);
        assert(FillPaint::place_of(slots[4].0) == 4);
        assert(FillPaint::place_of(slots[5].0) == 5);
        assert(FillPaint::place_of(slots[6].0) == 6);
        assert(FillPaint::place_of(slots[7].0) == 7);
        assert forall|i: int| 0 <= i < slots.len() implies FillPaint::place_of(
            (#[trigger] slots[i]).0,
        ) - 0 == i by {
        }
        lemma_placed_keys_are_distinct(slots, |key: Seq<char>| FillPaint::place_of(key) - 0);
        assert forall|i: int| 0 <= i < slots.len() implies lookup(
            flatten(slots),
            (#[trigger] slots[i]).0,
        ) == slots[i].1 by {
            law_lookup_of_distinct_keys(slots, i);
        }
    }
}

impl ToWire for FillPaint {
    /// The object of the properties that are set.
    open spec fn wire(&self) -> ValueView {
        ValueView::Object(flatten(self.slots()))
    }

    fn to_wire(&self) -> (value: Value) {
        self.to_entries().finish()
    }
}

impl FillPaint {
    /// Whether every property of a wire value can be read: what must be there
    /// is there, and what is there has the right shape.
    pub open spec fn all_read(value: ValueView) -> bool {
        &&& read_optional::<Expression<()>>(value.get("fill-antialias"@)) is Some
        &&& read_optional::<Expression<()>>(value.get("fill-color"@)) is Some
        &&& read_optional::<Expression<()>>(value.get("fill-emissive-strength"@)) is Some
        &&& read_optional::<Expression<()>>(value.get("fill-opacity"@)) is Some
        &&& read_optional::<Expression<()>>(value.get("fill-outline-color"@)) is Some
        &&& read_optional::<Expression<()>>(value.get("fill-pattern"@)) is Some
        &&& read_optional::<Expression<()>>(value.get("fill-translate"@)) is Some
        &&& read_optional::<Expression<TranslateAnchor>>(value.get("fill-translate-anchor"@)) is Some
    }

    /// The slots that the properties of a wire value are read as, in order.
    pub open spec fn read_slots(value: ValueView) -> Slots {
        seq![
            ("fill-antialias"@, read_optional::<Expression<()>>(value.get("fill-antialias"@))->Some_0),
            ("fill-color"@, read_optional::<Expression<()>>(value.get("fill-color"@))->Some_0),
            ("fill-emissive-strength"@, read_optional::<Expression<()>>(value.get("fill-emissive-strength"@))->Some_0),
            ("fill-opacity"@, read_optional::<Expression<()>>(value.get("fill-opacity"@))->Some_0),
            ("fill-outline-color"@, read_optional::<Expression<()>>(value.get("fill-outline-color"@))->Some_0),
            ("fill-pattern"@, read_optional::<Expression<()>>(value.get("fill-pattern"@))->Some_0),
            ("fill-translate"@, read_optional::<Expression<()>>(value.get("fill-translate"@))->Some_0),
            ("fill-translate-anchor"@, read_optional::<Expression<TranslateAnchor>>(value.get("fill-translate-anchor"@))->Some_0),
        ]
    }

    /// Reading an object in which looking up the name of each property of
    /// the value finds that property gives the value back.
    pub proof fn lemma_read_from(&self, entries: Seq<(Seq<char>, ValueView)>)
        requires
            self.comes_back(),
            forall|i: int|
                0 <= i < self.slots().len() ==> lookup(entries, (#[trigger] self.slots()[i]).0)
                    == self.slots()[i].1,
        ensures
            Self::spec_read(ValueView::Object(entries)) == Some(self.wire()),
    {
        let value = ValueView::Object(entries);
        let slots = self.slots();
        assert(value.get(slots[0].0) == slots[0].1);
        lemma_optional_round_trip::<Expression<()>>(self.fill_antialias);
        assert(value.get(slots[1].0) == slots[1].1);
        lemma_optional_round_trip::<Expression<()>>(self.fill_color);
        assert(value.get(slots[2].0) == slots[2].1);
        lemma_optional_round_trip::<Expression<()>>(self.fill_emissive_strength);
        assert(value.get(slots[3].0) == slots[3].1);
        lemma_optional_round_trip::<Expression<()>>(self.fill_opacity);
        assert(value.get(slots[4].0) == slots[4].1);
        lemma_optional_round_trip::<Expression<()>>(self.fill_outline_color);
        assert(value.get(slots[5].0) == slots[5].1);
        lemma_optional_round_trip::<Expression<()>>(self.fill_pattern);
        assert(value.get(slots[6].0) == slots[6].1);
        lemma_optional_round_trip::<Expression<()>>(self.fill_translate);
        assert(value.get(slots[7].0) == slots[7].1);
        lemma_optional_round_trip::<Expression<TranslateAnchor>>(self.fill_translate_anchor);
    }
}

impl FromWire for FillPaint {
    /// The value is read from an object, property by property. Properties of
    /// other names are passed over.
    open spec fn spec_read(value: ValueView) -> Option<ValueView> {
        if value is Object && Self::all_read(value) {
            Some(ValueView::Object(flatten(Self::read_slots(value))))
        } else {
            None
        }
    }

    open spec fn comes_back(&self) -> bool {
        &&& optional_comes_back(self.fill_antialias)
        &&& optional_comes_back(self.fill_color)
        &&& optional_comes_back(self.fill_emissive_strength)
        &&& optional_comes_back(self.fill_opacity)
        &&& optional_comes_back(self.fill_outline_color)
        &&& optional_comes_back(self.fill_pattern)
        &&& optional_comes_back(self.fill_translate)
        &&& optional_comes_back(self.fill_translate_anchor)
    }

    fn from_wire(value: &Value) -> (res: Option<FillPaint>) {
        match value {
            Value::Object(_) => {},
            _ => {
                return None;
            },
        }
        let fill_antialias = match optional::<Expression<()>>(value.get("fill-antialias")) {
            Some(read) => read,
            None => {
                return None;
            },
        };
        let fill_color = match optional::<Expression<()>>(value.get("fill-color")) {
            Some(read) => read,
            None => {
                return None;
            },
        };
        let fill_emissive_strength = match optional::<Expression<()>>(value.get("fill-emissive-strength")) {
            Some(read) => read,
            None => {
                return None;
            },
        };
        let fill_opacity = match optional::<Expression<()>>(value.get("fill-opacity")) {
            Some(read) => read,
            None => {
                return None;
            },
        };
        let fill_outline_color = match optional::<Expression<()>>(value.get("fill-outline-color")) {
            Some(read) => read,
            None => {
                return None;
            },
        };
        let fill_pattern = match optional::<Expression<()>>(value.get("fill-pattern")) {
            Some(read) => read,
            None => {
                return None;
            },
        };
        let fill_translate = match optional::<Expression<()>>(value.get("fill-translate")) {
            Some(read) => read,
            None => {
                return None;
            },
        };
        let fill_translate_anchor = match optional::<Expression<TranslateAnchor>>(value.get("fill-translate-anchor")) {
            Some(read) => read,
            None => {
                return None;
            },
        };
        Some(FillPaint { fill_antialias, fill_color, fill_emissive_strength, fill_opacity, fill_outline_color, fill_pattern, fill_translate, fill_translate_anchor })
    }

    proof fn law_round_trip(&self) {
        self.law_wire_names_are_distinct();
        self.lemma_read_from(flatten(self.slots()));
    }
}

/// How a fill layer is laid out.
#[derive(Debug, Clone)]
pub struct FillLayout {
    pub fill_sort_key: Option<u32>,
    pub visibility: Option<Visibility>,
}

impl Default for FillLayout {
    /// Every property is unset.
    fn default() -> (res: FillLayout)
        ensures
            res == FillLayout::unset(),
    {
        FillLayout {
            fill_sort_key: None,
            visibility: None,
        }
    }
}

impl FillLayout {
    /// The properties with every one unset.
    pub open spec fn unset() -> FillLayout {
        FillLayout {
            fill_sort_key: None,
            visibility: None,
        }
    }

    /// The properties of the wire form, in order: each under its wire name,
    /// with its wire form where it is set.
    pub open spec fn slots(&self) -> Slots {
        seq![
            ("fill-sort-key"@, optional_wire(self.fill_sort_key)),
            ("visibility"@, optional_wire(self.visibility)),
        ]
    }

    /// Offers every property to a builder, in order.
    pub fn to_entries(&self) -> (b: ObjectBuilder)
        ensures
            b.wf(),
            b@ == self.slots(),
    {
        let mut b = ObjectBuilder::new();
        b.optional_wire("fill-sort-key", &self.fill_sort_key);
        b.optional_wire("visibility", &self.visibility);
        b
    }

    /// The place of the property with the wire name `key`, which the length of
    /// the name and a few of its characters tell.
    spec fn place_of(key: Seq<char>) -> int {
        if key.len() == 13 {
            0
        } else if key.len() == 10 {
            1
        } else {
            -1
        }
    }

    /// No two properties have one wire name. So looking the wire name of a
    /// property up in the wire form finds the wire form of that property where it
    /// is set, and nothing where it is unset.
    pub proof fn law_wire_names_are_distinct(&self)
        ensures
            distinct_keys(self.slots()),
            forall|i: int|
                0 <= i < self.slots().len() ==> lookup(
                    flatten(self.slots()),
                    (#[trigger] self.slots()[i]).0,
                ) == self.slots()[i].1,
    {
        reveal_strlit("fill-sort-key");
        reveal_strlit("visibility");
        let slots = self.slots();
        assert(FillLayout::place_of(slots[0].0) == 0);
        assert(FillLayout::place_of(slots[1].0) == 1);
        assert forall|i: int| 0 <= i < slots.len() implies FillLayout::place_of(
            (#[trigger] slots[i]).0,
        ) - 0 == i by {
        }
        lemma_placed_keys_are_distinct(slots, |key: Seq<char>| FillLayout::place_of(key) - 0);
        assert forall|i: int| 0 <= i < slots.len() implies lookup(
            flatten(slots),
            (#[trigger] slots[i]).0,
        ) == slots[i].1 by {
            law_lookup_of_distinct_keys(slots, i);
        }
    }
}

impl ToWire for FillLayout {
    /// The object of the properties that are set.
    open spec fn wire(&self) -> ValueView {
        ValueView::Object(flatten(self.slots()))
    }

    fn to_wire(&self) -> (value: Value) {
        self.to_entries().finish()
    }
}

impl FillLayout {
    /// Whether every property of a wire value can be read: what must be there
    /// is there, and what is there has the right shape.
    pub open spec fn all_read(value: ValueView) -> bool {
        &&& read_optional::<u32>(value.get("fill-sort-key"@)) is Some
        &&& read_optional::<Visibility>(value.get("visibility"@)) is Some
    }

    /// The slots that the properties of a wire value are read as, in order.
    pub open spec fn read_slots(value: ValueView) -> Slots {
        seq![
            ("fill-sort-key"@, read_optional::<u32>(value.get("fill-sort-key"@))->Some_0),
            ("visibility"@, read_optional::<Visibility>(value.get("visibility"@))->Some_0),
        ]
    }

    /// Reading an object in which looking up the name of each property of
    /// the value finds that property gives the value back.
    pub proof fn lemma_read_from(&self, entries: Seq<(Seq<char>, ValueView)>)
        requires
            self.comes_back(),
            forall|i: int|
                0 <= i < self.slots().len() ==> lookup(entries, (#[trigger] self.slots()[i]).0)
                    == self.slots()[i].1,
        ensures
            Self::spec_read(ValueView::Object(entries)) == Some(self.wire()),
    {
        let value = ValueView::Object(entries);
        let slots = self.slots();
        assert(value.get(slots[0].0) == slots[0].1);
        lemma_optional_round_trip::<u32>(self.fill_sort_key);
        assert(value.get(slots[1].0) == slots[1].1);
        lemma_optional_round_trip::<Visibility>(self.visibility);
    }
}

impl FromWire for FillLayout {
    /// The value is read from an object, property by property. Properties of
    /// other names are passed over.
    open spec fn spec_read(value: ValueView) -> Option<ValueView> {
        if value is Object && Self::all_read(value) {
            Some(ValueView::Object(flatten(Self::read_slots(value))))
        } else {
            None
        }
    }

    open spec fn comes_back(&self) -> bool {
        &&& optional_comes_back(self.fill_sort_key)
        &&& optional_comes_back(self.visibility)
    }

    fn from_wire(value: &Value) -> (res: Option<FillLayout>) {
        match value {
            Value::Object(_) => {},
            _ => {
                return None;
            },
        }
        let fill_sort_key = match optional::<u32>(value.get("fill-sort-key")) {
            Some(read) => read,
            None => {
                return None;
            },
        };
        let visibility = match optional::<Visibility>(value.get("visibility")) {
            Some(read) => read,
            None => {
                return None;
            },
        };
        Some(FillLayout { fill_sort_key, visibility })
    }

    proof fn law_round_trip(&self) {
        self.law_wire_names_are_distinct();
        self.lemma_read_from(flatten(self.slots()));
    }
}

/// A line layer.
#[derive(Debug, Clone)]
pub struct LineLayer {
    pub id: String,
    pub maxzoom: Option<Number>,
    pub minzoom: Option<Number>,
    pub source: String,
    pub filter: Option<Expression<()>>,
    pub source_layer: Option<String>,
    pub slot: Option<String>,
    pub layout: LineLayout,
    pub paint: LinePaint,
}

impl LineLayer {
    /// The layer with the given identifier and source and nothing else set.
    pub fn new(id: &str, source: &str) -> (res: LineLayer)
        ensures
            res.id@ == id@,
            res.maxzoom is None,
            res.minzoom is None,
            res.source@ == source@,
            res.filter is None,
            res.source_layer is None,
            res.slot is None,
            res.layout == LineLayout::unset(),
            res.paint == LinePaint::unset(),
    {
        LineLayer {
            id: id.to_owned(),
            maxzoom: None,
            minzoom: None,
            source: source.to_owned(),
            filter: None,
            source_layer: None,
            slot: None,
            layout: LineLayout::default(),
            paint: LinePaint::default(),
        }
    }

    /// The properties of the wire form, in order: each under its wire name,
    /// with its wire form where it is set.
    pub open spec fn slots(&self) -> Slots {
        seq![
            ("id"@, Some(self.id.wire())),
            ("maxzoom"@, optional_wire(self.maxzoom)),
            ("minzoom"@, optional_wire(self.minzoom)),
            ("source"@, Some(self.source.wire())),
            ("filter"@, optional_wire(self.filter)),
            ("source-layer"@, optional_wire(self.source_layer)),
            ("slot"@, optional_wire(self.slot)),
            ("layout"@, Some(self.layout.wire())),
            ("paint"@, Some(self.paint.wire())),
        ]
    }

    /// Offers every property to a builder, in order.
    pub fn to_entries(&self) -> (b: ObjectBuilder)
        ensures
            b.wf(),
            b@ == self.slots(),
    {
        let mut b = ObjectBuilder::new();
        b.wire("id", &self.id);
        b.optional_wire("maxzoom", &self.maxzoom);
        b.optional_wire("minzoom", &self.minzoom);
        b.wire("source", &self.source);
        b.optional_wire("filter", &self.filter);
        b.optional_wire("source-layer", &self.source_layer);
        b.optional_wire("slot", &self.slot);
        b.wire("layout", &self.layout);
        b.wire("paint", &self.paint);
        b
    }

    /// The place of the property with the wire name `key`, which the length of
    /// the name and a few of its characters tell.
    spec fn place_of(key: Seq<char>) -> int {
        if key.len() == 4 && key[1] == 'y' {
            0
        } else if key.len() == 2 && key[1] == 'd' {
            1
        } else if key.len() == 7 && key[1] == 'a' {
            2
        } else if key.len() == 7 && key[1] == 'i' {
            3
        } else if key.len() == 6 && key[1] == 'o' {
            4
        } else if key.len() == 6 && key[1] == 'i' {
            5
        } else if key.len() == 12 && key[1] == 'o' {
            6
        } else if key.len() == 4 && key[1] == 'l' {
            7
        } else if key.len() == 6 && key[1] == 'a' {
            8
        } else if key.len() == 5 && key[1] == 'a' {
            9
        } else {
            -1
        }
    }

    /// No two properties have one wire name. So looking the wire name of a
    /// property up in the wire form finds the wire form of that property where it
    /// is set, and nothing where it is unset.
    pub proof fn law_wire_names_are_distinct(&self)
        ensures
            distinct_keys(self.slots()),
            forall|i: int|
                0 <= i < self.slots().len() ==> lookup(
                    flatten(self.slots()),
                    (#[trigger] self.slots()[i]).0,
                ) == self.slots()[i].1,
    {
        reveal_strlit("id");
        reveal_strlit("maxzoom");
        reveal_strlit("minzoom");
        reveal_strlit("source");
        reveal_strlit("filter");
        reveal_strlit("source-layer");
        reveal_strlit("slot");
        reveal_strlit("layout");
        reveal_strlit("paint");
        let slots = self.slots();
        assert(LineLayer::place_of(slots[0].0) == 1);
        assert(LineLayer::place_of(slots[1].0) == 2);
        assert(LineLayer::place_of(slots[2].0) == 3);
        assert(LineLayer::place_of(slots[3].0) == 4);
        assert(LineLayer::place_of(slots[4].0) == 5);
        assert(LineLayer::place_of(slots[5].0) == 6);
        assert(LineLayer::place_of(slots[6].0) == 7);
        assert(LineLayer::place_of(slots[7].0) == 8);
        assert(LineLayer::place_of(slots[8].0) == 9);
        assert forall|i: int| 0 <= i < slots.len() implies LineLayer::place_of(
            (#[trigger] slots[i]).0,
        ) - 1 == i by {
        }
        lemma_placed_keys_are_distinct(slots, |key: Seq<char>| LineLayer::place_of(key) - 1);
        assert forall|i: int| 0 <= i < slots.len() implies lookup(
            flatten(slots),
            (#[trigger] slots[i]).0,
        ) == slots[i].1 by {
            law_lookup_of_distinct_keys(slots, i);
        }
    }

    /// No wire name is `type`, and no two are one: behind a slot named
    /// `type` the properties still have names of their own.
    pub proof fn law_wire_names_leave_room(&self, first: Option<ValueView>)
        ensures
            distinct_keys(seq![("type"@, first)] + self.slots()),
    {
        reveal_strlit("type");
        reveal_strlit("id");
        reveal_strlit("maxzoom");
        reveal_strlit("minzoom");
        reveal_strlit("source");
        reveal_strlit("filter");
        reveal_strlit("source-layer");
        reveal_strlit("slot");
        reveal_strlit("layout");
        reveal_strlit("paint");
        let slots = self.slots();
        let tagged = seq![("type"@, first)] + slots;
        assert(LineLayer::place_of(tagged[0].0) == 0);
        assert(tagged[1] == slots[0]);
        assert(LineLayer::place_of(slots[0].0) == 1);
        assert(tagged[2] == slots[1]);
        assert(LineLayer::place_of(slots[1].0) == 2);
        assert(tagged[3] == slots[2]);
        assert(LineLayer::place_of(slots[2].0) == 3);
        assert(tagged[4] == slots[3]);
        assert(LineLayer::place_of(slots[3].0) == 4);
        assert(tagged[5] == slots[4]);
        assert(LineLayer::place_of(slots[4].0) == 5);
        assert(tagged[6] == slots[5]);
        assert(LineLayer::place_of(slots[5].0) == 6);
        assert(tagged[7] == slots[6]);
        assert(LineLayer::place_of(slots[6].0) == 7);
        assert(tagged[8] == slots[7]);
        assert(LineLayer::place_of(slots[7].0) == 8);
        assert(tagged[9] == slots[8]);
        assert(LineLayer::place_of(slots[8].0) == 9);
        assert forall|i: int| 0 <= i < tagged.len() implies LineLayer::place_of(
            (#[trigger] tagged[i]).0,
        ) == i by {
        }
        lemma_placed_keys_are_distinct(tagged, |key: Seq<char>| LineLayer::place_of(key));
    }
}

impl ToWire for LineLayer {
    /// The object of the properties that are set.
    open spec fn wire(&self) -> ValueView {
        ValueView::Object(flatten(self.slots()))
    }

    fn to_wire(&self) -> (value: Value) {
        self.to_entries().finish()
    }
}

impl LineLayer {
    /// Whether every property of a wire value can be read: what must be there
    /// is there, and what is there has the right shape.
    pub open spec fn all_read(value: ValueView) -> bool {
        &&& read_required::<String>(value.get("id"@)) is Some
        &&& read_optional::<Number>(value.get("maxzoom"@)) is Some
        &&& read_optional::<Number>(value.get("minzoom"@)) is Some
        &&& read_required::<String>(value.get("source"@)) is Some
        &&& read_optional::<Expression<()>>(value.get("filter"@)) is Some
        &&& read_optional::<String>(value.get("source-layer"@)) is Some
        &&& read_optional::<String>(value.get("slot"@)) is Some
        &&& read_defaulted::<LineLayout>(value.get("layout"@), LineLayout::unset().wire()) is Some
        &&& read_defaulted::<LinePaint>(value.get("paint"@), LinePaint::unset().wire()) is Some
    }

    /// The slots that the properties of a wire value are read as, in order.
    pub open spec fn read_slots(value: ValueView) -> Slots {
        seq![
            ("id"@, read_required::<String>(value.get("id"@))->Some_0),
            ("maxzoom"@, read_optional::<Number>(value.get("maxzoom"@))->Some_0),
            ("minzoom"@, read_optional::<Number>(value.get("minzoom"@))->Some_0),
            ("source"@, read_required::<String>(value.get("source"@))->Some_0),
            ("filter"@, read_optional::<Expression<()>>(value.get("filter"@))->Some_0),
            ("source-layer"@, read_optional::<String>(value.get("source-layer"@))->Some_0),
            ("slot"@, read_optional::<String>(value.get("slot"@))->Some_0),
            ("layout"@, read_defaulted::<LineLayout>(value.get("layout"@), LineLayout::unset().wire())->Some_0),
            ("paint"@, read_defaulted::<LinePaint>(value.get("paint"@), LinePaint::unset().wire())->Some_0),
        ]
    }

    fn read_part_0(value: &Value) -> (res: Option<(String, Option<Number>, Option<Number>, String, Option<Expression<()>>, Option<String>, Option<String>, LineLayout,)>)
        ensures
            match res {
                Some(part) => {
                    &&& read_required::<String>(value@.get("id"@)) == Some(Some(part.0.wire()))
                    &&& read_optional::<Number>(value@.get("maxzoom"@)) == Some(optional_wire(part.1))
                    &&& read_optional::<Number>(value@.get("minzoom"@)) == Some(optional_wire(part.2))
                    &&& read_required::<String>(value@.get("source"@)) == Some(Some(part.3.wire()))
                    &&& read_optional::<Expression<()>>(value@.get("filter"@)) == Some(optional_wire(part.4))
                    &&& read_optional::<String>(value@.get("source-layer"@)) == Some(optional_wire(part.5))
                    &&& read_optional::<String>(value@.get("slot"@)) == Some(optional_wire(part.6))
                    &&& read_defaulted::<LineLayout>(value@.get("layout"@), LineLayout::unset().wire()) == Some(Some(part.7.wire()))
                },
                None => !Self::all_read(value@),
            },
    {
        let id = match required::<String>(value.get("id")) {
            Some(read) => read,
            None => {
                return None;
            },
        };
        let maxzoom = match optional::<Number>(value.get("maxzoom")) {
            Some(read) => read,
            None => {
                return None;
            },
        };
        let minzoom = match optional::<Number>(value.get("minzoom")) {
            Some(read) => read,
            None => {
                return None;
            },
        };
        let source = match required::<String>(value.get("source")) {
            Some(read) => read,
            None => {
                return None;
            },
        };
        let filter = match optional::<Expression<()>>(value.get("filter")) {
            Some(read) => read,
            None => {
                return None;
            },
        };
        let source_layer = match optional::<String>(value.get("source-layer")) {
            Some(read) => read,
            None => {
                return None;
            },
        };
        let slot = match optional::<String>(value.get("slot")) {
            Some(read) => read,
            None => {
                return None;
            },
        };
        let layout = match value.get("layout") {
            Some(found) => match LineLayout::from_wire(found) {
                Some(read) => read,
                None => {
                    return None;
                },
            },
            None => LineLayout::default(),
        };
        Some((id, maxzoom, minzoom, source, filter, source_layer, slot, layout,))
    }

    fn read_part_1(value: &Value) -> (res: Option<(LinePaint,)>)
        ensures
            match res {
                Some(part) => {
                    &&& read_defaulted::<LinePaint>(value@.get("paint"@), LinePaint::unset().wire()) == Some(Some(part.0.wire()))
                },
                None => !Self::all_read(value@),
            },
    {
        let paint = match value.get("paint") {
            Some(found) => match LinePaint::from_wire(found) {
                Some(read) => read,
                None => {
                    return None;
                },
            },
            None => LinePaint::default(),
        };
        Some((paint,))
    }

    /// Reading an object in which looking up the name of each property of
    /// the value finds that property gives the value back.
    pub proof fn lemma_read_from(&self, entries: Seq<(Seq<char>, ValueView)>)
        requires
            self.comes_back(),
            forall|i: int|
                0 <= i < self.slots().len() ==> lookup(entries, (#[trigger] self.slots()[i]).0)
                    == self.slots()[i].1,
        ensures
            Self::spec_read(ValueView::Object(entries)) == Some(self.wire()),
    {
        let value = ValueView::Object(entries);
        let slots = self.slots();
        assert(value.get(slots[0].0) == slots[0].1);
        lemma_required_round_trip::<String>(self.id);
        assert(value.get(slots[1].0) == slots[1].1);
        lemma_optional_round_trip::<Number>(self.maxzoom);
        assert(value.get(slots[2].0) == slots[2].1);
        lemma_optional_round_trip::<Number>(self.minzoom);
        assert(value.get(slots[3].0) == slots[3].1);
        lemma_required_round_trip::<String>(self.source);
        assert(value.get(slots[4].0) == slots[4].1);
        lemma_optional_round_trip::<Expression<()>>(self.filter);
        assert(value.get(slots[5].0) == slots[5].1);
        lemma_optional_round_trip::<String>(self.source_layer);
        assert(value.get(slots[6].0) == slots[6].1);
        lemma_optional_round_trip::<String>(self.slot);
        assert(value.get(slots[7].0) == slots[7].1);
        lemma_defaulted_round_trip::<LineLayout>(self.layout, LineLayout::unset().wire());
        assert(value.get(slots[8].0) == slots[8].1);
        lemma_defaulted_round_trip::<LinePaint>(self.paint, LinePaint::unset().wire());
    }
}

impl FromWire for LineLayer {
    /// The value is read from an object, property by property. Properties of
    /// other names are passed over.
    open spec fn spec_read(value: ValueView) -> Option<ValueView> {
        if value is Object && Self::all_read(value) {
            Some(ValueView::Object(flatten(Self::read_slots(value))))
        } else {
            None
        }
    }

    open spec fn comes_back(&self) -> bool {
        &&& self.id.comes_back()
        &&& optional_comes_back(self.maxzoom)
        &&& optional_comes_back(self.minzoom)
        &&& self.source.comes_back()
        &&& optional_comes_back(self.filter)
        &&& optional_comes_back(self.source_layer)
        &&& optional_comes_back(self.slot)
        &&& self.layout.comes_back()
        &&& self.paint.comes_back()
    }

    fn from_wire(value: &Value) -> (res: Option<LineLayer>) {
        match value {
            Value::Object(_) => {},
            _ => {
                return None;
            },
        }
        let part_0 = match Self::read_part_0(value) {
            Some(part) => part,
            None => {
                return None;
            },
        };
        let part_1 = match Self::read_part_1(value) {
            Some(part) => part,
            None => {
                return None;
            },
        };
        Some(
            LineLayer {
                id: part_0.0,
                maxzoom: part_0.1,
                minzoom: part_0.2,
                source: part_0.3,
                filter: part_0.4,
                source_layer: part_0.5,
                slot: part_0.6,
                layout: part_0.7,
                paint: part_1.0,
            },
        )
    }

    proof fn law_round_trip(&self) {
        self.law_wire_names_are_distinct();
        self.lemma_read_from(flatten(self.slots()));
    }
}

impl IntoLayer for LineLayer {
    open spec fn spec_into_layer(self) -> Layer {
        Layer::Line(self)
    }

    fn into_layer(self) -> (res: Layer) {
        Layer::Line(self)
    }
}

/// The vocabulary of the line cap properties.
#[derive(Debug, Clone, Copy, PartialEq, Eq, Structural)]
pub enum LineCap {
    Butt,
    Round,
    Square,
}

impl EnumMarker for LineCap {

}

impl Default for LineCap {
    fn default() -> (res: LineCap)
        ensures
            res == LineCap::Butt,
    {
        LineCap::Butt
    }
}

impl LineCap {
    /// The name of the constant on the wire.
    pub open spec fn spec_name(self) -> Seq<char> {
        match self {
            LineCap::Butt => "butt"@,
            LineCap::Round => "round"@,
            LineCap::Square => "square"@,
        }
    }

    /// The name of the constant on the wire.
    pub fn name(&self) -> (res: &'static str)
        ensures
            res@ == self.spec_name(),
    {
        match self {
            LineCap::Butt => "butt",
            LineCap::Round => "round",
            LineCap::Square => "square",
        }
    }
}

impl ToWire for LineCap {
    open spec fn wire(&self) -> ValueView {
        ValueView::String(self.spec_name())
    }

    fn to_wire(&self) -> (value: Value) {
        Value::string(self.name())
    }
}

impl LineCap {
    /// The constant with the wire name `name`, if there is one.
    pub open spec fn spec_named(name: Seq<char>) -> Option<LineCap> {
        if name == "butt"@ {
            Some(LineCap::Butt)
        } else if name == "round"@ {
            Some(LineCap::Round)
        } else if name == "square"@ {
            Some(LineCap::Square)
        } else {
            None
        }
    }

    /// The constant with the wire name `name`, if there is one.
    pub fn named(name: &str) -> (res: Option<LineCap>)
        ensures
            res == Self::spec_named(name@),
    {
        if str_eq(name, "butt") {
            Some(LineCap::Butt)
        } else if str_eq(name, "round") {
            Some(LineCap::Round)
        } else if str_eq(name, "square") {
            Some(LineCap::Square)
        } else {
            None
        }
    }

    /// Every constant is the constant with its own wire name.
    pub proof fn law_named(self)
        ensures
            Self::spec_named(self.spec_name()) == Some(self),
    {
        reveal_strlit("butt");
        reveal_strlit("round");
        reveal_strlit("square");
        assert("butt"@.len() == 4);
        assert("round"@.len() == 5);
        assert("square"@.len() == 6);
    }
}

impl FromWire for LineCap {
    /// A constant is read from the string of its wire name.
    open spec fn spec_read(value: ValueView) -> Option<ValueView> {
        match value {
            ValueView::String(name) => if Self::spec_named(name) is Some {
                Some(value)
            } else {
                None
            },
            _ => None,
        }
    }

    open spec fn comes_back(&self) -> bool {
        true
    }

    fn from_wire(value: &Value) -> (res: Option<LineCap>) {
        match value {
            Value::String(name) => match Self::named(name.as_str()) {
                Some(constant) => {
                    proof {
                        Self::lemma_named_is_named(name@);
                    }
                    Some(constant)
                },
                None => None,
            },
            _ => None,
        }
    }

    proof fn law_round_trip(&self) {
        self.law_named();
    }
}

impl LineCap {
    /// The constant with a wire name has that wire name.
    pub proof fn lemma_named_is_named(name: Seq<char>)
        ensures
            Self::spec_named(name) matches Some(constant) ==> constant.spec_name() == name,
    {
    }
}

impl ExactWire for LineCap {
    proof fn law_read_is_exact(value: ValueView) {
    }

    proof fn law_always_comes_back(&self) {
    }
}

/// The vocabulary of the line join properties.
#[derive(Debug, Clone, Copy, PartialEq, Eq, Structural)]
pub enum LineJoin {
    Miter,
    Bevel,
    Round,
    Off,
}

impl EnumMarker for LineJoin {

}

impl Default for LineJoin {
    fn default() -> (res: LineJoin)
        ensures
            res == LineJoin::Miter,
    {
        LineJoin::Miter
    }
}

impl LineJoin {
    /// The name of the constant on the wire.
    pub open spec fn spec_name(self) -> Seq<char> {
        match self {
            LineJoin::Miter => "miter"@,
            LineJoin::Bevel => "bevel"@,
            LineJoin::Round => "round"@,
            LineJoin::Off => "none"@,
        }
    }

    /// The name of the constant on the wire.
    pub fn name(&self) -> (res: &'static str)
        ensures
            res@ == self.spec_name(),
    {
        match self {
            LineJoin::Miter => "miter",
            LineJoin::Bevel => "bevel",
            LineJoin::Round => "round",
            LineJoin::Off => "none",
        }
    }
}

impl ToWire for LineJoin {
    open spec fn wire(&self) -> ValueView {
        ValueView::String(self.spec_name())
    }

    fn to_wire(&self) -> (value: Value) {
        Value::string(self.name())
    }
}

impl LineJoin {
    /// The constant with the wire name `name`, if there is one.
    pub open spec fn spec_named(name: Seq<char>) -> Option<LineJoin> {
        if name == "miter"@ {
            Some(LineJoin::Miter)
        } else if name == "bevel"@ {
            Some(LineJoin::Bevel)
        } else if name == "round"@ {
            Some(LineJoin::Round)
        } else if name == "none"@ {
            Some(LineJoin::Off)
        } else {
            None
        }
    }

    /// The constant with the wire name `name`, if there is one.
    pub fn named(name: &str) -> (res: Option<LineJoin>)
        ensures
            res == Self::spec_named(name@),
    {
        if str_eq(name, "miter") {
            Some(LineJoin::Miter)
        } else if str_eq(name, "bevel") {
            Some(LineJoin::Bevel)
        } else if str_eq(name, "round") {
            Some(LineJoin::Round)
        } else if str_eq(name, "none") {
            Some(LineJoin::Off)
        } else {
            None
        }
    }

    /// Every constant is the constant with its own wire name.
    pub proof fn law_named(self)
        ensures
            Self::spec_named(self.spec_name()) == Some(self),
    {
        reveal_strlit("miter");
        reveal_strlit("bevel");
        reveal_strlit("round");
        reveal_strlit("none");
        assert("miter"@.len() == 5);
        assert("bevel"@.len() == 5);
        assert("round"@.len() == 5);
        assert("none"@.len() == 4);
        assert("miter"@[0] == 'm');
        assert("bevel"@[0] == 'b');
        assert("round"@[0] == 'r');
        assert("none"@[0] == 'n');
    }
}

impl FromWire for LineJoin {
    /// A constant is read from the string of its wire name.
    open spec fn spec_read(value: ValueView) -> Option<ValueView> {
        match value {
            ValueView::String(name) => if Self::spec_named(name) is Some {
                Some(value)
            } else {
                None
            },
            _ => None,
        }
    }

    open spec fn comes_back(&self) -> bool {
        true
    }

    fn from_wire(value: &Value) -> (res: Option<LineJoin>) {
        match value {
            Value::String(name) => match Self::named(name.as_str()) {
                Some(constant) => {
                    proof {
                        Self::lemma_named_is_named(name@);
                    }
                    Some(constant)
                },
                None => None,
            },
            _ => None,
        }
    }

    proof fn law_round_trip(&self) {
        self.law_named();
    }
}

impl LineJoin {
    /// The constant with a wire name has that wire name.
    pub proof fn lemma_named_is_named(name: Seq<char>)
        ensures
            Self::spec_named(name) matches Some(constant) ==> constant.spec_name() == name,
    {
    }
}

impl ExactWire for LineJoin {
    proof fn law_read_is_exact(value: ValueView) {
    }

    proof fn law_always_comes_back(&self) {
    }
}

/// How a line layer is painted.
#[derive(Debug, Clone)]
pub struct LinePaint {
    pub line_blur: Option<Expression<()>>,
    pub line_color: Option<Expression<()>>,
    pub line_dasharray: Option<Expression<()>>,
    pub line_emissive_strength: Option<Expression<()>>,
    pub line_gap_width: Option<Expression<()>>,
    pub line_gradient: Option<Expression<()>>,
    pub line_offset: Option<Expression<()>>,
    pub line_opacity: Option<Expression<()>>,
    pub line_pattern: Option<Expression<()>>,
    pub line_translate: Option<Expression<()>>,
    pub line_translate_anchor: Option<Expression<()>>,
    pub line_trim_offset: Option<Expression<()>>,
    pub line_width: Option<Expression<()>>,
}

impl Default for LinePaint {
    /// Every property is unset.
    fn default() -> (res: LinePaint)
        ensures
            res == LinePaint::unset(),
    {
        LinePaint {
            line_blur: None,
            line_color: None,
            line_dasharray: None,
            line_emissive_strength: None,
            line_gap_width: None,
            line_gradient: None,
            line_offset: None,
            line_opacity: None,
            line_pattern: None,
            line_translate: None,
            line_translate_anchor: None,
            line_trim_offset: None,
            line_width: None,
        }
    }
}

impl LinePaint {
    /// The properties with every one unset.
    pub open spec fn unset() -> LinePaint {
        LinePaint {
            line_blur: None,
            line_color: None,
            line_dasharray: None,
            line_emissive_strength: None,
            line_gap_width: None,
            line_gradient: None,
            line_offset: None,
            line_opacity: None,
            line_pattern: None,
            line_translate: None,
            line_translate_anchor: None,
            line_trim_offset: None,
            line_width: None,
        }
    }

    /// The properties of the wire form, in order: each under its wire name,
    /// with its wire form where it is set.
    pub open spec fn slots(&self) -> Slots {
        seq![
            ("line-blur"@, optional_wire(self.line_blur)),
            ("line-color"@, optional_wire(self.line_color)),
            ("line-dasharray"@, optional_wire(self.line_dasharray)),
            ("line-emissive-strength"@, optional_wire(self.line_emissive_strength)),
            ("line-gap-width"@, optional_wire(self.line_gap_width)),
            ("line-gradient"@, optional_wire(self.line_gradient)),
            ("line-offset"@, optional_wire(self.line_offset)),
            ("line-opacity"@, optional_wire(self.line_opacity)),
            ("line-pattern"@, optional_wire(self.line_pattern)),
            ("line-translate"@, optional_wire(self.line_translate)),
            ("line-translate-anchor"@, optional_wire(self.line_translate_anchor)),
            ("line-trim-offset"@, optional_wire(self.line_trim_offset)),
            ("line-width"@, optional_wire(self.line_width)),
        ]
    }

    /// Offers every property to a builder, in order.
    pub fn to_entries(&self) -> (b: ObjectBuilder)
        ensures
            b.wf(),
            b@ == self.slots(),
    {
        let mut b = ObjectBuilder::new();
        b.optional_wire("line-blur", &self.line_blur);
        b.optional_wire("line-color", &self.line_color);
        b.optional_wire("line-dasharray", &self.line_dasharray);
        b.optional_wire("line-emissive-strength", &self.line_emissive_strength);
        b.optional_wire("line-gap-width", &self.line_gap_width);
        b.optional_wire("line-gradient", &self.line_gradient);
        b.optional_wire("line-offset", &self.line_offset);
        b.optional_wire("line-opacity", &self.line_opacity);
        b.optional_wire("line-pattern", &self.line_pattern);
        b.optional_wire("line-translate", &self.line_translate);
        b.optional_wire("line-translate-anchor", &self.line_translate_anchor);
        b.optional_wire("line-trim-offset", &self.line_trim_offset);
        b.optional_wire("line-width", &self.line_width);
        b
    }

    /// The place of the property with the wire name `key`, which the length of
    /// the name and a few of its characters tell.
    spec fn place_of(key: Seq<char>) -> int {
        if key.len() == 9 && key[5] == 'b' {
            0
        } else if key.len() == 10 && key[5] == 'c' {
            1
        } else if key.len() == 14 && key[5] == 'd' {
            2
        } else if key.len() == 22 && key[5] == 'e' {
            3
        } else if key.len() == 14 && key[5] == 'g' {
            4
        } else if key.len() == 13 && key[5] == 'g' {
            5
        } else if key.len() == 11 && key[5] == 'o' {
            6
        } else if key.len() == 12 && key[5] == 'o' {
            7
        } else if key.len() == 12 && key[5] == 'p' {
            8
        } else if key.len() == 14 && key[5] == 't' {
            9
        } else if key.len() == 21 && key[5] == 't' {
            10
        } else if key.len() == 16 && key[5] == 't' {
            11
        } else if key.len() == 10 && key[5] == 'w' {
            12
        } else {
            -1
        }
    }

    /// No two properties have one wire name. So looking the wire name of a
    /// property up in the wire form finds the wire form of that property where it
    /// is set, and nothing where it is unset.
    #[verifier::rlimit(50)]
    pub proof fn law_wire_names_are_distinct(&self)
        ensures
            distinct_keys(self.slots()),
            forall|i: int|
                0 <= i < self.slots().len() ==> lookup(
                    flatten(self.slots()),
                    (#[trigger] self.slots()[i]).0,
                ) == self.slots()[i].1,
    {
        reveal_strlit("line-blur");
        reveal_strlit("line-color");
        reveal_strlit("line-dasharray");
        reveal_strlit("line-emissive-strength");
        reveal_strlit("line-gap-width");
        reveal_strlit("line-gradient");
        reveal_strlit("line-offset");
        reveal_strlit("line-opacity");
        reveal_strlit("line-pattern");
        reveal_strlit("line-translate");
        reveal_strlit("line-translate-anchor");
        reveal_strlit("line-trim-offset");
        reveal_strlit("line-width");
        let slots = self.slots();
        assert(LinePaint::place_of(slots[0].0) == 0);
        assert(LinePaint::place_of(slots[1].0) == 1);
        assert(LinePaint::place_of(slots[2].0) == 2);
        assert(LinePaint::place_of(slots[3].0) == 3);
        assert(LinePaint::place_of(slots[4].0) == 4);
        assert(LinePaint::place_of(slots[5].0) == 5);
        assert(LinePaint::place_of(slots[6].0) == 6);
        assert(LinePaint::place_of(slots[7].0) == 7);
        assert(LinePaint::place_of(slots[8].0) == 8);
        assert(LinePaint::place_of(slots[9].0) == 9);
        assert(LinePaint::place_of(slots[10].0) == 10);
        assert(LinePaint::place_of(slots[11].0) == 11);
        assert(LinePaint::place_of(slots[12].0) == 12);
        assert forall|i: int| 0 <= i < slots.len() implies LinePaint::place_of(
            (#[trigger] slots[i]).0,
        ) - 0 == i by {
        }
        lemma_placed_keys_are_distinct(slots, |key: Seq<char>| LinePaint::place_of(key) - 0);
        assert forall|i: int| 0 <= i < slots.len() implies lookup(
            flatten(slots),
            (#[trigger] slots[i]).0,
        ) == slots[i].1 by {
            law_lookup_of_distinct_keys(slots, i);
        }
    }
}

impl ToWire for LinePaint {
    /// The object of the properties that are set.
    open spec fn wire(&self) -> ValueView {
        ValueView::Object(flatten(self.slots()))
    }

    fn to_wire(&self) -> (value: Value) {
        self.to_entries().finish()
    }
}

impl LinePaint {
    /// Whether every property of a wire value can be read: what must be there
    /// is there, and what is there has the right shape.
    pub open spec fn all_read(value: ValueView) -> bool {
        &&& read_optional::<Expression<()>>(value.get("line-blur"@)) is Some
        &&& read_optional::<Expression<()>>(value.get("line-color"@)) is Some
        &&& read_optional::<Expression<()>>(value.get("line-dasharray"@)) is Some
        &&& read_optional::<Expression<()>>(value.get("line-emissive-strength"@)) is Some
        &&& read_optional::<Expression<()>>(value.get("line-gap-width"@)) is Some
        &&& read_optional::<Expression<()>>(value.get("line-gradient"@)) is Some
        &&& read_optional::<Expression<()>>(value.get("line-offset"@)) is Some
        &&& read_optional::<Expression<()>>(value.get("line-opacity"@)) is Some
        &&& read_optional::<Expression<()>>(value.get("line-pattern"@)) is Some
        &&& read_optional::<Expression<()>>(value.get("line-translate"@)) is Some
        &&& read_optional::<Expression<()>>(value.get("line-translate-anchor"@)) is Some
        &&& read_optional::<Expression<()>>(value.get("line-trim-offset"@)) is Some
        &&& read_optional::<Expression<()>>(value.get("line-width"@)) is Some
    }

    /// The slots that the properties of a wire value are read as, in order.
    pub open spec fn read_slots(value: ValueView) -> Slots {
        seq![
            ("line-blur"@, read_optional::<Expression<()>>(value.get("line-blur"@))->Some_0),
            ("line-color"@, read_optional::<Expression<()>>(value.get("line-color"@))->Some_0),
            ("line-dasharray"@, read_optional::<Expression<()>>(value.get("line-dasharray"@))->Some_0),
            ("line-emissive-strength"@, read_optional::<Expression<()>>(value.get("line-emissive-strength"@))->Some_0),
            ("line-gap-width"@, read_optional::<Expression<()>>(value.get("line-gap-width"@))->Some_0),
            ("line-gradient"@, read_optional::<Expression<()>>(value.get("line-gradient"@))->Some_0),
            ("line-offset"@, read_optional::<Expression<()>>(value.get("line-offset"@))->Some_0),
            ("line-opacity"@, read_optional::<Expression<()>>(value.get("line-opacity"@))->Some_0),
            ("line-pattern"@, read_optional::<Expression<()>>(value.get("line-pattern"@))->Some_0),
            ("line-translate"@, read_optional::<Expression<()>>(value.get("line-translate"@))->Some_0),
            ("line-translate-anchor"@, read_optional::<Expression<()>>(value.get("line-translate-anchor"@))->Some_0),
            ("line-trim-offset"@, read_optional::<Expression<()>>(value.get("line-trim-offset"@))->Some_0),
            ("line-width"@, read_optional::<Expression<()>>(value.get("line-width"@))->Some_0),
        ]
    }

    fn read_part_0(value: &Value) -> (res: Option<(Option<Expression<()>>, Option<Expression<()>>, Option<Expression<()>>, Option<Expression<()>>, Option<Expression<()>>, Option<Expression<()>>, Option<Expression<()>>, Option<Expression<()>>,)>)
        ensures
            match res {
                Some(part) => {
                    &&& read_optional::<Expression<()>>(value@.get("line-blur"@)) == Some(optional_wire(part.0))
                    &&& read_optional::<Expression<()>>(value@.get("line-color"@)) == Some(optional_wire(part.1))
                    &&& read_optional::<Expression<()>>(value@.get("line-dasharray"@)) == Some(optional_wire(part.2))
                    &&& read_optional::<Expression<()>>(value@.get("line-emissive-strength"@)) == Some(optional_wire(part.3))
                    &&& read_optional::<Expression<()>>(value@.get("line-gap-width"@)) == Some(optional_wire(part.4))
                    &&& read_optional::<Expression<()>>(value@.get("line-gradient"@)) == Some(optional_wire(part.5))
                    &&& read_optional::<Expression<()>>(value@.get("line-offset"@)) == Some(optional_wire(part.6))
                    &&& read_optional::<Expression<()>>(value@.get("line-opacity"@)) == Some(optional_wire(part.7))
                },
                None => !Self::all_read(value@),
            },
    {
        let line_blur = match optional::<Expression<()>>(value.get("line-blur")) {
            Some(read) => read,
            None => {
                return None;
            },
        };
        let line_color = match optional::<Expression<()>>(value.get("line-color")) {
            Some(read) => read,
            None => {
                return None;
            },
        };
        let line_dasharray = match optional::<Expression<()>>(value.get("line-dasharray")) {
            Some(read) => read,
            None => {
                return None;
            },
        };
        let line_emissive_strength = match optional::<Expression<()>>(value.get("line-emissive-strength")) {
            Some(read) => read,
            None => {
                return None;
            },
        };
        let line_gap_width = match optional::<Expression<()>>(value.get("line-gap-width")) {
            Some(read) => read,
            None => {
                return None;
            },
        };
        let line_gradient = match optional::<Expression<()>>(value.get("line-gradient")) {
            Some(read) => read,
            None => {
                return None;
            },
        };
        let line_offset = match optional::<Expression<()>>(value.get("line-offset")) {
            Some(read) => read,
            None => {
                return None;
            },
        };
        let line_opacity = match optional::<Expression<()>>(value.get("line-opacity")) {
            Some(read) => read,
            None => {
                return None;
            },
        };
        Some((line_blur, line_color, line_dasharray, line_emissive_strength, line_gap_width, line_gradient, line_offset, line_opacity,))
    }

    fn read_part_1(value: &Value) -> (res: Option<(Option<Expression<()>>, Option<Expression<()>>, Option<Expression<()>>, Option<Expression<()>>, Option<Expression<()>>,)>)
        ensures
            match res {
                Some(part) => {
                    &&& read_optional::<Expression<()>>(value@.get("line-pattern"@)) == Some(optional_wire(part.0))
                    &&& read_optional::<Expression<()>>(value@.get("line-translate"@)) == Some(optional_wire(part.1))
                    &&& read_optional::<Expression<()>>(value@.get("line-translate-anchor"@)) == Some(optional_wire(part.2))
                    &&& read_optional::<Expression<()>>(value@.get("line-trim-offset"@)) == Some(optional_wire(part.3))
                    &&& read_optional::<Expression<()>>(value@.get("line-width"@)) == Some(optional_wire(part.4))
                },
                None => !Self::all_read(value@),
            },
    {
        let line_pattern = match optional::<Expression<()>>(value.get("line-pattern")) {
            Some(read) => read,
            None => {
                return None;
            },
        };
        let line_translate = match optional::<Expression<()>>(value.get("line-translate")) {
            Some(read) => read,
            None => {
                return None;
            },
        };
        let line_translate_anchor = match optional::<Expression<()>>(value.get("line-translate-anchor")) {
            Some(read) => read,
            None => {
                return None;
            },
        };
        let line_trim_offset = match optional::<Expression<()>>(value.get("line-trim-offset")) {
            Some(read) => read,
            None => {
                return None;
            },
        };
        let line_width = match optional::<Expression<()>>(value.get("line-width")) {
            Some(read) => read,
            None => {
                return None;
            },
        };
        Some((line_pattern, line_translate, line_translate_anchor, line_trim_offset, line_width,))
    }

    /// Reading an object in which looking up the name of each property of
    /// the value finds that property gives the value back.
    pub proof fn lemma_read_from(&self, entries: Seq<(Seq<char>, ValueView)>)
        requires
            self.comes_back(),
            forall|i: int|
                0 <= i < self.slots().len() ==> lookup(entries, (#[trigger] self.slots()[i]).0)
                    == self.slots()[i].1,
        ensures
            Self::spec_read(ValueView::Object(entries)) == Some(self.wire()),
    {
        let value = ValueView::Object(entries);
        let slots = self.slots();
        assert(value.get(slots[0].0) == slots[0].1);
        lemma_optional_round_trip::<Expression<()>>(self.line_blur);
        assert(value.get(slots[1].0) == slots[1].1);
        lemma_optional_round_trip::<Expression<()>>(self.line_color);
        assert(value.get(slots[2].0) == slots[2].1);
        lemma_optional_round_trip::<Expression<()>>(self.line_dasharray);
        assert(value.get(slots[3].0) == slots[3].1);
        lemma_optional_round_trip::<Expression<()>>(self.line_emissive_strength);
        assert(value.get(slots[4].0) == slots[4].1);
        lemma_optional_round_trip::<Expression<()>>(self.line_gap_width);
        assert(value.get(slots[5].0) == slots[5].1);
        lemma_optional_round_trip::<Expression<()>>(self.line_gradient);
        assert(value.get(slots[6].0) == slots[6].1);
        lemma_optional_round_trip::<Expression<()>>(self.line_offset);
        assert(value.get(slots[7].0) == slots[7].1);
        lemma_optional_round_trip::<Expression<()>>(self.line_opacity);
        assert(value.get(slots[8].0) == slots[8].1);
        lemma_optional_round_trip::<Expression<()>>(self.line_pattern);
        assert(value.get(slots[9].0) == slots[9].1);
        lemma_optional_round_trip::<Expression<()>>(self.line_translate);
        assert(value.get(slots[10].0) == slots[10].1);
        lemma_optional_round_trip::<Expression<()>>(self.line_translate_anchor);
        assert(value.get(slots[11].0) == slots[11].1);
        lemma_optional_round_trip::<Expression<()>>(self.line_trim_offset);
        assert(value.get(slots[12].0) == slots[12].1);
        lemma_optional_round_trip::<Expression<()>>(self.line_width);
    }
}

impl FromWire for LinePaint {
    /// The value is read from an object, property by property. Properties of
    /// other names are passed over.
    open spec fn spec_read(value: ValueView) -> Option<ValueView> {
        if value is Object && Self::all_read(value) {
            Some(ValueView::Object(flatten(Self::read_slots(value))))
        } else {
            None
        }
    }

    open spec fn comes_back(&self) -> bool {
        &&& optional_comes_back(self.line_blur)
        &&& optional_comes_back(self.line_color)
        &&& optional_comes_back(self.line_dasharray)
        &&& optional_comes_back(self.line_emissive_strength)
        &&& optional_comes_back(self.line_gap_width)
        &&& optional_comes_back(self.line_gradient)
        &&& optional_comes_back(self.line_offset)
        &&& optional_comes_back(self.line_opacity)
        &&& optional_comes_back(self.line_pattern)
        &&& optional_comes_back(self.line_translate)
        &&& optional_comes_back(self.line_translate_anchor)
        &&& optional_comes_back(self.line_trim_offset)
        &&& optional_comes_back(self.line_width)
    }

    fn from_wire(value: &Value) -> (res: Option<LinePaint>) {
        match value {
            Value::Object(_) => {},
            _ => {
                return None;
            },
        }
        let part_0 = match Self::read_part_0(value) {
            Some(part) => part,
            None => {
                return None;
            },
        };
        let part_1 = match Self::read_part_1(value) {
            Some(part) => part,
            None => {
                return None;
            },
        };
        Some(
            LinePaint {
                line_blur: part_0.0,
                line_color: part_0.1,
                line_dasharray: part_0.2,
                line_emissive_strength: part_0.3,
                line_gap_width: part_0.4,
                line_gradient: part_0.5,
                line_offset: part_0.6,
                line_opacity: part_0.7,
                line_pattern: part_1.0,
                line_translate: part_1.1,
                line_translate_anchor: part_1.2,
                line_trim_offset: part_1.3,
                line_width: part_1.4,
            },
        )
    }

    proof fn law_round_trip(&self) {
        self.law_wire_names_are_distinct();
        self.lemma_read_from(flatten(self.slots()));
    }
}

/// How a line layer is laid out.
#[derive(Debug, Clone)]
pub struct LineLayout {
    pub line_cap: Option<Expression<LineCap>>,
    pub line_join: Option<Expression<LineJoin>>,
    pub line_miter_limit: Option<Expression<()>>,
    pub line_round_limit: Option<Expression<()>>,
    pub line_sort_key: Option<Expression<()>>,
    pub visibility: Option<Visibility>,
}

impl Default for LineLayout {
    /// Every property is unset.
    fn default() -> (res: LineLayout)
        ensures
            res == LineLayout::unset(),
    {
        LineLayout {
            line_cap: None,
            line_join: None,
            line_miter_limit: None,
            line_round_limit: None,
            line_sort_key: None,
            visibility: None,
        }
    }
}

impl LineLayout {
    /// The properties with every one unset.
    pub open spec fn unset() -> LineLayout {
        LineLayout {
            line_cap: None,
            line_join: None,
            line_miter_limit: None,
            line_round_limit: None,
            line_sort_key: None,
            visibility: None,
        }
    }

    /// The properties of the wire form, in order: each under its wire name,
    /// with its wire form where it is set.
    pub open spec fn slots(&self) -> Slots {
        seq![
            ("line-cap"@, optional_wire(self.line_cap)),
            ("line-join"@, optional_wire(self.line_join)),
            ("line-miter-limit"@, optional_wire(self.line_miter_limit)),
            ("line-round-limit"@, optional_wire(self.line_round_limit)),
            ("line-sort-key"@, optional_wire(self.line_sort_key)),
            ("visibility"@, optional_wire(self.visibility)),
        ]
    }

    /// Offers every property to a builder, in order.
    pub fn to_entries(&self) -> (b: ObjectBuilder)
        ensures
            b.wf(),
            b@ == self.slots(),
    {
        let mut b = ObjectBuilder::new();
        b.optional_wire("line-cap", &self.line_cap);
        b.optional_wire("line-join", &self.line_join);
        b.optional_wire("line-miter-limit", &self.line_miter_limit);
        b.optional_wire("line-round-limit", &self.line_round_limit);
        b.optional_wire("line-sort-key", &self.line_sort_key);
        b.optional_wire("visibility", &self.visibility);
        b
    }

    /// The place of the property with the wire name `key`, which the length of
    /// the name and a few of its characters tell.
    spec fn place_of(key: Seq<char>) -> int {
        if key.len() == 8 && key[5] == 'c' {
            0
        } else if key.len() == 9 && key[5] == 'j' {
            1
        } else if key.len() == 16 && key[5] == 'm' {
            2
        } else if key.len() == 16 && key[5] == 'r' {
            3
        } else if key.len() == 13 && key[5] == 's' {
            4
        } else if key.len() == 10 && key[5] == 'i' {
            5
        } else {
            -1
        }
    }

    /// No two properties have one wire name. So looking the wire name of a
    /// property up in the wire form finds the wire form of that property where it
    /// is set, and nothing where it is unset.
    pub proof fn law_wire_names_are_distinct(&self)
        ensures
            distinct_keys(self.slots()),
            forall|i: int|
                0 <= i < self.slots().len() ==> lookup(
                    flatten(self.slots()),
                    (#[trigger] self.slots()[i]).0,
                ) == self.slots()[i].1,
    {
        reveal_strlit("line-cap");
        reveal_strlit("line-join");
        reveal_strlit("line-miter-limit");
        reveal_strlit("line-round-limit");
        reveal_strlit("line-sort-key");
        reveal_strlit("visibility");
        let slots = self.slots();
        assert(LineLayout::place_of(slots[0].0) == 0);
        assert(LineLayout::place_of(slots[1].0) == 1);
        assert(LineLayout::place_of(slots[2].0) == 2);
        assert(LineLayout::place_of(slots[3].0) == 3);
        assert(LineLayout::place_of(slots[4].0) == 4);
        assert(LineLayout::place_of(slots[5].0) == 5);
        assert forall|i: int| 0 <= i < slots.len() implies LineLayout::place_of(
            (#[trigger] slots[i]).0,
        ) - 0 == i by {
        }
        lemma_placed_keys_are_distinct(slots, |key: Seq<char>| LineLayout::place_of(key) - 0);
        assert forall|i: int| 0 <= i < slots.len() implies lookup(
            flatten(slots),
            (#[trigger] slots[i]).0,
        ) == slots[i].1 by {
            law_lookup_of_distinct_keys(slots, i);
        }
    }
}

impl ToWire for LineLayout {
    /// The object of the properties that are set.
    open spec fn wire(&self) -> ValueView {
        ValueView::Object(flatten(self.slots()))
    }

    fn to_wire(&self) -> (value: Value) {
        self.to_entries().finish()
    }
}

impl LineLayout {
    /// Whether every property of a wire value can be read: what must be there
    /// is there, and what is there has the right shape.
    pub open spec fn all_read(value: ValueView) -> bool {
        &&& read_optional::<Expression<LineCap>>(value.get("line-cap"@)) is Some
        &&& read_optional::<Expression<LineJoin>>(value.get("line-join"@)) is Some
        &&& read_optional::<Expression<()>>(value.get("line-miter-limit"@)) is Some
        &&& read_optional::<Expression<()>>(value.get("line-round-limit"@)) is Some
        &&& read_optional::<Expression<()>>(value.get("line-sort-key"@)) is Some
        &&& read_optional::<Visibility>(value.get("visibility"@)) is Some
    }

    /// The slots that the properties of a wire value are read as, in order.
    pub open spec fn read_slots(value: ValueView) -> Slots {
        seq![
            ("line-cap"@, read_optional::<Expression<LineCap>>(value.get("line-cap"@))->Some_0),
            ("line-join"@, read_optional::<Expression<LineJoin>>(value.get("line-join"@))->Some_0),
            ("line-miter-limit"@, read_optional::<Expression<()>>(value.get("line-miter-limit"@))->Some_0),
            ("line-round-limit"@, read_optional::<Expression<()>>(value.get("line-round-limit"@))->Some_0),
            ("line-sort-key"@, read_optional::<Expression<()>>(value.get("line-sort-key"@))->Some_0),
            ("visibility"@, read_optional::<Visibility>(value.get("visibility"@))->Some_0),
        ]
    }

    /// Reading an object in which looking up the name of each property of
    /// the value finds that property gives the value back.
    pub proof fn lemma_read_from(&self, entries: Seq<(Seq<char>, ValueView)>)
        requires
            self.comes_back(),
            forall|i: int|
                0 <= i < self.slots().len() ==> lookup(entries, (#[trigger] self.slots()[i]).0)
                    == self.slots()[i].1,
        ensures
            Self::spec_read(ValueView::Object(entries)) == Some(self.wire()),
    {
        let value = ValueView::Object(entries);
        let slots = self.slots();
        assert(value.get(slots[0].0) == slots[0].1);
        lemma_optional_round_trip::<Expression<LineCap>>(self.line_cap);
        assert(value.get(slots[1].0) == slots[1].1);
        lemma_optional_round_trip::<Expression<LineJoin>>(self.line_join);
        assert(value.get(slots[2].0) == slots[2].1);
        lemma_optional_round_trip::<Expression<()>>(self.line_miter_limit);
        assert(value.get(slots[3].0) == slots[3].1);
        lemma_optional_round_trip::<Expression<()>>(self.line_round_limit);
        assert(value.get(slots[4].0) == slots[4].1);
        lemma_optional_round_trip::<Expression<()>>(self.line_sort_key);
        assert(value.get(slots[5].0) == slots[5].1);
        lemma_optional_round_trip::<Visibility>(self.visibility);
    }
}

impl FromWire for LineLayout {
    /// The value is read from an object, property by property. Properties of
    /// other names are passed over.
    open spec fn spec_read(value: ValueView) -> Option<ValueView> {
        if value is Object && Self::all_read(value) {
            Some(ValueView::Object(flatten(Self::read_slots(value))))
        } else {
            None
        }
    }

    open spec fn comes_back(&self) -> bool {
        &&& optional_comes_back(self.line_cap)
        &&& optional_comes_back(self.line_join)
        &&& optional_comes_back(self.line_miter_limit)
        &&& optional_comes_back(self.line_round_limit)
        &&& optional_comes_back(self.line_sort_key)
        &&& optional_comes_back(self.visibility)
    }

    fn from_wire(value: &Value) -> (res: Option<LineLayout>) {
        match value {
            Value::Object(_) => {},
            _ => {
                return None;
            },
        }
        let line_cap = match optional::<Expression<LineCap>>(value.get("line-cap")) {
            Some(read) => read,
            None => {
                return None;
            },
        };
        let line_join = match optional::<Expression<LineJoin>>(value.get("line-join")) {
            Some(read) => read,
            None => {
                return None;
            },
        };
        let line_miter_limit = match optional::<Expression<()>>(value.get("line-miter-limit")) {
            Some(read) => read,
            None => {
                return None;
            },
        };
        let line_round_limit = match optional::<Expression<()>>(value.get("line-round-limit")) {
            Some(read) => read,
            None => {
                return None;
            },
        };
        let line_sort_key = match optional::<Expression<()>>(value.get("line-sort-key")) {
            Some(read) => read,
            None => {
                return None;
            },
        };
        let visibility = match optional::<Visibility>(value.get("visibility")) {
            Some(read) => read,
            None => {
                return None;
            },
        };
        Some(LineLayout { line_cap, line_join, line_miter_limit, line_round_limit, line_sort_key, visibility })
    }

    proof fn law_round_trip(&self) {
        self.law_wire_names_are_distinct();
        self.lemma_read_from(flatten(self.slots()));
    }
}

/// A symbol layer.
#[derive(Debug, Clone)]
pub struct SymbolLayer {
    pub id: String,
    pub maxzoom: Option<Number>,
    pub minzoom: Option<Number>,
    pub source: String,
    pub filter: Option<Expression<()>>,
    pub source_layer: Option<String>,
    pub slot: Option<String>,
    pub layout: SymbolLayout,
    pub paint: SymbolPaint,
}

impl SymbolLayer {
    /// The layer with the given identifier and source and nothing else set.
    pub fn new(id: &str, source: &str) -> (res: SymbolLayer)
        ensures
            res.id@ == id@,
            res.maxzoom is None,
            res.minzoom is None,
            res.source@ == source@,
            res.filter is None,
            res.source_layer is None,
            res.slot is None,
            res.layout == SymbolLayout::unset(),
            res.paint == SymbolPaint::unset(),
    {
        SymbolLayer {
            id: id.to_owned(),
            maxzoom: None,
            minzoom: None,
            source: source.to_owned(),
            filter: None,
            source_layer: None,
            slot: None,
            layout: SymbolLayout::default(),
            paint: SymbolPaint::default(),
        }
    }

    /// The properties of the wire form, in order: each under its wire name,
    /// with its wire form where it is set.
    pub open spec fn slots(&self) -> Slots {
        seq![
            ("id"@, Some(self.id.wire())),
            ("maxzoom"@, optional_wire(self.maxzoom)),
            ("minzoom"@, optional_wire(self.minzoom)),
            ("source"@, Some(self.source.wire())),
            ("filter"@, optional_wire(self.filter)),
            ("source-layer"@, optional_wire(self.source_layer)),
            ("slot"@, optional_wire(self.slot)),
            ("layout"@, Some(self.layout.wire())),
            ("paint"@, Some(self.paint.wire())),
        ]
    }

    /// Offers every property to a builder, in order.
    pub fn to_entries(&self) -> (b: ObjectBuilder)
        ensures
            b.wf(),
            b@ == self.slots(),
    {
        let mut b = ObjectBuilder::new();
        b.wire("id", &self.id);
        b.optional_wire("maxzoom", &self.maxzoom);
        b.optional_wire("minzoom", &self.minzoom);
        b.wire("source", &self.source);
        b.optional_wire("filter", &self.filter);
        b.optional_wire("source-layer", &self.source_layer);
        b.optional_wire("slot", &self.slot);
        b.wire("layout", &self.layout);
        b.wire("paint", &self.paint);
        b
    }

    /// The place of the property with the wire name `key`, which the length of
    /// the name and a few of its characters tell.
    spec fn place_of(key: Seq<char>) -> int {
        if key.len() == 4 && key[1] == 'y' {
            0
        } else if key.len() == 2 && key[1] == 'd' {
            1
        } else if key.len() == 7 && key[1] == 'a' {
            2
        } else if key.len() == 7 && key[1] == 'i' {
            3
        } else if key.len() == 6 && key[1] == 'o' {
            4
        } else if key.len() == 6 && key[1] == 'i' {
            5
        } else if key.len() == 12 && key[1] == 'o' {
            6
        } else if key.len() == 4 && key[1] == 'l' {
            7
        } else if key.len() == 6 && key[1] == 'a' {
            8
        } else if key.len() == 5 && key[1] == 'a' {
            9
        } else {
            -1
        }
    }

    /// No two properties have one wire name. So looking the wire name of a
    /// property up in the wire form finds the wire form of that property where it
    /// is set, and nothing where it is unset.
    pub proof fn law_wire_names_are_distinct(&self)
        ensures
            distinct_keys(self.slots()),
            forall|i: int|
                0 <= i < self.slots().len() ==> lookup(
                    flatten(self.slots()),
                    (#[trigger] self.slots()[i]).0,
                ) == self.slots()[i].1,
    {
        reveal_strlit("id");
        reveal_strlit("maxzoom");
        reveal_strlit("minzoom");
        reveal_strlit("source");
        reveal_strlit("filter");
        reveal_strlit("source-layer");
        reveal_strlit("slot");
        reveal_strlit("layout");
        reveal_strlit("paint");
        let slots = self.slots();
        assert(SymbolLayer::place_of(slots[0].0) == 1);
        assert(SymbolLayer::place_of(slots[1].0) == 2);
        assert(SymbolLayer::place_of(slots[2].0) == 3);
        assert(SymbolLayer::place_of(slots[3].0) == 4);
        assert(SymbolLayer::place_of(slots[4].0) == 5);
        assert(SymbolLayer::place_of(slots[5].0) == 6);
        assert(SymbolLayer::place_of(slots[6].0) == 7);
        assert(SymbolLayer::place_of(slots[7].0) == 8);
        assert(SymbolLayer::place_of(slots[8].0) == 9);
        assert forall|i: int| 0 <= i < slots.len() implies SymbolLayer::place_of(
            (#[trigger] slots[i]).0,
        ) - 1 == i by {
        }
        lemma_placed_keys_are_distinct(slots, |key: Seq<char>| SymbolLayer::place_of(key) - 1);
        assert forall|i: int| 0 <= i < slots.len() implies lookup(
            flatten(slots),
            (#[trigger] slots[i]).0,
        ) == slots[i].1 by {
            law_lookup_of_distinct_keys(slots, i);
        }
    }

    /// No wire name is `type`, and no two are one: behind a slot named
    /// `type` the properties still have names of their own.
    pub proof fn law_wire_names_leave_room(&self, first: Option<ValueView>)
        ensures
            distinct_keys(seq![("type"@, first)] + self.slots()),
    {
        reveal_strlit("type");
        reveal_strlit("id");
        reveal_strlit("maxzoom");
        reveal_strlit("minzoom");
        reveal_strlit("source");
        reveal_strlit("filter");
        reveal_strlit("source-layer");
        reveal_strlit("slot");
        reveal_strlit("layout");
        reveal_strlit("paint");
        let slots = self.slots();
        let tagged = seq![("type"@, first)] + slots;
        assert(SymbolLayer::place_of(tagged[0].0) == 0);
        assert(tagged[1] == slots[0]);
        assert(SymbolLayer::place_of(slots[0].0) == 1);
        assert(tagged[2] == slots[1]);
        assert(SymbolLayer::place_of(slots[1].0) == 2);
        assert(tagged[3] == slots[2]);
        assert(SymbolLayer::place_of(slots[2].0) == 3);
        assert(tagged[4] == slots[3]);
        assert(SymbolLayer::place_of(slots[3].0) == 4);
        assert(tagged[5] == slots[4]);
        assert(SymbolLayer::place_of(slots[4].0) == 5);
        assert(tagged[6] == slots[5]);
        assert(SymbolLayer::place_of(slots[5].0) == 6);
        assert(tagged[7] == slots[6]);
        assert(SymbolLayer::place_of(slots[6].0) == 7);
        assert(tagged[8] == slots[7]);
        assert(SymbolLayer::place_of(slots[7].0) == 8);
        assert(tagged[9] == slots[8]);
        assert(SymbolLayer::place_of(slots[8].0) == 9);
        assert forall|i: int| 0 <= i < tagged.len() implies SymbolLayer::place_of(
            (#[trigger] tagged[i]).0,
        ) == i by {
        }
        lemma_placed_keys_are_distinct(tagged, |key: Seq<char>| SymbolLayer::place_of(key));
    }
}

impl ToWire for SymbolLayer {
    /// The object of the properties that are set.
    open spec fn wire(&self) -> ValueView {
        ValueView::Object(flatten(self.slots()))
    }

    fn to_wire(&self) -> (value: Value) {
        self.to_entries().finish()
    }
}

impl SymbolLayer {
    /// Whether every property of a wire value can be read: what must be there
    /// is there, and what is there has the right shape.
    pub open spec fn all_read(value: ValueView) -> bool {
        &&& read_required::<String>(value.get("id"@)) is Some
        &&& read_optional::<Number>(value.get("maxzoom"@)) is Some
        &&& read_optional::<Number>(value.get("minzoom"@)) is Some
        &&& read_required::<String>(value.get("source"@)) is Some
        &&& read_optional::<Expression<()>>(value.get("filter"@)) is Some
        &&& read_optional::<String>(value.get("source-layer"@)) is Some
        &&& read_optional::<String>(value.get("slot"@)) is Some
        &&& read_defaulted::<SymbolLayout>(value.get("layout"@), SymbolLayout::unset().wire()) is Some
        &&& read_defaulted::<SymbolPaint>(value.get("paint"@), SymbolPaint::unset().wire()) is Some
    }

    /// The slots that the properties of a wire value are read as, in order.
    pub open spec fn read_slots(value: ValueView) -> Slots {
        seq![
            ("id"@, read_required::<String>(value.get("id"@))->Some_0),
            ("maxzoom"@, read_optional::<Number>(value.get("maxzoom"@))->Some_0),
            ("minzoom"@, read_optional::<Number>(value.get("minzoom"@))->Some_0),
            ("source"@, read_required::<String>(value.get("source"@))->Some_0),
            ("filter"@, read_optional::<Expression<()>>(value.get("filter"@))->Some_0),
            ("source-layer"@, read_optional::<String>(value.get("source-layer"@))->Some_0),
            ("slot"@, read_optional::<String>(value.get("slot"@))->Some_0),
            ("layout"@, read_defaulted::<SymbolLayout>(value.get("layout"@), SymbolLayout::unset().wire())->Some_0),
            ("paint"@, read_defaulted::<SymbolPaint>(value.get("paint"@), SymbolPaint::unset().wire())->Some_0),
        ]
    }

    fn read_part_0(value: &Value) -> (res: Option<(String, Option<Number>, Option<Number>, String, Option<Expression<()>>, Option<String>, Option<String>, SymbolLayout,)>)
        ensures
            match res {
                Some(part) => {
                    &&& read_required::<String>(value@.get("id"@)) == Some(Some(part.0.wire()))
                    &&& read_optional::<Number>(value@.get("maxzoom"@)) == Some(optional_wire(part.1))
                    &&& read_optional::<Number>(value@.get("minzoom"@)) == Some(optional_wire(part.2))
                    &&& read_required::<String>(value@.get("source"@)) == Some(Some(part.3.wire()))
                    &&& read_optional::<Expression<()>>(value@.get("filter"@)) == Some(optional_wire(part.4))
                    &&& read_optional::<String>(value@.get("source-layer"@)) == Some(optional_wire(part.5))
                    &&& read_optional::<String>(value@.get("slot"@)) == Some(optional_wire(part.6))
                    &&& read_defaulted::<SymbolLayout>(value@.get("layout"@), SymbolLayout::unset().wire()) == Some(Some(part.7.wire()))
                },
                None => !Self::all_read(value@),
            },
    {
        let id = match required::<String>(value.get("id")) {
            Some(read) => read,
            None => {
                return None;
            },
        };
        let maxzoom = match optional::<Number>(value.get("maxzoom")) {
            Some(read) => read,
            None => {
                return None;
            },
        };
        let minzoom = match optional::<Number>(value.get("minzoom")) {
            Some(read) => read,
            None => {
                return None;
            },
        };
        let source = match required::<String>(value.get("source")) {
            Some(read) => read,
            None => {
                return None;
            },
        };
        let filter = match optional::<Expression<()>>(value.get("filter")) {
            Some(read) => read,
            None => {
                return None;
            },
        };
        let source_layer = match optional::<String>(value.get("source-layer")) {
            Some(read) => read,
            None => {
                return None;
            },
        };
        let slot = match optional::<String>(value.get("slot")) {
            Some(read) => read,
            None => {
                return None;
            },
        };
        let layout = match value.get("layout") {
            Some(found) => match SymbolLayout::from_wire(found) {
                Some(read) => read,
                None => {
                    return None;
                },
            },
            None => SymbolLayout::default(),
        };
        Some((id, maxzoom, minzoom, source, filter, source_layer, slot, layout,))
    }

    fn read_part_1(value: &Value) -> (res: Option<(SymbolPaint,)>)
        ensures
            match res {
                Some(part) => {
                    &&& read_defaulted::<SymbolPaint>(value@.get("paint"@), SymbolPaint::unset().wire()) == Some(Some(part.0.wire()))
                },
                None => !Self::all_read(value@),
            },
    {
        let paint = match value.get("paint") {
            Some(found) => match SymbolPaint::from_wire(found) {
                Some(read) => read,
                None => {
                    return None;
                },
            },
            None => SymbolPaint::default(),
        };
        Some((paint,))
    }

    /// Reading an object in which looking up the name of each property of
    /// the value finds that property gives the value back.
    pub proof fn lemma_read_from(&self, entries: Seq<(Seq<char>, ValueView)>)
        requires
            self.comes_back(),
            forall|i: int|
                0 <= i < self.slots().len() ==> lookup(entries, (#[trigger] self.slots()[i]).0)
                    == self.slots()[i].1,
        ensures
            Self::spec_read(ValueView::Object(entries)) == Some(self.wire()),
    {
        let value = ValueView::Object(entries);
        let slots = self.slots();
        assert(value.get(slots[0].0) == slots[0].1);
        lemma_required_round_trip::<String>(self.id);
        assert(value.get(slots[1].0) == slots[1].1);
        lemma_optional_round_trip::<Number>(self.maxzoom);
        assert(value.get(slots[2].0) == slots[2].1);
        lemma_optional_round_trip::<Number>(self.minzoom);
        assert(value.get(slots[3].0) == slots[3].1);
        lemma_required_round_trip::<String>(self.source);
        assert(value.get(slots[4].0) == slots[4].1);
        lemma_optional_round_trip::<Expression<()>>(self.filter);
        assert(value.get(slots[5].0) == slots[5].1);
        lemma_optional_round_trip::<String>(self.source_layer);
        assert(value.get(slots[6].0) == slots[6].1);
        lemma_optional_round_trip::<String>(self.slot);
        assert(value.get(slots[7].0) == slots[7].1);
        lemma_defaulted_round_trip::<SymbolLayout>(self.layout, SymbolLayout::unset().wire());
        assert(value.get(slots[8].0) == slots[8].1);
        lemma_defaulted_round_trip::<SymbolPaint>(self.paint, SymbolPaint::unset().wire());
    }
}

impl FromWire for SymbolLayer {
    /// The value is read from an object, property by property. Properties of
    /// other names are passed over.
    open spec fn spec_read(value: ValueView) -> Option<ValueView> {
        if value is Object && Self::all_read(value) {
            Some(ValueView::Object(flatten(Self::read_slots(value))))
        } else {
            None
        }
    }

    open spec fn comes_back(&self) -> bool {
        &&& self.id.comes_back()
        &&& optional_comes_back(self.maxzoom)
        &&& optional_comes_back(self.minzoom)
        &&& self.source.comes_back()
        &&& optional_comes_back(self.filter)
        &&& optional_comes_back(self.source_layer)
        &&& optional_comes_back(self.slot)
        &&& self.layout.comes_back()
        &&& self.paint.comes_back()
    }

    fn from_wire(value: &Value) -> (res: Option<SymbolLayer>) {
        match value {
            Value::Object(_) => {},
            _ => {
                return None;
            },
        }
        let part_0 = match Self::read_part_0(value) {
            Some(part) => part,
            None => {
                return None;
            },
        };
        let part_1 = match Self::read_part_1(value) {
            Some(part) => part,
            None => {
                return None;
            },
        };
        Some(
            SymbolLayer {
                id: part_0.0,
                maxzoom: part_0.1,
                minzoom: part_0.2,
                source: part_0.3,
                filter: part_0.4,
                source_layer: part_0.5,
                slot: part_0.6,
                layout: part_0.7,
                paint: part_1.0,
            },
        )
    }

    proof fn law_round_trip(&self) {
        self.law_wire_names_are_distinct();
        self.lemma_read_from(flatten(self.slots()));
    }
}

impl IntoLayer for SymbolLayer {
    open spec fn spec_into_layer(self) -> Layer {
        Layer::Symbol(self)
    }

    fn into_layer(self) -> (res: Layer) {
        Layer::Symbol(self)
    }
}

/// The vocabulary of the anchor properties.
#[derive(Debug, Clone, Copy, PartialEq, Eq, Structural)]
pub enum Anchor {
    Center,
    Left,
    Right,
    Top,
    Bottom,
    TopLeft,
    TopRight,
    BottomLeft,
    BottomRight,
}

impl EnumMarker for Anchor {

}

impl Default for Anchor {
    fn default() -> (res: Anchor)
        ensures
            res == Anchor::Center,
    {
        Anchor::Center
    }
}

impl Anchor {
    /// The name of the constant on the wire.
    pub open spec fn spec_name(self) -> Seq<char> {
        match self {
            Anchor::Center => "center"@,
            Anchor::Left => "left"@,
            Anchor::Right => "right"@,
            Anchor::Top => "top"@,
            Anchor::Bottom => "bottom"@,
            Anchor::TopLeft => "top-left"@,
            Anchor::TopRight => "top-right"@,
            Anchor::BottomLeft => "bottom-left"@,
            Anchor::BottomRight => "bottom-right"@,
        }
    }

    /// The name of the constant on the wire.
    pub fn name(&self) -> (res: &'static str)
        ensures
            res@ == self.spec_name(),
    {
        match self {
            Anchor::Center => "center",
            Anchor::Left => "left",
            Anchor::Right => "right",
            Anchor::Top => "top",
            Anchor::Bottom => "bottom",
            Anchor::TopLeft => "top-left",
            Anchor::TopRight => "top-right",
            Anchor::BottomLeft => "bottom-left",
            Anchor::BottomRight => "bottom-right",
        }
    }
}

impl ToWire for Anchor {
    open spec fn wire(&self) -> ValueView {
        ValueView::String(self.spec_name())
    }

    fn to_wire(&self) -> (value: Value) {
        Value::string(self.name())
    }
}

impl Anchor {
    /// The constant with the wire name `name`, if there is one.
    pub open spec fn spec_named(name: Seq<char>) -> Option<Anchor> {
        if name == "center"@ {
            Some(Anchor::Center)
        } else if name == "left"@ {
            Some(Anchor::Left)
        } else if name == "right"@ {
            Some(Anchor::Right)
        } else if name == "top"@ {
            Some(Anchor::Top)
        } else if name == "bottom"@ {
            Some(Anchor::Bottom)
        } else if name == "top-left"@ {
            Some(Anchor::TopLeft)
        } else if name == "top-right"@ {
            Some(Anchor::TopRight)
        } else if name == "bottom-left"@ {
            Some(Anchor::BottomLeft)
        } else if name == "bottom-right"@ {
            Some(Anchor::BottomRight)
        } else {
            None
        }
    }

    /// The constant with the wire name `name`, if there is one.
    pub fn named(name: &str) -> (res: Option<Anchor>)
        ensures
            res == Self::spec_named(name@),
    {
        if str_eq(name, "center") {
            Some(Anchor::Center)
        } else if str_eq(name, "left") {
            Some(Anchor::Left)
        } else if str_eq(name, "right") {
            Some(Anchor::Right)
        } else if str_eq(name, "top") {
            Some(Anchor::Top)
        } else if str_eq(name, "bottom") {
            Some(Anchor::Bottom)
        } else if str_eq(name, "top-left") {
            Some(Anchor::TopLeft)
        } else if str_eq(name, "top-right") {
            Some(Anchor::TopRight)
        } else if str_eq(name, "bottom-left") {
            Some(Anchor::BottomLeft)
        } else if str_eq(name, "bottom-right") {
            Some(Anchor::BottomRight)
        } else {
            None
        }
    }

    /// Every constant is the constant with its own wire name.
    pub proof fn law_named(self)
        ensures
            Self::spec_named(self.spec_name()) == Some(self),
    {
        reveal_strlit("center");
        reveal_strlit("left");
        reveal_strlit("right");
        reveal_strlit("top");
        reveal_strlit("bottom");
        reveal_strlit("top-left");
        reveal_strlit("top-right");
        reveal_strlit("bottom-left");
        reveal_strlit("bottom-right");
        assert("center"@.len() == 6);
        assert("left"@.len() == 4);
        assert("right"@.len() == 5);
        assert("top"@.len() == 3);
        assert("bottom"@.len() == 6);
        assert("top-left"@.len() == 8);
        assert("top-right"@.len() == 9);
        assert("bottom-left"@.len() == 11);
        assert("bottom-right"@.len() == 12);
        assert("center"@[0] == 'c');
        assert("left"@[0] == 'l');
        assert("right"@[0] == 'r');
        assert("top"@[0] == 't');
        assert("bottom"@[0] == 'b');
        assert("top-left"@[0] == 't');
        assert("top-right"@[0] == 't');
        assert("bottom-left"@[0] == 'b');
        assert("bottom-right"@[0] == 'b');
    }
}

impl FromWire for Anchor {
    /// A constant is read from the string of its wire name.
    open spec fn spec_read(value: ValueView) -> Option<ValueView> {
        match value {
            ValueView::String(name) => if Self::spec_named(name) is Some {
                Some(value)
            } else {
                None
            },
            _ => None,
        }
    }

    open spec fn comes_back(&self) -> bool {
        true
    }

    fn from_wire(value: &Value) -> (res: Option<Anchor>) {
        match value {
            Value::String(name) => match Self::named(name.as_str()) {
                Some(constant) => {
                    proof {
                        Self::lemma_named_is_named(name@);
                    }
                    Some(constant)
                },
                None => None,
            },
            _ => None,
        }
    }

    proof fn law_round_trip(&self) {
        self.law_named();
    }
}

impl Anchor {
    /// The constant with a wire name has that wire name.
    pub proof fn lemma_named_is_named(name: Seq<char>)
        ensures
            Self::spec_named(name) matches Some(constant) ==> constant.spec_name() == name,
    {
    }
}

impl ExactWire for Anchor {
    proof fn law_read_is_exact(value: ValueView) {
    }

    proof fn law_always_comes_back(&self) {
    }
}

/// The vocabulary of the alignment properties.
#[derive(Debug, Clone, Copy, PartialEq, Eq, Structural)]
pub enum Alignment {
    Auto,
    MapPlane,
    Viewport,
}

impl EnumMarker for Alignment {

}

impl Default for Alignment {
    fn default() -> (res: Alignment)
        ensures
            res == Alignment::Auto,
    {
        Alignment::Auto
    }
}

impl Alignment {
    /// The name of the constant on the wire.
    pub open spec fn spec_name(self) -> Seq<char> {
        match self {
            Alignment::Auto => "auto"@,
            Alignment::MapPlane => "map"@,
            Alignment::Viewport => "viewport"@,
        }
    }

    /// The name of the constant on the wire.
    pub fn name(&self) -> (res: &'static str)
        ensures
            res@ == self.spec_name(),
    {
        match self {
            Alignment::Auto => "auto",
            Alignment::MapPlane => "map",
            Alignment::Viewport => "viewport",
        }
    }
}

impl ToWire for Alignment {
    open spec fn wire(&self) -> ValueView {
        ValueView::String(self.spec_name())
    }

    fn to_wire(&self) -> (value: Value) {
        Value::string(self.name())
    }
}

impl Alignment {
    /// The constant with the wire name `name`, if there is one.
    pub open spec fn spec_named(name: Seq<char>) -> Option<Alignment> {
        if name == "auto"@ {
            Some(Alignment::Auto)
        } else if name == "map"@ {
            Some(Alignment::MapPlane)
        } else if name == "viewport"@ {
            Some(Alignment::Viewport)
        } else {
            None
        }
    }

    /// The constant with the wire name `name`, if there is one.
    pub fn named(name: &str) -> (res: Option<Alignment>)
        ensures
            res == Self::spec_named(name@),
    {
        if str_eq(name, "auto") {
            Some(Alignment::Auto)
        } else if str_eq(name, "map") {
            Some(Alignment::MapPlane)
        } else if str_eq(name, "viewport") {
            Some(Alignment::Viewport)
        } else {
            None
        }
    }

    /// Every constant is the constant with its own wire name.
    pub proof fn law_named(self)
        ensures
            Self::spec_named(self.spec_name()) == Some(self),
    {
        reveal_strlit("auto");
        reveal_strlit("map");
        reveal_strlit("viewport");
        assert("auto"@.len() == 4);
        assert("map"@.len() == 3);
        assert("viewport"@.len() == 8);
    }
}

impl FromWire for Alignment {
    /// A constant is read from the string of its wire name.
    open spec fn spec_read(value: ValueView) -> Option<ValueView> {
        match value {
            ValueView::String(name) => if Self::spec_named(name) is Some {
                Some(value)
            } else {
                None
            },
            _ => None,
        }
    }

    open spec fn comes_back(&self) -> bool {
        true
    }

    fn from_wire(value: &Value) -> (res: Option<Alignment>) {
        match value {
            Value::String(name) => match Self::named(name.as_str()) {
                Some(constant) => {
                    proof {
                        Self::lemma_named_is_named(name@);
                    }
                    Some(constant)
                },
                None => None,
            },
            _ => None,
        }
    }

    proof fn law_round_trip(&self) {
        self.law_named();
    }
}

impl Alignment {
    /// The constant with a wire name has that wire name.
    pub proof fn lemma_named_is_named(name: Seq<char>)
        ensures
            Self::spec_named(name) matches Some(constant) ==> constant.spec_name() == name,
    {
    }
}

impl ExactWire for Alignment {
    proof fn law_read_is_exact(value: ValueView) {
    }

    proof fn law_always_comes_back(&self) {
    }
}

/// The vocabulary of the icon text fit properties.
#[derive(Debug, Clone, Copy, PartialEq, Eq, Structural)]
pub enum IconTextFit {
    Off,
    Width,
    Height,
    Both,
}

impl EnumMarker for IconTextFit {

}

impl Default for IconTextFit {
    fn default() -> (res: IconTextFit)
        ensures
            res == IconTextFit::Off,
    {
        IconTextFit::Off
    }
}

impl IconTextFit {
    /// The name of the constant on the wire.
    pub open spec fn spec_name(self) -> Seq<char> {
        match self {
            IconTextFit::Off => "none"@,
            IconTextFit::Width => "width"@,
            IconTextFit::Height => "height"@,
            IconTextFit::Both => "both"@,
        }
    }

    /// The name of the constant on the wire.
    pub fn name(&self) -> (res: &'static str)
        ensures
            res@ == self.spec_name(),
    {
        match self {
            IconTextFit::Off => "none",
            IconTextFit::Width => "width",
            IconTextFit::Height => "height",
            IconTextFit::Both => "both",
        }
    }
}

impl ToWire for IconTextFit {
    open spec fn wire(&self) -> ValueView {
        ValueView::String(self.spec_name())
    }

    fn to_wire(&self) -> (value: Value) {
        Value::string(self.name())
    }
}

impl IconTextFit {
    /// The constant with the wire name `name`, if there is one.
    pub open spec fn spec_named(name: Seq<char>) -> Option<IconTextFit> {
        if name == "none"@ {
            Some(IconTextFit::Off)
        } else if name == "width"@ {
            Some(IconTextFit::Width)
        } else if name == "height"@ {
            Some(IconTextFit::Height)
        } else if name == "both"@ {
            Some(IconTextFit::Both)
        } else {
            None
        }
    }

    /// The constant with the wire name `name`, if there is one.
    pub fn named(name: &str) -> (res: Option<IconTextFit>)
        ensures
            res == Self::spec_named(name@),
    {
        if str_eq(name, "none") {
            Some(IconTextFit::Off)
        } else if str_eq(name, "width") {
            Some(IconTextFit::Width)
        } else if str_eq(name, "height") {
            Some(IconTextFit::Height)
        } else if str_eq(name, "both") {
            Some(IconTextFit::Both)
        } else {
            None
        }
    }

    /// Every constant is the constant with its own wire name.
    pub proof fn law_named(self)
        ensures
            Self::spec_named(self.spec_name()) == Some(self),
    {
        reveal_strlit("none");
        reveal_strlit("width");
        reveal_strlit("height");
        reveal_strlit("both");
        assert("none"@.len() == 4);
        assert("width"@.len() == 5);
        assert("height"@.len() == 6);
        assert("both"@.len() == 4);
        assert("none"@[0] == 'n');
        assert("width"@[0] == 'w');
        assert("height"@[0] == 'h');
        assert("both"@[0] == 'b');
    }
}

impl FromWire for IconTextFit {
    /// A constant is read from the string of its wire name.
    open spec fn spec_read(value: ValueView) -> Option<ValueView> {
        match value {
            ValueView::String(name) => if Self::spec_named(name) is Some {
                Some(value)
            } else {
                None
            },
            _ => None,
        }
    }

    open spec fn comes_back(&self) -> bool {
        true
    }

    fn from_wire(value: &Value) -> (res: Option<IconTextFit>) {
        match value {
            Value::String(name) => match Self::named(name.as_str()) {
                Some(constant) => {
                    proof {
                        Self::lemma_named_is_named(name@);
                    }
                    Some(constant)
                },
                None => None,
            },
            _ => None,
        }
    }

    proof fn law_round_trip(&self) {
        self.law_named();
    }
}

impl IconTextFit {
    /// The constant with a wire name has that wire name.
    pub proof fn lemma_named_is_named(name: Seq<char>)
        ensures
            Self::spec_named(name) matches Some(constant) ==> constant.spec_name() == name,
    {
    }
}

impl ExactWire for IconTextFit {
    proof fn law_read_is_exact(value: ValueView) {
    }

    proof fn law_always_comes_back(&self) {
    }
}

/// The vocabulary of the symbol placement properties.
#[derive(Debug, Clone, Copy, PartialEq, Eq, Structural)]
pub enum SymbolPlacement {
    Point,
    Line,
    LineCenter,
}

impl EnumMarker for SymbolPlacement {

}

impl Default for SymbolPlacement {
    fn default() -> (res: SymbolPlacement)
        ensures
            res == SymbolPlacement::Point,
    {
        SymbolPlacement::Point
    }
}

impl SymbolPlacement {
    /// The name of the constant on the wire.
    pub open spec fn spec_name(self) -> Seq<char> {
        match self {
            SymbolPlacement::Point => "point"@,
            SymbolPlacement::Line => "line"@,
            SymbolPlacement::LineCenter => "line-center"@,
        }
    }

    /// The name of the constant on the wire.
    pub fn name(&self) -> (res: &'static str)
        ensures
            res@ == self.spec_name(),
    {
        match self {
            SymbolPlacement::Point => "point",
            SymbolPlacement::Line => "line",
            SymbolPlacement::LineCenter => "line-center",
        }
    }
}

impl ToWire for SymbolPlacement {
    open spec fn wire(&self) -> ValueView {
        ValueView::String(self.spec_name())
    }

    fn to_wire(&self) -> (value: Value) {
        Value::string(self.name())
    }
}

impl SymbolPlacement {
    /// The constant with the wire name `name`, if there is one.
    pub open spec fn spec_named(name: Seq<char>) -> Option<SymbolPlacement> {
        if name == "point"@ {
            Some(SymbolPlacement::Point)
        } else if name == "line"@ {
            Some(SymbolPlacement::Line)
        } else if name == "line-center"@ {
            Some(SymbolPlacement::LineCenter)
        } else {
            None
        }
    }

    /// The constant with the wire name `name`, if there is one.
    pub fn named(name: &str) -> (res: Option<SymbolPlacement>)
        ensures
            res == Self::spec_named(name@),
    {
        if str_eq(name, "point") {
            Some(SymbolPlacement::Point)
        } else if str_eq(name, "line") {
            Some(SymbolPlacement::Line)
        } else if str_eq(name, "line-center") {
            Some(SymbolPlacement::LineCenter)
        } else {
            None
        }
    }

    /// Every constant is the constant with its own wire name.
    pub proof fn law_named(self)
        ensures
            Self::spec_named(self.spec_name()) == Some(self),
    {
        reveal_strlit("point");
        reveal_strlit("line");
        reveal_strlit("line-center");
        assert("point"@.len() == 5);
        assert("line"@.len() == 4);
        assert("line-center"@.len() == 11);
    }
}

impl FromWire for SymbolPlacement {
    /// A constant is read from the string of its wire name.
    open spec fn spec_read(value: ValueView) -> Option<ValueView> {
        match value {
            ValueView::String(name) => if Self::spec_named(name) is Some {
                Some(value)
            } else {
                None
            },
            _ => None,
        }
    }

    open spec fn comes_back(&self) -> bool {
        true
    }

    fn from_wire(value: &Value) -> (res: Option<SymbolPlacement>) {
        match value {
            Value::String(name) => match Self::named(name.as_str()) {
                Some(constant) => {
                    proof {
                        Self::lemma_named_is_named(name@);
                    }
                    Some(constant)
                },
                None => None,
            },
            _ => None,
        }
    }

    proof fn law_round_trip(&self) {
        self.law_named();
    }
}

impl SymbolPlacement {
    /// The constant with a wire name has that wire name.
    pub proof fn lemma_named_is_named(name: Seq<char>)
        ensures
            Self::spec_named(name) matches Some(constant) ==> constant.spec_name() == name,
    {
    }
}

impl ExactWire for SymbolPlacement {
    proof fn law_read_is_exact(value: ValueView) {
    }

    proof fn law_always_comes_back(&self) {
    }
}

/// The vocabulary of the symbol z order properties.
#[derive(Debug, Clone, Copy, PartialEq, Eq, Structural)]
pub enum SymbolZOrder {
    Auto,
    ViewportY,
    Source,
}

impl EnumMarker for SymbolZOrder {

}

impl Default for SymbolZOrder {
    fn default() -> (res: SymbolZOrder)
        ensures
            res == SymbolZOrder::Auto,
    {
        SymbolZOrder::Auto
    }
}

impl SymbolZOrder {
    /// The name of the constant on the wire.
    pub open spec fn spec_name(self) -> Seq<char> {
        match self {
            SymbolZOrder::Auto => "auto"@,
            SymbolZOrder::ViewportY => "viewport-y"@,
            SymbolZOrder::Source => "source"@,
        }
    }

    /// The name of the constant on the wire.
    pub fn name(&self) -> (res: &'static str)
        ensures
            res@ == self.spec_name(),
    {
        match self {
            SymbolZOrder::Auto => "auto",
            SymbolZOrder::ViewportY => "viewport-y",
            SymbolZOrder::Source => "source",
        }
    }
}

impl ToWire for SymbolZOrder {
    open spec fn wire(&self) -> ValueView {
        ValueView::String(self.spec_name())
    }

    fn to_wire(&self) -> (value: Value) {
        Value::string(self.name())
    }
}

impl SymbolZOrder {
    /// The constant with the wire name `name`, if there is one.
    pub open spec fn spec_named(name: Seq<char>) -> Option<SymbolZOrder> {
        if name == "auto"@ {
            Some(SymbolZOrder::Auto)
        } else if name == "viewport-y"@ {
            Some(SymbolZOrder::ViewportY)
        } else if name == "source"@ {
            Some(SymbolZOrder::Source)
        } else {
            None
        }
    }

    /// The constant with the wire name `name`, if there is one.
    pub fn named(name: &str) -> (res: Option<SymbolZOrder>)
        ensures
            res == Self::spec_named(name@),
    {
        if str_eq(name, "auto") {
            Some(SymbolZOrder::Auto)
        } else if str_eq(name, "viewport-y") {
            Some(SymbolZOrder::ViewportY)
        } else if str_eq(name, "source") {
            Some(SymbolZOrder::Source)
        } else {
            None
        }
    }

    /// Every constant is the constant with its own wire name.
    pub proof fn law_named(self)
        ensures
            Self::spec_named(self.spec_name()) == Some(self),
    {
        reveal_strlit("auto");
        reveal_strlit("viewport-y");
        reveal_strlit("source");
        assert("auto"@.len() == 4);
        assert("viewport-y"@.len() == 10);
        assert("source"@.len() == 6);
    }
}

impl FromWire for SymbolZOrder {
    /// A constant is read from the string of its wire name.
    open spec fn spec_read(value: ValueView) -> Option<ValueView> {
        match value {
            ValueView::String(name) => if Self::spec_named(name) is Some {
                Some(value)
            } else {
                None
            },
            _ => None,
        }
    }

    open spec fn comes_back(&self) -> bool {
        true
    }

    fn from_wire(value: &Value) -> (res: Option<SymbolZOrder>) {
        match value {
            Value::String(name) => match Self::named(name.as_str()) {
                Some(constant) => {
                    proof {
                        Self::lemma_named_is_named(name@);
                    }
                    Some(constant)
                },
                None => None,
            },
            _ => None,
        }
    }

    proof fn law_round_trip(&self) {
        self.law_named();
    }
}

impl SymbolZOrder {
    /// The constant with a wire name has that wire name.
    pub proof fn lemma_named_is_named(name: Seq<char>)
        ensures
            Self::spec_named(name) matches Some(constant) ==> constant.spec_name() == name,
    {
    }
}

impl ExactWire for SymbolZOrder {
    proof fn law_read_is_exact(value: ValueView) {
    }

    proof fn law_always_comes_back(&self) {
    }
}

/// The vocabulary of the text justify properties.
#[derive(Debug, Clone, Copy, PartialEq, Eq, Structural)]
pub enum TextJustify {
    Center,
    Auto,
    Left,
    Right,
}

impl EnumMarker for TextJustify {

}

impl Default for TextJustify {
    fn default() -> (res: TextJustify)
        ensures
            res == TextJustify::Center,
    {
        TextJustify::Center
    }
}

impl TextJustify {
    /// The name of the constant on the wire.
    pub open spec fn spec_name(self) -> Seq<char> {
        match self {
            TextJustify::Center => "center"@,
            TextJustify::Auto => "auto"@,
            TextJustify::Left => "left"@,
            TextJustify::Right => "right"@,
        }
    }

    /// The name of the constant on the wire.
    pub fn name(&self) -> (res: &'static str)
        ensures
            res@ == self.spec_name(),
    {
        match self {
            TextJustify::Center => "center",
            TextJustify::Auto => "auto",
            TextJustify::Left => "left",
            TextJustify::Right => "right",
        }
    }
}

impl ToWire for TextJustify {
    open spec fn wire(&self) -> ValueView {
        ValueView::String(self.spec_name())
    }

    fn to_wire(&self) -> (value: Value) {
        Value::string(self.name())
    }
}

impl TextJustify {
    /// The constant with the wire name `name`, if there is one.
    pub open spec fn spec_named(name: Seq<char>) -> Option<TextJustify> {
        if name == "center"@ {
            Some(TextJustify::Center)
        } else if name == "auto"@ {
            Some(TextJustify::Auto)
        } else if name == "left"@ {
            Some(TextJustify::Left)
        } else if name == "right"@ {
            Some(TextJustify::Right)
        } else {
            None
        }
    }

    /// The constant with the wire name `name`, if there is one.
    pub fn named(name: &str) -> (res: Option<TextJustify>)
        ensures
            res == Self::spec_named(name@),
    {
        if str_eq(name, "center") {
            Some(TextJustify::Center)
        } else if str_eq(name, "auto") {
            Some(TextJustify::Auto)
        } else if str_eq(name, "left") {
            Some(TextJustify::Left)
        } else if str_eq(name, "right") {
            Some(TextJustify::Right)
        } else {
            None
        }
    }

    /// Every constant is the constant with its own wire name.
    pub proof fn law_named(self)
        ensures
            Self::spec_named(self.spec_name()) == Some(self),
    {
        reveal_strlit("center");
        reveal_strlit("auto");
        reveal_strlit("left");
        reveal_strlit("right");
        assert("center"@.len() == 6);
        assert("auto"@.len() == 4);
        assert("left"@.len() == 4);
        assert("right"@.len() == 5);
        assert("center"@[0] == 'c');
        assert("auto"@[0] == 'a');
        assert("left"@[0] == 'l');
        assert("right"@[0] == 'r');
    }
}

impl FromWire for TextJustify {
    /// A constant is read from the string of its wire name.
    open spec fn spec_read(value: ValueView) -> Option<ValueView> {
        match value {
            ValueView::String(name) => if Self::spec_named(name) is Some {
                Some(value)
            } else {
                None
            },
            _ => None,
        }
    }

    open spec fn comes_back(&self) -> bool {
        true
    }

    fn from_wire(value: &Value) -> (res: Option<TextJustify>) {
        match value {
            Value::String(name) => match Self::named(name.as_str()) {
                Some(constant) => {
                    proof {
                        Self::lemma_named_is_named(name@);
                    }
                    Some(constant)
                },
                None => None,
            },
            _ => None,
        }
    }

    proof fn law_round_trip(&self) {
        self.law_named();
    }
}

impl TextJustify {
    /// The constant with a wire name has that wire name.
    pub proof fn lemma_named_is_named(name: Seq<char>)
        ensures
            Self::spec_named(name) matches Some(constant) ==> constant.spec_name() == name,
    {
    }
}

impl ExactWire for TextJustify {
    proof fn law_read_is_exact(value: ValueView) {
    }

    proof fn law_always_comes_back(&self) {
    }
}

/// The vocabulary of the text transform properties.
#[derive(Debug, Clone, Copy, PartialEq, Eq, Structural)]
pub enum TextTransform {
    Off,
    Uppercase,
    Lowercase,
}

impl EnumMarker for TextTransform {

}

impl Default for TextTransform {
    fn default() -> (res: TextTransform)
        ensures
            res == TextTransform::Off,
    {
        TextTransform::Off
    }
}

impl TextTransform {
    /// The name of the constant on the wire.
    pub open spec fn spec_name(self) -> Seq<char> {
        match self {
            TextTransform::Off => "none"@,
            TextTransform::Uppercase => "uppercase"@,
            TextTransform::Lowercase => "lowercase"@,
        }
    }

    /// The name of the constant on the wire.
    pub fn name(&self) -> (res: &'static str)
        ensures
            res@ == self.spec_name(),
    {
        match self {
            TextTransform::Off => "none",
            TextTransform::Uppercase => "uppercase",
            TextTransform::Lowercase => "lowercase",
        }
    }
}

impl ToWire for TextTransform {
    open spec fn wire(&self) -> ValueView {
        ValueView::String(self.spec_name())
    }

    fn to_wire(&self) -> (value: Value) {
        Value::string(self.name())
    }
}

impl TextTransform {
    /// The constant with the wire name `name`, if there is one.
    pub open spec fn spec_named(name: Seq<char>) -> Option<TextTransform> {
        if name == "none"@ {
            Some(TextTransform::Off)
        } else if name == "uppercase"@ {
            Some(TextTransform::Uppercase)
        } else if name == "lowercase"@ {
            Some(TextTransform::Lowercase)
        } else {
            None
        }
    }

    /// The constant with the wire name `name`, if there is one.
    pub fn named(name: &str) -> (res: Option<TextTransform>)
        ensures
            res == Self::spec_named(name@),
    {
        if str_eq(name, "none") {
            Some(TextTransform::Off)
        } else if str_eq(name, "uppercase") {
            Some(TextTransform::Uppercase)
        } else if str_eq(name, "lowercase") {
            Some(TextTransform::Lowercase)
        } else {
            None
        }
    }

    /// Every constant is the constant with its own wire name.
    pub proof fn law_named(self)
        ensures
            Self::spec_named(self.spec_name()) == Some(self),
    {
        reveal_strlit("none");
        reveal_strlit("uppercase");
        reveal_strlit("lowercase");
        assert("none"@.len() == 4);
        assert("uppercase"@.len() == 9);
        assert("lowercase"@.len() == 9);
        assert("none"@[0] == 'n');
        assert("uppercase"@[0] == 'u');
        assert("lowercase"@[0] == 'l');
    }
}

impl FromWire for TextTransform {
    /// A constant is read from the string of its wire name.
    open spec fn spec_read(value: ValueView) -> Option<ValueView> {
        match value {
            ValueView::String(name) => if Self::spec_named(name) is Some {
                Some(value)
            } else {
                None
            },
            _ => None,
        }
    }

    open spec fn comes_back(&self) -> bool {
        true
    }

    fn from_wire(value: &Value) -> (res: Option<TextTransform>) {
        match value {
            Value::String(name) => match Self::named(name.as_str()) {
                Some(constant) => {
                    proof {
                        Self::lemma_named_is_named(name@);
                    }
                    Some(constant)
                },
                None => None,
            },
            _ => None,
        }
    }

    proof fn law_round_trip(&self) {
        self.law_named();
    }
}

impl TextTransform {
    /// The constant with a wire name has that wire name.
    pub proof fn lemma_named_is_named(name: Seq<char>)
        ensures
            Self::spec_named(name) matches Some(constant) ==> constant.spec_name() == name,
    {
    }
}

impl ExactWire for TextTransform {
    proof fn law_read_is_exact(value: ValueView) {
    }

    proof fn law_always_comes_back(&self) {
    }
}

/// How a symbol layer is painted.
#[derive(Debug, Clone)]
pub struct SymbolPaint {
    pub icon_color: Option<Expression<()>>,
    pub icon_color_brightness_max: Option<Expression<()>>,
    pub icon_color_brightness_min: Option<Expression<()>>,
    pub icon_color_contrast: Option<Expression<()>>,
    pub icon_color_saturation: Option<Expression<()>>,
    pub icon_emissive_strength: Option<Expression<()>>,
    pub icon_halo_blur: Option<Expression<()>>,
    pub icon_halo_color: Option<Expression<()>>,
    pub icon_halo_width: Option<Expression<()>>,
    pub icon_image_cross_fade: Option<Expression<()>>,
    pub icon_opacity: Option<Expression<()>>,
    pub icon_translate: Option<Expression<()>>,
    pub icon_translate_anchor: Option<Expression<TranslateAnchor>>,
    pub text_color: Option<Expression<()>>,
    pub text_emissive_strength: Option<Expression<()>>,
    pub text_halo_blur: Option<Expression<()>>,
    pub text_halo_color: Option<Expression<()>>,
    pub text_halo_width: Option<Expression<()>>,
    pub text_opacity: Option<Expression<()>>,
    pub text_translate: Option<Expression<()>>,
    pub text_translate_anchor: Option<Expression<TranslateAnchor>>,
}

impl Default for SymbolPaint {
    /// Every property is unset.
    fn default() -> (res: SymbolPaint)
        ensures
            res == SymbolPaint::unset(),
    {
        SymbolPaint {
            icon_color: None,
            icon_color_brightness_max: None,
            icon_color_brightness_min: None,
            icon_color_contrast: None,
            icon_color_saturation: None,
            icon_emissive_strength: None,
            icon_halo_blur: None,
            icon_halo_color: None,
            icon_halo_width: None,
            icon_image_cross_fade: None,
            icon_opacity: None,
            icon_translate: None,
            icon_translate_anchor: None,
            text_color: None,
            text_emissive_strength: None,
            text_halo_blur: None,
            text_halo_color: None,
            text_halo_width: None,
            text_opacity: None,
            text_translate: None,
            text_translate_anchor: None,
        }
    }
}

impl SymbolPaint {
    /// The properties with every one unset.
    pub open spec fn unset() -> SymbolPaint {
        SymbolPaint {
            icon_color: None,
            icon_color_brightness_max: None,
            icon_color_brightness_min: None,
            icon_color_contrast: None,
            icon_color_saturation: None,
            icon_emissive_strength: None,
            icon_halo_blur: None,
            icon_halo_color: None,
            icon_halo_width: None,
            icon_image_cross_fade: None,
            icon_opacity: None,
            icon_translate: None,
            icon_translate_anchor: None,
            text_color: None,
            text_emissive_strength: None,
            text_halo_blur: None,
            text_halo_color: None,
            text_halo_width: None,
            text_opacity: None,
            text_translate: None,
            text_translate_anchor: None,
        }
    }

    /// The properties of the wire form, in order: each under its wire name,
    /// with its wire form where it is set.
    pub open spec fn slots(&self) -> Slots {
        seq![
            ("icon-color"@, optional_wire(self.icon_color)),
            ("icon-color-brightness-max"@, optional_wire(self.icon_color_brightness_max)),
            ("icon-color-brightness-min"@, optional_wire(self.icon_color_brightness_min)),
            ("icon-color-contrast"@, optional_wire(self.icon_color_contrast)),
            ("icon-color-saturation"@, optional_wire(self.icon_color_saturation)),
            ("icon-emissive-strength"@, optional_wire(self.icon_emissive_strength)),
            ("icon-halo-blur"@, optional_wire(self.icon_halo_blur)),
            ("icon-halo-color"@, optional_wire(self.icon_halo_color)),
            ("icon-halo-width"@, optional_wire(self.icon_halo_width)),
            ("icon-image-cross-fade"@, optional_wire(self.icon_image_cross_fade)),
            ("icon-opacity"@, optional_wire(self.icon_opacity)),
            ("icon-translate"@, optional_wire(self.icon_translate)),
            ("icon-translate-anchor"@, optional_wire(self.icon_translate_anchor)),
            ("text-color"@, optional_wire(self.text_color)),
            ("text-emissive-strength"@, optional_wire(self.text_emissive_strength)),
            ("text-halo-blur"@, optional_wire(self.text_halo_blur)),
            ("text-halo-color"@, optional_wire(self.text_halo_color)),
            ("text-halo-width"@, optional_wire(self.text_halo_width)),
            ("text-opacity"@, optional_wire(self.text_opacity)),
            ("text-translate"@, optional_wire(self.text_translate)),
            ("text-translate-anchor"@, optional_wire(self.text_translate_anchor)),
        ]
    }

    /// Offers every property to a builder, in order.
    pub fn to_entries(&self) -> (b: ObjectBuilder)
        ensures
            b.wf(),
            b@ == self.slots(),
    {
        let mut b = ObjectBuilder::new();
        b.optional_wire("icon-color", &self.icon_color);
        b.optional_wire("icon-color-brightness-max", &self.icon_color_brightness_max);
        b.optional_wire("icon-color-brightness-min", &self.icon_color_brightness_min);
        b.optional_wire("icon-color-contrast", &self.icon_color_contrast);
        b.optional_wire("icon-color-saturation", &self.icon_color_saturation);
        b.optional_wire("icon-emissive-strength", &self.icon_emissive_strength);
        b.optional_wire("icon-halo-blur", &self.icon_halo_blur);
        b.optional_wire("icon-halo-color", &self.icon_halo_color);
        b.optional_wire("icon-halo-width", &self.icon_halo_width);
        b.optional_wire("icon-image-cross-fade", &self.icon_image_cross_fade);
        b.optional_wire("icon-opacity", &self.icon_opacity);
        b.optional_wire("icon-translate", &self.icon_translate);
        b.optional_wire("icon-translate-anchor", &self.icon_translate_anchor);
        b.optional_wire("text-color", &self.text_color);
        b.optional_wire("text-emissive-strength", &self.text_emissive_strength);
        b.optional_wire("text-halo-blur", &self.text_halo_blur);
        b.optional_wire("text-halo-color", &self.text_halo_color);
        b.optional_wire("text-halo-width", &self.text_halo_width);
        b.optional_wire("text-opacity", &self.text_opacity);
        b.optional_wire("text-translate", &self.text_translate);
        b.optional_wire("text-translate-anchor", &self.text_translate_anchor);
        b
    }

    /// The place of the property with the wire name `key`, which the length of
    /// the name and a few of its characters tell.
    spec fn place_of(key: Seq<char>) -> int {
        if key.len() == 10 && key[0] == 'i' {
            0
        } else if key.len() == 25 && key[0] == 'i' && key[11] == 'b' && key[23] == 'a' {
            1
        } else if key.len() == 25 && key[0] == 'i' && key[11] == 'b' && key[23] == 'i' {
            2
        } else if key.len() == 19 && key[0] == 'i' && key[11] == 'c' {
            3
        } else if key.len() == 21 && key[0] == 'i' && key[11] == 's' {
            4
        } else if key.len() == 22 && key[0] == 'i' && key[11] == 'v' {
            5
        } else if key.len() == 14 && key[0] == 'i' && key[11] == 'l' {
            6
        } else if key.len() == 15 && key[0] == 'i' && key[11] == 'o' {
            7
        } else if key.len() == 15 && key[0] == 'i' && key[11] == 'i' {
            8
        } else if key.len() == 21 && key[0] == 'i' && key[11] == 'c' {
            9
        } else if key.len() == 12 && key[0] == 'i' && key[11] == 'y' {
            10
        } else if key.len() == 14 && key[0] == 'i' && key[11] == 'a' {
            11
        } else if key.len() == 21 && key[0] == 'i' && key[11] == 'a' {
            12
        } else if key.len() == 10 && key[0] == 't' {
            13
        } else if key.len() == 22 && key[0] == 't' && key[11] == 'v' {
            14
        } else if key.len() == 14 && key[0] == 't' && key[11] == 'l' {
            15
        } else if key.len() == 15 && key[0] == 't' && key[11] == 'o' {
            16
        } else if key.len() == 15 && key[0] == 't' && key[11] == 'i' {
            17
        } else if key.len() == 12 && key[0] == 't' && key[11] == 'y' {
            18
        } else if key.len() == 14 && key[0] == 't' && key[11] == 'a' {
            19
        } else if key.len() == 21 && key[0] == 't' && key[11] == 'a' {
            20
        } else {
            -1
        }
    }

    /// No two properties have one wire name. So looking the wire name of a
    /// property up in the wire form finds the wire form of that property where it
    /// is set, and nothing where it is unset.
    #[verifier::rlimit(50)]
    pub proof fn law_wire_names_are_distinct(&self)
        ensures
            distinct_keys(self.slots()),
            forall|i: int|
                0 <= i < self.slots().len() ==> lookup(
                    flatten(self.slots()),
                    (#[trigger] self.slots()[i]).0,
                ) == self.slots()[i].1,
    {
        reveal_strlit("icon-color");
        reveal_strlit("icon-color-brightness-max");
        reveal_strlit("icon-color-brightness-min");
        reveal_strlit("icon-color-contrast");
        reveal_strlit("icon-color-saturation");
        reveal_strlit("icon-emissive-strength");
        reveal_strlit("icon-halo-blur");
        reveal_strlit("icon-halo-color");
        reveal_strlit("icon-halo-width");
        reveal_strlit("icon-image-cross-fade");
        reveal_strlit("icon-opacity");
        reveal_strlit("icon-translate");
        reveal_strlit("icon-translate-anchor");
        reveal_strlit("text-color");
        reveal_strlit("text-emissive-strength");
        reveal_strlit("text-halo-blur");
        reveal_strlit("text-halo-color");
        reveal_strlit("text-halo-width");
        reveal_strlit("text-opacity");
        reveal_strlit("text-translate");
        reveal_strlit("text-translate-anchor");
        let slots = self.slots();
        assert(SymbolPaint::place_of(slots[0].0) == 0);
        assert(SymbolPaint::place_of(slots[1].0) == 1);
        assert(SymbolPaint::place_of(slots[2].0) == 2);
        assert(SymbolPaint::place_of(slots[3].0) == 3);
        assert(SymbolPaint::place_of(slots[4].0) == 4);
        assert(SymbolPaint::place_of(slots[5].0) == 5);
        assert(SymbolPaint::place_of(slots[6].0) == 6);
        assert(SymbolPaint::place_of(slots[7].0) == 7);
        assert(SymbolPaint::place_of(slots[8].0) == 8);
        assert(SymbolPaint::place_of(slots[9].0) == 9);
        assert(SymbolPaint::place_of(slots[10].0) == 10);
        assert(SymbolPaint::place_of(slots[11].0) == 11);
        assert(SymbolPaint::place_of(slots[12].0) == 12);
        assert(SymbolPaint::place_of(slots[13].0) == 13);
        assert(SymbolPaint::place_of(slots[14].0) == 14);
        assert(SymbolPaint::place_of(slots[15].0) == 15);
        assert(SymbolPaint::place_of(slots[16].0) == 16);
        assert(SymbolPaint::place_of(slots[17].0) == 17);
        assert(SymbolPaint::place_of(slots[18].0) == 18);
        assert(SymbolPaint::place_of(slots[19].0) == 19);
        assert(SymbolPaint::place_of(slots[20].0) == 20);
        assert forall|i: int| 0 <= i < slots.len() implies SymbolPaint::place_of(
            (#[trigger] slots[i]).0,
        ) - 0 == i by {
        }
        lemma_placed_keys_are_distinct(slots, |key: Seq<char>| SymbolPaint::place_of(key) - 0);
        assert forall|i: int| 0 <= i < slots.len() implies lookup(
            flatten(slots),
            (#[trigger] slots[i]).0,
        ) == slots[i].1 by {
            law_lookup_of_distinct_keys(slots, i);
        }
    }
}

impl ToWire for SymbolPaint {
    /// The object of the properties that are set.
    open spec fn wire(&self) -> ValueView {
        ValueView::Object(flatten(self.slots()))
    }

    fn to_wire(&self) -> (value: Value) {
        self.to_entries().finish()
    }
}

impl SymbolPaint {
    /// Whether every property of a wire value can be read: what must be there
    /// is there, and what is there has the right shape.
    pub open spec fn all_read(value: ValueView) -> bool {
        &&& read_optional::<Expression<()>>(value.get("icon-color"@)) is Some
        &&& read_optional::<Expression<()>>(value.get("icon-color-brightness-max"@)) is Some
        &&& read_optional::<Expression<()>>(value.get("icon-color-brightness-min"@)) is Some
        &&& read_optional::<Expression<()>>(value.get("icon-color-contrast"@)) is Some
        &&& read_optional::<Expression<()>>(value.get("icon-color-saturation"@)) is Some
        &&& read_optional::<Expression<()>>(value.get("icon-emissive-strength"@)) is Some
        &&& read_optional::<Expression<()>>(value.get("icon-halo-blur"@)) is Some
        &&& read_optional::<Expression<()>>(value.get("icon-halo-color"@)) is Some
        &&& read_optional::<Expression<()>>(value.get("icon-halo-width"@)) is Some
        &&& read_optional::<Expression<()>>(value.get("icon-image-cross-fade"@)) is Some
        &&& read_optional::<Expression<()>>(value.get("icon-opacity"@)) is Some
        &&& read_optional::<Expression<()>>(value.get("icon-translate"@)) is Some
        &&& read_optional::<Expression<TranslateAnchor>>(value.get("icon-translate-anchor"@)) is Some
        &&& read_optional::<Expression<()>>(value.get("text-color"@)) is Some
        &&& read_optional::<Expression<()>>(value.get("text-emissive-strength"@)) is Some
        &&& read_optional::<Expression<()>>(value.get("text-halo-blur"@)) is Some
        &&& read_optional::<Expression<()>>(value.get("text-halo-color"@)) is Some
        &&& read_optional::<Expression<()>>(value.get("text-halo-width"@)) is Some
        &&& read_optional::<Expression<()>>(value.get("text-opacity"@)) is Some
        &&& read_optional::<Expression<()>>(value.get("text-translate"@)) is Some
        &&& read_optional::<Expression<TranslateAnchor>>(value.get("text-translate-anchor"@)) is Some
    }

    /// The slots that the properties of a wire value are read as, in order.
    pub open spec fn read_slots(value: ValueView) -> Slots {
        seq![
            ("icon-color"@, read_optional::<Expression<()>>(value.get("icon-color"@))->Some_0),
            ("icon-color-brightness-max"@, read_optional::<Expression<()>>(value.get("icon-color-brightness-max"@))->Some_0),
            ("icon-color-brightness-min"@, read_optional::<Expression<()>>(value.get("icon-color-brightness-min"@))->Some_0),
            ("icon-color-contrast"@, read_optional::<Expression<()>>(value.get("icon-color-contrast"@))->Some_0),
            ("icon-color-saturation"@, read_optional::<Expression<()>>(value.get("icon-color-saturation"@))->Some_0),
            ("icon-emissive-strength"@, read_optional::<Expression<()>>(value.get("icon-emissive-strength"@))->Some_0),
            ("icon-halo-blur"@, read_optional::<Expression<()>>(value.get("icon-halo-blur"@))->Some_0),
            ("icon-halo-color"@, read_optional::<Expression<()>>(value.get("icon-halo-color"@))->Some_0),
            ("icon-halo-width"@, read_optional::<Expression<()>>(value.get("icon-halo-width"@))->Some_0),
            ("icon-image-cross-fade"@, read_optional::<Expression<()>>(value.get("icon-image-cross-fade"@))->Some_0),
            ("icon-opacity"@, read_optional::<Expression<()>>(value.get("icon-opacity"@))->Some_0),
            ("icon-translate"@, read_optional::<Expression<()>>(value.get("icon-translate"@))->Some_0),
            ("icon-translate-anchor"@, read_optional::<Expression<TranslateAnchor>>(value.get("icon-translate-anchor"@))->Some_0),
            ("text-color"@, read_optional::<Expression<()>>(value.get("text-color"@))->Some_0),
            ("text-emissive-strength"@, read_optional::<Expression<()>>(value.get("text-emissive-strength"@))->Some_0),
            ("text-halo-blur"@, read_optional::<Expression<()>>(value.get("text-halo-blur"@))->Some_0),
            ("text-halo-color"@, read_optional::<Expression<()>>(value.get("text-halo-color"@))->Some_0),
            ("text-halo-width"@, read_optional::<Expression<()>>(value.get("text-halo-width"@))->Some_0),
            ("text-opacity"@, read_optional::<Expression<()>>(value.get("text-opacity"@))->Some_0),
            ("text-translate"@, read_optional::<Expression<()>>(value.get("text-translate"@))->Some_0),
            ("text-translate-anchor"@, read_optional::<Expression<TranslateAnchor>>(value.get("text-translate-anchor"@))->Some_0),
        ]
    }

    fn read_part_0(value: &Value) -> (res: Option<(Option<Expression<()>>, Option<Expression<()>>, Option<Expression<()>>, Option<Expression<()>>, Option<Expression<()>>, Option<Expression<()>>, Option<Expression<()>>, Option<Expression<()>>,)>)
        ensures
            match res {
                Some(part) => {
                    &&& read_optional::<Expression<()>>(value@.get("icon-color"@)) == Some(optional_wire(part.0))
                    &&& read_optional::<Expression<()>>(value@.get("icon-color-brightness-max"@)) == Some(optional_wire(part.1))
                    &&& read_optional::<Expression<()>>(value@.get("icon-color-brightness-min"@)) == Some(optional_wire(part.2))
                    &&& read_optional::<Expression<()>>(value@.get("icon-color-contrast"@)) == Some(optional_wire(part.3))
                    &&& read_optional::<Expression<()>>(value@.get("icon-color-saturation"@)) == Some(optional_wire(part.4))
                    &&& read_optional::<Expression<()>>(value@.get("icon-emissive-strength"@)) == Some(optional_wire(part.5))
                    &&& read_optional::<Expression<()>>(value@.get("icon-halo-blur"@)) == Some(optional_wire(part.6))
                    &&& read_optional::<Expression<()>>(value@.get("icon-halo-color"@)) == Some(optional_wire(part.7))
                },
                None => !Self::all_read(value@),
            },
    {
        let icon_color = match optional::<Expression<()>>(value.get("icon-color")) {
            Some(read) => read,
            None => {
                return None;
            },
        };
        let icon_color_brightness_max = match optional::<Expression<()>>(value.get("icon-color-brightness-max")) {
            Some(read) => read,
            None => {
                return None;
            },
        };
        let icon_color_brightness_min = match optional::<Expression<()>>(value.get("icon-color-brightness-min")) {
            Some(read) => read,
            None => {
                return None;
            },
        };
        let icon_color_contrast = match optional::<Expression<()>>(value.get("icon-color-contrast")) {
            Some(read) => read,
            None => {
                return None;
            },
        };
        let icon_color_saturation = match optional::<Expression<()>>(value.get("icon-color-saturation")) {
            Some(read) => read,
            None => {
                return None;
            },
        };
        let icon_emissive_strength = match optional::<Expression<()>>(value.get("icon-emissive-strength")) {
            Some(read) => read,
            None => {
                return None;
            },
        };
        let icon_halo_blur = match optional::<Expression<()>>(value.get("icon-halo-blur")) {
            Some(read) => read,
            None => {
                return None;
            },
        };
        let icon_halo_color = match optional::<Expression<()>>(value.get("icon-halo-color")) {
            Some(read) => read,
            None => {
                return None;
            },
        };
        Some((icon_color, icon_color_brightness_max, icon_color_brightness_min, icon_color_contrast, icon_color_saturation, icon_emissive_strength, icon_halo_blur, icon_halo_color,))
    }

    fn read_part_1(value: &Value) -> (res: Option<(Option<Expression<()>>, Option<Expression<()>>, Option<Expression<()>>, Option<Expression<()>>, Option<Expression<TranslateAnchor>>, Option<Expression<()>>, Option<Expression<()>>, Option<Expression<()>>,)>)
        ensures
            match res {
                Some(part) => {
                    &&& read_optional::<Expression<()>>(value@.get("icon-halo-width"@)) == Some(optional_wire(part.0))
                    &&& read_optional::<Expression<()>>(value@.get("icon-image-cross-fade"@)) == Some(optional_wire(part.1))
                    &&& read_optional::<Expression<()>>(value@.get("icon-opacity"@)) == Some(optional_wire(part.2))
                    &&& read_optional::<Expression<()>>(value@.get("icon-translate"@)) == Some(optional_wire(part.3))
                    &&& read_optional::<Expression<TranslateAnchor>>(value@.get("icon-translate-anchor"@)) == Some(optional_wire(part.4))
                    &&& read_optional::<Expression<()>>(value@.get("text-color"@)) == Some(optional_wire(part.5))
                    &&& read_optional::<Expression<()>>(value@.get("text-emissive-strength"@)) == Some(optional_wire(part.6))
                    &&& read_optional::<Expression<()>>(value@.get("text-halo-blur"@)) == Some(optional_wire(part.7))
                },
                None => !Self::all_read(value@),
            },
    {
        let icon_halo_width = match optional::<Expression<()>>(value.get("icon-halo-width")) {
            Some(read) => read,
            None => {
                return None;
            },
        };
        let icon_image_cross_fade = match optional::<Expression<()>>(value.get("icon-image-cross-fade")) {
            Some(read) => read,
            None => {
                return None;
            },
        };
        let icon_opacity = match optional::<Expression<()>>(value.get("icon-opacity")) {
            Some(read) => read,
            None => {
                return None;
            },
        };
        let icon_translate = match optional::<Expression<()>>(value.get("icon-translate")) {
            Some(read) => read,
            None => {
                return None;
            },
        };
        let icon_translate_anchor = match optional::<Expression<TranslateAnchor>>(value.get("icon-translate-anchor")) {
            Some(read) => read,
            None => {
                return None;
            },
        };
        let text_color = match optional::<Expression<()>>(value.get("text-color")) {
            Some(read) => read,
            None => {
                return None;
            },
        };
        let text_emissive_strength = match optional::<Expression<()>>(value.get("text-emissive-strength")) {
            Some(read) => read,
            None => {
                return None;
            },
        };
        let text_halo_blur = match optional::<Expression<()>>(value.get("text-halo-blur")) {
            Some(read) => read,
            None => {
                return None;
            },
        };
        Some((icon_halo_width, icon_image_cross_fade, icon_opacity, icon_translate, icon_translate_anchor, text_color, text_emissive_strength, text_halo_blur,))
    }

    fn read_part_2(value: &Value) -> (res: Option<(Option<Expression<()>>, Option<Expression<()>>, Option<Expression<()>>, Option<Expression<()>>, Option<Expression<TranslateAnchor>>,)>)
        ensures
            match res {
                Some(part) => {
                    &&& read_optional::<Expression<()>>(value@.get("text-halo-color"@)) == Some(optional_wire(part.0))
                    &&& read_optional::<Expression<()>>(value@.get("text-halo-width"@)) == Some(optional_wire(part.1))
                    &&& read_optional::<Expression<()>>(value@.get("text-opacity"@)) == Some(optional_wire(part.2))
                    &&& read_optional::<Expression<()>>(value@.get("text-translate"@)) == Some(optional_wire(part.3))
                    &&& read_optional::<Expression<TranslateAnchor>>(value@.get("text-translate-anchor"@)) == Some(optional_wire(part.4))
                },
                None => !Self::all_read(value@),
            },
    {
        let text_halo_color = match optional::<Expression<()>>(value.get("text-halo-color")) {
            Some(read) => read,
            None => {
                return None;
            },
        };
        let text_halo_width = match optional::<Expression<()>>(value.get("text-halo-width")) {
            Some(read) => read,
            None => {
                return None;
            },
        };
        let text_opacity = match optional::<Expression<()>>(value.get("text-opacity")) {
            Some(read) => read,
            None => {
                return None;
            },
        };
        let text_translate = match optional::<Expression<()>>(value.get("text-translate")) {
            Some(read) => read,
            None => {
                return None;
            },
        };
        let text_translate_anchor = match optional::<Expression<TranslateAnchor>>(value.get("text-translate-anchor")) {
            Some(read) => read,
            None => {
                return None;
            },
        };
        Some((text_halo_color, text_halo_width, text_opacity, text_translate, text_translate_anchor,))
    }

    /// Reading an object in which looking up the name of each property of
    /// the value finds that property gives the value back.
    pub proof fn lemma_read_from(&self, entries: Seq<(Seq<char>, ValueView)>)
        requires
            self.comes_back(),
            forall|i: int|
                0 <= i < self.slots().len() ==> lookup(entries, (#[trigger] self.slots()[i]).0)
                    == self.slots()[i].1,
        ensures
            Self::spec_read(ValueView::Object(entries)) == Some(self.wire()),
    {
        let value = ValueView::Object(entries);
        let slots = self.slots();
        assert(value.get(slots[0].0) == slots[0].1);
        lemma_optional_round_trip::<Expression<()>>(self.icon_color);
        assert(value.get(slots[1].0) == slots[1].1);
        lemma_optional_round_trip::<Expression<()>>(self.icon_color_brightness_max);
        assert(value.get(slots[2].0) == slots[2].1);
        lemma_optional_round_trip::<Expression<()>>(self.icon_color_brightness_min);
        assert(value.get(slots[3].0) == slots[3].1);
        lemma_optional_round_trip::<Expression<()>>(self.icon_color_contrast);
        assert(value.get(slots[4].0) == slots[4].1);
        lemma_optional_round_trip::<Expression<()>>(self.icon_color_saturation);
        assert(value.get(slots[5].0) == slots[5].1);
        lemma_optional_round_trip::<Expression<()>>(self.icon_emissive_strength);
        assert(value.get(slots[6].0) == slots[6].1);
        lemma_optional_round_trip::<Expression<()>>(self.icon_halo_blur);
        assert(value.get(slots[7].0) == slots[7].1);
        lemma_optional_round_trip::<Expression<()>>(self.icon_halo_color);
        assert(value.get(slots[8].0) == slots[8].1);
        lemma_optional_round_trip::<Expression<()>>(self.icon_halo_width);
        assert(value.get(slots[9].0) == slots[9].1);
        lemma_optional_round_trip::<Expression<()>>(self.icon_image_cross_fade);
        assert(value.get(slots[10].0) == slots[10].1);
        lemma_optional_round_trip::<Expression<()>>(self.icon_opacity);
        assert(value.get(slots[11].0) == slots[11].1);
        lemma_optional_round_trip::<Expression<()>>(self.icon_translate);
        assert(value.get(slots[12].0) == slots[12].1);
        lemma_optional_round_trip::<Expression<TranslateAnchor>>(self.icon_translate_anchor);
        assert(value.get(slots[13].0) == slots[13].1);
        lemma_optional_round_trip::<Expression<()>>(self.text_color);
        assert(value.get(slots[14].0) == slots[14].1);
        lemma_optional_round_trip::<Expression<()>>(self.text_emissive_strength);
        assert(value.get(slots[15].0) == slots[15].1);
        lemma_optional_round_trip::<Expression<()>>(self.text_halo_blur);
        assert(value.get(slots[16].0) == slots[16].1);
        lemma_optional_round_trip::<Expression<()>>(self.text_halo_color);
        assert(value.get(slots[17].0) == slots[17].1);
        lemma_optional_round_trip::<Expression<()>>(self.text_halo_width);
        assert(value.get(slots[18].0) == slots[18].1);
        lemma_optional_round_trip::<Expression<()>>(self.text_opacity);
        assert(value.get(slots[19].0) == slots[19].1);
        lemma_optional_round_trip::<Expression<()>>(self.text_translate);
        assert(value.get(slots[20].0) == slots[20].1);
        lemma_optional_round_trip::<Expression<TranslateAnchor>>(self.text_translate_anchor);
    }
}

impl FromWire for SymbolPaint {
    /// The value is read from an object, property by property. Properties of
    /// other names are passed over.
    open spec fn spec_read(value: ValueView) -> Option<ValueView> {
        if value is Object && Self::all_read(value) {
            Some(ValueView::Object(flatten(Self::read_slots(value))))
        } else {
            None
        }
    }

    open spec fn comes_back(&self) -> bool {
        &&& optional_comes_back(self.icon_color)
        &&& optional_comes_back(self.icon_color_brightness_max)
        &&& optional_comes_back(self.icon_color_brightness_min)
        &&& optional_comes_back(self.icon_color_contrast)
        &&& optional_comes_back(self.icon_color_saturation)
        &&& optional_comes_back(self.icon_emissive_strength)
        &&& optional_comes_back(self.icon_halo_blur)
        &&& optional_comes_back(self.icon_halo_color)
        &&& optional_comes_back(self.icon_halo_width)
        &&& optional_comes_back(self.icon_image_cross_fade)
        &&& optional_comes_back(self.icon_opacity)
        &&& optional_comes_back(self.icon_translate)
        &&& optional_comes_back(self.icon_translate_anchor)
        &&& optional_comes_back(self.text_color)
        &&& optional_comes_back(self.text_emissive_strength)
        &&& optional_comes_back(self.text_halo_blur)
        &&& optional_comes_back(self.text_halo_color)
        &&& optional_comes_back(self.text_halo_width)
        &&& optional_comes_back(self.text_opacity)
        &&& optional_comes_back(self.text_translate)
        &&& optional_comes_back(self.text_translate_anchor)
    }

    fn from_wire(value: &Value) -> (res: Option<SymbolPaint>) {
        match value {
            Value::Object(_) => {},
            _ => {
                return None;
            },
        }
        let part_0 = match Self::read_part_0(value) {
            Some(part) => part,
            None => {
                return None;
            },
        };
        let part_1 = match Self::read_part_1(value) {
            Some(part) => part,
            None => {
                return None;
            },
        };
        let part_2 = match Self::read_part_2(value) {
            Some(part) => part,
            None => {
                return None;
            },
        };
        Some(
            SymbolPaint {
                icon_color: part_0.0,
                icon_color_brightness_max: part_0.1,
                icon_color_brightness_min: part_0.2,
                icon_color_contrast: part_0.3,
                icon_color_saturation: part_0.4,
                icon_emissive_strength: part_0.5,
                icon_halo_blur: part_0.6,
                icon_halo_color: part_0.7,
                icon_halo_width: part_1.0,
                icon_image_cross_fade: part_1.1,
                icon_opacity: part_1.2,
                icon_translate: part_1.3,
                icon_translate_anchor: part_1.4,
                text_color: part_1.5,
                text_emissive_strength: part_1.6,
                text_halo_blur: part_1.7,
                text_halo_color: part_2.0,
                text_halo_width: part_2.1,
                text_opacity: part_2.2,
                text_translate: part_2.3,
                text_translate_anchor: part_2.4,
            },
        )
    }

    proof fn law_round_trip(&self) {
        self.law_wire_names_are_distinct();
        self.lemma_read_from(flatten(self.slots()));
    }
}

/// How a symbol layer is laid out.
#[derive(Debug, Clone)]
pub struct SymbolLayout {
    pub icon_allow_overlap: Option<Expression<()>>,
    pub icon_anchor: Option<Expression<Anchor>>,
    pub icon_ignore_placement: Option<Expression<()>>,
    pub icon_image: Option<Expression<()>>,
    pub icon_keep_upright: Option<Expression<()>>,
    pub icon_offset: Option<Expression<()>>,
    pub icon_optional: Option<Expression<()>>,
    pub icon_padding: Option<Expression<()>>,
    pub icon_pitch_alignment: Option<Expression<Alignment>>,
    pub icon_rotate: Option<Expression<()>>,
    pub icon_rotation_alignment: Option<Expression<Alignment>>,
    pub icon_size: Option<Expression<()>>,
    pub icon_text_fit: Option<Expression<IconTextFit>>,
    pub icon_text_fit_padding: Option<Expression<()>>,
    pub symbol_avoid_edges: Option<Expression<()>>,
    pub symbol_placement: Option<Expression<()>>,
    pub symbol_sort_key: Option<Expression<()>>,
    pub symbol_spacing: Option<Expression<()>>,
    pub symbol_z_elevate: Option<Expression<()>>,
    pub symbol_z_order: Option<Expression<SymbolZOrder>>,
    pub text_allow_overlap: Option<Expression<()>>,
    pub text_anchor: Option<Expression<Anchor>>,
    pub text_field: Option<Expression<()>>,
    pub text_font: Option<Expression<()>>,
    pub text_ignore_placement: Option<Expression<()>>,
    pub text_justify: Option<Expression<TextJustify>>,
    pub text_keep_upright: Option<Expression<()>>,
    pub text_letter_spacing: Option<Expression<()>>,
    pub text_line_height: Option<Expression<()>>,
    pub text_max_angle: Option<Expression<()>>,
    pub text_max_width: Option<Expression<()>>,
    pub text_offset: Option<Expression<()>>,
    pub text_optional: Option<Expression<()>>,
    pub text_padding: Option<Expression<()>>,
    pub text_pitch_alignment: Option<Expression<Alignment>>,
    pub text_radial_offset: Option<Expression<()>>,
    pub text_rotate: Option<Expression<()>>,
    pub text_rotation_alignment: Option<Expression<Alignment>>,
    pub text_size: Option<Expression<()>>,
    pub text_transform: Option<Expression<TextTransform>>,
    pub text_variable_anchor: Option<Expression<Anchor>>,
    pub text_writing_mode: Option<Expression<()>>,
    pub visibility: Option<Visibility>,
}

impl Default for SymbolLayout {
    /// Every property is unset.
    fn default() -> (res: SymbolLayout)
        ensures
            res == SymbolLayout::unset(),
    {
        SymbolLayout {
            icon_allow_overlap: None,
            icon_anchor: None,
            icon_ignore_placement: None,
            icon_image: None,
            icon_keep_upright: None,
            icon_offset: None,
            icon_optional: None,
            icon_padding: None,
            icon_pitch_alignment: None,
            icon_rotate: None,
            icon_rotation_alignment: None,
            icon_size: None,
            icon_text_fit: None,
            icon_text_fit_padding: None,
            symbol_avoid_edges: None,
            symbol_placement: None,
            symbol_sort_key: None,
            symbol_spacing: None,
            symbol_z_elevate: None,
            symbol_z_order: None,
            text_allow_overlap: None,
            text_anchor: None,
            text_field: None,
            text_font: None,
            text_ignore_placement: None,
            text_justify: None,
            text_keep_upright: None,
            text_letter_spacing: None,
            text_line_height: None,
            text_max_angle: None,
            text_max_width: None,
            text_offset: None,
            text_optional: None,
            text_padding: None,
            text_pitch_alignment: None,
            text_radial_offset: None,
            text_rotate: None,
            text_rotation_alignment: None,
            text_size: None,
            text_transform: None,
            text_variable_anchor: None,
            text_writing_mode: None,
            visibility: None,
        }
    }
}

impl SymbolLayout {
    /// The properties with every one unset.
    pub open spec fn unset() -> SymbolLayout {
        SymbolLayout {
            icon_allow_overlap: None,
            icon_anchor: None,
            icon_ignore_placement: None,
            icon_image: None,
            icon_keep_upright: None,
            icon_offset: None,
            icon_optional: None,
            icon_padding: None,
            icon_pitch_alignment: None,
            icon_rotate: None,
            icon_rotation_alignment: None,
            icon_size: None,
            icon_text_fit: None,
            icon_text_fit_padding: None,
            symbol_avoid_edges: None,
            symbol_placement: None,
            symbol_sort_key: None,
            symbol_spacing: None,
            symbol_z_elevate: None,
            symbol_z_order: None,
            text_allow_overlap: None,
            text_anchor: None,
            text_field: None,
            text_font: None,
            text_ignore_placement: None,
            text_justify: None,
            text_keep_upright: None,
            text_letter_spacing: None,
            text_line_height: None,
            text_max_angle: None,
            text_max_width: None,
            text_offset: None,
            text_optional: None,
            text_padding: None,
            text_pitch_alignment: None,
            text_radial_offset: None,
            text_rotate: None,
            text_rotation_alignment: None,
            text_size: None,
            text_transform: None,
            text_variable_anchor: None,
            text_writing_mode: None,
            visibility: None,
        }
    }

    /// The properties of the wire form, in order: each under its wire name,
    /// with its wire form where it is set.
    pub open spec fn slots(&self) -> Slots {
        seq![
            ("icon-allow-overlap"@, optional_wire(self.icon_allow_overlap)),
            ("icon-anchor"@, optional_wire(self.icon_anchor)),
            ("icon-ignore-placement"@, optional_wire(self.icon_ignore_placement)),
            ("icon-image"@, optional_wire(self.icon_image)),
            ("icon-keep-upright"@, optional_wire(self.icon_keep_upright)),
            ("icon-offset"@, optional_wire(self.icon_offset)),
            ("icon-optional"@, optional_wire(self.icon_optional)),
            ("icon-padding"@, optional_wire(self.icon_padding)),
            ("icon-pitch-alignment"@, optional_wire(self.icon_pitch_alignment)),
            ("icon-rotate"@, optional_wire(self.icon_rotate)),
            ("icon-rotation-alignment"@, optional_wire(self.icon_rotation_alignment)),
            ("icon-size"@, optional_wire(self.icon_size)),
            ("icon-text-fit"@, optional_wire(self.icon_text_fit)),
            ("icon-text-fit-padding"@, optional_wire(self.icon_text_fit_padding)),
            ("symbol-avoid-edges"@, optional_wire(self.symbol_avoid_edges)),
            ("symbol-placement"@, optional_wire(self.symbol_placement)),
            ("symbol-sort-key"@, optional_wire(self.symbol_sort_key)),
            ("symbol-spacing"@, optional_wire(self.symbol_spacing)),
            ("symbol-z-elevate"@, optional_wire(self.symbol_z_elevate)),
            ("symbol-z-order"@, optional_wire(self.symbol_z_order)),
            ("text-allow-overlap"@, optional_wire(self.text_allow_overlap)),
            ("text-anchor"@, optional_wire(self.text_anchor)),
            ("text-field"@, optional_wire(self.text_field)),
            ("text-font"@, optional_wire(self.text_font)),
            ("text-ignore-placement"@, optional_wire(self.text_ignore_placement)),
            ("text-justify"@, optional_wire(self.text_justify)),
            ("text-keep-upright"@, optional_wire(self.text_keep_upright)),
            ("text-letter-spacing"@, optional_wire(self.text_letter_spacing)),
            ("text-line-height"@, optional_wire(self.text_line_height)),
            ("text-max-angle"@, optional_wire(self.text_max_angle)),
            ("text-max-width"@, optional_wire(self.text_max_width)),
            ("text-offset"@, optional_wire(self.text_offset)),
            ("text-optional"@, optional_wire(self.text_optional)),
            ("text-padding"@, optional_wire(self.text_padding)),
            ("text-pitch-alignment"@, optional_wire(self.text_pitch_alignment)),
            ("text-radial-offset"@, optional_wire(self.text_radial_offset)),
            ("text-rotate"@, optional_wire(self.text_rotate)),
            ("text-rotation-alignment"@, optional_wire(self.text_rotation_alignment)),
            ("text-size"@, optional_wire(self.text_size)),
            ("text-transform"@, optional_wire(self.text_transform)),
            ("text-variable-anchor"@, optional_wire(self.text_variable_anchor)),
            ("text-writing-mode"@, optional_wire(self.text_writing_mode)),
            ("visibility"@, optional_wire(self.visibility)),
        ]
    }

    /// Offers every property to a builder, in order.
    #[verifier::rlimit(50)]
    pub fn to_entries(&self) -> (b: ObjectBuilder)
        ensures
            b.wf(),
            b@ == self.slots(),
    {
        let mut b = ObjectBuilder::new();
        b.optional_wire("icon-allow-overlap", &self.icon_allow_overlap);
        b.optional_wire("icon-anchor", &self.icon_anchor);
        b.optional_wire("icon-ignore-placement", &self.icon_ignore_placement);
        b.optional_wire("icon-image", &self.icon_image);
        b.optional_wire("icon-keep-upright", &self.icon_keep_upright);
        b.optional_wire("icon-offset", &self.icon_offset);
        b.optional_wire("icon-optional", &self.icon_optional);
        b.optional_wire("icon-padding", &self.icon_padding);
        b.optional_wire("icon-pitch-alignment", &self.icon_pitch_alignment);
        b.optional_wire("icon-rotate", &self.icon_rotate);
        b.optional_wire("icon-rotation-alignment", &self.icon_rotation_alignment);
        b.optional_wire("icon-size", &self.icon_size);
        b.optional_wire("icon-text-fit", &self.icon_text_fit);
        b.optional_wire("icon-text-fit-padding", &self.icon_text_fit_padding);
        b.optional_wire("symbol-avoid-edges", &self.symbol_avoid_edges);
        b.optional_wire("symbol-placement", &self.symbol_placement);
        b.optional_wire("symbol-sort-key", &self.symbol_sort_key);
        b.optional_wire("symbol-spacing", &self.symbol_spacing);
        b.optional_wire("symbol-z-elevate", &self.symbol_z_elevate);
        b.optional_wire("symbol-z-order", &self.symbol_z_order);
        b.optional_wire("text-allow-overlap", &self.text_allow_overlap);
        b.optional_wire("text-anchor", &self.text_anchor);
        b.optional_wire("text-field", &self.text_field);
        b.optional_wire("text-font", &self.text_font);
        b.optional_wire("text-ignore-placement", &self.text_ignore_placement);
        b.optional_wire("text-justify", &self.text_justify);
        b.optional_wire("text-keep-upright", &self.text_keep_upright);
        b.optional_wire("text-letter-spacing", &self.text_letter_spacing);
        b.optional_wire("text-line-height", &self.text_line_height);
        b.optional_wire("text-max-angle", &self.text_max_angle);
        b.optional_wire("text-max-width", &self.text_max_width);
        b.optional_wire("text-offset", &self.text_offset);
        b.optional_wire("text-optional", &self.text_optional);
        b.optional_wire("text-padding", &self.text_padding);
        b.optional_wire("text-pitch-alignment", &self.text_pitch_alignment);
        b.optional_wire("text-radial-offset", &self.text_radial_offset);
        b.optional_wire("text-rotate", &self.text_rotate);
        b.optional_wire("text-rotation-alignment", &self.text_rotation_alignment);
        b.optional_wire("text-size", &self.text_size);
        b.optional_wire("text-transform", &self.text_transform);
        b.optional_wire("text-variable-anchor", &self.text_variable_anchor);
        b.optional_wire("text-writing-mode", &self.text_writing_mode);
        b.optional_wire("visibility", &self.visibility);
        b
    }

    /// The place of the property with the wire name `key`, which the length of
    /// the name and a few of its characters tell.
    spec fn place_of(key: Seq<char>) -> int {
        if key.len() == 18 && key[0] == 'i' && key[7] == 'l' && key[9] == 'w' {
            0
        } else if key.len() == 11 && key[0] == 'i' && key[7] == 'c' && key[9] == 'o' {
            1
        } else if key.len() == 21 && key[0] == 'i' && key[7] == 'n' && key[9] == 'r' {
            2
        } else if key.len() == 10 && key[0] == 'i' && key[7] == 'a' && key[9] == 'e' {
            3
        } else if key.len() == 17 && key[0] == 'i' && key[7] == 'e' && key[9] == '-' {
            4
        } else if key.len() == 11 && key[0] == 'i' && key[7] == 'f' && key[9] == 'e' {
            5
        } else if key.len() == 13 && key[0] == 'i' && key[7] == 't' && key[9] == 'o' {
            6
        } else if key.len() == 12 && key[0] == 'i' && key[7] == 'd' && key[9] == 'i' {
            7
        } else if key.len() == 20 && key[0] == 'i' && key[7] == 't' && key[9] == 'h' {
            8
        } else if key.len() == 11 && key[0] == 'i' && key[7] == 't' && key[9] == 't' {
            9
        } else if key.len() == 23 && key[0] == 'i' && key[7] == 't' && key[9] == 't' {
            10
        } else if key.len() == 9 && key[0] == 'i' && key[7] == 'z' {
            11
        } else if key.len() == 13 && key[0] == 'i' && key[7] == 'x' && key[9] == '-' {
            12
        } else if key.len() == 21 && key[0] == 'i' && key[7] == 'x' && key[9] == '-' {
            13
        } else if key.len() == 18 && key[0] == 's' && key[7] == 'a' && key[9] == 'o' {
            14
        } else if key.len() == 16 && key[0] == 's' && key[7] == 'p' && key[9] == 'a' {
            15
        } else if key.len() == 15 && key[0] == 's' && key[7] == 's' && key[9] == 'r' {
            16
        } else if key.len() == 14 && key[0] == 's' && key[7] == 's' && key[9] == 'a' {
            17
        } else if key.len() == 16 && key[0] == 's' && key[7] == 'z' && key[9] == 'e' {
            18
        } else if key.len() == 14 && key[0] == 's' && key[7] == 'z' && key[9] == 'o' {
            19
        } else if key.len() == 18 && key[0] == 't' && key[7] == 'l' && key[9] == 'w' {
            20
        } else if key.len() == 11 && key[0] == 't' && key[7] == 'c' && key[9] == 'o' {
            21
        } else if key.len() == 10 && key[0] == 't' && key[7] == 'e' && key[9] == 'd' {
            22
        } else if key.len() == 9 && key[0] == 't' && key[7] == 'n' {
            23
        } else if key.len() == 21 && key[0] == 't' && key[7] == 'n' && key[9] == 'r' {
            24
        } else if key.len() == 12 && key[0] == 't' && key[7] == 's' && key[9] == 'i' {
            25
        } else if key.len() == 17 && key[0] == 't' && key[7] == 'e' && key[9] == '-' {
            26
        } else if key.len() == 19 && key[0] == 't' && key[7] == 't' && key[9] == 'e' {
            27
        } else if key.len() == 16 && key[0] == 't' && key[7] == 'n' && key[9] == '-' {
            28
        } else if key.len() == 14 && key[0] == 't' && key[7] == 'x' && key[9] == 'a' {
            29
        } else if key.len() == 14 && key[0] == 't' && key[7] == 'x' && key[9] == 'w' {
            30
        } else if key.len() == 11 && key[0] == 't' && key[7] == 'f' && key[9] == 'e' {
            31
        } else if key.len() == 13 && key[0] == 't' && key[7] == 't' && key[9] == 'o' {
            32
        } else if key.len() == 12 && key[0] == 't' && key[7] == 'd' && key[9] == 'i' {
            33
        } else if key.len() == 20 && key[0] == 't' && key[7] == 't' && key[9] == 'h' {
            34
        } else if key.len() == 18 && key[0] == 't' && key[7] == 'd' && key[9] == 'a' {
            35
        } else if key.len() == 11 && key[0] == 't' && key[7] == 't' && key[9] == 't' {
            36
        } else if key.len() == 23 && key[0] == 't' && key[7] == 't' && key[9] == 't' {
            37
        } else if key.len() == 9 && key[0] == 't' && key[7] == 'z' {
            38
        } else if key.len() == 14 && key[0] == 't' && key[7] == 'a' && key[9] == 's' {
            39
        } else if key.len() == 20 && key[0] == 't' && key[7] == 'r' && key[9] == 'a' {
            40
        } else if key.len() == 17 && key[0] == 't' && key[7] == 'i' && key[9] == 'i' {
            41
        } else if key.len() == 10 && key[0] == 'v' && key[7] == 'i' && key[9] == 'y' {
            42
        } else {
            -1
        }
    }

    /// No two properties have one wire name. So looking the wire name of a
    /// property up in the wire form finds the wire form of that property where it
    /// is set, and nothing where it is unset.
    #[verifier::rlimit(50)]
    pub proof fn law_wire_names_are_distinct(&self)
        ensures
            distinct_keys(self.slots()),
            forall|i: int|
                0 <= i < self.slots().len() ==> lookup(
                    flatten(self.slots()),
                    (#[trigger] self.slots()[i]).0,
                ) == self.slots()[i].1,
    {
        reveal_strlit("icon-allow-overlap");
        reveal_strlit("icon-anchor");
        reveal_strlit("icon-ignore-placement");
        reveal_strlit("icon-image");
        reveal_strlit("icon-keep-upright");
        reveal_strlit("icon-offset");
        reveal_strlit("icon-optional");
        reveal_strlit("icon-padding");
        reveal_strlit("icon-pitch-alignment");
        reveal_strlit("icon-rotate");
        reveal_strlit("icon-rotation-alignment");
        reveal_strlit("icon-size");
        reveal_strlit("icon-text-fit");
        reveal_strlit("icon-text-fit-padding");
        reveal_strlit("symbol-avoid-edges");
        reveal_strlit("symbol-placement");
        reveal_strlit("symbol-sort-key");
        reveal_strlit("symbol-spacing");
        reveal_strlit("symbol-z-elevate");
        reveal_strlit("symbol-z-order");
        reveal_strlit("text-allow-overlap");
        reveal_strlit("text-anchor");
        reveal_strlit("text-field");
        reveal_strlit("text-font");
        reveal_strlit("text-ignore-placement");
        reveal_strlit("text-justify");
        reveal_strlit("text-keep-upright");
        reveal_strlit("text-letter-spacing");
        reveal_strlit("text-line-height");
        reveal_strlit("text-max-angle");
        reveal_strlit("text-max-width");
        reveal_strlit("text-offset");
        reveal_strlit("text-optional");
        reveal_strlit("text-padding");
        reveal_strlit("text-pitch-alignment");
        reveal_strlit("text-radial-offset");
        reveal_strlit("text-rotate");
        reveal_strlit("text-rotation-alignment");
        reveal_strlit("text-size");
        reveal_strlit("text-transform");
        reveal_strlit("text-variable-anchor");
        reveal_strlit("text-writing-mode");
        reveal_strlit("visibility");
        let slots = self.slots();
        assert(SymbolLayout::place_of(slots[0].0) == 0);
        assert(SymbolLayout::place_of(slots[1].0) == 1);
        assert(SymbolLayout::place_of(slots[2].0) == 2);
        assert(SymbolLayout::place_of(slots[3].0) == 3);
        assert(SymbolLayout::place_of(slots[4].0) == 4);
        assert(SymbolLayout::place_of(slots[5].0) == 5);
        assert(SymbolLayout::place_of(slots[6].0) == 6);
        assert(SymbolLayout::place_of(slots[7].0) == 7);
        assert(SymbolLayout::place_of(slots[8].0) == 8);
        assert(SymbolLayout::place_of(slots[9].0) == 9);
        assert(SymbolLayout::place_of(slots[10].0) == 10);
        assert(SymbolLayout::place_of(slots[11].0) == 11);
        assert(SymbolLayout::place_of(slots[12].0) == 12);
        assert(SymbolLayout::place_of(slots[13].0) == 13);
        assert(SymbolLayout::place_of(slots[14].0) == 14);
        assert(SymbolLayout::place_of(slots[15].0) == 15);
        assert(SymbolLayout::place_of(slots[16].0) == 16);
        assert(SymbolLayout::place_of(slots[17].0) == 17);
        assert(SymbolLayout::place_of(slots[18].0) == 18);
        assert(SymbolLayout::place_of(slots[19].0) == 19);
        assert(SymbolLayout::place_of(slots[20].0) == 20);
        assert(SymbolLayout::place_of(slots[21].0) == 21);
        assert(SymbolLayout::place_of(slots[22].0) == 22);
        assert(SymbolLayout::place_of(slots[23].0) == 23);
        assert(SymbolLayout::place_of(slots[24].0) == 24);
        assert(SymbolLayout::place_of(slots[25].0) == 25);
        assert(SymbolLayout::place_of(slots[26].0) == 26);
        assert(SymbolLayout::place_of(slots[27].0) == 27);
        assert(SymbolLayout::place_of(slots[28].0) == 28);
        assert(SymbolLayout::place_of(slots[29].0) == 29);
        assert(SymbolLayout::place_of(slots[30].0) == 30);
        assert(SymbolLayout::place_of(slots[31].0) == 31);
        assert(SymbolLayout::place_of(slots[32].0) == 32);
        assert(SymbolLayout::place_of(slots[33].0) == 33);
        assert(SymbolLayout::place_of(slots[34].0) == 34);
        assert(SymbolLayout::place_of(slots[35].0) == 35);
        assert(SymbolLayout::place_of(slots[36].0) == 36);
        assert(SymbolLayout::place_of(slots[37].0) == 37);
        assert(SymbolLayout::place_of(slots[38].0) == 38);
        assert(SymbolLayout::place_of(slots[39].0) == 39);
        assert(SymbolLayout::place_of(slots[40].0) == 40);
        assert(SymbolLayout::place_of(slots[41].0) == 41);
        assert(SymbolLayout::place_of(slots[42].0) == 42);
        assert forall|i: int| 0 <= i < slots.len() implies SymbolLayout::place_of(
            (#[trigger] slots[i]).0,
        ) - 0 == i by {
        }
        lemma_placed_keys_are_distinct(slots, |key: Seq<char>| SymbolLayout::place_of(key) - 0);
        assert forall|i: int| 0 <= i < slots.len() implies lookup(
            flatten(slots),
            (#[trigger] slots[i]).0,
        ) == slots[i].1 by {
            law_lookup_of_distinct_keys(slots, i);
        }
    }
}

impl ToWire for SymbolLayout {
    /// The object of the properties that are set.
    open spec fn wire(&self) -> ValueView {
        ValueView::Object(flatten(self.slots()))
    }

    fn to_wire(&self) -> (value: Value) {
        self.to_entries().finish()
    }
}

impl SymbolLayout {
    /// Whether every property of a wire value can be read: what must be there
    /// is there, and what is there has the right shape.
    pub open spec fn all_read(value: ValueView) -> bool {
        &&& read_optional::<Expression<()>>(value.get("icon-allow-overlap"@)) is Some
        &&& read_optional::<Expression<Anchor>>(value.get("icon-anchor"@)) is Some
        &&& read_optional::<Expression<()>>(value.get("icon-ignore-placement"@)) is Some
        &&& read_optional::<Expression<()>>(value.get("icon-image"@)) is Some
        &&& read_optional::<Expression<()>>(value.get("icon-keep-upright"@)) is Some
        &&& read_optional::<Expression<()>>(value.get("icon-offset"@)) is Some
        &&& read_optional::<Expression<()>>(value.get("icon-optional"@)) is Some
        &&& read_optional::<Expression<()>>(value.get("icon-padding"@)) is Some
        &&& read_optional::<Expression<Alignment>>(value.get("icon-pitch-alignment"@)) is Some
        &&& read_optional::<Expression<()>>(value.get("icon-rotate"@)) is Some
        &&& read_optional::<Expression<Alignment>>(value.get("icon-rotation-alignment"@)) is Some
        &&& read_optional::<Expression<()>>(value.get("icon-size"@)) is Some
        &&& read_optional::<Expression<IconTextFit>>(value.get("icon-text-fit"@)) is Some
        &&& read_optional::<Expression<()>>(value.get("icon-text-fit-padding"@)) is Some
        &&& read_optional::<Expression<()>>(value.get("symbol-avoid-edges"@)) is Some
        &&& read_optional::<Expression<()>>(value.get("symbol-placement"@)) is Some
        &&& read_optional::<Expression<()>>(value.get("symbol-sort-key"@)) is Some
        &&& read_optional::<Expression<()>>(value.get("symbol-spacing"@)) is Some
        &&& read_optional::<Expression<()>>(value.get("symbol-z-elevate"@)) is Some
        &&& read_optional::<Expression<SymbolZOrder>>(value.get("symbol-z-order"@)) is Some
        &&& read_optional::<Expression<()>>(value.get("text-allow-overlap"@)) is Some
        &&& read_optional::<Expression<Anchor>>(value.get("text-anchor"@)) is Some
        &&& read_optional::<Expression<()>>(value.get("text-field"@)) is Some
        &&& read_optional::<Expression<()>>(value.get("text-font"@)) is Some
        &&& read_optional::<Expression<()>>(value.get("text-ignore-placement"@)) is Some
        &&& read_optional::<Expression<TextJustify>>(value.get("text-justify"@)) is Some
        &&& read_optional::<Expression<()>>(value.get("text-keep-upright"@)) is Some
        &&& read_optional::<Expression<()>>(value.get("text-letter-spacing"@)) is Some
        &&& read_optional::<Expression<()>>(value.get("text-line-height"@)) is Some
        &&& read_optional::<Expression<()>>(value.get("text-max-angle"@)) is Some
        &&& read_optional::<Expression<()>>(value.get("text-max-width"@)) is Some
        &&& read_optional::<Expression<()>>(value.get("text-offset"@)) is Some
        &&& read_optional::<Expression<()>>(value.get("text-optional"@)) is Some
        &&& read_optional::<Expression<()>>(value.get("text-padding"@)) is Some
        &&& read_optional::<Expression<Alignment>>(value.get("text-pitch-alignment"@)) is Some
        &&& read_optional::<Expression<()>>(value.get("text-radial-offset"@)) is Some
        &&& read_optional::<Expression<()>>(value.get("text-rotate"@)) is Some
        &&& read_optional::<Expression<Alignment>>(value.get("text-rotation-alignment"@)) is Some
        &&& read_optional::<Expression<()>>(value.get("text-size"@)) is Some
        &&& read_optional::<Expression<TextTransform>>(value.get("text-transform"@)) is Some
        &&& read_optional::<Expression<Anchor>>(value.get("text-variable-anchor"@)) is Some
        &&& read_optional::<Expression<()>>(value.get("text-writing-mode"@)) is Some
        &&& read_optional::<Visibility>(value.get("visibility"@)) is Some
    }

    /// The slots that the properties of a wire value are read as, in order.
    pub open spec fn read_slots(value: ValueView) -> Slots {
        seq![
            ("icon-allow-overlap"@, read_optional::<Expression<()>>(value.get("icon-allow-overlap"@))->Some_0),
            ("icon-anchor"@, read_optional::<Expression<Anchor>>(value.get("icon-anchor"@))->Some_0),
            ("icon-ignore-placement"@, read_optional::<Expression<()>>(value.get("icon-ignore-placement"@))->Some_0),
            ("icon-image"@, read_optional::<Expression<()>>(value.get("icon-image"@))->Some_0),
            ("icon-keep-upright"@, read_optional::<Expression<()>>(value.get("icon-keep-upright"@))->Some_0),
            ("icon-offset"@, read_optional::<Expression<()>>(value.get("icon-offset"@))->Some_0),
            ("icon-optional"@, read_optional::<Expression<()>>(value.get("icon-optional"@))->Some_0),
            ("icon-padding"@, read_optional::<Expression<()>>(value.get("icon-padding"@))->Some_0),
            ("icon-pitch-alignment"@, read_optional::<Expression<Alignment>>(value.get("icon-pitch-alignment"@))->Some_0),
            ("icon-rotate"@, read_optional::<Expression<()>>(value.get("icon-rotate"@))->Some_0),
            ("icon-rotation-alignment"@, read_optional::<Expression<Alignment>>(value.get("icon-rotation-alignment"@))->Some_0),
            ("icon-size"@, read_optional::<Expression<()>>(value.get("icon-size"@))->Some_0),
            ("icon-text-fit"@, read_optional::<Expression<IconTextFit>>(value.get("icon-text-fit"@))->Some_0),
            ("icon-text-fit-padding"@, read_optional::<Expression<()>>(value.get("icon-text-fit-padding"@))->Some_0),
            ("symbol-avoid-edges"@, read_optional::<Expression<()>>(value.get("symbol-avoid-edges"@))->Some_0),
            ("symbol-placement"@, read_optional::<Expression<()>>(value.get("symbol-placement"@))->Some_0),
            ("symbol-sort-key"@, read_optional::<Expression<()>>(value.get("symbol-sort-key"@))->Some_0),
            ("symbol-spacing"@, read_optional::<Expression<()>>(value.get("symbol-spacing"@))->Some_0),
            ("symbol-z-elevate"@, read_optional::<Expression<()>>(value.get("symbol-z-elevate"@))->Some_0),
            ("symbol-z-order"@, read_optional::<Expression<SymbolZOrder>>(value.get("symbol-z-order"@))->Some_0),
            ("text-allow-overlap"@, read_optional::<Expression<()>>(value.get("text-allow-overlap"@))->Some_0),
            ("text-anchor"@, read_optional::<Expression<Anchor>>(value.get("text-anchor"@))->Some_0),
            ("text-field"@, read_optional::<Expression<()>>(value.get("text-field"@))->Some_0),
            ("text-font"@, read_optional::<Expression<()>>(value.get("text-font"@))->Some_0),
            ("text-ignore-placement"@, read_optional::<Expression<()>>(value.get("text-ignore-placement"@))->Some_0),
            ("text-justify"@, read_optional::<Expression<TextJustify>>(value.get("text-justify"@))->Some_0),
            ("text-keep-upright"@, read_optional::<Expression<()>>(value.get("text-keep-upright"@))->Some_0),
            ("text-letter-spacing"@, read_optional::<Expression<()>>(value.get("text-letter-spacing"@))->Some_0),
            ("text-line-height"@, read_optional::<Expression<()>>(value.get("text-line-height"@))->Some_0),
            ("text-max-angle"@, read_optional::<Expression<()>>(value.get("text-max-angle"@))->Some_0),
            ("text-max-width"@, read_optional::<Expression<()>>(value.get("text-max-width"@))->Some_0),
            ("text-offset"@, read_optional::<Expression<()>>(value.get("text-offset"@))->Some_0),
            ("text-optional"@, read_optional::<Expression<()>>(value.get("text-optional"@))->Some_0),
            ("text-padding"@, read_optional::<Expression<()>>(value.get("text-padding"@))->Some_0),
            ("text-pitch-alignment"@, read_optional::<Expression<Alignment>>(value.get("text-pitch-alignment"@))->Some_0),
            ("text-radial-offset"@, read_optional::<Expression<()>>(value.get("text-radial-offset"@))->Some_0),
            ("text-rotate"@, read_optional::<Expression<()>>(value.get("text-rotate"@))->Some_0),
            ("text-rotation-alignment"@, read_optional::<Expression<Alignment>>(value.get("text-rotation-alignment"@))->Some_0),
            ("text-size"@, read_optional::<Expression<()>>(value.get("text-size"@))->Some_0),
            ("text-transform"@, read_optional::<Expression<TextTransform>>(value.get("text-transform"@))->Some_0),
            ("text-variable-anchor"@, read_optional::<Expression<Anchor>>(value.get("text-variable-anchor"@))->Some_0),
            ("text-writing-mode"@, read_optional::<Expression<()>>(value.get("text-writing-mode"@))->Some_0),
            ("visibility"@, read_optional::<Visibility>(value.get("visibility"@))->Some_0),
        ]
    }

    fn read_part_0(value: &Value) -> (res: Option<(Option<Expression<()>>, Option<Expression<Anchor>>, Option<Expression<()>>, Option<Expression<()>>, Option<Expression<()>>, Option<Expression<()>>, Option<Expression<()>>, Option<Expression<()>>,)>)
        ensures
            match res {
                Some(part) => {
                    &&& read_optional::<Expression<()>>(value@.get("icon-allow-overlap"@)) == Some(optional_wire(part.0))
                    &&& read_optional::<Expression<Anchor>>(value@.get("icon-anchor"@)) == Some(optional_wire(part.1))
                    &&& read_optional::<Expression<()>>(value@.get("icon-ignore-placement"@)) == Some(optional_wire(part.2))
                    &&& read_optional::<Expression<()>>(value@.get("icon-image"@)) == Some(optional_wire(part.3))
                    &&& read_optional::<Expression<()>>(value@.get("icon-keep-upright"@)) == Some(optional_wire(part.4))
                    &&& read_optional::<Expression<()>>(value@.get("icon-offset"@)) == Some(optional_wire(part.5))
                    &&& read_optional::<Expression<()>>(value@.get("icon-optional"@)) == Some(optional_wire(part.6))
                    &&& read_optional::<Expression<()>>(value@.get("icon-padding"@)) == Some(optional_wire(part.7))
                },
                None => !Self::all_read(value@),
            },
    {
        let icon_allow_overlap = match optional::<Expression<()>>(value.get("icon-allow-overlap")) {
            Some(read) => read,
            None => {
                return None;
            },
        };
        let icon_anchor = match optional::<Expression<Anchor>>(value.get("icon-anchor")) {
            Some(read) => read,
            None => {
                return None;
            },
        };
        let icon_ignore_placement = match optional::<Expression<()>>(value.get("icon-ignore-placement")) {
            Some(read) => read,
            None => {
                return None;
            },
        };
        let icon_image = match optional::<Expression<()>>(value.get("icon-image")) {
            Some(read) => read,
            None => {
                return None;
            },
        };
        let icon_keep_upright = match optional::<Expression<()>>(value.get("icon-keep-upright")) {
            Some(read) => read,
            None => {
                return None;
            },
        };
        let icon_offset = match optional::<Expression<()>>(value.get("icon-offset")) {
            Some(read) => read,
            None => {
                return None;
            },
        };
        let icon_optional = match optional::<Expression<()>>(value.get("icon-optional")) {
            Some(read) => read,
            None => {
                return None;
            },
        };
        let icon_padding = match optional::<Expression<()>>(value.get("icon-padding")) {
            Some(read) => read,
            None => {
                return None;
            },
        };
        Some((icon_allow_overlap, icon_anchor, icon_ignore_placement, icon_image, icon_keep_upright, icon_offset, icon_optional, icon_padding,))
    }

    fn read_part_1(value: &Value) -> (res: Option<(Option<Expression<Alignment>>, Option<Expression<()>>, Option<Expression<Alignment>>, Option<Expression<()>>, Option<Expression<IconTextFit>>, Option<Expression<()>>, Option<Expression<()>>, Option<Expression<()>>,)>)
        ensures
            match res {
                Some(part) => {
                    &&& read_optional::<Expression<Alignment>>(value@.get("icon-pitch-alignment"@)) == Some(optional_wire(part.0))
                    &&& read_optional::<Expression<()>>(value@.get("icon-rotate"@)) == Some(optional_wire(part.1))
                    &&& read_optional::<Expression<Alignment>>(value@.get("icon-rotation-alignment"@)) == Some(optional_wire(part.2))
                    &&& read_optional::<Expression<()>>(value@.get("icon-size"@)) == Some(optional_wire(part.3))
                    &&& read_optional::<Expression<IconTextFit>>(value@.get("icon-text-fit"@)) == Some(optional_wire(part.4))
                    &&& read_optional::<Expression<()>>(value@.get("icon-text-fit-padding"@)) == Some(optional_wire(part.5))
                    &&& read_optional::<Expression<()>>(value@.get("symbol-avoid-edges"@)) == Some(optional_wire(part.6))
                    &&& read_optional::<Expression<()>>(value@.get("symbol-placement"@)) == Some(optional_wire(part.7))
                },
                None => !Self::all_read(value@),
            },
    {
        let icon_pitch_alignment = match optional::<Expression<Alignment>>(value.get("icon-pitch-alignment")) {
            Some(read) => read,
            None => {
                return None;
            },
        };
        let icon_rotate = match optional::<Expression<()>>(value.get("icon-rotate")) {
            Some(read) => read,
            None => {
                return None;
            },
        };
        let icon_rotation_alignment = match optional::<Expression<Alignment>>(value.get("icon-rotation-alignment")) {
            Some(read) => read,
            None => {
                return None;
            },
        };
        let icon_size = match optional::<Expression<()>>(value.get("icon-size")) {
            Some(read) => read,
            None => {
                return None;
            },
        };
        let icon_text_fit = match optional::<Expression<IconTextFit>>(value.get("icon-text-fit")) {
            Some(read) => read,
            None => {
                return None;
            },
        };
        let icon_text_fit_padding = match optional::<Expression<()>>(value.get("icon-text-fit-padding")) {
            Some(read) => read,
            None => {
                return None;
            },
        };
        let symbol_avoid_edges = match optional::<Expression<()>>(value.get("symbol-avoid-edges")) {
            Some(read) => read,
            None => {
                return None;
            },
        };
        let symbol_placement = match optional::<Expression<()>>(value.get("symbol-placement")) {
            Some(read) => read,
            None => {
                return None;
            },
        };
        Some((icon_pitch_alignment, icon_rotate, icon_rotation_alignment, icon_size, icon_text_fit, icon_text_fit_padding, symbol_avoid_edges, symbol_placement,))
    }

    fn read_part_2(value: &Value) -> (res: Option<(Option<Expression<()>>, Option<Expression<()>>, Option<Expression<()>>, Option<Expression<SymbolZOrder>>, Option<Expression<()>>, Option<Expression<Anchor>>, Option<Expression<()>>, Option<Expression<()>>,)>)
        ensures
            match res {
                Some(part) => {
                    &&& read_optional::<Expression<()>>(value@.get("symbol-sort-key"@)) == Some(optional_wire(part.0))
                    &&& read_optional::<Expression<()>>(value@.get("symbol-spacing"@)) == Some(optional_wire(part.1))
                    &&& read_optional::<Expression<()>>(value@.get("symbol-z-elevate"@)) == Some(optional_wire(part.2))
                    &&& read_optional::<Expression<SymbolZOrder>>(value@.get("symbol-z-order"@)) == Some(optional_wire(part.3))
                    &&& read_optional::<Expression<()>>(value@.get("text-allow-overlap"@)) == Some(optional_wire(part.4))
                    &&& read_optional::<Expression<Anchor>>(value@.get("text-anchor"@)) == Some(optional_wire(part.5))
                    &&& read_optional::<Expression<()>>(value@.get("text-field"@)) == Some(optional_wire(part.6))
                    &&& read_optional::<Expression<()>>(value@.get("text-font"@)) == Some(optional_wire(part.7))
                },
                None => !Self::all_read(value@),
            },
    {
        let symbol_sort_key = match optional::<Expression<()>>(value.get("symbol-sort-key")) {
            Some(read) => read,
            None => {
                return None;
            },
        };
        let symbol_spacing = match optional::<Expression<()>>(value.get("symbol-spacing")) {
            Some(read) => read,
            None => {
                return None;
            },
        };
        let symbol_z_elevate = match optional::<Expression<()>>(value.get("symbol-z-elevate")) {
            Some(read) => read,
            None => {
                return None;
            },
        };
        let symbol_z_order = match optional::<Expression<SymbolZOrder>>(value.get("symbol-z-order")) {
            Some(read) => read,
            None => {
                return None;
            },
        };
        let text_allow_overlap = match optional::<Expression<()>>(value.get("text-allow-overlap")) {
            Some(read) => read,
            None => {
                return None;
            },
        };
        let text_anchor = match optional::<Expression<Anchor>>(value.get("text-anchor")) {
            Some(read) => read,
            None => {
                return None;
            },
        };
        let text_field = match optional::<Expression<()>>(value.get("text-field")) {
            Some(read) => read,
            None => {
                return None;
            },
        };
        let text_font = match optional::<Expression<()>>(value.get("text-font")) {
            Some(read) => read,
            None => {
                return None;
            },
        };
        Some((symbol_sort_key, symbol_spacing, symbol_z_elevate, symbol_z_order, text_allow_overlap, text_anchor, text_field, text_font,))
    }

    fn read_part_3(value: &Value) -> (res: Option<(Option<Expression<()>>, Option<Expression<TextJustify>>, Option<Expression<()>>, Option<Expression<()>>, Option<Expression<()>>, Option<Expression<()>>, Option<Expression<()>>, Option<Expression<()>>,)>)
        ensures
            match res {
                Some(part) => {
                    &&& read_optional::<Expression<()>>(value@.get("text-ignore-placement"@)) == Some(optional_wire(part.0))
                    &&& read_optional::<Expression<TextJustify>>(value@.get("text-justify"@)) == Some(optional_wire(part.1))
                    &&& read_optional::<Expression<()>>(value@.get("text-keep-upright"@)) == Some(optional_wire(part.2))
                    &&& read_optional::<Expression<()>>(value@.get("text-letter-spacing"@)) == Some(optional_wire(part.3))
                    &&& read_optional::<Expression<()>>(value@.get("text-line-height"@)) == Some(optional_wire(part.4))
                    &&& read_optional::<Expression<()>>(value@.get("text-max-angle"@)) == Some(optional_wire(part.5))
                    &&& read_optional::<Expression<()>>(value@.get("text-max-width"@)) == Some(optional_wire(part.6))
                    &&& read_optional::<Expression<()>>(value@.get("text-offset"@)) == Some(optional_wire(part.7))
                },
                None => !Self::all_read(value@),
            },
    {
        let text_ignore_placement = match optional::<Expression<()>>(value.get("text-ignore-placement")) {
            Some(read) => read,
            None => {
                return None;
            },
        };
        let text_justify = match optional::<Expression<TextJustify>>(value.get("text-justify")) {
            Some(read) => read,
            None => {
                return None;
            },
        };
        let text_keep_upright = match optional::<Expression<()>>(value.get("text-keep-upright")) {
            Some(read) => read,
            None => {
                return None;
            },
        };
        let text_letter_spacing = match optional::<Expression<()>>(value.get("text-letter-spacing")) {
            Some(read) => read,
            None => {
                return None;
            },
        };
        let text_line_height = match optional::<Expression<()>>(value.get("text-line-height")) {
            Some(read) => read,
            None => {
                return None;
            },
        };
        let text_max_angle = match optional::<Expression<()>>(value.get("text-max-angle")) {
            Some(read) => read,
            None => {
                return None;
            },
        };
        let text_max_width = match optional::<Expression<()>>(value.get("text-max-width")) {
            Some(read) => read,
            None => {
                return None;
            },
        };
        let text_offset = match optional::<Expression<()>>(value.get("text-offset")) {
            Some(read) => read,
            None => {
                return None;
            },
        };
        Some((text_ignore_placement, text_justify, text_keep_upright, text_letter_spacing, text_line_height, text_max_angle, text_max_width, text_offset,))
    }

    fn read_part_4(value: &Value) -> (res: Option<(Option<Expression<()>>, Option<Expression<()>>, Option<Expression<Alignment>>, Option<Expression<()>>, Option<Expression<()>>, Option<Expression<Alignment>>, Option<Expression<()>>, Option<Expression<TextTransform>>,)>)
        ensures
            match res {
                Some(part) => {
                    &&& read_optional::<Expression<()>>(value@.get("text-optional"@)) == Some(optional_wire(part.0))
                    &&& read_optional::<Expression<()>>(value@.get("text-padding"@)) == Some(optional_wire(part.1))
                    &&& read_optional::<Expression<Alignment>>(value@.get("text-pitch-alignment"@)) == Some(optional_wire(part.2))
                    &&& read_optional::<Expression<()>>(value@.get("text-radial-offset"@)) == Some(optional_wire(part.3))
                    &&& read_optional::<Expression<()>>(value@.get("text-rotate"@)) == Some(optional_wire(part.4))
                    &&& read_optional::<Expression<Alignment>>(value@.get("text-rotation-alignment"@)) == Some(optional_wire(part.5))
                    &&& read_optional::<Expression<()>>(value@.get("text-size"@)) == Some(optional_wire(part.6))
                    &&& read_optional::<Expression<TextTransform>>(value@.get("text-transform"@)) == Some(optional_wire(part.7))
                },
                None => !Self::all_read(value@),
            },
    {
        let text_optional = match optional::<Expression<()>>(value.get("text-optional")) {
            Some(read) => read,
            None => {
                return None;
            },
        };
        let text_padding = match optional::<Expression<()>>(value.get("text-padding")) {
            Some(read) => read,
            None => {
                return None;
            },
        };
        let text_pitch_alignment = match optional::<Expression<Alignment>>(value.get("text-pitch-alignment")) {
            Some(read) => read,
            None => {
                return None;
            },
        };
        let text_radial_offset = match optional::<Expression<()>>(value.get("text-radial-offset")) {
            Some(read) => read,
            None => {
                return None;
            },
        };
        let text_rotate = match optional::<Expression<()>>(value.get("text-rotate")) {
            Some(read) => read,
            None => {
                return None;
            },
        };
        let text_rotation_alignment = match optional::<Expression<Alignment>>(value.get("text-rotation-alignment")) {
            Some(read) => read,
            None => {
                return None;
            },
        };
        let text_size = match optional::<Expression<()>>(value.get("text-size")) {
            Some(read) => read,
            None => {
                return None;
            },
        };
        let text_transform = match optional::<Expression<TextTransform>>(value.get("text-transform")) {
            Some(read) => read,
            None => {
                return None;
            },
        };
        Some((text_optional, text_padding, text_pitch_alignment, text_radial_offset, text_rotate, text_rotation_alignment, text_size, text_transform,))
    }

    fn read_part_5(value: &Value) -> (res: Option<(Option<Expression<Anchor>>, Option<Expression<()>>, Option<Visibility>,)>)
        ensures
            match res {
                Some(part) => {
                    &&& read_optional::<Expression<Anchor>>(value@.get("text-variable-anchor"@)) == Some(optional_wire(part.0))
                    &&& read_optional::<Expression<()>>(value@.get("text-writing-mode"@)) == Some(optional_wire(part.1))
                    &&& read_optional::<Visibility>(value@.get("visibility"@)) == Some(optional_wire(part.2))
                },
                None => !Self::all_read(value@),
            },
    {
        let text_variable_anchor = match optional::<Expression<Anchor>>(value.get("text-variable-anchor")) {
            Some(read) => read,
            None => {
                return None;
            },
        };
        let text_writing_mode = match optional::<Expression<()>>(value.get("text-writing-mode")) {
            Some(read) => read,
            None => {
                return None;
            },
        };
        let visibility = match optional::<Visibility>(value.get("visibility")) {
            Some(read) => read,
            None => {
                return None;
            },
        };
        Some((text_variable_anchor, text_writing_mode, visibility,))
    }

    /// Reading an object in which looking up the name of each property of
    /// the value finds that property gives the value back.
    pub proof fn lemma_read_from(&self, entries: Seq<(Seq<char>, ValueView)>)
        requires
            self.comes_back(),
            forall|i: int|
                0 <= i < self.slots().len() ==> lookup(entries, (#[trigger] self.slots()[i]).0)
                    == self.slots()[i].1,
        ensures
            Self::spec_read(ValueView::Object(entries)) == Some(self.wire()),
    {
        let value = ValueView::Object(entries);
        let slots = self.slots();
        assert(value.get(slots[0].0) == slots[0].1);
        lemma_optional_round_trip::<Expression<()>>(self.icon_allow_overlap);
        assert(value.get(slots[1].0) == slots[1].1);
        lemma_optional_round_trip::<Expression<Anchor>>(self.icon_anchor);
        assert(value.get(slots[2].0) == slots[2].1);
        lemma_optional_round_trip::<Expression<()>>(self.icon_ignore_placement);
        assert(value.get(slots[3].0) == slots[3].1);
        lemma_optional_round_trip::<Expression<()>>(self.icon_image);
        assert(value.get(slots[4].0) == slots[4].1);
        lemma_optional_round_trip::<Expression<()>>(self.icon_keep_upright);
        assert(value.get(slots[5].0) == slots[5].1);
        lemma_optional_round_trip::<Expression<()>>(self.icon_offset);
        assert(value.get(slots[6].0) == slots[6].1);
        lemma_optional_round_trip::<Expression<()>>(self.icon_optional);
        assert(value.get(slots[7].0) == slots[7].1);
        lemma_optional_round_trip::<Expression<()>>(self.icon_padding);
        assert(value.get(slots[8].0) == slots[8].1);
        lemma_optional_round_trip::<Expression<Alignment>>(self.icon_pitch_alignment);
        assert(value.get(slots[9].0) == slots[9].1);
        lemma_optional_round_trip::<Expression<()>>(self.icon_rotate);
        assert(value.get(slots[10].0) == slots[10].1);
        lemma_optional_round_trip::<Expression<Alignment>>(self.icon_rotation_alignment);
        assert(value.get(slots[11].0) == slots[11].1);
        lemma_optional_round_trip::<Expression<()>>(self.icon_size);
        assert(value.get(slots[12].0) == slots[12].1);
        lemma_optional_round_trip::<Expression<IconTextFit>>(self.icon_text_fit);
        assert(value.get(slots[13].0) == slots[13].1);
        lemma_optional_round_trip::<Expression<()>>(self.icon_text_fit_padding);
        assert(value.get(slots[14].0) == slots[14].1);
        lemma_optional_round_trip::<Expression<()>>(self.symbol_avoid_edges);
        assert(value.get(slots[15].0) == slots[15].1);
        lemma_optional_round_trip::<Expression<()>>(self.symbol_placement);
        assert(value.get(slots[16].0) == slots[16].1);
        lemma_optional_round_trip::<Expression<()>>(self.symbol_sort_key);
        assert(value.get(slots[17].0) == slots[17].1);
        lemma_optional_round_trip::<Expression<()>>(self.symbol_spacing);
        assert(value.get(slots[18].0) == slots[18].1);
        lemma_optional_round_trip::<Expression<()>>(self.symbol_z_elevate);
        assert(value.get(slots[19].0) == slots[19].1);
        lemma_optional_round_trip::<Expression<SymbolZOrder>>(self.symbol_z_order);
        assert(value.get(slots[20].0) == slots[20].1);
        lemma_optional_round_trip::<Expression<()>>(self.text_allow_overlap);
        assert(value.get(slots[21].0) == slots[21].1);
        lemma_optional_round_trip::<Expression<Anchor>>(self.text_anchor);
        assert(value.get(slots[22].0) == slots[22].1);
        lemma_optional_round_trip::<Expression<()>>(self.text_field);
        assert(value.get(slots[23].0) == slots[23].1);
        lemma_optional_round_trip::<Expression<()>>(self.text_font);
        assert(value.get(slots[24].0) == slots[24].1);
        lemma_optional_round_trip::<Expression<()>>(self.text_ignore_placement);
        assert(value.get(slots[25].0) == slots[25].1);
        lemma_optional_round_trip::<Expression<TextJustify>>(self.text_justify);
        assert(value.get(slots[26].0) == slots[26].1);
        lemma_optional_round_trip::<Expression<()>>(self.text_keep_upright);
        assert(value.get(slots[27].0) == slots[27].1);
        lemma_optional_round_trip::<Expression<()>>(self.text_letter_spacing);
        assert(value.get(slots[28].0) == slots[28].1);
        lemma_optional_round_trip::<Expression<()>>(self.text_line_height);
        assert(value.get(slots[29].0) == slots[29].1);
        lemma_optional_round_trip::<Expression<()>>(self.text_max_angle);
        assert(value.get(slots[30].0) == slots[30].1);
        lemma_optional_round_trip::<Expression<()>>(self.text_max_width);
        assert(value.get(slots[31].0) == slots[31].1);
        lemma_optional_round_trip::<Expression<()>>(self.text_offset);
        assert(value.get(slots[32].0) == slots[32].1);
        lemma_optional_round_trip::<Expression<()>>(self.text_optional);
        assert(value.get(slots[33].0) == slots[33].1);
        lemma_optional_round_trip::<Expression<()>>(self.text_padding);
        assert(value.get(slots[34].0) == slots[34].1);
        lemma_optional_round_trip::<Expression<Alignment>>(self.text_pitch_alignment);
        assert(value.get(slots[35].0) == slots[35].1);
        lemma_optional_round_trip::<Expression<()>>(self.text_radial_offset);
        assert(value.get(slots[36].0) == slots[36].1);
        lemma_optional_round_trip::<Expression<()>>(self.text_rotate);
        assert(value.get(slots[37].0) == slots[37].1);
        lemma_optional_round_trip::<Expression<Alignment>>(self.text_rotation_alignment);
        assert(value.get(slots[38].0) == slots[38].1);
        lemma_optional_round_trip::<Expression<()>>(self.text_size);
        assert(value.get(slots[39].0) == slots[39].1);
        lemma_optional_round_trip::<Expression<TextTransform>>(self.text_transform);
        assert(value.get(slots[40].0) == slots[40].1);
        lemma_optional_round_trip::<Expression<Anchor>>(self.text_variable_anchor);
        assert(value.get(slots[41].0) == slots[41].1);
        lemma_optional_round_trip::<Expression<()>>(self.text_writing_mode);
        assert(value.get(slots[42].0) == slots[42].1);
        lemma_optional_round_trip::<Visibility>(self.visibility);
    }
}

impl FromWire for SymbolLayout {
    /// The value is read from an object, property by property. Properties of
    /// other names are passed over.
    open spec fn spec_read(value: ValueView) -> Option<ValueView> {
        if value is Object && Self::all_read(value) {
            Some(ValueView::Object(flatten(Self::read_slots(value))))
        } else {
            None
        }
    }

    open spec fn comes_back(&self) -> bool {
        &&& optional_comes_back(self.icon_allow_overlap)
        &&& optional_comes_back(self.icon_anchor)
        &&& optional_comes_back(self.icon_ignore_placement)
        &&& optional_comes_back(self.icon_image)
        &&& optional_comes_back(self.icon_keep_upright)
        &&& optional_comes_back(self.icon_offset)
        &&& optional_comes_back(self.icon_optional)
        &&& optional_comes_back(self.icon_padding)
        &&& optional_comes_back(self.icon_pitch_alignment)
        &&& optional_comes_back(self.icon_rotate)
        &&& optional_comes_back(self.icon_rotation_alignment)
        &&& optional_comes_back(self.icon_size)
        &&& optional_comes_back(self.icon_text_fit)
        &&& optional_comes_back(self.icon_text_fit_padding)
        &&& optional_comes_back(self.symbol_avoid_edges)
        &&& optional_comes_back(self.symbol_placement)
        &&& optional_comes_back(self.symbol_sort_key)
        &&& optional_comes_back(self.symbol_spacing)
        &&& optional_comes_back(self.symbol_z_elevate)
        &&& optional_comes_back(self.symbol_z_order)
        &&& optional_comes_back(self.text_allow_overlap)
        &&& optional_comes_back(self.text_anchor)
        &&& optional_comes_back(self.text_field)
        &&& optional_comes_back(self.text_font)
        &&& optional_comes_back(self.text_ignore_placement)
        &&& optional_comes_back(self.text_justify)
        &&& optional_comes_back(self.text_keep_upright)
        &&& optional_comes_back(self.text_letter_spacing)
        &&& optional_comes_back(self.text_line_height)
        &&& optional_comes_back(self.text_max_angle)
        &&& optional_comes_back(self.text_max_width)
        &&& optional_comes_back(self.text_offset)
        &&& optional_comes_back(self.text_optional)
        &&& optional_comes_back(self.text_padding)
        &&& optional_comes_back(self.text_pitch_alignment)
        &&& optional_comes_back(self.text_radial_offset)
        &&& optional_comes_back(self.text_rotate)
        &&& optional_comes_back(self.text_rotation_alignment)
        &&& optional_comes_back(self.text_size)
        &&& optional_comes_back(self.text_transform)
        &&& optional_comes_back(self.text_variable_anchor)
        &&& optional_comes_back(self.text_writing_mode)
        &&& optional_comes_back(self.visibility)
    }

    fn from_wire(value: &Value) -> (res: Option<SymbolLayout>) {
        match value {
            Value::Object(_) => {},
            _ => {
                return None;
            },
        }
        let part_0 = match Self::read_part_0(value) {
            Some(part) => part,
            None => {
                return None;
            },
        };
        let part_1 = match Self::read_part_1(value) {
            Some(part) => part,
            None => {
                return None;
            },
        };
        let part_2 = match Self::read_part_2(value) {
            Some(part) => part,
            None => {
                return None;
            },
        };
        let part_3 = match Self::read_part_3(value) {
            Some(part) => part,
            None => {
                return None;
            },
        };
        let part_4 = match Self::read_part_4(value) {
            Some(part) => part,
            None => {
                return None;
            },
        };
        let part_5 = match Self::read_part_5(value) {
            Some(part) => part,
            None => {
                return None;
            },
        };
        Some(
            SymbolLayout {
                icon_allow_overlap: part_0.0,
                icon_anchor: part_0.1,
                icon_ignore_placement: part_0.2,
                icon_image: part_0.3,
                icon_keep_upright: part_0.4,
                icon_offset: part_0.5,
                icon_optional: part_0.6,
                icon_padding: part_0.7,
                icon_pitch_alignment: part_1.0,
                icon_rotate: part_1.1,
                icon_rotation_alignment: part_1.2,
                icon_size: part_1.3,
                icon_text_fit: part_1.4,
                icon_text_fit_padding: part_1.5,
                symbol_avoid_edges: part_1.6,
                symbol_placement: part_1.7,
                symbol_sort_key: part_2.0,
                symbol_spacing: part_2.1,
                symbol_z_elevate: part_2.2,
                symbol_z_order: part_2.3,
                text_allow_overlap: part_2.4,
                text_anchor: part_2.5,
                text_field: part_2.6,
                text_font: part_2.7,
                text_ignore_placement: part_3.0,
                text_justify: part_3.1,
                text_keep_upright: part_3.2,
                text_letter_spacing: part_3.3,
                text_line_height: part_3.4,
                text_max_angle: part_3.5,
                text_max_width: part_3.6,
                text_offset: part_3.7,
                text_optional: part_4.0,
                text_padding: part_4.1,
                text_pitch_alignment: part_4.2,
                text_radial_offset: part_4.3,
                text_rotate: part_4.4,
                text_rotation_alignment: part_4.5,
                text_size: part_4.6,
                text_transform: part_4.7,
                text_variable_anchor: part_5.0,
                text_writing_mode: part_5.1,
                visibility: part_5.2,
            },
        )
    }

    proof fn law_round_trip(&self) {
        self.law_wire_names_are_distinct();
        self.lemma_read_from(flatten(self.slots()));
    }
}

/// A raster layer.
#[derive(Debug, Clone)]
pub struct RasterLayer {
    pub id: String,
    pub maxzoom: Option<Number>,
    pub minzoom: Option<Number>,
    pub source: String,
    pub filter: Option<Expression<()>>,
    pub source_layer: Option<String>,
    pub slot: Option<String>,
    pub layout: RasterLayout,
    pub paint: RasterPaint,
}

impl RasterLayer {
    /// The layer with the given identifier and source and nothing else set.
    pub fn new(id: &str, source: &str) -> (res: RasterLayer)
        ensures
            res.id@ == id@,
            res.maxzoom is None,
            res.minzoom is None,
            res.source@ == source@,
            res.filter is None,
            res.source_layer is None,
            res.slot is None,
            res.layout == RasterLayout::unset(),
            res.paint == RasterPaint::unset(),
    {
        RasterLayer {
            id: id.to_owned(),
            maxzoom: None,
            minzoom: None,
            source: source.to_owned(),
            filter: None,
            source_layer: None,
            slot: None,
            layout: RasterLayout::default(),
            paint: RasterPaint::default(),
        }
    }

    /// The properties of the wire form, in order: each under its wire name,
    /// with its wire form where it is set.
    pub open spec fn slots(&self) -> Slots {
        seq![
            ("id"@, Some(self.id.wire())),
            ("maxzoom"@, optional_wire(self.maxzoom)),
            ("minzoom"@, optional_wire(self.minzoom)),
            ("source"@, Some(self.source.wire())),
            ("filter"@, optional_wire(self.filter)),
            ("source-layer"@, optional_wire(self.source_layer)),
            ("slot"@, optional_wire(self.slot)),
            ("layout"@, Some(self.layout.wire())),
            ("paint"@, Some(self.paint.wire())),
        ]
    }

    /// Offers every property to a builder, in order.
    pub fn to_entries(&self) -> (b: ObjectBuilder)
        ensures
            b.wf(),
            b@ == self.slots(),
    {
        let mut b = ObjectBuilder::new();
        b.wire("id", &self.id);
        b.optional_wire("maxzoom", &self.maxzoom);
        b.optional_wire("minzoom", &self.minzoom);
        b.wire("source", &self.source);
        b.optional_wire("filter", &self.filter);
        b.optional_wire("source-layer", &self.source_layer);
        b.optional_wire("slot", &self.slot);
        b.wire("layout", &self.layout);
        b.wire("paint", &self.paint);
        b
    }

    /// The place of the property with the wire name `key`, which the length of
    /// the name and a few of its characters tell.
    spec fn place_of(key: Seq<char>) -> int {
        if key.len() == 4 && key[1] == 'y' {
            0
        } else if key.len() == 2 && key[1] == 'd' {
            1
        } else if key.len() == 7 && key[1] == 'a' {
            2
        } else if key.len() == 7 && key[1] == 'i' {
            3
        } else if key.len() == 6 && key[1] == 'o' {
            4
        } else if key.len() == 6 && key[1] == 'i' {
            5
        } else if key.len() == 12 && key[1] == 'o' {
            6
        } else if key.len() == 4 && key[1] == 'l' {
            7
        } else if key.len() == 6 && key[1] == 'a' {
            8
        } else if key.len() == 5 && key[1] == 'a' {
            9
        } else {
            -1
        }
    }

    /// No two properties have one wire name. So looking the wire name of a
    /// property up in the wire form finds the wire form of that property where it
    /// is set, and nothing where it is unset.
    pub proof fn law_wire_names_are_distinct(&self)
        ensures
            distinct_keys(self.slots()),
            forall|i: int|
                0 <= i < self.slots().len() ==> lookup(
                    flatten(self.slots()),
                    (#[trigger] self.slots()[i]).0,
                ) == self.slots()[i].1,
    {
        reveal_strlit("id");
        reveal_strlit("maxzoom");
        reveal_strlit("minzoom");
        reveal_strlit("source");
        reveal_strlit("filter");
        reveal_strlit("source-layer");
        reveal_strlit("slot");
        reveal_strlit("layout");
        reveal_strlit("paint");
        let slots = self.slots();
        assert(RasterLayer::place_of(slots[0].0) == 1);
        assert(RasterLayer::place_of(slots[1].0) == 2);
        assert(RasterLayer::place_of(slots[2].0) == 3);
        assert(RasterLayer::place_of(slots[3].0) == 4);
        assert(RasterLayer::place_of(slots[4].0) == 5);
        assert(RasterLayer::place_of(slots[5].0) == 6);
        assert(RasterLayer::place_of(slots[6].0) == 7);
        assert(RasterLayer::place_of(slots[7].0) == 8);
        assert(RasterLayer::place_of(slots[8].0) == 9);
        assert forall|i: int| 0 <= i < slots.len() implies RasterLayer::place_of(
            (#[trigger] slots[i]).0,
        ) - 1 == i by {
        }
        lemma_placed_keys_are_distinct(slots, |key: Seq<char>| RasterLayer::place_of(key) - 1);
        assert forall|i: int| 0 <= i < slots.len() implies lookup(
            flatten(slots),
            (#[trigger] slots[i]).0,
        ) == slots[i].1 by {
            law_lookup_of_distinct_keys(slots, i);
        }
    }

    /// No wire name is `type`, and no two are one: behind a slot named
    /// `type` the properties still have names of their own.
    pub proof fn law_wire_names_leave_room(&self, first: Option<ValueView>)
        ensures
            distinct_keys(seq![("type"@, first)] + self.slots()),
    {
        reveal_strlit("type");
        reveal_strlit("id");
        reveal_strlit("maxzoom");
        reveal_strlit("minzoom");
        reveal_strlit("source");
        reveal_strlit("filter");
        reveal_strlit("source-layer");
        reveal_strlit("slot");
        reveal_strlit("layout");
        reveal_strlit("paint");
        let slots = self.slots();
        let tagged = seq![("type"@, first)] + slots;
        assert(RasterLayer::place_of(tagged[0].0) == 0);
        assert(tagged[1] == slots[0]);
        assert(RasterLayer::place_of(slots[0].0) == 1);
        assert(tagged[2] == slots[1]);
        assert(RasterLayer::place_of(slots[1].0) == 2);
        assert(tagged[3] == slots[2]);
        assert(RasterLayer::place_of(slots[2].0) == 3);
        assert(tagged[4] == slots[3]);
        assert(RasterLayer::place_of(slots[3].0) == 4);
        assert(tagged[5] == slots[4]);
        assert(RasterLayer::place_of(slots[4].0) == 5);
        assert(tagged[6] == slots[5]);
        assert(RasterLayer::place_of(slots[5].0) == 6);
        assert(tagged[7] == slots[6]);
        assert(RasterLayer::place_of(slots[6].0) == 7);
        assert(tagged[8] == slots[7]);
        assert(RasterLayer::place_of(slots[7].0) == 8);
        assert(tagged[9] == slots[8]);
        assert(RasterLayer::place_of(slots[8].0) == 9);
        assert forall|i: int| 0 <= i < tagged.len() implies RasterLayer::place_of(
            (#[trigger] tagged[i]).0,
        ) == i by {
        }
        lemma_placed_keys_are_distinct(tagged, |key: Seq<char>| RasterLayer::place_of(key));
    }
}

impl ToWire for RasterLayer {
    /// The object of the properties that are set.
    open spec fn wire(&self) -> ValueView {
        ValueView::Object(flatten(self.slots()))
    }

    fn to_wire(&self) -> (value: Value) {
        self.to_entries().finish()
    }
}

impl RasterLayer {
    /// Whether every property of a wire value can be read: what must be there
    /// is there, and what is there has the right shape.
    pub open spec fn all_read(value: ValueView) -> bool {
        &&& read_required::<String>(value.get("id"@)) is Some
        &&& read_optional::<Number>(value.get("maxzoom"@)) is Some
        &&& read_optional::<Number>(value.get("minzoom"@)) is Some
        &&& read_required::<String>(value.get("source"@)) is Some
        &&& read_optional::<Expression<()>>(value.get("filter"@)) is Some
        &&& read_optional::<String>(value.get("source-layer"@)) is Some
        &&& read_optional::<String>(value.get("slot"@)) is Some
        &&& read_defaulted::<RasterLayout>(value.get("layout"@), RasterLayout::unset().wire()) is Some
        &&& read_defaulted::<RasterPaint>(value.get("paint"@), RasterPaint::unset().wire()) is Some
    }

    /// The slots that the properties of a wire value are read as, in order.
    pub open spec fn read_slots(value: ValueView) -> Slots {
        seq![
            ("id"@, read_required::<String>(value.get("id"@))->Some_0),
            ("maxzoom"@, read_optional::<Number>(value.get("maxzoom"@))->Some_0),
            ("minzoom"@, read_optional::<Number>(value.get("minzoom"@))->Some_0),
            ("source"@, read_required::<String>(value.get("source"@))->Some_0),
            ("filter"@, read_optional::<Expression<()>>(value.get("filter"@))->Some_0),
            ("source-layer"@, read_optional::<String>(value.get("source-layer"@))->Some_0),
            ("slot"@, read_optional::<String>(value.get("slot"@))->Some_0),
            ("layout"@, read_defaulted::<RasterLayout>(value.get("layout"@), RasterLayout::unset().wire())->Some_0),
            ("paint"@, read_defaulted::<RasterPaint>(value.get("paint"@), RasterPaint::unset().wire())->Some_0),
        ]
    }

    fn read_part_0(value: &Value) -> (res: Option<(String, Option<Number>, Option<Number>, String, Option<Expression<()>>, Option<String>, Option<String>, RasterLayout,)>)
        ensures
            match res {
                Some(part) => {
                    &&& read_required::<String>(value@.get("id"@)) == Some(Some(part.0.wire()))
                    &&& read_optional::<Number>(value@.get("maxzoom"@)) == Some(optional_wire(part.1))
                    &&& read_optional::<Number>(value@.get("minzoom"@)) == Some(optional_wire(part.2))
                    &&& read_required::<String>(value@.get("source"@)) == Some(Some(part.3.wire()))
                    &&& read_optional::<Expression<()>>(value@.get("filter"@)) == Some(optional_wire(part.4))
                    &&& read_optional::<String>(value@.get("source-layer"@)) == Some(optional_wire(part.5))
                    &&& read_optional::<String>(value@.get("slot"@)) == Some(optional_wire(part.6))
                    &&& read_defaulted::<RasterLayout>(value@.get("layout"@), RasterLayout::unset().wire()) == Some(Some(part.7.wire()))
                },
                None => !Self::all_read(value@),
            },
    {
        let id = match required::<String>(value.get("id")) {
            Some(read) => read,
            None => {
                return None;
            },
        };
        let maxzoom = match optional::<Number>(value.get("maxzoom")) {
            Some(read) => read,
            None => {
                return None;
            },
        };
        let minzoom = match optional::<Number>(value.get("minzoom")) {
            Some(read) => read,
            None => {
                return None;
            },
        };
        let source = match required::<String>(value.get("source")) {
            Some(read) => read,
            None => {
                return None;
            },
        };
        let filter = match optional::<Expression<()>>(value.get("filter")) {
            Some(read) => read,
            None => {
                return None;
            },
        };
        let source_layer = match optional::<String>(value.get("source-layer")) {
            Some(read) => read,
            None => {
                return None;
            },
        };
        let slot = match optional::<String>(value.get("slot")) {
            Some(read) => read,
            None => {
                return None;
            },
        };
        let layout = match value.get("layout") {
            Some(found) => match RasterLayout::from_wire(found) {
                Some(read) => read,
                None => {
                    return None;
                },
            },
            None => RasterLayout::default(),
        };
        Some((id, maxzoom, minzoom, source, filter, source_layer, slot, layout,))
    }

    fn read_part_1(value: &Value) -> (res: Option<(RasterPaint,)>)
        ensures
            match res {
                Some(part) => {
                    &&& read_defaulted::<RasterPaint>(value@.get("paint"@), RasterPaint::unset().wire()) == Some(Some(part.0.wire()))
                },
                None => !Self::all_read(value@),
            },
    {
        let paint = match value.get("paint") {
            Some(found) => match RasterPaint::from_wire(found) {
                Some(read) => read,
                None => {
                    return None;
                },
            },
            None => RasterPaint::default(),
        };
        Some((paint,))
    }

    /// Reading an object in which looking up the name of each property of
    /// the value finds that property gives the value back.
    pub proof fn lemma_read_from(&self, entries: Seq<(Seq<char>, ValueView)>)
        requires
            self.comes_back(),
            forall|i: int|
                0 <= i < self.slots().len() ==> lookup(entries, (#[trigger] self.slots()[i]).0)
                    == self.slots()[i].1,
        ensures
            Self::spec_read(ValueView::Object(entries)) == Some(self.wire()),
    {
        let value = ValueView::Object(entries);
        let slots = self.slots();
        assert(value.get(slots[0].0) == slots[0].1);
        lemma_required_round_trip::<String>(self.id);
        assert(value.get(slots[1].0) == slots[1].1);
        lemma_optional_round_trip::<Number>(self.maxzoom);
        assert(value.get(slots[2].0) == slots[2].1);
        lemma_optional_round_trip::<Number>(self.minzoom);
        assert(value.get(slots[3].0) == slots[3].1);
        lemma_required_round_trip::<String>(self.source);
        assert(value.get(slots[4].0) == slots[4].1);
        lemma_optional_round_trip::<Expression<()>>(self.filter);
        assert(value.get(slots[5].0) == slots[5].1);
        lemma_optional_round_trip::<String>(self.source_layer);
        assert(value.get(slots[6].0) == slots[6].1);
        lemma_optional_round_trip::<String>(self.slot);
        assert(value.get(slots[7].0) == slots[7].1);
        lemma_defaulted_round_trip::<RasterLayout>(self.layout, RasterLayout::unset().wire());
        assert(value.get(slots[8].0) == slots[8].1);
        lemma_defaulted_round_trip::<RasterPaint>(self.paint, RasterPaint::unset().wire());
    }
}

impl FromWire for RasterLayer {
    /// The value is read from an object, property by property. Properties of
    /// other names are passed over.
    open spec fn spec_read(value: ValueView) -> Option<ValueView> {
        if value is Object && Self::all_read(value) {
            Some(ValueView::Object(flatten(Self::read_slots(value))))
        } else {
            None
        }
    }

    open spec fn comes_back(&self) -> bool {
        &&& self.id.comes_back()
        &&& optional_comes_back(self.maxzoom)
        &&& optional_comes_back(self.minzoom)
        &&& self.source.comes_back()
        &&& optional_comes_back(self.filter)
        &&& optional_comes_back(self.source_layer)
        &&& optional_comes_back(self.slot)
        &&& self.layout.comes_back()
        &&& self.paint.comes_back()
    }

    fn from_wire(value: &Value) -> (res: Option<RasterLayer>) {
        match value {
            Value::Object(_) => {},
            _ => {
                return None;
            },
        }
        let part_0 = match Self::read_part_0(value) {
            Some(part) => part,
            None => {
                return None;
            },
        };
        let part_1 = match Self::read_part_1(value) {
            Some(part) => part,
            None => {
                return None;
            },
        };
        Some(
            RasterLayer {
                id: part_0.0,
                maxzoom: part_0.1,
                minzoom: part_0.2,
                source: part_0.3,
                filter: part_0.4,
                source_layer: part_0.5,
                slot: part_0.6,
                layout: part_0.7,
                paint: part_1.0,
            },
        )
    }

    proof fn law_round_trip(&self) {
        self.law_wire_names_are_distinct();
        self.lemma_read_from(flatten(self.slots()));
    }
}

impl IntoLayer for RasterLayer {
    open spec fn spec_into_layer(self) -> Layer {
        Layer::Raster(self)
    }

    fn into_layer(self) -> (res: Layer) {
        Layer::Raster(self)
    }
}

/// How a raster layer is painted.
#[derive(Debug, Clone)]
pub struct RasterPaint {
    pub raster_array_band: Option<Expression<()>>,
    pub raster_brightness_max: Option<Expression<()>>,
    pub raster_brightness_min: Option<Expression<()>>,
    pub raster_color: Option<Expression<()>>,
    pub raster_color_mix: Option<Expression<()>>,
    pub raster_color_range: Option<Expression<()>>,
    pub raster_contrast: Option<Expression<()>>,
    pub raster_elevation: Option<Expression<()>>,
    pub raster_emissive_strength: Option<Expression<()>>,
    pub raster_fade_duration: Option<Expression<()>>,
    pub raster_hue_rotate: Option<Expression<()>>,
    pub raster_opacity: Option<Expression<()>>,
    pub raster_resampling: Option<Expression<()>>,
    pub raster_saturation: Option<Expression<()>>,
}

impl Default for RasterPaint {
    /// Every property is unset.
    fn default() -> (res: RasterPaint)
        ensures
            res == RasterPaint::unset(),
    {
        RasterPaint {
            raster_array_band: None,
            raster_brightness_max: None,
            raster_brightness_min: None,
            raster_color: None,
            raster_color_mix: None,
            raster_color_range: None,
            raster_contrast: None,
            raster_elevation: None,
            raster_emissive_strength: None,
            raster_fade_duration: None,
            raster_hue_rotate: None,
            raster_opacity: None,
            raster_resampling: None,
            raster_saturation: None,
        }
    }
}

impl RasterPaint {
    /// The properties with every one unset.
    pub open spec fn unset() -> RasterPaint {
        RasterPaint {
            raster_array_band: None,
            raster_brightness_max: None,
            raster_brightness_min: None,
            raster_color: None,
            raster_color_mix: None,
            raster_color_range: None,
            raster_contrast: None,
            raster_elevation: None,
            raster_emissive_strength: None,
            raster_fade_duration: None,
            raster_hue_rotate: None,
            raster_opacity: None,
            raster_resampling: None,
            raster_saturation: None,
        }
    }

    /// The properties of the wire form, in order: each under its wire name,
    /// with its wire form where it is set.
    pub open spec fn slots(&self) -> Slots {
        seq![
            ("raster-array-band"@, optional_wire(self.raster_array_band)),
            ("raster-brightness-max"@, optional_wire(self.raster_brightness_max)),
            ("raster-brightness-min"@, optional_wire(self.raster_brightness_min)),
            ("raster-color"@, optional_wire(self.raster_color)),
            ("raster-color-mix"@, optional_wire(self.raster_color_mix)),
            ("raster-color-range"@, optional_wire(self.raster_color_range)),
            ("raster-contrast"@, optional_wire(self.raster_contrast)),
            ("raster-elevation"@, optional_wire(self.raster_elevation)),
            ("raster-emissive-strength"@, optional_wire(self.raster_emissive_strength)),
            ("raster-fade-duration"@, optional_wire(self.raster_fade_duration)),
            ("raster-hue-rotate"@, optional_wire(self.raster_hue_rotate)),
            ("raster-opacity"@, optional_wire(self.raster_opacity)),
            ("raster-resampling"@, optional_wire(self.raster_resampling)),
            ("raster-saturation"@, optional_wire(self.raster_saturation)),
        ]
    }

    /// Offers every property to a builder, in order.
    pub fn to_entries(&self) -> (b: ObjectBuilder)
        ensures
            b.wf(),
            b@ == self.slots(),
    {
        let mut b = ObjectBuilder::new();
        b.optional_wire("raster-array-band", &self.raster_array_band);
        b.optional_wire("raster-brightness-max", &self.raster_brightness_max);
        b.optional_wire("raster-brightness-min", &self.raster_brightness_min);
        b.optional_wire("raster-color", &self.raster_color);
        b.optional_wire("raster-color-mix", &self.raster_color_mix);
        b.optional_wire("raster-color-range", &self.raster_color_range);
        b.optional_wire("raster-contrast", &self.raster_contrast);
        b.optional_wire("raster-elevation", &self.raster_elevation);
        b.optional_wire("raster-emissive-strength", &self.raster_emissive_strength);
        b.optional_wire("raster-fade-duration", &self.raster_fade_duration);
        b.optional_wire("raster-hue-rotate", &self.raster_hue_rotate);
        b.optional_wire("raster-opacity", &self.raster_opacity);
        b.optional_wire("raster-resampling", &self.raster_resampling);
        b.optional_wire("raster-saturation", &self.raster_saturation);
        b
    }

    /// The place of the property with the wire name `key`, which the length of
    /// the name and a few of its characters tell.
    spec fn place_of(key: Seq<char>) -> int {
        if key.len() == 17 && key[7] == 'a' {
            0
        } else if key.len() == 21 && key[7] == 'b' && key[19] == 'a' {
            1
        } else if key.len() == 21 && key[7] == 'b' && key[19] == 'i' {
            2
        } else if key.len() == 12 && key[7] == 'c' {
            3
        } else if key.len() == 16 && key[7] == 'c' {
            4
        } else if key.len() == 18 && key[7] == 'c' {
            5
        } else if key.len() == 15 && key[7] == 'c' {
            6
        } else if key.len() == 16 && key[7] == 'e' {
            7
        } else if key.len() == 24 && key[7] == 'e' && key[19] == 'e' {
            8
        } else if key.len() == 20 && key[7] == 'f' && key[19] == 'n' {
            9
        } else if key.len() == 17 && key[7] == 'h' {
            10
        } else if key.len() == 14 && key[7] == 'o' {
            11
        } else if key.len() == 17 && key[7] == 'r' {
            12
        } else if key.len() == 17 && key[7] == 's' {
            13
        } else {
            -1
        }
    }

    /// No two properties have one wire name. So looking the wire name of a
    /// property up in the wire form finds the wire form of that property where it
    /// is set, and nothing where it is unset.
    #[verifier::rlimit(50)]
    pub proof fn law_wire_names_are_distinct(&self)
        ensures
            distinct_keys(self.slots()),
            forall|i: int|
                0 <= i < self.slots().len() ==> lookup(
                    flatten(self.slots()),
                    (#[trigger] self.slots()[i]).0,
                ) == self.slots()[i].1,
    {
        reveal_strlit("raster-array-band");
        reveal_strlit("raster-brightness-max");
        reveal_strlit("raster-brightness-min");
        reveal_strlit("raster-color");
        reveal_strlit("raster-color-mix");
        reveal_strlit("raster-color-range");
        reveal_strlit("raster-contrast");
        reveal_strlit("raster-elevation");
        reveal_strlit("raster-emissive-strength");
        reveal_strlit("raster-fade-duration");
        reveal_strlit("raster-hue-rotate");
        reveal_strlit("raster-opacity");
        reveal_strlit("raster-resampling");
        reveal_strlit("raster-saturation");
        let slots = self.slots();
        assert(RasterPaint::place_of(slots[0].0) == 0);
        assert(RasterPaint::place_of(slots[1].0) == 1);
        assert(RasterPaint::place_of(slots[2].0) == 2);
        assert(RasterPaint::place_of(slots[3].0) == 3);
        assert(RasterPaint::place_of(slots[4].0) == 4);
        assert(RasterPaint::place_of(slots[5].0) == 5);
        assert(RasterPaint::place_of(slots[6].0) == 6);
        assert(RasterPaint::place_of(slots[7].0) == 7);
        assert(RasterPaint::place_of(slots[8].0) == 8);
        assert(RasterPaint::place_of(slots[9].0) == 9);
        assert(RasterPaint::place_of(slots[10].0) == 10);
        assert(RasterPaint::place_of(slots[11].0) == 11);
        assert(RasterPaint::place_of(slots[12].0) == 12);
        assert(RasterPaint::place_of(slots[13].0) == 13);
        assert forall|i: int| 0 <= i < slots.len() implies RasterPaint::place_of(
            (#[trigger] slots[i]).0,
        ) - 0 == i by {
        }
        lemma_placed_keys_are_distinct(slots, |key: Seq<char>| RasterPaint::place_of(key) - 0);
        assert forall|i: int| 0 <= i < slots.len() implies lookup(
            flatten(slots),
            (#[trigger] slots[i]).0,
        ) == slots[i].1 by {
            law_lookup_of_distinct_keys(slots, i);
        }
    }
}

impl ToWire for RasterPaint {
    /// The object of the properties that are set.
    open spec fn wire(&self) -> ValueView {
        ValueView::Object(flatten(self.slots()))
    }

    fn to_wire(&self) -> (value: Value) {
        self.to_entries().finish()
    }
}

impl RasterPaint {
    /// Whether every property of a wire value can be read: what must be there
    /// is there, and what is there has the right shape.
    pub open spec fn all_read(value: ValueView) -> bool {
        &&& read_optional::<Expression<()>>(value.get("raster-array-band"@)) is Some
        &&& read_optional::<Expression<()>>(value.get("raster-brightness-max"@)) is Some
        &&& read_optional::<Expression<()>>(value.get("raster-brightness-min"@)) is Some
        &&& read_optional::<Expression<()>>(value.get("raster-color"@)) is Some
        &&& read_optional::<Expression<()>>(value.get("raster-color-mix"@)) is Some
        &&& read_optional::<Expression<()>>(value.get("raster-color-range"@)) is Some
        &&& read_optional::<Expression<()>>(value.get("raster-contrast"@)) is Some
        &&& read_optional::<Expression<()>>(value.get("raster-elevation"@)) is Some
        &&& read_optional::<Expression<()>>(value.get("raster-emissive-strength"@)) is Some
        &&& read_optional::<Expression<()>>(value.get("raster-fade-duration"@)) is Some
        &&& read_optional::<Expression<()>>(value.get("raster-hue-rotate"@)) is Some
        &&& read_optional::<Expression<()>>(value.get("raster-opacity"@)) is Some
        &&& read_optional::<Expression<()>>(value.get("raster-resampling"@)) is Some
        &&& read_optional::<Expression<()>>(value.get("raster-saturation"@)) is Some
    }

    /// The slots that the properties of a wire value are read as, in order.
    pub open spec fn read_slots(value: ValueView) -> Slots {
        seq![
            ("raster-array-band"@, read_optional::<Expression<()>>(value.get("raster-array-band"@))->Some_0),
            ("raster-brightness-max"@, read_optional::<Expression<()>>(value.get("raster-brightness-max"@))->Some_0),
            ("raster-brightness-min"@, read_optional::<Expression<()>>(value.get("raster-brightness-min"@))->Some_0),
            ("raster-color"@, read_optional::<Expression<()>>(value.get("raster-color"@))->Some_0),
            ("raster-color-mix"@, read_optional::<Expression<()>>(value.get("raster-color-mix"@))->Some_0),
            ("raster-color-range"@, read_optional::<Expression<()>>(value.get("raster-color-range"@))->Some_0),
            ("raster-contrast"@, read_optional::<Expression<()>>(value.get("raster-contrast"@))->Some_0),
            ("raster-elevation"@, read_optional::<Expression<()>>(value.get("raster-elevation"@))->Some_0),
            ("raster-emissive-strength"@, read_optional::<Expression<()>>(value.get("raster-emissive-strength"@))->Some_0),
            ("raster-fade-duration"@, read_optional::<Expression<()>>(value.get("raster-fade-duration"@))->Some_0),
            ("raster-hue-rotate"@, read_optional::<Expression<()>>(value.get("raster-hue-rotate"@))->Some_0),
            ("raster-opacity"@, read_optional::<Expression<()>>(value.get("raster-opacity"@))->Some_0),
            ("raster-resampling"@, read_optional::<Expression<()>>(value.get("raster-resampling"@))->Some_0),
            ("raster-saturation"@, read_optional::<Expression<()>>(value.get("raster-saturation"@))->Some_0),
        ]
    }

    fn read_part_0(value: &Value) -> (res: Option<(Option<Expression<()>>, Option<Expression<()>>, Option<Expression<()>>, Option<Expression<()>>, Option<Expression<()>>, Option<Expression<()>>, Option<Expression<()>>, Option<Expression<()>>,)>)
        ensures
            match res {
                Some(part) => {
                    &&& read_optional::<Expression<()>>(value@.get("raster-array-band"@)) == Some(optional_wire(part.0))
                    &&& read_optional::<Expression<()>>(value@.get("raster-brightness-max"@)) == Some(optional_wire(part.1))
                    &&& read_optional::<Expression<()>>(value@.get("raster-brightness-min"@)) == Some(optional_wire(part.2))
                    &&& read_optional::<Expression<()>>(value@.get("raster-color"@)) == Some(optional_wire(part.3))
                    &&& read_optional::<Expression<()>>(value@.get("raster-color-mix"@)) == Some(optional_wire(part.4))
                    &&& read_optional::<Expression<()>>(value@.get("raster-color-range"@)) == Some(optional_wire(part.5))
                    &&& read_optional::<Expression<()>>(value@.get("raster-contrast"@)) == Some(optional_wire(part.6))
                    &&& read_optional::<Expression<()>>(value@.get("raster-elevation"@)) == Some(optional_wire(part.7))
                },
                None => !Self::all_read(value@),
            },
    {
        let raster_array_band = match optional::<Expression<()>>(value.get("raster-array-band")) {
            Some(read) => read,
            None => {
                return None;
            },
        };
        let raster_brightness_max = match optional::<Expression<()>>(value.get("raster-brightness-max")) {
            Some(read) => read,
            None => {
                return None;
            },
        };
        let raster_brightness_min = match optional::<Expression<()>>(value.get("raster-brightness-min")) {
            Some(read) => read,
            None => {
                return None;
            },
        };
        let raster_color = match optional::<Expression<()>>(value.get("raster-color")) {
            Some(read) => read,
            None => {
                return None;
            },
        };
        let raster_color_mix = match optional::<Expression<()>>(value.get("raster-color-mix")) {
            Some(read) => read,
            None => {
                return None;
            },
        };
        let raster_color_range = match optional::<Expression<()>>(value.get("raster-color-range")) {
            Some(read) => read,
            None => {
                return None;
            },
        };
        let raster_contrast = match optional::<Expression<()>>(value.get("raster-contrast")) {
            Some(read) => read,
            None => {
                return None;
            },
        };
        let raster_elevation = match optional::<Expression<()>>(value.get("raster-elevation")) {
            Some(read) => read,
            None => {
                return None;
            },
        };
        Some((raster_array_band, raster_brightness_max, raster_brightness_min, raster_color, raster_color_mix, raster_color_range, raster_contrast, raster_elevation,))
    }

    fn read_part_1(value: &Value) -> (res: Option<(Option<Expression<()>>, Option<Expression<()>>, Option<Expression<()>>, Option<Expression<()>>, Option<Expression<()>>, Option<Expression<()>>,)>)
        ensures
            match res {
                Some(part) => {
                    &&& read_optional::<Expression<()>>(value@.get("raster-emissive-strength"@)) == Some(optional_wire(part.0))
                    &&& read_optional::<Expression<()>>(value@.get("raster-fade-duration"@)) == Some(optional_wire(part.1))
                    &&& read_optional::<Expression<()>>(value@.get("raster-hue-rotate"@)) == Some(optional_wire(part.2))
                    &&& read_optional::<Expression<()>>(value@.get("raster-opacity"@)) == Some(optional_wire(part.3))
                    &&& read_optional::<Expression<()>>(value@.get("raster-resampling"@)) == Some(optional_wire(part.4))
                    &&& read_optional::<Expression<()>>(value@.get("raster-saturation"@)) == Some(optional_wire(part.5))
                },
                None => !Self::all_read(value@),
            },
    {
        let raster_emissive_strength = match optional::<Expression<()>>(value.get("raster-emissive-strength")) {
            Some(read) => read,
            None => {
                return None;
            },
        };
        let raster_fade_duration = match optional::<Expression<()>>(value.get("raster-fade-duration")) {
            Some(read) => read,
            None => {
                return None;
            },
        };
        let raster_hue_rotate = match optional::<Expression<()>>(value.get("raster-hue-rotate")) {
            Some(read) => read,
            None => {
                return None;
            },
        };
        let raster_opacity = match optional::<Expression<()>>(value.get("raster-opacity")) {
            Some(read) => read,
            None => {
                return None;
            },
        };
        let raster_resampling = match optional::<Expression<()>>(value.get("raster-resampling")) {
            Some(read) => read,
            None => {
                return None;
            },
        };
        let raster_saturation = match optional::<Expression<()>>(value.get("raster-saturation")) {
            Some(read) => read,
            None => {
                return None;
            },
        };
        Some((raster_emissive_strength, raster_fade_duration, raster_hue_rotate, raster_opacity, raster_resampling, raster_saturation,))
    }

    /// Reading an object in which looking up the name of each property of
    /// the value finds that property gives the value back.
    pub proof fn lemma_read_from(&self, entries: Seq<(Seq<char>, ValueView)>)
        requires
            self.comes_back(),
            forall|i: int|
                0 <= i < self.slots().len() ==> lookup(entries, (#[trigger] self.slots()[i]).0)
                    == self.slots()[i].1,
        ensures
            Self::spec_read(ValueView::Object(entries)) == Some(self.wire()),
    {
        let value = ValueView::Object(entries);
        let slots = self.slots();
        assert(value.get(slots[0].0) == slots[0].1);
        lemma_optional_round_trip::<Expression<()>>(self.raster_array_band);
        assert(value.get(slots[1].0) == slots[1].1);
        lemma_optional_round_trip::<Expression<()>>(self.raster_brightness_max);
        assert(value.get(slots[2].0) == slots[2].1);
        lemma_optional_round_trip::<Expression<()>>(self.raster_brightness_min);
        assert(value.get(slots[3].0) == slots[3].1);
        lemma_optional_round_trip::<Expression<()>>(self.raster_color);
        assert(value.get(slots[4].0) == slots[4].1);
        lemma_optional_round_trip::<Expression<()>>(self.raster_color_mix);
        assert(value.get(slots[5].0) == slots[5].1);
        lemma_optional_round_trip::<Expression<()>>(self.raster_color_range);
        assert(value.get(slots[6].0) == slots[6].1);
        lemma_optional_round_trip::<Expression<()>>(self.raster_contrast);
        assert(value.get(slots[7].0) == slots[7].1);
        lemma_optional_round_trip::<Expression<()>>(self.raster_elevation);
        assert(value.get(slots[8].0) == slots[8].1);
        lemma_optional_round_trip::<Expression<()>>(self.raster_emissive_strength);
        assert(value.get(slots[9].0) == slots[9].1);
        lemma_optional_round_trip::<Expression<()>>(self.raster_fade_duration);
        assert(value.get(slots[10].0) == slots[10].1);
        lemma_optional_round_trip::<Expression<()>>(self.raster_hue_rotate);
        assert(value.get(slots[11].0) == slots[11].1);
        lemma_optional_round_trip::<Expression<()>>(self.raster_opacity);
        assert(value.get(slots[12].0) == slots[12].1);
        lemma_optional_round_trip::<Expression<()>>(self.raster_resampling);
        assert(value.get(slots[13].0) == slots[13].1);
        lemma_optional_round_trip::<Expression<()>>(self.raster_saturation);
    }
}

impl FromWire for RasterPaint {
    /// The value is read from an object, property by property. Properties of
    /// other names are passed over.
    open spec fn spec_read(value: ValueView) -> Option<ValueView> {
        if value is Object && Self::all_read(value) {
            Some(ValueView::Object(flatten(Self::read_slots(value))))
        } else {
            None
        }
    }

    open spec fn comes_back(&self) -> bool {
        &&& optional_comes_back(self.raster_array_band)
        &&& optional_comes_back(self.raster_brightness_max)
        &&& optional_comes_back(self.raster_brightness_min)
        &&& optional_comes_back(self.raster_color)
        &&& optional_comes_back(self.raster_color_mix)
        &&& optional_comes_back(self.raster_color_range)
        &&& optional_comes_back(self.raster_contrast)
        &&& optional_comes_back(self.raster_elevation)
        &&& optional_comes_back(self.raster_emissive_strength)
        &&& optional_comes_back(self.raster_fade_duration)
        &&& optional_comes_back(self.raster_hue_rotate)
        &&& optional_comes_back(self.raster_opacity)
        &&& optional_comes_back(self.raster_resampling)
        &&& optional_comes_back(self.raster_saturation)
    }

    fn from_wire(value: &Value) -> (res: Option<RasterPaint>) {
        match value {
            Value::Object(_) => {},
            _ => {
                return None;
            },
        }
        let part_0 = match Self::read_part_0(value) {
            Some(part) => part,
            None => {
                return None;
            },
        };
        let part_1 = match Self::read_part_1(value) {
            Some(part) => part,
            None => {
                return None;
            },
        };
        Some(
            RasterPaint {
                raster_array_band: part_0.0,
                raster_brightness_max: part_0.1,
                raster_brightness_min: part_0.2,
                raster_color: part_0.3,
                raster_color_mix: part_0.4,
                raster_color_range: part_0.5,
                raster_contrast: part_0.6,
                raster_elevation: part_0.7,
                raster_emissive_strength: part_1.0,
                raster_fade_duration: part_1.1,
                raster_hue_rotate: part_1.2,
                raster_opacity: part_1.3,
                raster_resampling: part_1.4,
                raster_saturation: part_1.5,
            },
        )
    }

    proof fn law_round_trip(&self) {
        self.law_wire_names_are_distinct();
        self.lemma_read_from(flatten(self.slots()));
    }
}

/// How a raster layer is laid out.
#[derive(Debug, Clone)]
pub struct RasterLayout {
    pub visibility: Option<Visibility>,
}

impl Default for RasterLayout {
    /// Every property is unset.
    fn default() -> (res: RasterLayout)
        ensures
            res == RasterLayout::unset(),
    {
        RasterLayout {
            visibility: None,
        }
    }
}

impl RasterLayout {
    /// The properties with every one unset.
    pub open spec fn unset() -> RasterLayout {
        RasterLayout {
            visibility: None,
        }
    }

    /// The properties of the wire form, in order: each under its wire name,
    /// with its wire form where it is set.
    pub open spec fn slots(&self) -> Slots {
        seq![
            ("visibility"@, optional_wire(self.visibility)),
        ]
    }

    /// Offers every property to a builder, in order.
    pub fn to_entries(&self) -> (b: ObjectBuilder)
        ensures
            b.wf(),
            b@ == self.slots(),
    {
        let mut b = ObjectBuilder::new();
        b.optional_wire("visibility", &self.visibility);
        b
    }

    /// The place of the property with the wire name `key`, which the length of
    /// the name and a few of its characters tell.
    spec fn place_of(key: Seq<char>) -> int {
        if key.len() == 10 {
            0
        } else {
            -1
        }
    }

    /// No two properties have one wire name. So looking the wire name of a
    /// property up in the wire form finds the wire form of that property where it
    /// is set, and nothing where it is unset.
    pub proof fn law_wire_names_are_distinct(&self)
        ensures
            distinct_keys(self.slots()),
            forall|i: int|
                0 <= i < self.slots().len() ==> lookup(
                    flatten(self.slots()),
                    (#[trigger] self.slots()[i]).0,
                ) == self.slots()[i].1,
    {
        reveal_strlit("visibility");
        let slots = self.slots();
        assert(RasterLayout::place_of(slots[0].0) == 0);
        assert forall|i: int| 0 <= i < slots.len() implies RasterLayout::place_of(
            (#[trigger] slots[i]).0,
        ) - 0 == i by {
        }
        lemma_placed_keys_are_distinct(slots, |key: Seq<char>| RasterLayout::place_of(key) - 0);
        assert forall|i: int| 0 <= i < slots.len() implies lookup(
            flatten(slots),
            (#[trigger] slots[i]).0,
        ) == slots[i].1 by {
            law_lookup_of_distinct_keys(slots, i);
        }
    }
}

impl ToWire for RasterLayout {
    /// The object of the properties that are set.
    open spec fn wire(&self) -> ValueView {
        ValueView::Object(flatten(self.slots()))
    }

    fn to_wire(&self) -> (value: Value) {
        self.to_entries().finish()
    }
}

impl RasterLayout {
    /// Whether every property of a wire value can be read: what must be there
    /// is there, and what is there has the right shape.
    pub open spec fn all_read(value: ValueView) -> bool {
        &&& read_optional::<Visibility>(value.get("visibility"@)) is Some
    }

    /// The slots that the properties of a wire value are read as, in order.
    pub open spec fn read_slots(value: ValueView) -> Slots {
        seq![
            ("visibility"@, read_optional::<Visibility>(value.get("visibility"@))->Some_0),
        ]
    }

    /// Reading an object in which looking up the name of each property of
    /// the value finds that property gives the value back.
    pub proof fn lemma_read_from(&self, entries: Seq<(Seq<char>, ValueView)>)
        requires
            self.comes_back(),
            forall|i: int|
                0 <= i < self.slots().len() ==> lookup(entries, (#[trigger] self.slots()[i]).0)
                    == self.slots()[i].1,
        ensures
            Self::spec_read(ValueView::Object(entries)) == Some(self.wire()),
    {
        let value = ValueView::Object(entries);
        let slots = self.slots();
        assert(value.get(slots[0].0) == slots[0].1);
        lemma_optional_round_trip::<Visibility>(self.visibility);
    }
}

impl FromWire for RasterLayout {
    /// The value is read from an object, property by property. Properties of
    /// other names are passed over.
    open spec fn spec_read(value: ValueView) -> Option<ValueView> {
        if value is Object && Self::all_read(value) {
            Some(ValueView::Object(flatten(Self::read_slots(value))))
        } else {
            None
        }
    }

    open spec fn comes_back(&self) -> bool {
        &&& optional_comes_back(self.visibility)
    }

    fn from_wire(value: &Value) -> (res: Option<RasterLayout>) {
        match value {
            Value::Object(_) => {},
            _ => {
                return None;
            },
        }
        let visibility = match optional::<Visibility>(value.get("visibility")) {
            Some(read) => read,
            None => {
                return None;
            },
        };
        Some(RasterLayout { visibility })
    }

    proof fn law_round_trip(&self) {
        self.law_wire_names_are_distinct();
        self.lemma_read_from(flatten(self.slots()));
    }
}

/// A raster particle layer.
#[derive(Debug, Clone)]
pub struct RasterParticleLayer {
    pub id: String,
    pub maxzoom: Option<Number>,
    pub minzoom: Option<Number>,
    pub source: String,
    pub filter: Option<Expression<()>>,
    pub source_layer: Option<String>,
    pub slot: Option<String>,
    pub layout: RasterParticleLayout,
    pub paint: RasterParticlePaint,
}

impl RasterParticleLayer {
    /// The layer with the given identifier and source and nothing else set.
    pub fn new(id: &str, source: &str) -> (res: RasterParticleLayer)
        ensures
            res.id@ == id@,
            res.maxzoom is None,
            res.minzoom is None,
            res.source@ == source@,
            res.filter is None,
            res.source_layer is None,
            res.slot is None,
            res.layout == RasterParticleLayout::unset(),
            res.paint == RasterParticlePaint::unset(),
    {
        RasterParticleLayer {
            id: id.to_owned(),
            maxzoom: None,
            minzoom: None,
            source: source.to_owned(),
            filter: None,
            source_layer: None,
            slot: None,
            layout: RasterParticleLayout::default(),
            paint: RasterParticlePaint::default(),
        }
    }

    /// The properties of the wire form, in order: each under its wire name,
    /// with its wire form where it is set.
    pub open spec fn slots(&self) -> Slots {
        seq![
            ("id"@, Some(self.id.wire())),
            ("maxzoom"@, optional_wire(self.maxzoom)),
            ("minzoom"@, optional_wire(self.minzoom)),
            ("source"@, Some(self.source.wire())),
            ("filter"@, optional_wire(self.filter)),
            ("source-layer"@, optional_wire(self.source_layer)),
            ("slot"@, optional_wire(self.slot)),
            ("layout"@, Some(self.layout.wire())),
            ("paint"@, Some(self.paint.wire())),
        ]
    }

    /// Offers every property to a builder, in order.
    pub fn to_entries(&self) -> (b: ObjectBuilder)
        ensures
            b.wf(),
            b@ == self.slots(),
    {
        let mut b = ObjectBuilder::new();
        b.wire("id", &self.id);
        b.optional_wire("maxzoom", &self.maxzoom);
        b.optional_wire("minzoom", &self.minzoom);
        b.wire("source", &self.source);
        b.optional_wire("filter", &self.filter);
        b.optional_wire("source-layer", &self.source_layer);
        b.optional_wire("slot", &self.slot);
        b.wire("layout", &self.layout);
        b.wire("paint", &self.paint);
        b
    }

    /// The place of the property with the wire name `key`, which the length of
    /// the name and a few of its characters tell.
    spec fn place_of(key: Seq<char>) -> int {
        if key.len() == 4 && key[1] == 'y' {
            0
        } else if key.len() == 2 && key[1] == 'd' {
            1
        } else if key.len() == 7 && key[1] == 'a' {
            2
        } else if key.len() == 7 && key[1] == 'i' {
            3
        } else if key.len() == 6 && key[1] == 'o' {
            4
        } else if key.len() == 6 && key[1] == 'i' {
            5
        } else if key.len() == 12 && key[1] == 'o' {
            6
        } else if key.len() == 4 && key[1] == 'l' {
            7
        } else if key.len() == 6 && key[1] == 'a' {
            8
        } else if key.len() == 5 && key[1] == 'a' {
            9
        } else {
            -1
        }
    }

    /// No two properties have one wire name. So looking the wire name of a
    /// property up in the wire form finds the wire form of that property where it
    /// is set, and nothing where it is unset.
    pub proof fn law_wire_names_are_distinct(&self)
        ensures
            distinct_keys(self.slots()),
            forall|i: int|
                0 <= i < self.slots().len() ==> lookup(
                    flatten(self.slots()),
                    (#[trigger] self.slots()[i]).0,
                ) == self.slots()[i].1,
    {
        reveal_strlit("id");
        reveal_strlit("maxzoom");
        reveal_strlit("minzoom");
        reveal_strlit("source");
        reveal_strlit("filter");
        reveal_strlit("source-layer");
        reveal_strlit("slot");
        reveal_strlit("layout");
        reveal_strlit("paint");
        let slots = self.slots();
        assert(RasterParticleLayer::place_of(slots[0].0) == 1);
        assert(RasterParticleLayer::place_of(slots[1].0) == 2);
        assert(RasterParticleLayer::place_of(slots[2].0) == 3);
        assert(RasterParticleLayer::place_of(slots[3].0) == 4);
        assert(RasterParticleLayer::place_of(slots[4].0) == 5);
        assert(RasterParticleLayer::place_of(slots[5].0) == 6);
        assert(RasterParticleLayer::place_of(slots[6].0) == 7);
        assert(RasterParticleLayer::place_of(slots[7].0) == 8);
        assert(RasterParticleLayer::place_of(slots[8].0) == 9);
        assert forall|i: int| 0 <= i < slots.len() implies RasterParticleLayer::place_of(
            (#[trigger] slots[i]).0,
        ) - 1 == i by {
        }
        lemma_placed_keys_are_distinct(slots, |key: Seq<char>| RasterParticleLayer::place_of(key) - 1);
        assert forall|i: int| 0 <= i < slots.len() implies lookup(
            flatten(slots),
            (#[trigger] slots[i]).0,
        ) == slots[i].1 by {
            law_lookup_of_distinct_keys(slots, i);
        }
    }

    /// No wire name is `type`, and no two are one: behind a slot named
    /// `type` the properties still have names of their own.
    pub proof fn law_wire_names_leave_room(&self, first: Option<ValueView>)
        ensures
            distinct_keys(seq![("type"@, first)] + self.slots()),
    {
        reveal_strlit("type");
        reveal_strlit("id");
        reveal_strlit("maxzoom");
        reveal_strlit("minzoom");
        reveal_strlit("source");
        reveal_strlit("filter");
        reveal_strlit("source-layer");
        reveal_strlit("slot");
        reveal_strlit("layout");
        reveal_strlit("paint");
        let slots = self.slots();
        let tagged = seq![("type"@, first)] + slots;
        assert(RasterParticleLayer::place_of(tagged[0].0) == 0);
        assert(tagged[1] == slots[0]);
        assert(RasterParticleLayer::place_of(slots[0].0) == 1);
        assert(tagged[2] == slots[1]);
        assert(RasterParticleLayer::place_of(slots[1].0) == 2);
        assert(tagged[3] == slots[2]);
        assert(RasterParticleLayer::place_of(slots[2].0) == 3);
        assert(tagged[4] == slots[3]);
        assert(RasterParticleLayer::place_of(slots[3].0) == 4);
        assert(tagged[5] == slots[4]);
        assert(RasterParticleLayer::place_of(slots[4].0) == 5);
        assert(tagged[6] == slots[5]);
        assert(RasterParticleLayer::place_of(slots[5].0) == 6);
        assert(tagged[7] == slots[6]);
        assert(RasterParticleLayer::place_of(slots[6].0) == 7);
        assert(tagged[8] == slots[7]);
        assert(RasterParticleLayer::place_of(slots[7].0) == 8);
        assert(tagged[9] == slots[8]);
        assert(RasterParticleLayer::place_of(slots[8].0) == 9);
        assert forall|i: int| 0 <= i < tagged.len() implies RasterParticleLayer::place_of(
            (#[trigger] tagged[i]).0,
        ) == i by {
        }
        lemma_placed_keys_are_distinct(tagged, |key: Seq<char>| RasterParticleLayer::place_of(key));
    }
}

impl ToWire for RasterParticleLayer {
    /// The object of the properties that are set.
    open spec fn wire(&self) -> ValueView {
        ValueView::Object(flatten(self.slots()))
    }

    fn to_wire(&self) -> (value: Value) {
        self.to_entries().finish()
    }
}

impl RasterParticleLayer {
    /// Whether every property of a wire value can be read: what must be there
    /// is there, and what is there has the right shape.
    pub open spec fn all_read(value: ValueView) -> bool {
        &&& read_required::<String>(value.get("id"@)) is Some
        &&& read_optional::<Number>(value.get("maxzoom"@)) is Some
        &&& read_optional::<Number>(value.get("minzoom"@)) is Some
        &&& read_required::<String>(value.get("source"@)) is Some
        &&& read_optional::<Expression<()>>(value.get("filter"@)) is Some
        &&& read_optional::<String>(value.get("source-layer"@)) is Some
        &&& read_optional::<String>(value.get("slot"@)) is Some
        &&& read_defaulted::<RasterParticleLayout>(value.get("layout"@), RasterParticleLayout::unset().wire()) is Some
        &&& read_defaulted::<RasterParticlePaint>(value.get("paint"@), RasterParticlePaint::unset().wire()) is Some
    }

    /// The slots that the properties of a wire value are read as, in order.
    pub open spec fn read_slots(value: ValueView) -> Slots {
        seq![
            ("id"@, read_required::<String>(value.get("id"@))->Some_0),
            ("maxzoom"@, read_optional::<Number>(value.get("maxzoom"@))->Some_0),
            ("minzoom"@, read_optional::<Number>(value.get("minzoom"@))->Some_0),
            ("source"@, read_required::<String>(value.get("source"@))->Some_0),
            ("filter"@, read_optional::<Expression<()>>(value.get("filter"@))->Some_0),
            ("source-layer"@, read_optional::<String>(value.get("source-layer"@))->Some_0),
            ("slot"@, read_optional::<String>(value.get("slot"@))->Some_0),
            ("layout"@, read_defaulted::<RasterParticleLayout>(value.get("layout"@), RasterParticleLayout::unset().wire())->Some_0),
            ("paint"@, read_defaulted::<RasterParticlePaint>(value.get("paint"@), RasterParticlePaint::unset().wire())->Some_0),
        ]
    }

    fn read_part_0(value: &Value) -> (res: Option<(String, Option<Number>, Option<Number>, String, Option<Expression<()>>, Option<String>, Option<String>, RasterParticleLayout,)>)
        ensures
            match res {
                Some(part) => {
                    &&& read_required::<String>(value@.get("id"@)) == Some(Some(part.0.wire()))
                    &&& read_optional::<Number>(value@.get("maxzoom"@)) == Some(optional_wire(part.1))
                    &&& read_optional::<Number>(value@.get("minzoom"@)) == Some(optional_wire(part.2))
                    &&& read_required::<String>(value@.get("source"@)) == Some(Some(part.3.wire()))
                    &&& read_optional::<Expression<()>>(value@.get("filter"@)) == Some(optional_wire(part.4))
                    &&& read_optional::<String>(value@.get("source-layer"@)) == Some(optional_wire(part.5))
                    &&& read_optional::<String>(value@.get("slot"@)) == Some(optional_wire(part.6))
                    &&& read_defaulted::<RasterParticleLayout>(value@.get("layout"@), RasterParticleLayout::unset().wire()) == Some(Some(part.7.wire()))
                },
                None => !Self::all_read(value@),
            },
    {
        let id = match required::<String>(value.get("id")) {
            Some(read) => read,
            None => {
                return None;
            },
        };
        let maxzoom = match optional::<Number>(value.get("maxzoom")) {
            Some(read) => read,
            None => {
                return None;
            },
        };
        let minzoom = match optional::<Number>(value.get("minzoom")) {
            Some(read) => read,
            None => {
                return None;
            },
        };
        let source = match required::<String>(value.get("source")) {
            Some(read) => read,
            None => {
                return None;
            },
        };
        let filter = match optional::<Expression<()>>(value.get("filter")) {
            Some(read) => read,
            None => {
                return None;
            },
        };
        let source_layer = match optional::<String>(value.get("source-layer")) {
            Some(read) => read,
            None => {
                return None;
            },
        };
        let slot = match optional::<String>(value.get("slot")) {
            Some(read) => read,
            None => {
                return None;
            },
        };
        let layout = match value.get("layout") {
            Some(found) => match RasterParticleLayout::from_wire(found) {
                Some(read) => read,
                None => {
                    return None;
                },
            },
            None => RasterParticleLayout::default(),
        };
        Some((id, maxzoom, minzoom, source, filter, source_layer, slot, layout,))
    }

    fn read_part_1(value: &Value) -> (res: Option<(RasterParticlePaint,)>)
        ensures
            match res {
                Some(part) => {
                    &&& read_defaulted::<RasterParticlePaint>(value@.get("paint"@), RasterParticlePaint::unset().wire()) == Some(Some(part.0.wire()))
                },
                None => !Self::all_read(value@),
            },
    {
        let paint = match value.get("paint") {
            Some(found) => match RasterParticlePaint::from_wire(found) {
                Some(read) => read,
                None => {
                    return None;
                },
            },
            None => RasterParticlePaint::default(),
        };
        Some((paint,))
    }

    /// Reading an object in which looking up the name of each property of
    /// the value finds that property gives the value back.
    pub proof fn lemma_read_from(&self, entries: Seq<(Seq<char>, ValueView)>)
        requires
            self.comes_back(),
            forall|i: int|
                0 <= i < self.slots().len() ==> lookup(entries, (#[trigger] self.slots()[i]).0)
                    == self.slots()[i].1,
        ensures
            Self::spec_read(ValueView::Object(entries)) == Some(self.wire()),
    {
        let value = ValueView::Object(entries);
        let slots = self.slots();
        assert(value.get(slots[0].0) == slots[0].1);
        lemma_required_round_trip::<String>(self.id);
        assert(value.get(slots[1].0) == slots[1].1);
        lemma_optional_round_trip::<Number>(self.maxzoom);
        assert(value.get(slots[2].0) == slots[2].1);
        lemma_optional_round_trip::<Number>(self.minzoom);
        assert(value.get(slots[3].0) == slots[3].1);
        lemma_required_round_trip::<String>(self.source);
        assert(value.get(slots[4].0) == slots[4].1);
        lemma_optional_round_trip::<Expression<()>>(self.filter);
        assert(value.get(slots[5].0) == slots[5].1);
        lemma_optional_round_trip::<String>(self.source_layer);
        assert(value.get(slots[6].0) == slots[6].1);
        lemma_optional_round_trip::<String>(self.slot);
        assert(value.get(slots[7].0) == slots[7].1);
        lemma_defaulted_round_trip::<RasterParticleLayout>(self.layout, RasterParticleLayout::unset().wire());
        assert(value.get(slots[8].0) == slots[8].1);
        lemma_defaulted_round_trip::<RasterParticlePaint>(self.paint, RasterParticlePaint::unset().wire());
    }
}

impl FromWire for RasterParticleLayer {
    /// The value is read from an object, property by property. Properties of
    /// other names are passed over.
    open spec fn spec_read(value: ValueView) -> Option<ValueView> {
        if value is Object && Self::all_read(value) {
            Some(ValueView::Object(flatten(Self::read_slots(value))))
        } else {
            None
        }
    }

    open spec fn comes_back(&self) -> bool {
        &&& self.id.comes_back()
        &&& optional_comes_back(self.maxzoom)
        &&& optional_comes_back(self.minzoom)
        &&& self.source.comes_back()
        &&& optional_comes_back(self.filter)
        &&& optional_comes_back(self.source_layer)
        &&& optional_comes_back(self.slot)
        &&& self.layout.comes_back()
        &&& self.paint.comes_back()
    }

    fn from_wire(value: &Value) -> (res: Option<RasterParticleLayer>) {
        match value {
            Value::Object(_) => {},
            _ => {
                return None;
            },
        }
        let part_0 = match Self::read_part_0(value) {
            Some(part) => part,
            None => {
                return None;
            },
        };
        let part_1 = match Self::read_part_1(value) {
            Some(part) => part,
            None => {
                return None;
            },
        };
        Some(
            RasterParticleLayer {
                id: part_0.0,
                maxzoom: part_0.1,
                minzoom: part_0.2,
                source: part_0.3,
                filter: part_0.4,
                source_layer: part_0.5,
                slot: part_0.6,
                layout: part_0.7,
                paint: part_1.0,
            },
        )
    }

    proof fn law_round_trip(&self) {
        self.law_wire_names_are_distinct();
        self.lemma_read_from(flatten(self.slots()));
    }
}

impl IntoLayer for RasterParticleLayer {
    open spec fn spec_into_layer(self) -> Layer {
        Layer::RasterParticle(self)
    }

    fn into_layer(self) -> (res: Layer) {
        Layer::RasterParticle(self)
    }
}

/// How a raster particle layer is painted.
#[derive(Debug, Clone)]
pub struct RasterParticlePaint {
    pub raster_particle_array_band: Option<Expression<()>>,
    pub raster_particle_color: Option<Expression<()>>,
    pub raster_particle_count: Option<Expression<()>>,
    pub raster_particle_fade_opacity_factor: Option<Expression<()>>,
    pub raster_particle_max_speed: Option<Expression<()>>,
    pub raster_particle_reset_rate_factor: Option<Expression<()>>,
    pub raster_particle_speed_factor: Option<Expression<()>>,
}

impl Default for RasterParticlePaint {
    /// Every property is unset.
    fn default() -> (res: RasterParticlePaint)
        ensures
            res == RasterParticlePaint::unset(),
    {
        RasterParticlePaint {
            raster_particle_array_band: None,
            raster_particle_color: None,
            raster_particle_count: None,
            raster_particle_fade_opacity_factor: None,
            raster_particle_max_speed: None,
            raster_particle_reset_rate_factor: None,
            raster_particle_speed_factor: None,
        }
    }
}

impl RasterParticlePaint {
    /// The properties with every one unset.
    pub open spec fn unset() -> RasterParticlePaint {
        RasterParticlePaint {
            raster_particle_array_band: None,
            raster_particle_color: None,
            raster_particle_count: None,
            raster_particle_fade_opacity_factor: None,
            raster_particle_max_speed: None,
            raster_particle_reset_rate_factor: None,
            raster_particle_speed_factor: None,
        }
    }

    /// The properties of the wire form, in order: each under its wire name,
    /// with its wire form where it is set.
    pub open spec fn slots(&self) -> Slots {
        seq![
            ("raster-particle-array-band"@, optional_wire(self.raster_particle_array_band)),
            ("raster-particle-color"@, optional_wire(self.raster_particle_color)),
            ("raster-particle-count"@, optional_wire(self.raster_particle_count)),
            ("raster-particle-fade-opacity-factor"@, optional_wire(self.raster_particle_fade_opacity_factor)),
            ("raster-particle-max-speed"@, optional_wire(self.raster_particle_max_speed)),
            ("raster-particle-reset-rate-factor"@, optional_wire(self.raster_particle_reset_rate_factor)),
            ("raster-particle-speed-factor"@, optional_wire(self.raster_particle_speed_factor)),
        ]
    }

    /// Offers every property to a builder, in order.
    pub fn to_entries(&self) -> (b: ObjectBuilder)
        ensures
            b.wf(),
            b@ == self.slots(),
    {
        let mut b = ObjectBuilder::new();
        b.optional_wire("raster-particle-array-band", &self.raster_particle_array_band);
        b.optional_wire("raster-particle-color", &self.raster_particle_color);
        b.optional_wire("raster-particle-count", &self.raster_particle_count);
        b.optional_wire("raster-particle-fade-opacity-factor", &self.raster_particle_fade_opacity_factor);
        b.optional_wire("raster-particle-max-speed", &self.raster_particle_max_speed);
        b.optional_wire("raster-particle-reset-rate-factor", &self.raster_particle_reset_rate_factor);
        b.optional_wire("raster-particle-speed-factor", &self.raster_particle_speed_factor);
        b
    }

    /// The place of the property with the wire name `key`, which the length of
    /// the name and a few of its characters tell.
    spec fn place_of(key: Seq<char>) -> int {
        if key.len() == 26 && key[18] == 'r' {
            0
        } else if key.len() == 21 && key[18] == 'l' {
            1
        } else if key.len() == 21 && key[18] == 'u' {
            2
        } else if key.len() == 35 && key[18] == 'd' {
            3
        } else if key.len() == 25 && key[18] == 'x' {
            4
        } else if key.len() == 33 && key[18] == 's' {
            5
        } else if key.len() == 28 && key[18] == 'e' {
            6
        } else {
            -1
        }
    }

    /// No two properties have one wire name. So looking the wire name of a
    /// property up in the wire form finds the wire form of that property where it
    /// is set, and nothing where it is unset.
    pub proof fn law_wire_names_are_distinct(&self)
        ensures
            distinct_keys(self.slots()),
            forall|i: int|
                0 <= i < self.slots().len() ==> lookup(
                    flatten(self.slots()),
                    (#[trigger] self.slots()[i]).0,
                ) == self.slots()[i].1,
    {
        reveal_strlit("raster-particle-array-band");
        reveal_strlit("raster-particle-color");
        reveal_strlit("raster-particle-count");
        reveal_strlit("raster-particle-fade-opacity-factor");
        reveal_strlit("raster-particle-max-speed");
        reveal_strlit("raster-particle-reset-rate-factor");
        reveal_strlit("raster-particle-speed-factor");
        let slots = self.slots();
        assert(RasterParticlePaint::place_of(slots[0].0) == 0);
        assert(RasterParticlePaint::place_of(slots[1].0) == 1);
        assert(RasterParticlePaint::place_of(slots[2].0) == 2);
        assert(RasterParticlePaint::place_of(slots[3].0) == 3);
        assert(RasterParticlePaint::place_of(slots[4].0) == 4);
        assert(RasterParticlePaint::place_of(slots[5].0) == 5);
        assert(RasterParticlePaint::place_of(slots[6].0) == 6);
        assert forall|i: int| 0 <= i < slots.len() implies RasterParticlePaint::place_of(
            (#[trigger] slots[i]).0,
        ) - 0 == i by {
        }
        lemma_placed_keys_are_distinct(slots, |key: Seq<char>| RasterParticlePaint::place_of(key) - 0);
        assert forall|i: int| 0 <= i < slots.len() implies lookup(
            flatten(slots),
            (#[trigger] slots[i]).0,
        ) == slots[i].1 by {
            law_lookup_of_distinct_keys(slots, i);
        }
    }
}

impl ToWire for RasterParticlePaint {
    /// The object of the properties that are set.
    open spec fn wire(&self) -> ValueView {
        ValueView::Object(flatten(self.slots()))
    }

    fn to_wire(&self) -> (value: Value) {
        self.to_entries().finish()
    }
}

impl RasterParticlePaint {
    /// Whether every property of a wire value can be read: what must be there
    /// is there, and what is there has the right shape.
    pub open spec fn all_read(value: ValueView) -> bool {
        &&& read_optional::<Expression<()>>(value.get("raster-particle-array-band"@)) is Some
        &&& read_optional::<Expression<()>>(value.get("raster-particle-color"@)) is Some
        &&& read_optional::<Expression<()>>(value.get("raster-particle-count"@)) is Some
        &&& read_optional::<Expression<()>>(value.get("raster-particle-fade-opacity-factor"@)) is Some
        &&& read_optional::<Expression<()>>(value.get("raster-particle-max-speed"@)) is Some
        &&& read_optional::<Expression<()>>(value.get("raster-particle-reset-rate-factor"@)) is Some
        &&& read_optional::<Expression<()>>(value.get("raster-particle-speed-factor"@)) is Some
    }

    /// The slots that the properties of a wire value are read as, in order.
    pub open spec fn read_slots(value: ValueView) -> Slots {
        seq![
            ("raster-particle-array-band"@, read_optional::<Expression<()>>(value.get("raster-particle-array-band"@))->Some_0),
            ("raster-particle-color"@, read_optional::<Expression<()>>(value.get("raster-particle-color"@))->Some_0),
            ("raster-particle-count"@, read_optional::<Expression<()>>(value.get("raster-particle-count"@))->Some_0),
            ("raster-particle-fade-opacity-factor"@, read_optional::<Expression<()>>(value.get("raster-particle-fade-opacity-factor"@))->Some_0),
            ("raster-particle-max-speed"@, read_optional::<Expression<()>>(value.get("raster-particle-max-speed"@))->Some_0),
            ("raster-particle-reset-rate-factor"@, read_optional::<Expression<()>>(value.get("raster-particle-reset-rate-factor"@))->Some_0),
            ("raster-particle-speed-factor"@, read_optional::<Expression<()>>(value.get("raster-particle-speed-factor"@))->Some_0),
        ]
    }

    /// Reading an object in which looking up the name of each property of
    /// the value finds that property gives the value back.
    pub proof fn lemma_read_from(&self, entries: Seq<(Seq<char>, ValueView)>)
        requires
            self.comes_back(),
            forall|i: int|
                0 <= i < self.slots().len() ==> lookup(entries, (#[trigger] self.slots()[i]).0)
                    == self.slots()[i].1,
        ensures
            Self::spec_read(ValueView::Object(entries)) == Some(self.wire()),
    {
        let value = ValueView::Object(entries);
        let slots = self.slots();
        assert(value.get(slots[0].0) == slots[0].1);
        lemma_optional_round_trip::<Expression<()>>(self.raster_particle_array_band);
        assert(value.get(slots[1].0) == slots[1].1);
        lemma_optional_round_trip::<Expression<()>>(self.raster_particle_color);
        assert(value.get(slots[2].0) == slots[2].1);
        lemma_optional_round_trip::<Expression<()>>(self.raster_particle_count);
        assert(value.get(slots[3].0) == slots[3].1);
        lemma_optional_round_trip::<Expression<()>>(self.raster_particle_fade_opacity_factor);
        assert(value.get(slots[4].0) == slots[4].1);
        lemma_optional_round_trip::<Expression<()>>(self.raster_particle_max_speed);
        assert(value.get(slots[5].0) == slots[5].1);
        lemma_optional_round_trip::<Expression<()>>(self.raster_particle_reset_rate_factor);
        assert(value.get(slots[6].0) == slots[6].1);
        lemma_optional_round_trip::<Expression<()>>(self.raster_particle_speed_factor);
    }
}

impl FromWire for RasterParticlePaint {
    /// The value is read from an object, property by property. Properties of
    /// other names are passed over.
    open spec fn spec_read(value: ValueView) -> Option<ValueView> {
        if value is Object && Self::all_read(value) {
            Some(ValueView::Object(flatten(Self::read_slots(value))))
        } else {
            None
        }
    }

    open spec fn comes_back(&self) -> bool {
        &&& optional_comes_back(self.raster_particle_array_band)
        &&& optional_comes_back(self.raster_particle_color)
        &&& optional_comes_back(self.raster_particle_count)
        &&& optional_comes_back(self.raster_particle_fade_opacity_factor)
        &&& optional_comes_back(self.raster_particle_max_speed)
        &&& optional_comes_back(self.raster_particle_reset_rate_factor)
        &&& optional_comes_back(self.raster_particle_speed_factor)
    }

    fn from_wire(value: &Value) -> (res: Option<RasterParticlePaint>) {
        match value {
            Value::Object(_) => {},
            _ => {
                return None;
            },
        }
        let raster_particle_array_band = match optional::<Expression<()>>(value.get("raster-particle-array-band")) {
            Some(read) => read,
            None => {
                return None;
            },
        };
        let raster_particle_color = match optional::<Expression<()>>(value.get("raster-particle-color")) {
            Some(read) => read,
            None => {
                return None;
            },
        };
        let raster_particle_count = match optional::<Expression<()>>(value.get("raster-particle-count")) {
            Some(read) => read,
            None => {
                return None;
            },
        };
        let raster_particle_fade_opacity_factor = match optional::<Expression<()>>(value.get("raster-particle-fade-opacity-factor")) {
            Some(read) => read,
            None => {
                return None;
            },
        };
        let raster_particle_max_speed = match optional::<Expression<()>>(value.get("raster-particle-max-speed")) {
            Some(read) => read,
            None => {
                return None;
            },
        };
        let raster_particle_reset_rate_factor = match optional::<Expression<()>>(value.get("raster-particle-reset-rate-factor")) {
            Some(read) => read,
            None => {
                return None;
            },
        };
        let raster_particle_speed_factor = match optional::<Expression<()>>(value.get("raster-particle-speed-factor")) {
            Some(read) => read,
            None => {
                return None;
            },
        };
        Some(RasterParticlePaint { raster_particle_array_band, raster_particle_color, raster_particle_count, raster_particle_fade_opacity_factor, raster_particle_max_speed, raster_particle_reset_rate_factor, raster_particle_speed_factor })
    }

    proof fn law_round_trip(&self) {
        self.law_wire_names_are_distinct();
        self.lemma_read_from(flatten(self.slots()));
    }
}

/// How a raster particle layer is laid out.
#[derive(Debug, Clone)]
pub struct RasterParticleLayout {
    pub visibility: Option<Visibility>,
}

impl Default for RasterParticleLayout {
    /// Every property is unset.
    fn default() -> (res: RasterParticleLayout)
        ensures
            res == RasterParticleLayout::unset(),
    {
        RasterParticleLayout {
            visibility: None,
        }
    }
}

impl RasterParticleLayout {
    /// The properties with every one unset.
    pub open spec fn unset() -> RasterParticleLayout {
        RasterParticleLayout {
            visibility: None,
        }
    }

    /// The properties of the wire form, in order: each under its wire name,
    /// with its wire form where it is set.
    pub open spec fn slots(&self) -> Slots {
        seq![
            ("visibility"@, optional_wire(self.visibility)),
        ]
    }

    /// Offers every property to a builder, in order.
    pub fn to_entries(&self) -> (b: ObjectBuilder)
        ensures
            b.wf(),
            b@ == self.slots(),
    {
        let mut b = ObjectBuilder::new();
        b.optional_wire("visibility", &self.visibility);
        b
    }

    /// The place of the property with the wire name `key`, which the length of
    /// the name and a few of its characters tell.
    spec fn place_of(key: Seq<char>) -> int {
        if key.len() == 10 {
            0
        } else {
            -1
        }
    }

    /// No two properties have one wire name. So looking the wire name of a
    /// property up in the wire form finds the wire form of that property where it
    /// is set, and nothing where it is unset.
    pub proof fn law_wire_names_are_distinct(&self)
        ensures
            distinct_keys(self.slots()),
            forall|i: int|
                0 <= i < self.slots().len() ==> lookup(
                    flatten(self.slots()),
                    (#[trigger] self.slots()[i]).0,
                ) == self.slots()[i].1,
    {
        reveal_strlit("visibility");
        let slots = self.slots();
        assert(RasterParticleLayout::place_of(slots[0].0) == 0);
        assert forall|i: int| 0 <= i < slots.len() implies RasterParticleLayout::place_of(
            (#[trigger] slots[i]).0,
        ) - 0 == i by {
        }
        lemma_placed_keys_are_distinct(slots, |key: Seq<char>| RasterParticleLayout::place_of(key) - 0);
        assert forall|i: int| 0 <= i < slots.len() implies lookup(
            flatten(slots),
            (#[trigger] slots[i]).0,
        ) == slots[i].1 by {
            law_lookup_of_distinct_keys(slots, i);
        }
    }
}

impl ToWire for RasterParticleLayout {
    /// The object of the properties that are set.
    open spec fn wire(&self) -> ValueView {
        ValueView::Object(flatten(self.slots()))
    }

    fn to_wire(&self) -> (value: Value) {
        self.to_entries().finish()
    }
}

impl RasterParticleLayout {
    /// Whether every property of a wire value can be read: what must be there
    /// is there, and what is there has the right shape.
    pub open spec fn all_read(value: ValueView) -> bool {
        &&& read_optional::<Visibility>(value.get("visibility"@)) is Some
    }

    /// The slots that the properties of a wire value are read as, in order.
    pub open spec fn read_slots(value: ValueView) -> Slots {
        seq![
            ("visibility"@, read_optional::<Visibility>(value.get("visibility"@))->Some_0),
        ]
    }

    /// Reading an object in which looking up the name of each property of
    /// the value finds that property gives the value back.
    pub proof fn lemma_read_from(&self, entries: Seq<(Seq<char>, ValueView)>)
        requires
            self.comes_back(),
            forall|i: int|
                0 <= i < self.slots().len() ==> lookup(entries, (#[trigger] self.slots()[i]).0)
                    == self.slots()[i].1,
        ensures
            Self::spec_read(ValueView::Object(entries)) == Some(self.wire()),
    {
        let value = ValueView::Object(entries);
        let slots = self.slots();
        assert(value.get(slots[0].0) == slots[0].1);
        lemma_optional_round_trip::<Visibility>(self.visibility);
    }
}

impl FromWire for RasterParticleLayout {
    /// The value is read from an object, property by property. Properties of
    /// other names are passed over.
    open spec fn spec_read(value: ValueView) -> Option<ValueView> {
        if value is Object && Self::all_read(value) {
            Some(ValueView::Object(flatten(Self::read_slots(value))))
        } else {
            None
        }
    }

    open spec fn comes_back(&self) -> bool {
        &&& optional_comes_back(self.visibility)
    }

    fn from_wire(value: &Value) -> (res: Option<RasterParticleLayout>) {
        match value {
            Value::Object(_) => {},
            _ => {
                return None;
            },
        }
        let visibility = match optional::<Visibility>(value.get("visibility")) {
            Some(read) => read,
            None => {
                return None;
            },
        };
        Some(RasterParticleLayout { visibility })
    }

    proof fn law_round_trip(&self) {
        self.law_wire_names_are_distinct();
        self.lemma_read_from(flatten(self.slots()));
    }
}

/// A circle layer.
#[derive(Debug, Clone)]
pub struct CircleLayer {
    pub id: String,
    pub maxzoom: Option<Number>,
    pub minzoom: Option<Number>,
    pub source: String,
    pub filter: Option<Expression<()>>,
    pub source_layer: Option<String>,
    pub slot: Option<String>,
    pub layout: CircleLayout,
    pub paint: CirclePaint,
}

impl CircleLayer {
    /// The layer with the given identifier and source and nothing else set.
    pub fn new(id: &str, source: &str) -> (res: CircleLayer)
        ensures
            res.id@ == id@,
            res.maxzoom is None,
            res.minzoom is None,
            res.source@ == source@,
            res.filter is None,
            res.source_layer is None,
            res.slot is None,
            res.layout == CircleLayout::unset(),
            res.paint == CirclePaint::unset(),
    {
        CircleLayer {
            id: id.to_owned(),
            maxzoom: None,
            minzoom: None,
            source: source.to_owned(),
            filter: None,
            source_layer: None,
            slot: None,
            layout: CircleLayout::default(),
            paint: CirclePaint::default(),
        }
    }

    /// The properties of the wire form, in order: each under its wire name,
    /// with its wire form where it is set.
    pub open spec fn slots(&self) -> Slots {
        seq![
            ("id"@, Some(self.id.wire())),
            ("maxzoom"@, optional_wire(self.maxzoom)),
            ("minzoom"@, optional_wire(self.minzoom)),
            ("source"@, Some(self.source.wire())),
            ("filter"@, optional_wire(self.filter)),
            ("source-layer"@, optional_wire(self.source_layer)),
            ("slot"@, optional_wire(self.slot)),
            ("layout"@, Some(self.layout.wire())),
            ("paint"@, Some(self.paint.wire())),
        ]
    }

    /// Offers every property to a builder, in order.
    pub fn to_entries(&self) -> (b: ObjectBuilder)
        ensures
            b.wf(),
            b@ == self.slots(),
    {
        let mut b = ObjectBuilder::new();
        b.wire("id", &self.id);
        b.optional_wire("maxzoom", &self.maxzoom);
        b.optional_wire("minzoom", &self.minzoom);
        b.wire("source", &self.source);
        b.optional_wire("filter", &self.filter);
        b.optional_wire("source-layer", &self.source_layer);
        b.optional_wire("slot", &self.slot);
        b.wire("layout", &self.layout);
        b.wire("paint", &self.paint);
        b
    }

    /// The place of the property with the wire name `key`, which the length of
    /// the name and a few of its characters tell.
    spec fn place_of(key: Seq<char>) -> int {
        if key.len() == 4 && key[1] == 'y' {
            0
        } else if key.len() == 2 && key[1] == 'd' {
            1
        } else if key.len() == 7 && key[1] == 'a' {
            2
        } else if key.len() == 7 && key[1] == 'i' {
            3
        } else if key.len() == 6 && key[1] == 'o' {
            4
        } else if key.len() == 6 && key[1] == 'i' {
            5
        } else if key.len() == 12 && key[1] == 'o' {
            6
        } else if key.len() == 4 && key[1] == 'l' {
            7
        } else if key.len() == 6 && key[1] == 'a' {
            8
        } else if key.len() == 5 && key[1] == 'a' {
            9
        } else {
            -1
        }
    }

    /// No two properties have one wire name. So looking the wire name of a
    /// property up in the wire form finds the wire form of that property where it
    /// is set, and nothing where it is unset.
    pub proof fn law_wire_names_are_distinct(&self)
        ensures
            distinct_keys(self.slots()),
            forall|i: int|
                0 <= i < self.slots().len() ==> lookup(
                    flatten(self.slots()),
                    (#[trigger] self.slots()[i]).0,
                ) == self.slots()[i].1,
    {
        reveal_strlit("id");
        reveal_strlit("maxzoom");
        reveal_strlit("minzoom");
        reveal_strlit("source");
        reveal_strlit("filter");
        reveal_strlit("source-layer");
        reveal_strlit("slot");
        reveal_strlit("layout");
        reveal_strlit("paint");
        let slots = self.slots();
        assert(CircleLayer::place_of(slots[0].0) == 1);
        assert(CircleLayer::place_of(slots[1].0) == 2);
        assert(CircleLayer::place_of(slots[2].0) == 3);
        assert(CircleLayer::place_of(slots[3].0) == 4);
        assert(CircleLayer::place_of(slots[4].0) == 5);
        assert(CircleLayer::place_of(slots[5].0) == 6);
        assert(CircleLayer::place_of(slots[6].0) == 7);
        assert(CircleLayer::place_of(slots[7].0) == 8);
        assert(CircleLayer::place_of(slots[8].0) == 9);
        assert forall|i: int| 0 <= i < slots.len() implies CircleLayer::place_of(
            (#[trigger] slots[i]).0,
        ) - 1 == i by {
        }
        lemma_placed_keys_are_distinct(slots, |key: Seq<char>| CircleLayer::place_of(key) - 1);
        assert forall|i: int| 0 <= i < slots.len() implies lookup(
            flatten(slots),
            (#[trigger] slots[i]).0,
        ) == slots[i].1 by {
            law_lookup_of_distinct_keys(slots, i);
        }
    }

    /// No wire name is `type`, and no two are one: behind a slot named
    /// `type` the properties still have names of their own.
    pub proof fn law_wire_names_leave_room(&self, first: Option<ValueView>)
        ensures
            distinct_keys(seq![("type"@, first)] + self.slots()),
    {
        reveal_strlit("type");
        reveal_strlit("id");
        reveal_strlit("maxzoom");
        reveal_strlit("minzoom");
        reveal_strlit("source");
        reveal_strlit("filter");
        reveal_strlit("source-layer");
        reveal_strlit("slot");
        reveal_strlit("layout");
        reveal_strlit("paint");
        let slots = self.slots();
        let tagged = seq![("type"@, first)] + slots;
        assert(CircleLayer::place_of(tagged[0].0) == 0);
        assert(tagged[1] == slots[0]);
        assert(CircleLayer::place_of(slots[0].0) == 1);
        assert(tagged[2] == slots[1]);
        assert(CircleLayer::place_of(slots[1].0) == 2);
        assert(tagged[3] == slots[2]);
        assert(CircleLayer::place_of(slots[2].0) == 3);
        assert(tagged[4] == slots[3]);
        assert(CircleLayer::place_of(slots[3].0) == 4);
        assert(tagged[5] == slots[4]);
        assert(CircleLayer::place_of(slots[4].0) == 5);
        assert(tagged[6] == slots[5]);
        assert(CircleLayer::place_of(slots[5].0) == 6);
        assert(tagged[7] == slots[6]);
        assert(CircleLayer::place_of(slots[6].0) == 7);
        assert(tagged[8] == slots[7]);
        assert(CircleLayer::place_of(slots[7].0) == 8);
        assert(tagged[9] == slots[8]);
        assert(CircleLayer::place_of(slots[8].0) == 9);
        assert forall|i: int| 0 <= i < tagged.len() implies CircleLayer::place_of(
            (#[trigger] tagged[i]).0,
        ) == i by {
        }
        lemma_placed_keys_are_distinct(tagged, |key: Seq<char>| CircleLayer::place_of(key));
    }
}

impl ToWire for CircleLayer {
    /// The object of the properties that are set.
    open spec fn wire(&self) -> ValueView {
        ValueView::Object(flatten(self.slots()))
    }

    fn to_wire(&self) -> (value: Value) {
        self.to_entries().finish()
    }
}

impl CircleLayer {
    /// Whether every property of a wire value can be read: what must be there
    /// is there, and what is there has the right shape.
    pub open spec fn all_read(value: ValueView) -> bool {
        &&& read_required::<String>(value.get("id"@)) is Some
        &&& read_optional::<Number>(value.get("maxzoom"@)) is Some
        &&& read_optional::<Number>(value.get("minzoom"@)) is Some
        &&& read_required::<String>(value.get("source"@)) is Some
        &&& read_optional::<Expression<()>>(value.get("filter"@)) is Some
        &&& read_optional::<String>(value.get("source-layer"@)) is Some
        &&& read_optional::<String>(value.get("slot"@)) is Some
        &&& read_defaulted::<CircleLayout>(value.get("layout"@), CircleLayout::unset().wire()) is Some
        &&& read_defaulted::<CirclePaint>(value.get("paint"@), CirclePaint::unset().wire()) is Some
    }

    /// The slots that the properties of a wire value are read as, in order.
    pub open spec fn read_slots(value: ValueView) -> Slots {
        seq![
            ("id"@, read_required::<String>(value.get("id"@))->Some_0),
            ("maxzoom"@, read_optional::<Number>(value.get("maxzoom"@))->Some_0),
            ("minzoom"@, read_optional::<Number>(value.get("minzoom"@))->Some_0),
            ("source"@, read_required::<String>(value.get("source"@))->Some_0),
            ("filter"@, read_optional::<Expression<()>>(value.get("filter"@))->Some_0),
            ("source-layer"@, read_optional::<String>(value.get("source-layer"@))->Some_0),
            ("slot"@, read_optional::<String>(value.get("slot"@))->Some_0),
            ("layout"@, read_defaulted::<CircleLayout>(value.get("layout"@), CircleLayout::unset().wire())->Some_0),
            ("paint"@, read_defaulted::<CirclePaint>(value.get("paint"@), CirclePaint::unset().wire())->Some_0),
        ]
    }

    fn read_part_0(value: &Value) -> (res: Option<(String, Option<Number>, Option<Number>, String, Option<Expression<()>>, Option<String>, Option<String>, CircleLayout,)>)
        ensures
            match res {
                Some(part) => {
                    &&& read_required::<String>(value@.get("id"@)) == Some(Some(part.0.wire()))
                    &&& read_optional::<Number>(value@.get("maxzoom"@)) == Some(optional_wire(part.1))
                    &&& read_optional::<Number>(value@.get("minzoom"@)) == Some(optional_wire(part.2))
                    &&& read_required::<String>(value@.get("source"@)) == Some(Some(part.3.wire()))
                    &&& read_optional::<Expression<()>>(value@.get("filter"@)) == Some(optional_wire(part.4))
                    &&& read_optional::<String>(value@.get("source-layer"@)) == Some(optional_wire(part.5))
                    &&& read_optional::<String>(value@.get("slot"@)) == Some(optional_wire(part.6))
                    &&& read_defaulted::<CircleLayout>(value@.get("layout"@), CircleLayout::unset().wire()) == Some(Some(part.7.wire()))
                },
                None => !Self::all_read(value@),
            },
    {
        let id = match required::<String>(value.get("id")) {
            Some(read) => read,
            None => {
                return None;
            },
        };
        let maxzoom = match optional::<Number>(value.get("maxzoom")) {
            Some(read) => read,
            None => {
                return None;
            },
        };
        let minzoom = match optional::<Number>(value.get("minzoom")) {
            Some(read) => read,
            None => {
                return None;
            },
        };
        let source = match required::<String>(value.get("source")) {
            Some(read) => read,
            None => {
                return None;
            },
        };
        let filter = match optional::<Expression<()>>(value.get("filter")) {
            Some(read) => read,
            None => {
                return None;
            },
        };
        let source_layer = match optional::<String>(value.get("source-layer")) {
            Some(read) => read,
            None => {
                return None;
            },
        };
        let slot = match optional::<String>(value.get("slot")) {
            Some(read) => read,
            None => {
                return None;
            },
        };
        let layout = match value.get("layout") {
            Some(found) => match CircleLayout::from_wire(found) {
                Some(read) => read,
                None => {
                    return None;
                },
            },
            None => CircleLayout::default(),
        };
        Some((id, maxzoom, minzoom, source, filter, source_layer, slot, layout,))
    }

    fn read_part_1(value: &Value) -> (res: Option<(CirclePaint,)>)
        ensures
            match res {
                Some(part) => {
                    &&& read_defaulted::<CirclePaint>(value@.get("paint"@), CirclePaint::unset().wire()) == Some(Some(part.0.wire()))
                },
                None => !Self::all_read(value@),
            },
    {
        let paint = match value.get("paint") {
            Some(found) => match CirclePaint::from_wire(found) {
                Some(read) => read,
                None => {
                    return None;
                },
            },
            None => CirclePaint::default(),
        };
        Some((paint,))
    }

    /// Reading an object in which looking up the name of each property of
    /// the value finds that property gives the value back.
    pub proof fn lemma_read_from(&self, entries: Seq<(Seq<char>, ValueView)>)
        requires
            self.comes_back(),
            forall|i: int|
                0 <= i < self.slots().len() ==> lookup(entries, (#[trigger] self.slots()[i]).0)
                    == self.slots()[i].1,
        ensures
            Self::spec_read(ValueView::Object(entries)) == Some(self.wire()),
    {
        let value = ValueView::Object(entries);
        let slots = self.slots();
        assert(value.get(slots[0].0) == slots[0].1);
        lemma_required_round_trip::<String>(self.id);
        assert(value.get(slots[1].0) == slots[1].1);
        lemma_optional_round_trip::<Number>(self.maxzoom);
        assert(value.get(slots[2].0) == slots[2].1);
        lemma_optional_round_trip::<Number>(self.minzoom);
        assert(value.get(slots[3].0) == slots[3].1);
        lemma_required_round_trip::<String>(self.source);
        assert(value.get(slots[4].0) == slots[4].1);
        lemma_optional_round_trip::<Expression<()>>(self.filter);
        assert(value.get(slots[5].0) == slots[5].1);
        lemma_optional_round_trip::<String>(self.source_layer);
        assert(value.get(slots[6].0) == slots[6].1);
        lemma_optional_round_trip::<String>(self.slot);
        assert(value.get(slots[7].0) == slots[7].1);
        lemma_defaulted_round_trip::<CircleLayout>(self.layout, CircleLayout::unset().wire());
        assert(value.get(slots[8].0) == slots[8].1);
        lemma_defaulted_round_trip::<CirclePaint>(self.paint, CirclePaint::unset().wire());
    }
}

impl FromWire for CircleLayer {
    /// The value is read from an object, property by property. Properties of
    /// other names are passed over.
    open spec fn spec_read(value: ValueView) -> Option<ValueView> {
        if value is Object && Self::all_read(value) {
            Some(ValueView::Object(flatten(Self::read_slots(value))))
        } else {
            None
        }
    }

    open spec fn comes_back(&self) -> bool {
        &&& self.id.comes_back()
        &&& optional_comes_back(self.maxzoom)
        &&& optional_comes_back(self.minzoom)
        &&& self.source.comes_back()
        &&& optional_comes_back(self.filter)
        &&& optional_comes_back(self.source_layer)
        &&& optional_comes_back(self.slot)
        &&& self.layout.comes_back()
        &&& self.paint.comes_back()
    }

    fn from_wire(value: &Value) -> (res: Option<CircleLayer>) {
        match value {
            Value::Object(_) => {},
            _ => {
                return None;
            },
        }
        let part_0 = match Self::read_part_0(value) {
            Some(part) => part,
            None => {
                return None;
            },
        };
        let part_1 = match Self::read_part_1(value) {
            Some(part) => part,
            None => {
                return None;
            },
        };
        Some(
            CircleLayer {
                id: part_0.0,
                maxzoom: part_0.1,
                minzoom: part_0.2,
                source: part_0.3,
                filter: part_0.4,
                source_layer: part_0.5,
                slot: part_0.6,
                layout: part_0.7,
                paint: part_1.0,
            },
        )
    }

    proof fn law_round_trip(&self) {
        self.law_wire_names_are_distinct();
        self.lemma_read_from(flatten(self.slots()));
    }
}

impl IntoLayer for CircleLayer {
    open spec fn spec_into_layer(self) -> Layer {
        Layer::Circle(self)
    }

    fn into_layer(self) -> (res: Layer) {
        Layer::Circle(self)
    }
}

/// The vocabulary of the circle alignment properties.
#[derive(Debug, Clone, Copy, PartialEq, Eq, Structural)]
pub enum CircleAlignment {
    Viewport,
    MapPlane,
}

impl EnumMarker for CircleAlignment {

}

impl Default for CircleAlignment {
    fn default() -> (res: CircleAlignment)
        ensures
            res == CircleAlignment::Viewport,
    {
        CircleAlignment::Viewport
    }
}

impl CircleAlignment {
    /// The name of the constant on the wire.
    pub open spec fn spec_name(self) -> Seq<char> {
        match self {
            CircleAlignment::Viewport => "viewport"@,
            CircleAlignment::MapPlane => "map"@,
        }
    }

    /// The name of the constant on the wire.
    pub fn name(&self) -> (res: &'static str)
        ensures
            res@ == self.spec_name(),
    {
        match self {
            CircleAlignment::Viewport => "viewport",
            CircleAlignment::MapPlane => "map",
        }
    }
}

impl ToWire for CircleAlignment {
    open spec fn wire(&self) -> ValueView {
        ValueView::String(self.spec_name())
    }

    fn to_wire(&self) -> (value: Value) {
        Value::string(self.name())
    }
}

impl CircleAlignment {
    /// The constant with the wire name `name`, if there is one.
    pub open spec fn spec_named(name: Seq<char>) -> Option<CircleAlignment> {
        if name == "viewport"@ {
            Some(CircleAlignment::Viewport)
        } else if name == "map"@ {
            Some(CircleAlignment::MapPlane)
        } else {
            None
        }
    }

    /// The constant with the wire name `name`, if there is one.
    pub fn named(name: &str) -> (res: Option<CircleAlignment>)
        ensures
            res == Self::spec_named(name@),
    {
        if str_eq(name, "viewport") {
            Some(CircleAlignment::Viewport)
        } else if str_eq(name, "map") {
            Some(CircleAlignment::MapPlane)
        } else {
            None
        }
    }

    /// Every constant is the constant with its own wire name.
    pub proof fn law_named(self)
        ensures
            Self::spec_named(self.spec_name()) == Some(self),
    {
        reveal_strlit("viewport");
        reveal_strlit("map");
        assert("viewport"@.len() == 8);
        assert("map"@.len() == 3);
    }
}

impl FromWire for CircleAlignment {
    /// A constant is read from the string of its wire name.
    open spec fn spec_read(value: ValueView) -> Option<ValueView> {
        match value {
            ValueView::String(name) => if Self::spec_named(name) is Some {
                Some(value)
            } else {
                None
            },
            _ => None,
        }
    }

    open spec fn comes_back(&self) -> bool {
        true
    }

    fn from_wire(value: &Value) -> (res: Option<CircleAlignment>) {
        match value {
            Value::String(name) => match Self::named(name.as_str()) {
                Some(constant) => {
                    proof {
                        Self::lemma_named_is_named(name@);
                    }
                    Some(constant)
                },
                None => None,
            },
            _ => None,
        }
    }

    proof fn law_round_trip(&self) {
        self.law_named();
    }
}

impl CircleAlignment {
    /// The constant with a wire name has that wire name.
    pub proof fn lemma_named_is_named(name: Seq<char>)
        ensures
            Self::spec_named(name) matches Some(constant) ==> constant.spec_name() == name,
    {
    }
}

impl ExactWire for CircleAlignment {
    proof fn law_read_is_exact(value: ValueView) {
    }

    proof fn law_always_comes_back(&self) {
    }
}

/// The vocabulary of the circle scale properties.
#[derive(Debug, Clone, Copy, PartialEq, Eq, Structural)]
pub enum CircleScale {
    MapPlane,
    Viewport,
}

impl EnumMarker for CircleScale {

}

impl Default for CircleScale {
    fn default() -> (res: CircleScale)
        ensures
            res == CircleScale::MapPlane,
    {
        CircleScale::MapPlane
    }
}

impl CircleScale {
    /// The name of the constant on the wire.
    pub open spec fn spec_name(self) -> Seq<char> {
        match self {
            CircleScale::MapPlane => "map"@,
            CircleScale::Viewport => "viewport"@,
        }
    }

    /// The name of the constant on the wire.
    pub fn name(&self) -> (res: &'static str)
        ensures
            res@ == self.spec_name(),
    {
        match self {
            CircleScale::MapPlane => "map",
            CircleScale::Viewport => "viewport",
        }
    }
}

impl ToWire for CircleScale {
    open spec fn wire(&self) -> ValueView {
        ValueView::String(self.spec_name())
    }

    fn to_wire(&self) -> (value: Value) {
        Value::string(self.name())
    }
}

impl CircleScale {
    /// The constant with the wire name `name`, if there is one.
    pub open spec fn spec_named(name: Seq<char>) -> Option<CircleScale> {
        if name == "map"@ {
            Some(CircleScale::MapPlane)
        } else if name == "viewport"@ {
            Some(CircleScale::Viewport)
        } else {
            None
        }
    }

    /// The constant with the wire name `name`, if there is one.
    pub fn named(name: &str) -> (res: Option<CircleScale>)
        ensures
            res == Self::spec_named(name@),
    {
        if str_eq(name, "map") {
            Some(CircleScale::MapPlane)
        } else if str_eq(name, "viewport") {
            Some(CircleScale::Viewport)
        } else {
            None
        }
    }

    /// Every constant is the constant with its own wire name.
    pub proof fn law_named(self)
        ensures
            Self::spec_named(self.spec_name()) == Some(self),
    {
        reveal_strlit("map");
        reveal_strlit("viewport");
        assert("map"@.len() == 3);
        assert("viewport"@.len() == 8);
    }
}

impl FromWire for CircleScale {
    /// A constant is read from the string of its wire name.
    open spec fn spec_read(value: ValueView) -> Option<ValueView> {
        match value {
            ValueView::String(name) => if Self::spec_named(name) is Some {
                Some(value)
            } else {
                None
            },
            _ => None,
        }
    }

    open spec fn comes_back(&self) -> bool {
        true
    }

    fn from_wire(value: &Value) -> (res: Option<CircleScale>) {
        match value {
            Value::String(name) => match Self::named(name.as_str()) {
                Some(constant) => {
                    proof {
                        Self::lemma_named_is_named(name@);
                    }
                    Some(constant)
                },
                None => None,
            },
            _ => None,
        }
    }

    proof fn law_round_trip(&self) {
        self.law_named();
    }
}

impl CircleScale {
    /// The constant with a wire name has that wire name.
    pub proof fn lemma_named_is_named(name: Seq<char>)
        ensures
            Self::spec_named(name) matches Some(constant) ==> constant.spec_name() == name,
    {
    }
}

impl ExactWire for CircleScale {
    proof fn law_read_is_exact(value: ValueView) {
    }

    proof fn law_always_comes_back(&self) {
    }
}

/// How a circle layer is painted.
#[derive(Debug, Clone)]
pub struct CirclePaint {
    pub circle_blur: Option<Expression<()>>,
    pub circle_color: Option<Expression<()>>,
    pub circle_emissive_strength: Option<Expression<()>>,
    pub circle_opacity: Option<Expression<()>>,
    pub circle_pitch_alignment: Option<Expression<CircleAlignment>>,
    pub circle_pitch_scale: Option<Expression<CircleScale>>,
    pub circle_radius: Option<Expression<()>>,
    pub circle_stroke_color: Option<Expression<()>>,
    pub circle_stroke_opacity: Option<Expression<()>>,
    pub circle_stroke_width: Option<Expression<()>>,
    pub circle_translate: Option<Expression<()>>,
    pub circle_translate_anchor: Option<Expression<TranslateAnchor>>,
}

impl Default for CirclePaint {
    /// Every property is unset.
    fn default() -> (res: CirclePaint)
        ensures
            res == CirclePaint::unset(),
    {
        CirclePaint {
            circle_blur: None,
            circle_color: None,
            circle_emissive_strength: None,
            circle_opacity: None,
            circle_pitch_alignment: None,
            circle_pitch_scale: None,
            circle_radius: None,
            circle_stroke_color: None,
            circle_stroke_opacity: None,
            circle_stroke_width: None,
            circle_translate: None,
            circle_translate_anchor: None,
        }
    }
}

impl CirclePaint {
    /// The properties with every one unset.
    pub open spec fn unset() -> CirclePaint {
        CirclePaint {
            circle_blur: None,
            circle_color: None,
            circle_emissive_strength: None,
            circle_opacity: None,
            circle_pitch_alignment: None,
            circle_pitch_scale: None,
            circle_radius: None,
            circle_stroke_color: None,
            circle_stroke_opacity: None,
            circle_stroke_width: None,
            circle_translate: None,
            circle_translate_anchor: None,
        }
    }

    /// The properties of the wire form, in order: each under its wire name,
    /// with its wire form where it is set.
    pub open spec fn slots(&self) -> Slots {
        seq![
            ("circle-blur"@, optional_wire(self.circle_blur)),
            ("circle-color"@, optional_wire(self.circle_color)),
            ("circle-emissive-strength"@, optional_wire(self.circle_emissive_strength)),
            ("circle-opacity"@, optional_wire(self.circle_opacity)),
            ("circle-pitch-alignment"@, optional_wire(self.circle_pitch_alignment)),
            ("circle-pitch-scale"@, optional_wire(self.circle_pitch_scale)),
            ("circle-radius"@, optional_wire(self.circle_radius)),
            ("circle-stroke-color"@, optional_wire(self.circle_stroke_color)),
            ("circle-stroke-opacity"@, optional_wire(self.circle_stroke_opacity)),
            ("circle-stroke-width"@, optional_wire(self.circle_stroke_width)),
            ("circle-translate"@, optional_wire(self.circle_translate)),
            ("circle-translate-anchor"@, optional_wire(self.circle_translate_anchor)),
        ]
    }

    /// Offers every property to a builder, in order.
    pub fn to_entries(&self) -> (b: ObjectBuilder)
        ensures
            b.wf(),
            b@ == self.slots(),
    {
        let mut b = ObjectBuilder::new();
        b.optional_wire("circle-blur", &self.circle_blur);
        b.optional_wire("circle-color", &self.circle_color);
        b.optional_wire("circle-emissive-strength", &self.circle_emissive_strength);
        b.optional_wire("circle-opacity", &self.circle_opacity);
        b.optional_wire("circle-pitch-alignment", &self.circle_pitch_alignment);
        b.optional_wire("circle-pitch-scale", &self.circle_pitch_scale);
        b.optional_wire("circle-radius", &self.circle_radius);
        b.optional_wire("circle-stroke-color", &self.circle_stroke_color);
        b.optional_wire("circle-stroke-opacity", &self.circle_stroke_opacity);
        b.optional_wire("circle-stroke-width", &self.circle_stroke_width);
        b.optional_wire("circle-translate", &self.circle_translate);
        b.optional_wire("circle-translate-anchor", &self.circle_translate_anchor);
        b
    }

    /// The place of the property with the wire name `key`, which the length of
    /// the name and a few of its characters tell.
    spec fn place_of(key: Seq<char>) -> int {
        if key.len() == 11 {
            0
        } else if key.len() == 12 {
            1
        } else if key.len() == 24 && key[14] == 'e' {
            2
        } else if key.len() == 14 {
            3
        } else if key.len() == 22 && key[14] == 'l' {
            4
        } else if key.len() == 18 && key[14] == 'c' {
            5
        } else if key.len() == 13 {
            6
        } else if key.len() == 19 && key[14] == 'c' {
            7
        } else if key.len() == 21 && key[14] == 'o' {
            8
        } else if key.len() == 19 && key[14] == 'w' {
            9
        } else if key.len() == 16 && key[14] == 't' {
            10
        } else if key.len() == 23 && key[14] == 't' {
            11
        } else {
            -1
        }
    }

    /// No two properties have one wire name. So looking the wire name of a
    /// property up in the wire form finds the wire form of that property where it
    /// is set, and nothing where it is unset.
    pub proof fn law_wire_names_are_distinct(&self)
        ensures
            distinct_keys(self.slots()),
            forall|i: int|
                0 <= i < self.slots().len() ==> lookup(
                    flatten(self.slots()),
                    (#[trigger] self.slots()[i]).0,
                ) == self.slots()[i].1,
    {
        reveal_strlit("circle-blur");
        reveal_strlit("circle-color");
        reveal_strlit("circle-emissive-strength");
        reveal_strlit("circle-opacity");
        reveal_strlit("circle-pitch-alignment");
        reveal_strlit("circle-pitch-scale");
        reveal_strlit("circle-radius");
        reveal_strlit("circle-stroke-color");
        reveal_strlit("circle-stroke-opacity");
        reveal_strlit("circle-stroke-width");
        reveal_strlit("circle-translate");
        reveal_strlit("circle-translate-anchor");
        let slots = self.slots();
        assert(CirclePaint::place_of(slots[0].0) == 0);
        assert(CirclePaint::place_of(slots[1].0) == 1);
        assert(CirclePaint::place_of(slots[2].0) == 2);
        assert(CirclePaint::place_of(slots[3].0) == 3);
        assert(CirclePaint::place_of(slots[4].0) == 4);
        assert(CirclePaint::place_of(slots[5].0) == 5);
        assert(CirclePaint::place_of(slots[6].0) == 6);
        assert(CirclePaint::place_of(slots[7].0) == 7);
        assert(CirclePaint::place_of(slots[8].0) == 8);
        assert(CirclePaint::place_of(slots[9].0) == 9);
        assert(CirclePaint::place_of(slots[10].0) == 10);
        assert(CirclePaint::place_of(slots[11].0) == 11);
        assert forall|i: int| 0 <= i < slots.len() implies CirclePaint::place_of(
            (#[trigger] slots[i]).0,
        ) - 0 == i by {
        }
        lemma_placed_keys_are_distinct(slots, |key: Seq<char>| CirclePaint::place_of(key) - 0);
        assert forall|i: int| 0 <= i < slots.len() implies lookup(
            flatten(slots),
            (#[trigger] slots[i]).0,
        ) == slots[i].1 by {
            law_lookup_of_distinct_keys(slots, i);
        }
    }
}

impl ToWire for CirclePaint {
    /// The object of the properties that are set.
    open spec fn wire(&self) -> ValueView {
        ValueView::Object(flatten(self.slots()))
    }

    fn to_wire(&self) -> (value: Value) {
        self.to_entries().finish()
    }
}

impl CirclePaint {
    /// Whether every property of a wire value can be read: what must be there
    /// is there, and what is there has the right shape.
    pub open spec fn all_read(value: ValueView) -> bool {
        &&& read_optional::<Expression<()>>(value.get("circle-blur"@)) is Some
        &&& read_optional::<Expression<()>>(value.get("circle-color"@)) is Some
        &&& read_optional::<Expression<()>>(value.get("circle-emissive-strength"@)) is Some
        &&& read_optional::<Expression<()>>(value.get("circle-opacity"@)) is Some
        &&& read_optional::<Expression<CircleAlignment>>(value.get("circle-pitch-alignment"@)) is Some
        &&& read_optional::<Expression<CircleScale>>(value.get("circle-pitch-scale"@)) is Some
        &&& read_optional::<Expression<()>>(value.get("circle-radius"@)) is Some
        &&& read_optional::<Expression<()>>(value.get("circle-stroke-color"@)) is Some
        &&& read_optional::<Expression<()>>(value.get("circle-stroke-opacity"@)) is Some
        &&& read_optional::<Expression<()>>(value.get("circle-stroke-width"@)) is Some
        &&& read_optional::<Expression<()>>(value.get("circle-translate"@)) is Some
        &&& read_optional::<Expression<TranslateAnchor>>(value.get("circle-translate-anchor"@)) is Some
    }

    /// The slots that the properties of a wire value are read as, in order.
    pub open spec fn read_slots(value: ValueView) -> Slots {
        seq![
            ("circle-blur"@, read_optional::<Expression<()>>(value.get("circle-blur"@))->Some_0),
            ("circle-color"@, read_optional::<Expression<()>>(value.get("circle-color"@))->Some_0),
            ("circle-emissive-strength"@, read_optional::<Expression<()>>(value.get("circle-emissive-strength"@))->Some_0),
            ("circle-opacity"@, read_optional::<Expression<()>>(value.get("circle-opacity"@))->Some_0),
            ("circle-pitch-alignment"@, read_optional::<Expression<CircleAlignment>>(value.get("circle-pitch-alignment"@))->Some_0),
            ("circle-pitch-scale"@, read_optional::<Expression<CircleScale>>(value.get("circle-pitch-scale"@))->Some_0),
            ("circle-radius"@, read_optional::<Expression<()>>(value.get("circle-radius"@))->Some_0),
            ("circle-stroke-color"@, read_optional::<Expression<()>>(value.get("circle-stroke-color"@))->Some_0),
            ("circle-stroke-opacity"@, read_optional::<Expression<()>>(value.get("circle-stroke-opacity"@))->Some_0),
            ("circle-stroke-width"@, read_optional::<Expression<()>>(value.get("circle-stroke-width"@))->Some_0),
            ("circle-translate"@, read_optional::<Expression<()>>(value.get("circle-translate"@))->Some_0),
            ("circle-translate-anchor"@, read_optional::<Expression<TranslateAnchor>>(value.get("circle-translate-anchor"@))->Some_0),
        ]
    }

    fn read_part_0(value: &Value) -> (res: Option<(Option<Expression<()>>, Option<Expression<()>>, Option<Expression<()>>, Option<Expression<()>>, Option<Expression<CircleAlignment>>, Option<Expression<CircleScale>>, Option<Expression<()>>, Option<Expression<()>>,)>)
        ensures
            match res {
                Some(part) => {
                    &&& read_optional::<Expression<()>>(value@.get("circle-blur"@)) == Some(optional_wire(part.0))
                    &&& read_optional::<Expression<()>>(value@.get("circle-color"@)) == Some(optional_wire(part.1))
                    &&& read_optional::<Expression<()>>(value@.get("circle-emissive-strength"@)) == Some(optional_wire(part.2))
                    &&& read_optional::<Expression<()>>(value@.get("circle-opacity"@)) == Some(optional_wire(part.3))
                    &&& read_optional::<Expression<CircleAlignment>>(value@.get("circle-pitch-alignment"@)) == Some(optional_wire(part.4))
                    &&& read_optional::<Expression<CircleScale>>(value@.get("circle-pitch-scale"@)) == Some(optional_wire(part.5))
                    &&& read_optional::<Expression<()>>(value@.get("circle-radius"@)) == Some(optional_wire(part.6))
                    &&& read_optional::<Expression<()>>(value@.get("circle-stroke-color"@)) == Some(optional_wire(part.7))
                },
                None => !Self::all_read(value@),
            },
    {
        let circle_blur = match optional::<Expression<()>>(value.get("circle-blur")) {
            Some(read) => read,
            None => {
                return None;
            },
        };
        let circle_color = match optional::<Expression<()>>(value.get("circle-color")) {
            Some(read) => read,
            None => {
                return None;
            },
        };
        let circle_emissive_strength = match optional::<Expression<()>>(value.get("circle-emissive-strength")) {
            Some(read) => read,
            None => {
                return None;
            },
        };
        let circle_opacity = match optional::<Expression<()>>(value.get("circle-opacity")) {
            Some(read) => read,
            None => {
                return None;
            },
        };
        let circle_pitch_alignment = match optional::<Expression<CircleAlignment>>(value.get("circle-pitch-alignment")) {
            Some(read) => read,
            None => {
                return None;
            },
        };
        let circle_pitch_scale = match optional::<Expression<CircleScale>>(value.get("circle-pitch-scale")) {
            Some(read) => read,
            None => {
                return None;
            },
        };
        let circle_radius = match optional::<Expression<()>>(value.get("circle-radius")) {
            Some(read) => read,
            None => {
                return None;
            },
        };
        let circle_stroke_color = match optional::<Expression<()>>(value.get("circle-stroke-color")) {
            Some(read) => read,
            None => {
                return None;
            },
        };
        Some((circle_blur, circle_color, circle_emissive_strength, circle_opacity, circle_pitch_alignment, circle_pitch_scale, circle_radius, circle_stroke_color,))
    }

    fn read_part_1(value: &Value) -> (res: Option<(Option<Expression<()>>, Option<Expression<()>>, Option<Expression<()>>, Option<Expression<TranslateAnchor>>,)>)
        ensures
            match res {
                Some(part) => {
                    &&& read_optional::<Expression<()>>(value@.get("circle-stroke-opacity"@)) == Some(optional_wire(part.0))
                    &&& read_optional::<Expression<()>>(value@.get("circle-stroke-width"@)) == Some(optional_wire(part.1))
                    &&& read_optional::<Expression<()>>(value@.get("circle-translate"@)) == Some(optional_wire(part.2))
                    &&& read_optional::<Expression<TranslateAnchor>>(value@.get("circle-translate-anchor"@)) == Some(optional_wire(part.3))
                },
                None => !Self::all_read(value@),
            },
    {
        let circle_stroke_opacity = match optional::<Expression<()>>(value.get("circle-stroke-opacity")) {
            Some(read) => read,
            None => {
                return None;
            },
        };
        let circle_stroke_width = match optional::<Expression<()>>(value.get("circle-stroke-width")) {
            Some(read) => read,
            None => {
                return None;
            },
        };
        let circle_translate = match optional::<Expression<()>>(value.get("circle-translate")) {
            Some(read) => read,
            None => {
                return None;
            },
        };
        let circle_translate_anchor = match optional::<Expression<TranslateAnchor>>(value.get("circle-translate-anchor")) {
            Some(read) => read,
            None => {
                return None;
            },
        };
        Some((circle_stroke_opacity, circle_stroke_width, circle_translate, circle_translate_anchor,))
    }

    /// Reading an object in which looking up the name of each property of
    /// the value finds that property gives the value back.
    pub proof fn lemma_read_from(&self, entries: Seq<(Seq<char>, ValueView)>)
        requires
            self.comes_back(),
            forall|i: int|
                0 <= i < self.slots().len() ==> lookup(entries, (#[trigger] self.slots()[i]).0)
                    == self.slots()[i].1,
        ensures
            Self::spec_read(ValueView::Object(entries)) == Some(self.wire()),
    {
        let value = ValueView::Object(entries);
        let slots = self.slots();
        assert(value.get(slots[0].0) == slots[0].1);
        lemma_optional_round_trip::<Expression<()>>(self.circle_blur);
        assert(value.get(slots[1].0) == slots[1].1);
        lemma_optional_round_trip::<Expression<()>>(self.circle_color);
        assert(value.get(slots[2].0) == slots[2].1);
        lemma_optional_round_trip::<Expression<()>>(self.circle_emissive_strength);
        assert(value.get(slots[3].0) == slots[3].1);
        lemma_optional_round_trip::<Expression<()>>(self.circle_opacity);
        assert(value.get(slots[4].0) == slots[4].1);
        lemma_optional_round_trip::<Expression<CircleAlignment>>(self.circle_pitch_alignment);
        assert(value.get(slots[5].0) == slots[5].1);
        lemma_optional_round_trip::<Expression<CircleScale>>(self.circle_pitch_scale);
        assert(value.get(slots[6].0) == slots[6].1);
        lemma_optional_round_trip::<Expression<()>>(self.circle_radius);
        assert(value.get(slots[7].0) == slots[7].1);
        lemma_optional_round_trip::<Expression<()>>(self.circle_stroke_color);
        assert(value.get(slots[8].0) == slots[8].1);
        lemma_optional_round_trip::<Expression<()>>(self.circle_stroke_opacity);
        assert(value.get(slots[9].0) == slots[9].1);
        lemma_optional_round_trip::<Expression<()>>(self.circle_stroke_width);
        assert(value.get(slots[10].0) == slots[10].1);
        lemma_optional_round_trip::<Expression<()>>(self.circle_translate);
        assert(value.get(slots[11].0) == slots[11].1);
        lemma_optional_round_trip::<Expression<TranslateAnchor>>(self.circle_translate_anchor);
    }
}

impl FromWire for CirclePaint {
    /// The value is read from an object, property by property. Properties of
    /// other names are passed over.
    open spec fn spec_read(value: ValueView) -> Option<ValueView> {
        if value is Object && Self::all_read(value) {
            Some(ValueView::Object(flatten(Self::read_slots(value))))
        } else {
            None
        }
    }

    open spec fn comes_back(&self) -> bool {
        &&& optional_comes_back(self.circle_blur)
        &&& optional_comes_back(self.circle_color)
        &&& optional_comes_back(self.circle_emissive_strength)
        &&& optional_comes_back(self.circle_opacity)
        &&& optional_comes_back(self.circle_pitch_alignment)
        &&& optional_comes_back(self.circle_pitch_scale)
        &&& optional_comes_back(self.circle_radius)
        &&& optional_comes_back(self.circle_stroke_color)
        &&& optional_comes_back(self.circle_stroke_opacity)
        &&& optional_comes_back(self.circle_stroke_width)
        &&& optional_comes_back(self.circle_translate)
        &&& optional_comes_back(self.circle_translate_anchor)
    }

    fn from_wire(value: &Value) -> (res: Option<CirclePaint>) {
        match value {
            Value::Object(_) => {},
            _ => {
                return None;
            },
        }
        let part_0 = match Self::read_part_0(value) {
            Some(part) => part,
            None => {
                return None;
            },
        };
        let part_1 = match Self::read_part_1(value) {
            Some(part) => part,
            None => {
                return None;
            },
        };
        Some(
            CirclePaint {
                circle_blur: part_0.0,
                circle_color: part_0.1,
                circle_emissive_strength: part_0.2,
                circle_opacity: part_0.3,
                circle_pitch_alignment: part_0.4,
                circle_pitch_scale: part_0.5,
                circle_radius: part_0.6,
                circle_stroke_color: part_0.7,
                circle_stroke_opacity: part_1.0,
                circle_stroke_width: part_1.1,
                circle_translate: part_1.2,
                circle_translate_anchor: part_1.3,
            },
        )
    }

    proof fn law_round_trip(&self) {
        self.law_wire_names_are_distinct();
        self.lemma_read_from(flatten(self.slots()));
    }
}

/// How a circle layer is laid out.
#[derive(Debug, Clone)]
pub struct CircleLayout {
    pub circle_sort_key: Option<Expression<()>>,
    pub visibility: Option<Visibility>,
}

impl Default for CircleLayout {
    /// Every property is unset.
    fn default() -> (res: CircleLayout)
        ensures
            res == CircleLayout::unset(),
    {
        CircleLayout {
            circle_sort_key: None,
            visibility: None,
        }
    }
}

impl CircleLayout {
    /// The properties with every one unset.
    pub open spec fn unset() -> CircleLayout {
        CircleLayout {
            circle_sort_key: None,
            visibility: None,
        }
    }

    /// The properties of the wire form, in order: each under its wire name,
    /// with its wire form where it is set.
    pub open spec fn slots(&self) -> Slots {
        seq![
            ("circle-sort-key"@, optional_wire(self.circle_sort_key)),
            ("visibility"@, optional_wire(self.visibility)),
        ]
    }

    /// Offers every property to a builder, in order.
    pub fn to_entries(&self) -> (b: ObjectBuilder)
        ensures
            b.wf(),
            b@ == self.slots(),
    {
        let mut b = ObjectBuilder::new();
        b.optional_wire("circle-sort-key", &self.circle_sort_key);
        b.optional_wire("visibility", &self.visibility);
        b
    }

    /// The place of the property with the wire name `key`, which the length of
    /// the name and a few of its characters tell.
    spec fn place_of(key: Seq<char>) -> int {
        if key.len() == 15 {
            0
        } else if key.len() == 10 {
            1
        } else {
            -1
        }
    }

    /// No two properties have one wire name. So looking the wire name of a
    /// property up in the wire form finds the wire form of that property where it
    /// is set, and nothing where it is unset.
    pub proof fn law_wire_names_are_distinct(&self)
        ensures
            distinct_keys(self.slots()),
            forall|i: int|
                0 <= i < self.slots().len() ==> lookup(
                    flatten(self.slots()),
                    (#[trigger] self.slots()[i]).0,
                ) == self.slots()[i].1,
    {
        reveal_strlit("circle-sort-key");
        reveal_strlit("visibility");
        let slots = self.slots();
        assert(CircleLayout::place_of(slots[0].0) == 0);
        assert(CircleLayout::place_of(slots[1].0) == 1);
        assert forall|i: int| 0 <= i < slots.len() implies CircleLayout::place_of(
            (#[trigger] slots[i]).0,
        ) - 0 == i by {
        }
        lemma_placed_keys_are_distinct(slots, |key: Seq<char>| CircleLayout::place_of(key) - 0);
        assert forall|i: int| 0 <= i < slots.len() implies lookup(
            flatten(slots),
            (#[trigger] slots[i]).0,
        ) == slots[i].1 by {
            law_lookup_of_distinct_keys(slots, i);
        }
    }
}

impl ToWire for CircleLayout {
    /// The object of the properties that are set.
    open spec fn wire(&self) -> ValueView {
        ValueView::Object(flatten(self.slots()))
    }

    fn to_wire(&self) -> (value: Value) {
        self.to_entries().finish()
    }
}

impl CircleLayout {
    /// Whether every property of a wire value can be read: what must be there
    /// is there, and what is there has the right shape.
    pub open spec fn all_read(value: ValueView) -> bool {
        &&& read_optional::<Expression<()>>(value.get("circle-sort-key"@)) is Some
        &&& read_optional::<Visibility>(value.get("visibility"@)) is Some
    }

    /// The slots that the properties of a wire value are read as, in order.
    pub open spec fn read_slots(value: ValueView) -> Slots {
        seq![
            ("circle-sort-key"@, read_optional::<Expression<()>>(value.get("circle-sort-key"@))->Some_0),
            ("visibility"@, read_optional::<Visibility>(value.get("visibility"@))->Some_0),
        ]
    }

    /// Reading an object in which looking up the name of each property of
    /// the value finds that property gives the value back.
    pub proof fn lemma_read_from(&self, entries: Seq<(Seq<char>, ValueView)>)
        requires
            self.comes_back(),
            forall|i: int|
                0 <= i < self.slots().len() ==> lookup(entries, (#[trigger] self.slots()[i]).0)
                    == self.slots()[i].1,
        ensures
            Self::spec_read(ValueView::Object(entries)) == Some(self.wire()),
    {
        let value = ValueView::Object(entries);
        let slots = self.slots();
        assert(value.get(slots[0].0) == slots[0].1);
        lemma_optional_round_trip::<Expression<()>>(self.circle_sort_key);
        assert(value.get(slots[1].0) == slots[1].1);
        lemma_optional_round_trip::<Visibility>(self.visibility);
    }
}

impl FromWire for CircleLayout {
    /// The value is read from an object, property by property. Properties of
    /// other names are passed over.
    open spec fn spec_read(value: ValueView) -> Option<ValueView> {
        if value is Object && Self::all_read(value) {
            Some(ValueView::Object(flatten(Self::read_slots(value))))
        } else {
            None
        }
    }

    open spec fn comes_back(&self) -> bool {
        &&& optional_comes_back(self.circle_sort_key)
        &&& optional_comes_back(self.visibility)
    }

    fn from_wire(value: &Value) -> (res: Option<CircleLayout>) {
        match value {
            Value::Object(_) => {},
            _ => {
                return None;
            },
        }
        let circle_sort_key = match optional::<Expression<()>>(value.get("circle-sort-key")) {
            Some(read) => read,
            None => {
                return None;
            },
        };
        let visibility = match optional::<Visibility>(value.get("visibility")) {
            Some(read) => read,
            None => {
                return None;
            },
        };
        Some(CircleLayout { circle_sort_key, visibility })
    }

    proof fn law_round_trip(&self) {
        self.law_wire_names_are_distinct();
        self.lemma_read_from(flatten(self.slots()));
    }
}

/// A fill extrusion layer.
#[derive(Debug, Clone)]
pub struct FillExtrusionLayer {
    pub id: String,
    pub maxzoom: Option<Number>,
    pub minzoom: Option<Number>,
    pub source: String,
    pub filter: Option<Expression<()>>,
    pub source_layer: Option<String>,
    pub slot: Option<String>,
    pub layout: FillExtrusionLayout,
    pub paint: FillExtrusionPaint,
}

impl FillExtrusionLayer {
    /// The layer with the given identifier and source and nothing else set.
    pub fn new(id: &str, source: &str) -> (res: FillExtrusionLayer)
        ensures
            res.id@ == id@,
            res.maxzoom is None,
            res.minzoom is None,
            res.source@ == source@,
            res.filter is None,
            res.source_layer is None,
            res.slot is None,
            res.layout == FillExtrusionLayout::unset(),
            res.paint == FillExtrusionPaint::unset(),
    {
        FillExtrusionLayer {
            id: id.to_owned(),
            maxzoom: None,
            minzoom: None,
            source: source.to_owned(),
            filter: None,
            source_layer: None,
            slot: None,
            layout: FillExtrusionLayout::default(),
            paint: FillExtrusionPaint::default(),
        }
    }

    /// The properties of the wire form, in order: each under its wire name,
    /// with its wire form where it is set.
    pub open spec fn slots(&self) -> Slots {
        seq![
            ("id"@, Some(self.id.wire())),
            ("maxzoom"@, optional_wire(self.maxzoom)),
            ("minzoom"@, optional_wire(self.minzoom)),
            ("source"@, Some(self.source.wire())),
            ("filter"@, optional_wire(self.filter)),
            ("source-layer"@, optional_wire(self.source_layer)),
            ("slot"@, optional_wire(self.slot)),
            ("layout"@, Some(self.layout.wire())),
            ("paint"@, Some(self.paint.wire())),
        ]
    }

    /// Offers every property to a builder, in order.
    pub fn to_entries(&self) -> (b: ObjectBuilder)
        ensures
            b.wf(),
            b@ == self.slots(),
    {
        let mut b = ObjectBuilder::new();
        b.wire("id", &self.id);
        b.optional_wire("maxzoom", &self.maxzoom);
        b.optional_wire("minzoom", &self.minzoom);
        b.wire("source", &self.source);
        b.optional_wire("filter", &self.filter);
        b.optional_wire("source-layer", &self.source_layer);
        b.optional_wire("slot", &self.slot);
        b.wire("layout", &self.layout);
        b.wire("paint", &self.paint);
        b
    }

    /// The place of the property with the wire name `key`, which the length of
    /// the name and a few of its characters tell.
    spec fn place_of(key: Seq<char>) -> int {
        if key.len() == 4 && key[1] == 'y' {
            0
        } else if key.len() == 2 && key[1] == 'd' {
            1
        } else if key.len() == 7 && key[1] == 'a' {
            2
        } else if key.len() == 7 && key[1] == 'i' {
            3
        } else if key.len() == 6 && key[1] == 'o' {
            4
        } else if key.len() == 6 && key[1] == 'i' {
            5
        } else if key.len() == 12 && key[1] == 'o' {
            6
        } else if key.len() == 4 && key[1] == 'l' {
            7
        } else if key.len() == 6 && key[1] == 'a' {
            8
        } else if key.len() == 5 && key[1] == 'a' {
            9
        } else {
            -1
        }
    }

    /// No two properties have one wire name. So looking the wire name of a
    /// property up in the wire form finds the wire form of that property where it
    /// is set, and nothing where it is unset.
    pub proof fn law_wire_names_are_distinct(&self)
        ensures
            distinct_keys(self.slots()),
            forall|i: int|
                0 <= i < self.slots().len() ==> lookup(
                    flatten(self.slots()),
                    (#[trigger] self.slots()[i]).0,
                ) == self.slots()[i].1,
    {
        reveal_strlit("id");
        reveal_strlit("maxzoom");
        reveal_strlit("minzoom");
        reveal_strlit("source");
        reveal_strlit("filter");
        reveal_strlit("source-layer");
        reveal_strlit("slot");
        reveal_strlit("layout");
        reveal_strlit("paint");
        let slots = self.slots();
        assert(FillExtrusionLayer::place_of(slots[0].0) == 1);
        assert(FillExtrusionLayer::place_of(slots[1].0) == 2);
        assert(FillExtrusionLayer::place_of(slots[2].0) == 3);
        assert(FillExtrusionLayer::place_of(slots[3].0) == 4);
        assert(FillExtrusionLayer::place_of(slots[4].0) == 5);
        assert(FillExtrusionLayer::place_of(slots[5].0) == 6);
        assert(FillExtrusionLayer::place_of(slots[6].0) == 7);
        assert(FillExtrusionLayer::place_of(slots[7].0) == 8);
        assert(FillExtrusionLayer::place_of(slots[8].0) == 9);
        assert forall|i: int| 0 <= i < slots.len() implies FillExtrusionLayer::place_of(
            (#[trigger] slots[i]).0,
        ) - 1 == i by {
        }
        lemma_placed_keys_are_distinct(slots, |key: Seq<char>| FillExtrusionLayer::place_of(key) - 1);
        assert forall|i: int| 0 <= i < slots.len() implies lookup(
            flatten(slots),
            (#[trigger] slots[i]).0,
        ) == slots[i].1 by {
            law_lookup_of_distinct_keys(slots, i);
        }
    }

    /// No wire name is `type`, and no two are one: behind a slot named
    /// `type` the properties still have names of their own.
    pub proof fn law_wire_names_leave_room(&self, first: Option<ValueView>)
        ensures
            distinct_keys(seq![("type"@, first)] + self.slots()),
    {
        reveal_strlit("type");
        reveal_strlit("id");
        reveal_strlit("maxzoom");
        reveal_strlit("minzoom");
        reveal_strlit("source");
        reveal_strlit("filter");
        reveal_strlit("source-layer");
        reveal_strlit("slot");
        reveal_strlit("layout");
        reveal_strlit("paint");
        let slots = self.slots();
        let tagged = seq![("type"@, first)] + slots;
        assert(FillExtrusionLayer::place_of(tagged[0].0) == 0);
        assert(tagged[1] == slots[0]);
        assert(FillExtrusionLayer::place_of(slots[0].0) == 1);
        assert(tagged[2] == slots[1]);
        assert(FillExtrusionLayer::place_of(slots[1].0) == 2);
        assert(tagged[3] == slots[2]);
        assert(FillExtrusionLayer::place_of(slots[2].0) == 3);
        assert(tagged[4] == slots[3]);
        assert(FillExtrusionLayer::place_of(slots[3].0) == 4);
        assert(tagged[5] == slots[4]);
        assert(FillExtrusionLayer::place_of(slots[4].0) == 5);
        assert(tagged[6] == slots[5]);
        assert(FillExtrusionLayer::place_of(slots[5].0) == 6);
        assert(tagged[7] == slots[6]);
        assert(FillExtrusionLayer::place_of(slots[6].0) == 7);
        assert(tagged[8] == slots[7]);
        assert(FillExtrusionLayer::place_of(slots[7].0) == 8);
        assert(tagged[9] == slots[8]);
        assert(FillExtrusionLayer::place_of(slots[8].0) == 9);
        assert forall|i: int| 0 <= i < tagged.len() implies FillExtrusionLayer::place_of(
            (#[trigger] tagged[i]).0,
        ) == i by {
        }
        lemma_placed_keys_are_distinct(tagged, |key: Seq<char>| FillExtrusionLayer::place_of(key));
    }
}

impl ToWire for FillExtrusionLayer {
    /// The object of the properties that are set.
    open spec fn wire(&self) -> ValueView {
        ValueView::Object(flatten(self.slots()))
    }

    fn to_wire(&self) -> (value: Value) {
        self.to_entries().finish()
    }
}

impl FillExtrusionLayer {
    /// Whether every property of a wire value can be read: what must be there
    /// is there, and what is there has the right shape.
    pub open spec fn all_read(value: ValueView) -> bool {
        &&& read_required::<String>(value.get("id"@)) is Some
        &&& read_optional::<Number>(value.get("maxzoom"@)) is Some
        &&& read_optional::<Number>(value.get("minzoom"@)) is Some
        &&& read_required::<String>(value.get("source"@)) is Some
        &&& read_optional::<Expression<()>>(value.get("filter"@)) is Some
        &&& read_optional::<String>(value.get("source-layer"@)) is Some
        &&& read_optional::<String>(value.get("slot"@)) is Some
        &&& read_defaulted::<FillExtrusionLayout>(value.get("layout"@), FillExtrusionLayout::unset().wire()) is Some
        &&& read_defaulted::<FillExtrusionPaint>(value.get("paint"@), FillExtrusionPaint::unset().wire()) is Some
    }

    /// The slots that the properties of a wire value are read as, in order.
    pub open spec fn read_slots(value: ValueView) -> Slots {
        seq![
            ("id"@, read_required::<String>(value.get("id"@))->Some_0),
            ("maxzoom"@, read_optional::<Number>(value.get("maxzoom"@))->Some_0),
            ("minzoom"@, read_optional::<Number>(value.get("minzoom"@))->Some_0),
            ("source"@, read_required::<String>(value.get("source"@))->Some_0),
            ("filter"@, read_optional::<Expression<()>>(value.get("filter"@))->Some_0),
            ("source-layer"@, read_optional::<String>(value.get("source-layer"@))->Some_0),
            ("slot"@, read_optional::<String>(value.get("slot"@))->Some_0),
            ("layout"@, read_defaulted::<FillExtrusionLayout>(value.get("layout"@), FillExtrusionLayout::unset().wire())->Some_0),
            ("paint"@, read_defaulted::<FillExtrusionPaint>(value.get("paint"@), FillExtrusionPaint::unset().wire())->Some_0),
        ]
    }

    fn read_part_0(value: &Value) -> (res: Option<(String, Option<Number>, Option<Number>, String, Option<Expression<()>>, Option<String>, Option<String>, FillExtrusionLayout,)>)
        ensures
            match res {
                Some(part) => {
                    &&& read_required::<String>(value@.get("id"@)) == Some(Some(part.0.wire()))
                    &&& read_optional::<Number>(value@.get("maxzoom"@)) == Some(optional_wire(part.1))
                    &&& read_optional::<Number>(value@.get("minzoom"@)) == Some(optional_wire(part.2))
                    &&& read_required::<String>(value@.get("source"@)) == Some(Some(part.3.wire()))
                    &&& read_optional::<Expression<()>>(value@.get("filter"@)) == Some(optional_wire(part.4))
                    &&& read_optional::<String>(value@.get("source-layer"@)) == Some(optional_wire(part.5))
                    &&& read_optional::<String>(value@.get("slot"@)) == Some(optional_wire(part.6))
                    &&& read_defaulted::<FillExtrusionLayout>(value@.get("layout"@), FillExtrusionLayout::unset().wire()) == Some(Some(part.7.wire()))
                },
                None => !Self::all_read(value@),
            },
    {
        let id = match required::<String>(value.get("id")) {
            Some(read) => read,
            None => {
                return None;
            },
        };
        let maxzoom = match optional::<Number>(value.get("maxzoom")) {
            Some(read) => read,
            None => {
                return None;
            },
        };
        let minzoom = match optional::<Number>(value.get("minzoom")) {
            Some(read) => read,
            None => {
                return None;
            },
        };
        let source = match required::<String>(value.get("source")) {
            Some(read) => read,
            None => {
                return None;
            },
        };
        let filter = match optional::<Expression<()>>(value.get("filter")) {
            Some(read) => read,
            None => {
                return None;
            },
        };
        let source_layer = match optional::<String>(value.get("source-layer")) {
            Some(read) => read,
            None => {
                return None;
            },
        };
        let slot = match optional::<String>(value.get("slot")) {
            Some(read) => read,
            None => {
                return None;
            },
        };
        let layout = match value.get("layout") {
            Some(found) => match FillExtrusionLayout::from_wire(found) {
                Some(read) => read,
                None => {
                    return None;
                },
            },
            None => FillExtrusionLayout::default(),
        };
        Some((id, maxzoom, minzoom, source, filter, source_layer, slot, layout,))
    }

    fn read_part_1(value: &Value) -> (res: Option<(FillExtrusionPaint,)>)
        ensures
            match res {
                Some(part) => {
                    &&& read_defaulted::<FillExtrusionPaint>(value@.get("paint"@), FillExtrusionPaint::unset().wire()) == Some(Some(part.0.wire()))
                },
                None => !Self::all_read(value@),
            },
    {
        let paint = match value.get("paint") {
            Some(found) => match FillExtrusionPaint::from_wire(found) {
                Some(read) => read,
                None => {
                    return None;
                },
            },
            None => FillExtrusionPaint::default(),
        };
        Some((paint,))
    }

    /// Reading an object in which looking up the name of each property of
    /// the value finds that property gives the value back.
    pub proof fn lemma_read_from(&self, entries: Seq<(Seq<char>, ValueView)>)
        requires
            self.comes_back(),
            forall|i: int|
                0 <= i < self.slots().len() ==> lookup(entries, (#[trigger] self.slots()[i]).0)
                    == self.slots()[i].1,
        ensures
            Self::spec_read(ValueView::Object(entries)) == Some(self.wire()),
    {
        let value = ValueView::Object(entries);
        let slots = self.slots();
        assert(value.get(slots[0].0) == slots[0].1);
        lemma_required_round_trip::<String>(self.id);
        assert(value.get(slots[1].0) == slots[1].1);
        lemma_optional_round_trip::<Number>(self.maxzoom);
        assert(value.get(slots[2].0) == slots[2].1);
        lemma_optional_round_trip::<Number>(self.minzoom);
        assert(value.get(slots[3].0) == slots[3].1);
        lemma_required_round_trip::<String>(self.source);
        assert(value.get(slots[4].0) == slots[4].1);
        lemma_optional_round_trip::<Expression<()>>(self.filter);
        assert(value.get(slots[5].0) == slots[5].1);
        lemma_optional_round_trip::<String>(self.source_layer);
        assert(value.get(slots[6].0) == slots[6].1);
        lemma_optional_round_trip::<String>(self.slot);
        assert(value.get(slots[7].0) == slots[7].1);
        lemma_defaulted_round_trip::<FillExtrusionLayout>(self.layout, FillExtrusionLayout::unset().wire());
        assert(value.get(slots[8].0) == slots[8].1);
        lemma_defaulted_round_trip::<FillExtrusionPaint>(self.paint, FillExtrusionPaint::unset().wire());
    }
}

impl FromWire for FillExtrusionLayer {
    /// The value is read from an object, property by property. Properties of
    /// other names are passed over.
    open spec fn spec_read(value: ValueView) -> Option<ValueView> {
        if value is Object && Self::all_read(value) {
            Some(ValueView::Object(flatten(Self::read_slots(value))))
        } else {
            None
        }
    }

    open spec fn comes_back(&self) -> bool {
        &&& self.id.comes_back()
        &&& optional_comes_back(self.maxzoom)
        &&& optional_comes_back(self.minzoom)
        &&& self.source.comes_back()
        &&& optional_comes_back(self.filter)
        &&& optional_comes_back(self.source_layer)
        &&& optional_comes_back(self.slot)
        &&& self.layout.comes_back()
        &&& self.paint.comes_back()
    }

    fn from_wire(value: &Value) -> (res: Option<FillExtrusionLayer>) {
        match value {
            Value::Object(_) => {},
            _ => {
                return None;
            },
        }
        let part_0 = match Self::read_part_0(value) {
            Some(part) => part,
            None => {
                return None;
            },
        };
        let part_1 = match Self::read_part_1(value) {
            Some(part) => part,
            None => {
                return None;
            },
        };
        Some(
            FillExtrusionLayer {
                id: part_0.0,
                maxzoom: part_0.1,
                minzoom: part_0.2,
                source: part_0.3,
                filter: part_0.4,
                source_layer: part_0.5,
                slot: part_0.6,
                layout: part_0.7,
                paint: part_1.0,
            },
        )
    }

    proof fn law_round_trip(&self) {
        self.law_wire_names_are_distinct();
        self.lemma_read_from(flatten(self.slots()));
    }
}

impl IntoLayer for FillExtrusionLayer {
    open spec fn spec_into_layer(self) -> Layer {
        Layer::FillExtrusion(self)
    }

    fn into_layer(self) -> (res: Layer) {
        Layer::FillExtrusion(self)
    }
}

/// How a fill extrusion layer is painted.
#[derive(Debug, Clone)]
pub struct FillExtrusionPaint {
    pub fill_extrusion_ambient_occlusion_ground_attenuation: Option<Expression<()>>,
    pub fill_extrusion_ambient_occlusion_ground_radius: Option<Expression<()>>,
    pub fill_extrusion_ambient_occlusion_wall_radius: Option<Expression<()>>,
    pub fill_extrusion_base: Option<Expression<()>>,
    pub fill_extrusion_color: Option<Expression<()>>,
    pub fill_extrusion_cutoff_fade_range: Option<Expression<()>>,
    pub fill_extrusion_emissive_strength: Option<Expression<()>>,
    pub fill_extrusion_flood_light_color: Option<Expression<()>>,
    pub fill_extrusion_flood_light_ground_attenuation: Option<Expression<()>>,
    pub fill_extrusion_flood_light_ground_radius: Option<Expression<()>>,
    pub fill_extrusion_flood_light_intensity: Option<Expression<()>>,
    pub fill_extrusion_flood_light_wall_radius: Option<Expression<()>>,
    pub fill_extrusion_height: Option<Expression<()>>,
    pub fill_extrusion_opacity: Option<Expression<()>>,
    pub fill_extrusion_pattern: Option<Expression<()>>,
    pub fill_extrusion_rounded_roof: Option<Expression<()>>,
    pub fill_extrusion_translate: Option<Expression<()>>,
    pub fill_extrusion_translate_anchor: Option<Expression<TranslateAnchor>>,
    pub fill_extrusion_vertical_gradient: Option<Expression<()>>,
    pub fill_extrusion_vertical_scale: Option<Expression<()>>,
}

impl Default for FillExtrusionPaint {
    /// Every property is unset.
    fn default() -> (res: FillExtrusionPaint)
        ensures
            res == FillExtrusionPaint::unset(),
    {
        FillExtrusionPaint {
            fill_extrusion_ambient_occlusion_ground_attenuation: None,
            fill_extrusion_ambient_occlusion_ground_radius: None,
            fill_extrusion_ambient_occlusion_wall_radius: None,
            fill_extrusion_base: None,
            fill_extrusion_color: None,
            fill_extrusion_cutoff_fade_range: None,
            fill_extrusion_emissive_strength: None,
            fill_extrusion_flood_light_color: None,
            fill_extrusion_flood_light_ground_attenuation: None,
            fill_extrusion_flood_light_ground_radius: None,
            fill_extrusion_flood_light_intensity: None,
            fill_extrusion_flood_light_wall_radius: None,
            fill_extrusion_height: None,
            fill_extrusion_opacity: None,
            fill_extrusion_pattern: None,
            fill_extrusion_rounded_roof: None,
            fill_extrusion_translate: None,
            fill_extrusion_translate_anchor: None,
            fill_extrusion_vertical_gradient: None,
            fill_extrusion_vertical_scale: None,
        }
    }
}

impl FillExtrusionPaint {
    /// The properties with every one unset.
    pub open spec fn unset() -> FillExtrusionPaint {
        FillExtrusionPaint {
            fill_extrusion_ambient_occlusion_ground_attenuation: None,
            fill_extrusion_ambient_occlusion_ground_radius: None,
            fill_extrusion_ambient_occlusion_wall_radius: None,
            fill_extrusion_base: None,
            fill_extrusion_color: None,
            fill_extrusion_cutoff_fade_range: None,
            fill_extrusion_emissive_strength: None,
            fill_extrusion_flood_light_color: None,
            fill_extrusion_flood_light_ground_attenuation: None,
            fill_extrusion_flood_light_ground_radius: None,
            fill_extrusion_flood_light_intensity: None,
            fill_extrusion_flood_light_wall_radius: None,
            fill_extrusion_height: None,
            fill_extrusion_opacity: None,
            fill_extrusion_pattern: None,
            fill_extrusion_rounded_roof: None,
            fill_extrusion_translate: None,
            fill_extrusion_translate_anchor: None,
            fill_extrusion_vertical_gradient: None,
            fill_extrusion_vertical_scale: None,
        }
    }

    /// The properties of the wire form, in order: each under its wire name,
    /// with its wire form where it is set.
    pub open spec fn slots(&self) -> Slots {
        seq![
            ("fill-extrusion-ambient-occlusion-ground-attenuation"@, optional_wire(self.fill_extrusion_ambient_occlusion_ground_attenuation)),
            ("fill-extrusion-ambient-occlusion-ground-radius"@, optional_wire(self.fill_extrusion_ambient_occlusion_ground_radius)),
            ("fill-extrusion-ambient-occlusion-wall-radius"@, optional_wire(self.fill_extrusion_ambient_occlusion_wall_radius)),
            ("fill-extrusion-base"@, optional_wire(self.fill_extrusion_base)),
            ("fill-extrusion-color"@, optional_wire(self.fill_extrusion_color)),
            ("fill-extrusion-cutoff-fade-range"@, optional_wire(self.fill_extrusion_cutoff_fade_range)),
            ("fill-extrusion-emissive-strength"@, optional_wire(self.fill_extrusion_emissive_strength)),
            ("fill-extrusion-flood-light-color"@, optional_wire(self.fill_extrusion_flood_light_color)),
            ("fill-extrusion-flood-light-ground-attenuation"@, optional_wire(self.fill_extrusion_flood_light_ground_attenuation)),
            ("fill-extrusion-flood-light-ground-radius"@, optional_wire(self.fill_extrusion_flood_light_ground_radius)),
            ("fill-extrusion-flood-light-intensity"@, optional_wire(self.fill_extrusion_flood_light_intensity)),
            ("fill-extrusion-flood-light-wall-radius"@, optional_wire(self.fill_extrusion_flood_light_wall_radius)),
            ("fill-extrusion-height"@, optional_wire(self.fill_extrusion_height)),
            ("fill-extrusion-opacity"@, optional_wire(self.fill_extrusion_opacity)),
            ("fill-extrusion-pattern"@, optional_wire(self.fill_extrusion_pattern)),
            ("fill-extrusion-rounded-roof"@, optional_wire(self.fill_extrusion_rounded_roof)),
            ("fill-extrusion-translate"@, optional_wire(self.fill_extrusion_translate)),
            ("fill-extrusion-translate-anchor"@, optional_wire(self.fill_extrusion_translate_anchor)),
            ("fill-extrusion-vertical-gradient"@, optional_wire(self.fill_extrusion_vertical_gradient)),
            ("fill-extrusion-vertical-scale"@, optional_wire(self.fill_extrusion_vertical_scale)),
        ]
    }

    /// Offers every property to a builder, in order.
    pub fn to_entries(&self) -> (b: ObjectBuilder)
        ensures
            b.wf(),
            b@ == self.slots(),
    {
        let mut b = ObjectBuilder::new();
        b.optional_wire("fill-extrusion-ambient-occlusion-ground-attenuation", &self.fill_extrusion_ambient_occlusion_ground_attenuation);
        b.optional_wire("fill-extrusion-ambient-occlusion-ground-radius", &self.fill_extrusion_ambient_occlusion_ground_radius);
        b.optional_wire("fill-extrusion-ambient-occlusion-wall-radius", &self.fill_extrusion_ambient_occlusion_wall_radius);
        b.optional_wire("fill-extrusion-base", &self.fill_extrusion_base);
        b.optional_wire("fill-extrusion-color", &self.fill_extrusion_color);
        b.optional_wire("fill-extrusion-cutoff-fade-range", &self.fill_extrusion_cutoff_fade_range);
        b.optional_wire("fill-extrusion-emissive-strength", &self.fill_extrusion_emissive_strength);
        b.optional_wire("fill-extrusion-flood-light-color", &self.fill_extrusion_flood_light_color);
        b.optional_wire("fill-extrusion-flood-light-ground-attenuation", &self.fill_extrusion_flood_light_ground_attenuation);
        b.optional_wire("fill-extrusion-flood-light-ground-radius", &self.fill_extrusion_flood_light_ground_radius);
        b.optional_wire("fill-extrusion-flood-light-intensity", &self.fill_extrusion_flood_light_intensity);
        b.optional_wire("fill-extrusion-flood-light-wall-radius", &self.fill_extrusion_flood_light_wall_radius);
        b.optional_wire("fill-extrusion-height", &self.fill_extrusion_height);
        b.optional_wire("fill-extrusion-opacity", &self.fill_extrusion_opacity);
        b.optional_wire("fill-extrusion-pattern", &self.fill_extrusion_pattern);
        b.optional_wire("fill-extrusion-rounded-roof", &self.fill_extrusion_rounded_roof);
        b.optional_wire("fill-extrusion-translate", &self.fill_extrusion_translate);
        b.optional_wire("fill-extrusion-translate-anchor", &self.fill_extrusion_translate_anchor);
        b.optional_wire("fill-extrusion-vertical-gradient", &self.fill_extrusion_vertical_gradient);
        b.optional_wire("fill-extrusion-vertical-scale", &self.fill_extrusion_vertical_scale);
        b
    }

    /// The place of the property with the wire name `key`, which the length of
    /// the name and a few of its characters tell.
    spec fn place_of(key: Seq<char>) -> int {
        if key.len() == 51 && key[15] == 'a' {
            0
        } else if key.len() == 46 && key[15] == 'a' {
            1
        } else if key.len() == 44 && key[15] == 'a' {
            2
        } else if key.len() == 19 && key[15] == 'b' {
            3
        } else if key.len() == 20 && key[15] == 'c' {
            4
        } else if key.len() == 32 && key[15] == 'c' {
            5
        } else if key.len() == 32 && key[15] == 'e' {
            6
        } else if key.len() == 32 && key[15] == 'f' {
            7
        } else if key.len() == 45 && key[15] == 'f' {
            8
        } else if key.len() == 40 && key[15] == 'f' {
            9
        } else if key.len() == 36 && key[15] == 'f' {
            10
        } else if key.len() == 38 && key[15] == 'f' {
            11
        } else if key.len() == 21 && key[15] == 'h' {
            12
        } else if key.len() == 22 && key[15] == 'o' {
            13
        } else if key.len() == 22 && key[15] == 'p' {
            14
        } else if key.len() == 27 && key[15] == 'r' {
            15
        } else if key.len() == 24 && key[15] == 't' {
            16
        } else if key.len() == 31 && key[15] == 't' {
            17
        } else if key.len() == 32 && key[15] == 'v' {
            18
        } else if key.len() == 29 && key[15] == 'v' {
            19
        } else {
            -1
        }
    }

    /// No two properties have one wire name. So looking the wire name of a
    /// property up in the wire form finds the wire form of that property where it
    /// is set, and nothing where it is unset.
    #[verifier::rlimit(50)]
    pub proof fn law_wire_names_are_distinct(&self)
        ensures
            distinct_keys(self.slots()),
            forall|i: int|
                0 <= i < self.slots().len() ==> lookup(
                    flatten(self.slots()),
                    (#[trigger] self.slots()[i]).0,
                ) == self.slots()[i].1,
    {
        reveal_strlit("fill-extrusion-ambient-occlusion-ground-attenuation");
        reveal_strlit("fill-extrusion-ambient-occlusion-ground-radius");
        reveal_strlit("fill-extrusion-ambient-occlusion-wall-radius");
        reveal_strlit("fill-extrusion-base");
        reveal_strlit("fill-extrusion-color");
        reveal_strlit("fill-extrusion-cutoff-fade-range");
        reveal_strlit("fill-extrusion-emissive-strength");
        reveal_strlit("fill-extrusion-flood-light-color");
        reveal_strlit("fill-extrusion-flood-light-ground-attenuation");
        reveal_strlit("fill-extrusion-flood-light-ground-radius");
        reveal_strlit("fill-extrusion-flood-light-intensity");
        reveal_strlit("fill-extrusion-flood-light-wall-radius");
        reveal_strlit("fill-extrusion-height");
        reveal_strlit("fill-extrusion-opacity");
        reveal_strlit("fill-extrusion-pattern");
        reveal_strlit("fill-extrusion-rounded-roof");
        reveal_strlit("fill-extrusion-translate");
        reveal_strlit("fill-extrusion-translate-anchor");
        reveal_strlit("fill-extrusion-vertical-gradient");
        reveal_strlit("fill-extrusion-vertical-scale");
        let slots = self.slots();
        assert(FillExtrusionPaint::place_of(slots[0].0) == 0);
        assert(FillExtrusionPaint::place_of(slots[1].0) == 1);
        assert(FillExtrusionPaint::place_of(slots[2].0) == 2);
        assert(FillExtrusionPaint::place_of(slots[3].0) == 3);
        assert(FillExtrusionPaint::place_of(slots[4].0) == 4);
        assert(FillExtrusionPaint::place_of(slots[5].0) == 5);
        assert(FillExtrusionPaint::place_of(slots[6].0) == 6);
        assert(FillExtrusionPaint::place_of(slots[7].0) == 7);
        assert(FillExtrusionPaint::place_of(slots[8].0) == 8);
        assert(FillExtrusionPaint::place_of(slots[9].0) == 9);
        assert(FillExtrusionPaint::place_of(slots[10].0) == 10);
        assert(FillExtrusionPaint::place_of(slots[11].0) == 11);
        assert(FillExtrusionPaint::place_of(slots[12].0) == 12);
        assert(FillExtrusionPaint::place_of(slots[13].0) == 13);
        assert(FillExtrusionPaint::place_of(slots[14].0) == 14);
        assert(FillExtrusionPaint::place_of(slots[15].0) == 15);
        assert(FillExtrusionPaint::place_of(slots[16].0) == 16);
        assert(FillExtrusionPaint::place_of(slots[17].0) == 17);
        assert(FillExtrusionPaint::place_of(slots[18].0) == 18);
        assert(FillExtrusionPaint::place_of(slots[19].0) == 19);
        assert forall|i: int| 0 <= i < slots.len() implies FillExtrusionPaint::place_of(
            (#[trigger] slots[i]).0,
        ) - 0 == i by {
        }
        lemma_placed_keys_are_distinct(slots, |key: Seq<char>| FillExtrusionPaint::place_of(key) - 0);
        assert forall|i: int| 0 <= i < slots.len() implies lookup(
            flatten(slots),
            (#[trigger] slots[i]).0,
        ) == slots[i].1 by {
            law_lookup_of_distinct_keys(slots, i);
        }
    }
}

impl ToWire for FillExtrusionPaint {
    /// The object of the properties that are set.
    open spec fn wire(&self) -> ValueView {
        ValueView::Object(flatten(self.slots()))
    }

    fn to_wire(&self) -> (value: Value) {
        self.to_entries().finish()
    }
}

impl FillExtrusionPaint {
    /// Whether every property of a wire value can be read: what must be there
    /// is there, and what is there has the right shape.
    pub open spec fn all_read(value: ValueView) -> bool {
        &&& read_optional::<Expression<()>>(value.get("fill-extrusion-ambient-occlusion-ground-attenuation"@)) is Some
        &&& read_optional::<Expression<()>>(value.get("fill-extrusion-ambient-occlusion-ground-radius"@)) is Some
        &&& read_optional::<Expression<()>>(value.get("fill-extrusion-ambient-occlusion-wall-radius"@)) is Some
        &&& read_optional::<Expression<()>>(value.get("fill-extrusion-base"@)) is Some
        &&& read_optional::<Expression<()>>(value.get("fill-extrusion-color"@)) is Some
        &&& read_optional::<Expression<()>>(value.get("fill-extrusion-cutoff-fade-range"@)) is Some
        &&& read_optional::<Expression<()>>(value.get("fill-extrusion-emissive-strength"@)) is Some
        &&& read_optional::<Expression<()>>(value.get("fill-extrusion-flood-light-color"@)) is Some
        &&& read_optional::<Expression<()>>(value.get("fill-extrusion-flood-light-ground-attenuation"@)) is Some
        &&& read_optional::<Expression<()>>(value.get("fill-extrusion-flood-light-ground-radius"@)) is Some
        &&& read_optional::<Expression<()>>(value.get("fill-extrusion-flood-light-intensity"@)) is Some
        &&& read_optional::<Expression<()>>(value.get("fill-extrusion-flood-light-wall-radius"@)) is Some
        &&& read_optional::<Expression<()>>(value.get("fill-extrusion-height"@)) is Some
        &&& read_optional::<Expression<()>>(value.get("fill-extrusion-opacity"@)) is Some
        &&& read_optional::<Expression<()>>(value.get("fill-extrusion-pattern"@)) is Some
        &&& read_optional::<Expression<()>>(value.get("fill-extrusion-rounded-roof"@)) is Some
        &&& read_optional::<Expression<()>>(value.get("fill-extrusion-translate"@)) is Some
        &&& read_optional::<Expression<TranslateAnchor>>(value.get("fill-extrusion-translate-anchor"@)) is Some
        &&& read_optional::<Expression<()>>(value.get("fill-extrusion-vertical-gradient"@)) is Some
        &&& read_optional::<Expression<()>>(value.get("fill-extrusion-vertical-scale"@)) is Some
    }

    /// The slots that the properties of a wire value are read as, in order.
    pub open spec fn read_slots(value: ValueView) -> Slots {
        seq![
            ("fill-extrusion-ambient-occlusion-ground-attenuation"@, read_optional::<Expression<()>>(value.get("fill-extrusion-ambient-occlusion-ground-attenuation"@))->Some_0),
            ("fill-extrusion-ambient-occlusion-ground-radius"@, read_optional::<Expression<()>>(value.get("fill-extrusion-ambient-occlusion-ground-radius"@))->Some_0),
            ("fill-extrusion-ambient-occlusion-wall-radius"@, read_optional::<Expression<()>>(value.get("fill-extrusion-ambient-occlusion-wall-radius"@))->Some_0),
            ("fill-extrusion-base"@, read_optional::<Expression<()>>(value.get("fill-extrusion-base"@))->Some_0),
            ("fill-extrusion-color"@, read_optional::<Expression<()>>(value.get("fill-extrusion-color"@))->Some_0),
            ("fill-extrusion-cutoff-fade-range"@, read_optional::<Expression<()>>(value.get("fill-extrusion-cutoff-fade-range"@))->Some_0),
            ("fill-extrusion-emissive-strength"@, read_optional::<Expression<()>>(value.get("fill-extrusion-emissive-strength"@))->Some_0),
            ("fill-extrusion-flood-light-color"@, read_optional::<Expression<()>>(value.get("fill-extrusion-flood-light-color"@))->Some_0),
            ("fill-extrusion-flood-light-ground-attenuation"@, read_optional::<Expression<()>>(value.get("fill-extrusion-flood-light-ground-attenuation"@))->Some_0),
            ("fill-extrusion-flood-light-ground-radius"@, read_optional::<Expression<()>>(value.get("fill-extrusion-flood-light-ground-radius"@))->Some_0),
            ("fill-extrusion-flood-light-intensity"@, read_optional::<Expression<()>>(value.get("fill-extrusion-flood-light-intensity"@))->Some_0),
            ("fill-extrusion-flood-light-wall-radius"@, read_optional::<Expression<()>>(value.get("fill-extrusion-flood-light-wall-radius"@))->Some_0),
            ("fill-extrusion-height"@, read_optional::<Expression<()>>(value.get("fill-extrusion-height"@))->Some_0),
            ("fill-extrusion-opacity"@, read_optional::<Expression<()>>(value.get("fill-extrusion-opacity"@))->Some_0),
            ("fill-extrusion-pattern"@, read_optional::<Expression<()>>(value.get("fill-extrusion-pattern"@))->Some_0),
            ("fill-extrusion-rounded-roof"@, read_optional::<Expression<()>>(value.get("fill-extrusion-rounded-roof"@))->Some_0),
            ("fill-extrusion-translate"@, read_optional::<Expression<()>>(value.get("fill-extrusion-translate"@))->Some_0),
            ("fill-extrusion-translate-anchor"@, read_optional::<Expression<TranslateAnchor>>(value.get("fill-extrusion-translate-anchor"@))->Some_0),
            ("fill-extrusion-vertical-gradient"@, read_optional::<Expression<()>>(value.get("fill-extrusion-vertical-gradient"@))->Some_0),
            ("fill-extrusion-vertical-scale"@, read_optional::<Expression<()>>(value.get("fill-extrusion-vertical-scale"@))->Some_0),
        ]
    }

    fn read_part_0(value: &Value) -> (res: Option<(Option<Expression<()>>, Option<Expression<()>>, Option<Expression<()>>, Option<Expression<()>>, Option<Expression<()>>, Option<Expression<()>>, Option<Expression<()>>, Option<Expression<()>>,)>)
        ensures
            match res {
                Some(part) => {
                    &&& read_optional::<Expression<()>>(value@.get("fill-extrusion-ambient-occlusion-ground-attenuation"@)) == Some(optional_wire(part.0))
                    &&& read_optional::<Expression<()>>(value@.get("fill-extrusion-ambient-occlusion-ground-radius"@)) == Some(optional_wire(part.1))
                    &&& read_optional::<Expression<()>>(value@.get("fill-extrusion-ambient-occlusion-wall-radius"@)) == Some(optional_wire(part.2))
                    &&& read_optional::<Expression<()>>(value@.get("fill-extrusion-base"@)) == Some(optional_wire(part.3))
                    &&& read_optional::<Expression<()>>(value@.get("fill-extrusion-color"@)) == Some(optional_wire(part.4))
                    &&& read_optional::<Expression<()>>(value@.get("fill-extrusion-cutoff-fade-range"@)) == Some(optional_wire(part.5))
                    &&& read_optional::<Expression<()>>(value@.get("fill-extrusion-emissive-strength"@)) == Some(optional_wire(part.6))
                    &&& read_optional::<Expression<()>>(value@.get("fill-extrusion-flood-light-color"@)) == Some(optional_wire(part.7))
                },
                None => !Self::all_read(value@),
            },
    {
        let fill_extrusion_ambient_occlusion_ground_attenuation = match optional::<Expression<()>>(value.get("fill-extrusion-ambient-occlusion-ground-attenuation")) {
            Some(read) => read,
            None => {
                return None;
            },
        };
        let fill_extrusion_ambient_occlusion_ground_radius = match optional::<Expression<()>>(value.get("fill-extrusion-ambient-occlusion-ground-radius")) {
            Some(read) => read,
            None => {
                return None;
            },
        };
        let fill_extrusion_ambient_occlusion_wall_radius = match optional::<Expression<()>>(value.get("fill-extrusion-ambient-occlusion-wall-radius")) {
            Some(read) => read,
            None => {
                return None;
            },
        };
        let fill_extrusion_base = match optional::<Expression<()>>(value.get("fill-extrusion-base")) {
            Some(read) => read,
            None => {
                return None;
            },
        };
        let fill_extrusion_color = match optional::<Expression<()>>(value.get("fill-extrusion-color")) {
            Some(read) => read,
            None => {
                return None;
            },
        };
        let fill_extrusion_cutoff_fade_range = match optional::<Expression<()>>(value.get("fill-extrusion-cutoff-fade-range")) {
            Some(read) => read,
            None => {
                return None;
            },
        };
        let fill_extrusion_emissive_strength = match optional::<Expression<()>>(value.get("fill-extrusion-emissive-strength")) {
            Some(read) => read,
            None => {
                return None;
            },
        };
        let fill_extrusion_flood_light_color = match optional::<Expression<()>>(value.get("fill-extrusion-flood-light-color")) {
            Some(read) => read,
            None => {
                return None;
            },
        };
        Some((fill_extrusion_ambient_occlusion_ground_attenuation, fill_extrusion_ambient_occlusion_ground_radius, fill_extrusion_ambient_occlusion_wall_radius, fill_extrusion_base, fill_extrusion_color, fill_extrusion_cutoff_fade_range, fill_extrusion_emissive_strength, fill_extrusion_flood_light_color,))
    }

    fn read_part_1(value: &Value) -> (res: Option<(Option<Expression<()>>, Option<Expression<()>>, Option<Expression<()>>, Option<Expression<()>>, Option<Expression<()>>, Option<Expression<()>>, Option<Expression<()>>, Option<Expression<()>>,)>)
        ensures
            match res {
                Some(part) => {
                    &&& read_optional::<Expression<()>>(value@.get("fill-extrusion-flood-light-ground-attenuation"@)) == Some(optional_wire(part.0))
                    &&& read_optional::<Expression<()>>(value@.get("fill-extrusion-flood-light-ground-radius"@)) == Some(optional_wire(part.1))
                    &&& read_optional::<Expression<()>>(value@.get("fill-extrusion-flood-light-intensity"@)) == Some(optional_wire(part.2))
                    &&& read_optional::<Expression<()>>(value@.get("fill-extrusion-flood-light-wall-radius"@)) == Some(optional_wire(part.3))
                    &&& read_optional::<Expression<()>>(value@.get("fill-extrusion-height"@)) == Some(optional_wire(part.4))
                    &&& read_optional::<Expression<()>>(value@.get("fill-extrusion-opacity"@)) == Some(optional_wire(part.5))
                    &&& read_optional::<Expression<()>>(value@.get("fill-extrusion-pattern"@)) == Some(optional_wire(part.6))
                    &&& read_optional::<Expression<()>>(value@.get("fill-extrusion-rounded-roof"@)) == Some(optional_wire(part.7))
                },
                None => !Self::all_read(value@),
            },
    {
        let fill_extrusion_flood_light_ground_attenuation = match optional::<Expression<()>>(value.get("fill-extrusion-flood-light-ground-attenuation")) {
            Some(read) => read,
            None => {
                return None;
            },
        };
        let fill_extrusion_flood_light_ground_radius = match optional::<Expression<()>>(value.get("fill-extrusion-flood-light-ground-radius")) {
            Some(read) => read,
            None => {
                return None;
            },
        };
        let fill_extrusion_flood_light_intensity = match optional::<Expression<()>>(value.get("fill-extrusion-flood-light-intensity")) {
            Some(read) => read,
            None => {
                return None;
            },
        };
        let fill_extrusion_flood_light_wall_radius = match optional::<Expression<()>>(value.get("fill-extrusion-flood-light-wall-radius")) {
            Some(read) => read,
            None => {
                return None;
            },
        };
        let fill_extrusion_height = match optional::<Expression<()>>(value.get("fill-extrusion-height")) {
            Some(read) => read,
            None => {
                return None;
            },
        };
        let fill_extrusion_opacity = match optional::<Expression<()>>(value.get("fill-extrusion-opacity")) {
            Some(read) => read,
            None => {
                return None;
            },
        };
        let fill_extrusion_pattern = match optional::<Expression<()>>(value.get("fill-extrusion-pattern")) {
            Some(read) => read,
            None => {
                return None;
            },
        };
        let fill_extrusion_rounded_roof = match optional::<Expression<()>>(value.get("fill-extrusion-rounded-roof")) {
            Some(read) => read,
            None => {
                return None;
            },
        };
        Some((fill_extrusion_flood_light_ground_attenuation, fill_extrusion_flood_light_ground_radius, fill_extrusion_flood_light_intensity, fill_extrusion_flood_light_wall_radius, fill_extrusion_height, fill_extrusion_opacity, fill_extrusion_pattern, fill_extrusion_rounded_roof,))
    }

    fn read_part_2(value: &Value) -> (res: Option<(Option<Expression<()>>, Option<Expression<TranslateAnchor>>, Option<Expression<()>>, Option<Expression<()>>,)>)
        ensures
            match res {
                Some(part) => {
                    &&& read_optional::<Expression<()>>(value@.get("fill-extrusion-translate"@)) == Some(optional_wire(part.0))
                    &&& read_optional::<Expression<TranslateAnchor>>(value@.get("fill-extrusion-translate-anchor"@)) == Some(optional_wire(part.1))
                    &&& read_optional::<Expression<()>>(value@.get("fill-extrusion-vertical-gradient"@)) == Some(optional_wire(part.2))
                    &&& read_optional::<Expression<()>>(value@.get("fill-extrusion-vertical-scale"@)) == Some(optional_wire(part.3))
                },
                None => !Self::all_read(value@),
            },
    {
        let fill_extrusion_translate = match optional::<Expression<()>>(value.get("fill-extrusion-translate")) {
            Some(read) => read,
            None => {
                return None;
            },
        };
        let fill_extrusion_translate_anchor = match optional::<Expression<TranslateAnchor>>(value.get("fill-extrusion-translate-anchor")) {
            Some(read) => read,
            None => {
                return None;
            },
        };
        let fill_extrusion_vertical_gradient = match optional::<Expression<()>>(value.get("fill-extrusion-vertical-gradient")) {
            Some(read) => read,
            None => {
                return None;
            },
        };
        let fill_extrusion_vertical_scale = match optional::<Expression<()>>(value.get("fill-extrusion-vertical-scale")) {
            Some(read) => read,
            None => {
                return None;
            },
        };
        Some((fill_extrusion_translate, fill_extrusion_translate_anchor, fill_extrusion_vertical_gradient, fill_extrusion_vertical_scale,))
    }

    /// Reading an object in which looking up the name of each property of
    /// the value finds that property gives the value back.
    pub proof fn lemma_read_from(&self, entries: Seq<(Seq<char>, ValueView)>)
        requires
            self.comes_back(),
            forall|i: int|
                0 <= i < self.slots().len() ==> lookup(entries, (#[trigger] self.slots()[i]).0)
                    == self.slots()[i].1,
        ensures
            Self::spec_read(ValueView::Object(entries)) == Some(self.wire()),
    {
        let value = ValueView::Object(entries);
        let slots = self.slots();
        assert(value.get(slots[0].0) == slots[0].1);
        lemma_optional_round_trip::<Expression<()>>(self.fill_extrusion_ambient_occlusion_ground_attenuation);
        assert(value.get(slots[1].0) == slots[1].1);
        lemma_optional_round_trip::<Expression<()>>(self.fill_extrusion_ambient_occlusion_ground_radius);
        assert(value.get(slots[2].0) == slots[2].1);
        lemma_optional_round_trip::<Expression<()>>(self.fill_extrusion_ambient_occlusion_wall_radius);
        assert(value.get(slots[3].0) == slots[3].1);
        lemma_optional_round_trip::<Expression<()>>(self.fill_extrusion_base);
        assert(value.get(slots[4].0) == slots[4].1);
        lemma_optional_round_trip::<Expression<()>>(self.fill_extrusion_color);
        assert(value.get(slots[5].0) == slots[5].1);
        lemma_optional_round_trip::<Expression<()>>(self.fill_extrusion_cutoff_fade_range);
        assert(value.get(slots[6].0) == slots[6].1);
        lemma_optional_round_trip::<Expression<()>>(self.fill_extrusion_emissive_strength);
        assert(value.get(slots[7].0) == slots[7].1);
        lemma_optional_round_trip::<Expression<()>>(self.fill_extrusion_flood_light_color);
        assert(value.get(slots[8].0) == slots[8].1);
        lemma_optional_round_trip::<Expression<()>>(self.fill_extrusion_flood_light_ground_attenuation);
        assert(value.get(slots[9].0) == slots[9].1);
        lemma_optional_round_trip::<Expression<()>>(self.fill_extrusion_flood_light_ground_radius);
        assert(value.get(slots[10].0) == slots[10].1);
        lemma_optional_round_trip::<Expression<()>>(self.fill_extrusion_flood_light_intensity);
        assert(value.get(slots[11].0) == slots[11].1);
        lemma_optional_round_trip::<Expression<()>>(self.fill_extrusion_flood_light_wall_radius);
        assert(value.get(slots[12].0) == slots[12].1);
        lemma_optional_round_trip::<Expression<()>>(self.fill_extrusion_height);
        assert(value.get(slots[13].0) == slots[13].1);
        lemma_optional_round_trip::<Expression<()>>(self.fill_extrusion_opacity);
        assert(value.get(slots[14].0) == slots[14].1);
        lemma_optional_round_trip::<Expression<()>>(self.fill_extrusion_pattern);
        assert(value.get(slots[15].0) == slots[15].1);
        lemma_optional_round_trip::<Expression<()>>(self.fill_extrusion_rounded_roof);
        assert(value.get(slots[16].0) == slots[16].1);
        lemma_optional_round_trip::<Expression<()>>(self.fill_extrusion_translate);
        assert(value.get(slots[17].0) == slots[17].1);
        lemma_optional_round_trip::<Expression<TranslateAnchor>>(self.fill_extrusion_translate_anchor);
        assert(value.get(slots[18].0) == slots[18].1);
        lemma_optional_round_trip::<Expression<()>>(self.fill_extrusion_vertical_gradient);
        assert(value.get(slots[19].0) == slots[19].1);
        lemma_optional_round_trip::<Expression<()>>(self.fill_extrusion_vertical_scale);
    }
}

impl FromWire for FillExtrusionPaint {
    /// The value is read from an object, property by property. Properties of
    /// other names are passed over.
    open spec fn spec_read(value: ValueView) -> Option<ValueView> {
        if value is Object && Self::all_read(value) {
            Some(ValueView::Object(flatten(Self::read_slots(value))))
        } else {
            None
        }
    }

    open spec fn comes_back(&self) -> bool {
        &&& optional_comes_back(self.fill_extrusion_ambient_occlusion_ground_attenuation)
        &&& optional_comes_back(self.fill_extrusion_ambient_occlusion_ground_radius)
        &&& optional_comes_back(self.fill_extrusion_ambient_occlusion_wall_radius)
        &&& optional_comes_back(self.fill_extrusion_base)
        &&& optional_comes_back(self.fill_extrusion_color)
        &&& optional_comes_back(self.fill_extrusion_cutoff_fade_range)
        &&& optional_comes_back(self.fill_extrusion_emissive_strength)
        &&& optional_comes_back(self.fill_extrusion_flood_light_color)
        &&& optional_comes_back(self.fill_extrusion_flood_light_ground_attenuation)
        &&& optional_comes_back(self.fill_extrusion_flood_light_ground_radius)
        &&& optional_comes_back(self.fill_extrusion_flood_light_intensity)
        &&& optional_comes_back(self.fill_extrusion_flood_light_wall_radius)
        &&& optional_comes_back(self.fill_extrusion_height)
        &&& optional_comes_back(self.fill_extrusion_opacity)
        &&& optional_comes_back(self.fill_extrusion_pattern)
        &&& optional_comes_back(self.fill_extrusion_rounded_roof)
        &&& optional_comes_back(self.fill_extrusion_translate)
        &&& optional_comes_back(self.fill_extrusion_translate_anchor)
        &&& optional_comes_back(self.fill_extrusion_vertical_gradient)
        &&& optional_comes_back(self.fill_extrusion_vertical_scale)
    }

    fn from_wire(value: &Value) -> (res: Option<FillExtrusionPaint>) {
        match value {
            Value::Object(_) => {},
            _ => {
                return None;
            },
        }
        let part_0 = match Self::read_part_0(value) {
            Some(part) => part,
            None => {
                return None;
            },
        };
        let part_1 = match Self::read_part_1(value) {
            Some(part) => part,
            None => {
                return None;
            },
        };
        let part_2 = match Self::read_part_2(value) {
            Some(part) => part,
            None => {
                return None;
            },
        };
        Some(
            FillExtrusionPaint {
                fill_extrusion_ambient_occlusion_ground_attenuation: part_0.0,
                fill_extrusion_ambient_occlusion_ground_radius: part_0.1,
                fill_extrusion_ambient_occlusion_wall_radius: part_0.2,
                fill_extrusion_base: part_0.3,
                fill_extrusion_color: part_0.4,
                fill_extrusion_cutoff_fade_range: part_0.5,
                fill_extrusion_emissive_strength: part_0.6,
                fill_extrusion_flood_light_color: part_0.7,
                fill_extrusion_flood_light_ground_attenuation: part_1.0,
                fill_extrusion_flood_light_ground_radius: part_1.1,
                fill_extrusion_flood_light_intensity: part_1.2,
                fill_extrusion_flood_light_wall_radius: part_1.3,
                fill_extrusion_height: part_1.4,
                fill_extrusion_opacity: part_1.5,
                fill_extrusion_pattern: part_1.6,
                fill_extrusion_rounded_roof: part_1.7,
                fill_extrusion_translate: part_2.0,
                fill_extrusion_translate_anchor: part_2.1,
                fill_extrusion_vertical_gradient: part_2.2,
                fill_extrusion_vertical_scale: part_2.3,
            },
        )
    }

    proof fn law_round_trip(&self) {
        self.law_wire_names_are_distinct();
        self.lemma_read_from(flatten(self.slots()));
    }
}

/// How a fill extrusion layer is laid out.
#[derive(Debug, Clone)]
pub struct FillExtrusionLayout {
    pub visibility: Option<Visibility>,
}

impl Default for FillExtrusionLayout {
    /// Every property is unset.
    fn default() -> (res: FillExtrusionLayout)
        ensures
            res == FillExtrusionLayout::unset(),
    {
        FillExtrusionLayout {
            visibility: None,
        }
    }
}

impl FillExtrusionLayout {
    /// The properties with every one unset.
    pub open spec fn unset() -> FillExtrusionLayout {
        FillExtrusionLayout {
            visibility: None,
        }
    }

    /// The properties of the wire form, in order: each under its wire name,
    /// with its wire form where it is set.
    pub open spec fn slots(&self) -> Slots {
        seq![
            ("visibility"@, optional_wire(self.visibility)),
        ]
    }

    /// Offers every property to a builder, in order.
    pub fn to_entries(&self) -> (b: ObjectBuilder)
        ensures
            b.wf(),
            b@ == self.slots(),
    {
        let mut b = ObjectBuilder::new();
        b.optional_wire("visibility", &self.visibility);
        b
    }

    /// The place of the property with the wire name `key`, which the length of
    /// the name and a few of its characters tell.
    spec fn place_of(key: Seq<char>) -> int {
        if key.len() == 10 {
            0
        } else {
            -1
        }
    }

    /// No two properties have one wire name. So looking the wire name of a
    /// property up in the wire form finds the wire form of that property where it
    /// is set, and nothing where it is unset.
    pub proof fn law_wire_names_are_distinct(&self)
        ensures
            distinct_keys(self.slots()),
            forall|i: int|
                0 <= i < self.slots().len() ==> lookup(
                    flatten(self.slots()),
                    (#[trigger] self.slots()[i]).0,
                ) == self.slots()[i].1,
    {
        reveal_strlit("visibility");
        let slots = self.slots();
        assert(FillExtrusionLayout::place_of(slots[0].0) == 0);
        assert forall|i: int| 0 <= i < slots.len() implies FillExtrusionLayout::place_of(
            (#[trigger] slots[i]).0,
        ) - 0 == i by {
        }
        lemma_placed_keys_are_distinct(slots, |key: Seq<char>| FillExtrusionLayout::place_of(key) - 0);
        assert forall|i: int| 0 <= i < slots.len() implies lookup(
            flatten(slots),
            (#[trigger] slots[i]).0,
        ) == slots[i].1 by {
            law_lookup_of_distinct_keys(slots, i);
        }
    }
}

impl ToWire for FillExtrusionLayout {
    /// The object of the properties that are set.
    open spec fn wire(&self) -> ValueView {
        ValueView::Object(flatten(self.slots()))
    }

    fn to_wire(&self) -> (value: Value) {
        self.to_entries().finish()
    }
}

impl FillExtrusionLayout {
    /// Whether every property of a wire value can be read: what must be there
    /// is there, and what is there has the right shape.
    pub open spec fn all_read(value: ValueView) -> bool {
        &&& read_optional::<Visibility>(value.get("visibility"@)) is Some
    }

    /// The slots that the properties of a wire value are read as, in order.
    pub open spec fn read_slots(value: ValueView) -> Slots {
        seq![
            ("visibility"@, read_optional::<Visibility>(value.get("visibility"@))->Some_0),
        ]
    }

    /// Reading an object in which looking up the name of each property of
    /// the value finds that property gives the value back.
    pub proof fn lemma_read_from(&self, entries: Seq<(Seq<char>, ValueView)>)
        requires
            self.comes_back(),
            forall|i: int|
                0 <= i < self.slots().len() ==> lookup(entries, (#[trigger] self.slots()[i]).0)
                    == self.slots()[i].1,
        ensures
            Self::spec_read(ValueView::Object(entries)) == Some(self.wire()),
    {
        let value = ValueView::Object(entries);
        let slots = self.slots();
        assert(value.get(slots[0].0) == slots[0].1);
        lemma_optional_round_trip::<Visibility>(self.visibility);
    }
}

impl FromWire for FillExtrusionLayout {
    /// The value is read from an object, property by property. Properties of
    /// other names are passed over.
    open spec fn spec_read(value: ValueView) -> Option<ValueView> {
        if value is Object && Self::all_read(value) {
            Some(ValueView::Object(flatten(Self::read_slots(value))))
        } else {
            None
        }
    }

    open spec fn comes_back(&self) -> bool {
        &&& optional_comes_back(self.visibility)
    }

    fn from_wire(value: &Value) -> (res: Option<FillExtrusionLayout>) {
        match value {
            Value::Object(_) => {},
            _ => {
                return None;
            },
        }
        let visibility = match optional::<Visibility>(value.get("visibility")) {
            Some(read) => read,
            None => {
                return None;
            },
        };
        Some(FillExtrusionLayout { visibility })
    }

    proof fn law_round_trip(&self) {
        self.law_wire_names_are_distinct();
        self.lemma_read_from(flatten(self.slots()));
    }
}

/// A heatmap layer.
#[derive(Debug, Clone)]
pub struct HeatmapLayer {
    pub id: String,
    pub maxzoom: Option<Number>,
    pub minzoom: Option<Number>,
    pub source: String,
    pub filter: Option<Expression<()>>,
    pub source_layer: Option<String>,
    pub slot: Option<String>,
    pub layout: HeatmapLayout,
    pub paint: HeatmapPaint,
}

impl HeatmapLayer {
    /// The layer with the given identifier and source and nothing else set.
    pub fn new(id: &str, source: &str) -> (res: HeatmapLayer)
        ensures
            res.id@ == id@,
            res.maxzoom is None,
            res.minzoom is None,
            res.source@ == source@,
            res.filter is None,
            res.source_layer is None,
            res.slot is None,
            res.layout == HeatmapLayout::unset(),
            res.paint == HeatmapPaint::unset(),
    {
        HeatmapLayer {
            id: id.to_owned(),
            maxzoom: None,
            minzoom: None,
            source: source.to_owned(),
            filter: None,
            source_layer: None,
            slot: None,
            layout: HeatmapLayout::default(),
            paint: HeatmapPaint::default(),
        }
    }

    /// The properties of the wire form, in order: each under its wire name,
    /// with its wire form where it is set.
    pub open spec fn slots(&self) -> Slots {
        seq![
            ("id"@, Some(self.id.wire())),
            ("maxzoom"@, optional_wire(self.maxzoom)),
            ("minzoom"@, optional_wire(self.minzoom)),
            ("source"@, Some(self.source.wire())),
            ("filter"@, optional_wire(self.filter)),
            ("source-layer"@, optional_wire(self.source_layer)),
            ("slot"@, optional_wire(self.slot)),
            ("layout"@, Some(self.layout.wire())),
            ("paint"@, Some(self.paint.wire())),
        ]
    }

    /// Offers every property to a builder, in order.
    pub fn to_entries(&self) -> (b: ObjectBuilder)
        ensures
            b.wf(),
            b@ == self.slots(),
    {
        let mut b = ObjectBuilder::new();
        b.wire("id", &self.id);
        b.optional_wire("maxzoom", &self.maxzoom);
        b.optional_wire("minzoom", &self.minzoom);
        b.wire("source", &self.source);
        b.optional_wire("filter", &self.filter);
        b.optional_wire("source-layer", &self.source_layer);
        b.optional_wire("slot", &self.slot);
        b.wire("layout", &self.layout);
        b.wire("paint", &self.paint);
        b
    }

    /// The place of the property with the wire name `key`, which the length of
    /// the name and a few of its characters tell.
    spec fn place_of(key: Seq<char>) -> int {
        if key.len() == 4 && key[1] == 'y' {
            0
        } else if key.len() == 2 && key[1] == 'd' {
            1
        } else if key.len() == 7 && key[1] == 'a' {
            2
        } else if key.len() == 7 && key[1] == 'i' {
            3
        } else if key.len() == 6 && key[1] == 'o' {
            4
        } else if key.len() == 6 && key[1] == 'i' {
            5
        } else if key.len() == 12 && key[1] == 'o' {
            6
        } else if key.len() == 4 && key[1] == 'l' {
            7
        } else if key.len() == 6 && key[1] == 'a' {
            8
        } else if key.len() == 5 && key[1] == 'a' {
            9
        } else {
            -1
        }
    }

    /// No two properties have one wire name. So looking the wire name of a
    /// property up in the wire form finds the wire form of that property where it
    /// is set, and nothing where it is unset.
    pub proof fn law_wire_names_are_distinct(&self)
        ensures
            distinct_keys(self.slots()),
            forall|i: int|
                0 <= i < self.slots().len() ==> lookup(
                    flatten(self.slots()),
                    (#[trigger] self.slots()[i]).0,
                ) == self.slots()[i].1,
    {
        reveal_strlit("id");
        reveal_strlit("maxzoom");
        reveal_strlit("minzoom");
        reveal_strlit("source");
        reveal_strlit("filter");
        reveal_strlit("source-layer");
        reveal_strlit("slot");
        reveal_strlit("layout");
        reveal_strlit("paint");
        let slots = self.slots();
        assert(HeatmapLayer::place_of(slots[0].0) == 1);
        assert(HeatmapLayer::place_of(slots[1].0) == 2);
        assert(HeatmapLayer::place_of(slots[2].0) == 3);
        assert(HeatmapLayer::place_of(slots[3].0) == 4);
        assert(HeatmapLayer::place_of(slots[4].0) == 5);
        assert(HeatmapLayer::place_of(slots[5].0) == 6);
        assert(HeatmapLayer::place_of(slots[6].0) == 7);
        assert(HeatmapLayer::place_of(slots[7].0) == 8);
        assert(HeatmapLayer::place_of(slots[8].0) == 9);
        assert forall|i: int| 0 <= i < slots.len() implies HeatmapLayer::place_of(
            (#[trigger] slots[i]).0,
        ) - 1 == i by {
        }
        lemma_placed_keys_are_distinct(slots, |key: Seq<char>| HeatmapLayer::place_of(key) - 1);
        assert forall|i: int| 0 <= i < slots.len() implies lookup(
            flatten(slots),
            (#[trigger] slots[i]).0,
        ) == slots[i].1 by {
            law_lookup_of_distinct_keys(slots, i);
        }
    }

    /// No wire name is `type`, and no two are one: behind a slot named
    /// `type` the properties still have names of their own.
    pub proof fn law_wire_names_leave_room(&self, first: Option<ValueView>)
        ensures
            distinct_keys(seq![("type"@, first)] + self.slots()),
    {
        reveal_strlit("type");
        reveal_strlit("id");
        reveal_strlit("maxzoom");
        reveal_strlit("minzoom");
        reveal_strlit("source");
        reveal_strlit("filter");
        reveal_strlit("source-layer");
        reveal_strlit("slot");
        reveal_strlit("layout");
        reveal_strlit("paint");
        let slots = self.slots();
        let tagged = seq![("type"@, first)] + slots;
        assert(HeatmapLayer::place_of(tagged[0].0) == 0);
        assert(tagged[1] == slots[0]);
        assert(HeatmapLayer::place_of(slots[0].0) == 1);
        assert(tagged[2] == slots[1]);
        assert(HeatmapLayer::place_of(slots[1].0) == 2);
        assert(tagged[3] == slots[2]);
        assert(HeatmapLayer::place_of(slots[2].0) == 3);
        assert(tagged[4] == slots[3]);
        assert(HeatmapLayer::place_of(slots[3].0) == 4);
        assert(tagged[5] == slots[4]);
        assert(HeatmapLayer::place_of(slots[4].0) == 5);
        assert(tagged[6] == slots[5]);
        assert(HeatmapLayer::place_of(slots[5].0) == 6);
        assert(tagged[7] == slots[6]);
        assert(HeatmapLayer::place_of(slots[6].0) == 7);
        assert(tagged[8] == slots[7]);
        assert(HeatmapLayer::place_of(slots[7].0) == 8);
        assert(tagged[9] == slots[8]);
        assert(HeatmapLayer::place_of(slots[8].0) == 9);
        assert forall|i: int| 0 <= i < tagged.len() implies HeatmapLayer::place_of(
            (#[trigger] tagged[i]).0,
        ) == i by {
        }
        lemma_placed_keys_are_distinct(tagged, |key: Seq<char>| HeatmapLayer::place_of(key));
    }
}

impl ToWire for HeatmapLayer {
    /// The object of the properties that are set.
    open spec fn wire(&self) -> ValueView {
        ValueView::Object(flatten(self.slots()))
    }

    fn to_wire(&self) -> (value: Value) {
        self.to_entries().finish()
    }
}

impl HeatmapLayer {
    /// Whether every property of a wire value can be read: what must be there
    /// is there, and what is there has the right shape.
    pub open spec fn all_read(value: ValueView) -> bool {
        &&& read_required::<String>(value.get("id"@)) is Some
        &&& read_optional::<Number>(value.get("maxzoom"@)) is Some
        &&& read_optional::<Number>(value.get("minzoom"@)) is Some
        &&& read_required::<String>(value.get("source"@)) is Some
        &&& read_optional::<Expression<()>>(value.get("filter"@)) is Some
        &&& read_optional::<String>(value.get("source-layer"@)) is Some
        &&& read_optional::<String>(value.get("slot"@)) is Some
        &&& read_defaulted::<HeatmapLayout>(value.get("layout"@), HeatmapLayout::unset().wire()) is Some
        &&& read_defaulted::<HeatmapPaint>(value.get("paint"@), HeatmapPaint::unset().wire()) is Some
    }

    /// The slots that the properties of a wire value are read as, in order.
    pub open spec fn read_slots(value: ValueView) -> Slots {
        seq![
            ("id"@, read_required::<String>(value.get("id"@))->Some_0),
            ("maxzoom"@, read_optional::<Number>(value.get("maxzoom"@))->Some_0),
            ("minzoom"@, read_optional::<Number>(value.get("minzoom"@))->Some_0),
            ("source"@, read_required::<String>(value.get("source"@))->Some_0),
            ("filter"@, read_optional::<Expression<()>>(value.get("filter"@))->Some_0),
            ("source-layer"@, read_optional::<String>(value.get("source-layer"@))->Some_0),
            ("slot"@, read_optional::<String>(value.get("slot"@))->Some_0),
            ("layout"@, read_defaulted::<HeatmapLayout>(value.get("layout"@), HeatmapLayout::unset().wire())->Some_0),
            ("paint"@, read_defaulted::<HeatmapPaint>(value.get("paint"@), HeatmapPaint::unset().wire())->Some_0),
        ]
    }

    fn read_part_0(value: &Value) -> (res: Option<(String, Option<Number>, Option<Number>, String, Option<Expression<()>>, Option<String>, Option<String>, HeatmapLayout,)>)
        ensures
            match res {
                Some(part) => {
                    &&& read_required::<String>(value@.get("id"@)) == Some(Some(part.0.wire()))
                    &&& read_optional::<Number>(value@.get("maxzoom"@)) == Some(optional_wire(part.1))
                    &&& read_optional::<Number>(value@.get("minzoom"@)) == Some(optional_wire(part.2))
                    &&& read_required::<String>(value@.get("source"@)) == Some(Some(part.3.wire()))
                    &&& read_optional::<Expression<()>>(value@.get("filter"@)) == Some(optional_wire(part.4))
                    &&& read_optional::<String>(value@.get("source-layer"@)) == Some(optional_wire(part.5))
                    &&& read_optional::<String>(value@.get("slot"@)) == Some(optional_wire(part.6))
                    &&& read_defaulted::<HeatmapLayout>(value@.get("layout"@), HeatmapLayout::unset().wire()) == Some(Some(part.7.wire()))
                },
                None => !Self::all_read(value@),
            },
    {
        let id = match required::<String>(value.get("id")) {
            Some(read) => read,
            None => {
                return None;
            },
        };
        let maxzoom = match optional::<Number>(value.get("maxzoom")) {
            Some(read) => read,
            None => {
                return None;
            },
        };
        let minzoom = match optional::<Number>(value.get("minzoom")) {
            Some(read) => read,
            None => {
                return None;
            },
        };
        let source = match required::<String>(value.get("source")) {
            Some(read) => read,
            None => {
                return None;
            },
        };
        let filter = match optional::<Expression<()>>(value.get("filter")) {
            Some(read) => read,
            None => {
                return None;
            },
        };
        let source_layer = match optional::<String>(value.get("source-layer")) {
            Some(read) => read,
            None => {
                return None;
            },
        };
        let slot = match optional::<String>(value.get("slot")) {
            Some(read) => read,
            None => {
                return None;
            },
        };
        let layout = match value.get("layout") {
            Some(found) => match HeatmapLayout::from_wire(found) {
                Some(read) => read,
                None => {
                    return None;
                },
            },
            None => HeatmapLayout::default(),
        };
        Some((id, maxzoom, minzoom, source, filter, source_layer, slot, layout,))
    }

    fn read_part_1(value: &Value) -> (res: Option<(HeatmapPaint,)>)
        ensures
            match res {
                Some(part) => {
                    &&& read_defaulted::<HeatmapPaint>(value@.get("paint"@), HeatmapPaint::unset().wire()) == Some(Some(part.0.wire()))
                },
                None => !Self::all_read(value@),
            },
    {
        let paint = match value.get("paint") {
            Some(found) => match HeatmapPaint::from_wire(found) {
                Some(read) => read,
                None => {
                    return None;
                },
            },
            None => HeatmapPaint::default(),
        };
        Some((paint,))
    }

    /// Reading an object in which looking up the name of each property of
    /// the value finds that property gives the value back.
    pub proof fn lemma_read_from(&self, entries: Seq<(Seq<char>, ValueView)>)
        requires
            self.comes_back(),
            forall|i: int|
                0 <= i < self.slots().len() ==> lookup(entries, (#[trigger] self.slots()[i]).0)
                    == self.slots()[i].1,
        ensures
            Self::spec_read(ValueView::Object(entries)) == Some(self.wire()),
    {
        let value = ValueView::Object(entries);
        let slots = self.slots();
        assert(value.get(slots[0].0) == slots[0].1);
        lemma_required_round_trip::<String>(self.id);
        assert(value.get(slots[1].0) == slots[1].1);
        lemma_optional_round_trip::<Number>(self.maxzoom);
        assert(value.get(slots[2].0) == slots[2].1);
        lemma_optional_round_trip::<Number>(self.minzoom);
        assert(value.get(slots[3].0) == slots[3].1);
        lemma_required_round_trip::<String>(self.source);
        assert(value.get(slots[4].0) == slots[4].1);
        lemma_optional_round_trip::<Expression<()>>(self.filter);
        assert(value.get(slots[5].0) == slots[5].1);
        lemma_optional_round_trip::<String>(self.source_layer);
        assert(value.get(slots[6].0) == slots[6].1);
        lemma_optional_round_trip::<String>(self.slot);
        assert(value.get(slots[7].0) == slots[7].1);
        lemma_defaulted_round_trip::<HeatmapLayout>(self.layout, HeatmapLayout::unset().wire());
        assert(value.get(slots[8].0) == slots[8].1);
        lemma_defaulted_round_trip::<HeatmapPaint>(self.paint, HeatmapPaint::unset().wire());
    }
}

impl FromWire for HeatmapLayer {
    /// The value is read from an object, property by property. Properties of
    /// other names are passed over.
    open spec fn spec_read(value: ValueView) -> Option<ValueView> {
        if value is Object && Self::all_read(value) {
            Some(ValueView::Object(flatten(Self::read_slots(value))))
        } else {
            None
        }
    }

    open spec fn comes_back(&self) -> bool {
        &&& self.id.comes_back()
        &&& optional_comes_back(self.maxzoom)
        &&& optional_comes_back(self.minzoom)
        &&& self.source.comes_back()
        &&& optional_comes_back(self.filter)
        &&& optional_comes_back(self.source_layer)
        &&& optional_comes_back(self.slot)
        &&& self.layout.comes_back()
        &&& self.paint.comes_back()
    }

    fn from_wire(value: &Value) -> (res: Option<HeatmapLayer>) {
        match value {
            Value::Object(_) => {},
            _ => {
                return None;
            },
        }
        let part_0 = match Self::read_part_0(value) {
            Some(part) => part,
            None => {
                return None;
            },
        };
        let part_1 = match Self::read_part_1(value) {
            Some(part) => part,
            None => {
                return None;
            },
        };
        Some(
            HeatmapLayer {
                id: part_0.0,
                maxzoom: part_0.1,
                minzoom: part_0.2,
                source: part_0.3,
                filter: part_0.4,
                source_layer: part_0.5,
                slot: part_0.6,
                layout: part_0.7,
                paint: part_1.0,
            },
        )
    }

    proof fn law_round_trip(&self) {
        self.law_wire_names_are_distinct();
        self.lemma_read_from(flatten(self.slots()));
    }
}

impl IntoLayer for HeatmapLayer {
    open spec fn spec_into_layer(self) -> Layer {
        Layer::Heatmap(self)
    }

    fn into_layer(self) -> (res: Layer) {
        Layer::Heatmap(self)
    }
}

/// How a heatmap layer is painted.
#[derive(Debug, Clone)]
pub struct HeatmapPaint {
    pub heatmap_color: Option<Expression<()>>,
    pub heatmap_intensity: Option<Expression<()>>,
    pub heatmap_opacity: Option<Expression<()>>,
    pub heatmap_radius: Option<Expression<()>>,
    pub heatmap_weight: Option<Expression<()>>,
}

impl Default for HeatmapPaint {
    /// Every property is unset.
    fn default() -> (res: HeatmapPaint)
        ensures
            res == HeatmapPaint::unset(),
    {
        HeatmapPaint {
            heatmap_color: None,
            heatmap_intensity: None,
            heatmap_opacity: None,
            heatmap_radius: None,
            heatmap_weight: None,
        }
    }
}

impl HeatmapPaint {
    /// The properties with every one unset.
    pub open spec fn unset() -> HeatmapPaint {
        HeatmapPaint {
            heatmap_color: None,
            heatmap_intensity: None,
            heatmap_opacity: None,
            heatmap_radius: None,
            heatmap_weight: None,
        }
    }

    /// The properties of the wire form, in order: each under its wire name,
    /// with its wire form where it is set.
    pub open spec fn slots(&self) -> Slots {
        seq![
            ("heatmap-color"@, optional_wire(self.heatmap_color)),
            ("heatmap-intensity"@, optional_wire(self.heatmap_intensity)),
            ("heatmap-opacity"@, optional_wire(self.heatmap_opacity)),
            ("heatmap-radius"@, optional_wire(self.heatmap_radius)),
            ("heatmap-weight"@, optional_wire(self.heatmap_weight)),
        ]
    }

    /// Offers every property to a builder, in order.
    pub fn to_entries(&self) -> (b: ObjectBuilder)
        ensures
            b.wf(),
            b@ == self.slots(),
    {
        let mut b = ObjectBuilder::new();
        b.optional_wire("heatmap-color", &self.heatmap_color);
        b.optional_wire("heatmap-intensity", &self.heatmap_intensity);
        b.optional_wire("heatmap-opacity", &self.heatmap_opacity);
        b.optional_wire("heatmap-radius", &self.heatmap_radius);
        b.optional_wire("heatmap-weight", &self.heatmap_weight);
        b
    }

    /// The place of the property with the wire name `key`, which the length of
    /// the name and a few of its characters tell.
    spec fn place_of(key: Seq<char>) -> int {
        if key.len() == 13 && key[8] == 'c' {
            0
        } else if key.len() == 17 && key[8] == 'i' {
            1
        } else if key.len() == 15 && key[8] == 'o' {
            2
        } else if key.len() == 14 && key[8] == 'r' {
            3
        } else if key.len() == 14 && key[8] == 'w' {
            4
        } else {
            -1
        }
    }

    /// No two properties have one wire name. So looking the wire name of a
    /// property up in the wire form finds the wire form of that property where it
    /// is set, and nothing where it is unset.
    pub proof fn law_wire_names_are_distinct(&self)
        ensures
            distinct_keys(self.slots()),
            forall|i: int|
                0 <= i < self.slots().len() ==> lookup(
                    flatten(self.slots()),
                    (#[trigger] self.slots()[i]).0,
                ) == self.slots()[i].1,
    {
        reveal_strlit("heatmap-color");
        reveal_strlit("heatmap-intensity");
        reveal_strlit("heatmap-opacity");
        reveal_strlit("heatmap-radius");
        reveal_strlit("heatmap-weight");
        let slots = self.slots();
        assert(HeatmapPaint::place_of(slots[0].0) == 0);
        assert(HeatmapPaint::place_of(slots[1].0) == 1);
        assert(HeatmapPaint::place_of(slots[2].0) == 2);
        assert(HeatmapPaint::place_of(slots[3].0) == 3);
        assert(HeatmapPaint::place_of(slots[4].0) == 4);
        assert forall|i: int| 0 <= i < slots.len() implies HeatmapPaint::place_of(
            (#[trigger] slots[i]).0,
        ) - 0 == i by {
        }
        lemma_placed_keys_are_distinct(slots, |key: Seq<char>| HeatmapPaint::place_of(key) - 0);
        assert forall|i: int| 0 <= i < slots.len() implies lookup(
            flatten(slots),
            (#[trigger] slots[i]).0,
        ) == slots[i].1 by {
            law_lookup_of_distinct_keys(slots, i);
        }
    }
}

impl ToWire for HeatmapPaint {
    /// The object of the properties that are set.
    open spec fn wire(&self) -> ValueView {
        ValueView::Object(flatten(self.slots()))
    }

    fn to_wire(&self) -> (value: Value) {
        self.to_entries().finish()
    }
}

impl HeatmapPaint {
    /// Whether every property of a wire value can be read: what must be there
    /// is there, and what is there has the right shape.
    pub open spec fn all_read(value: ValueView) -> bool {
        &&& read_optional::<Expression<()>>(value.get("heatmap-color"@)) is Some
        &&& read_optional::<Expression<()>>(value.get("heatmap-intensity"@)) is Some
        &&& read_optional::<Expression<()>>(value.get("heatmap-opacity"@)) is Some
        &&& read_optional::<Expression<()>>(value.get("heatmap-radius"@)) is Some
        &&& read_optional::<Expression<()>>(value.get("heatmap-weight"@)) is Some
    }

    /// The slots that the properties of a wire value are read as, in order.
    pub open spec fn read_slots(value: ValueView) -> Slots {
        seq![
            ("heatmap-color"@, read_optional::<Expression<()>>(value.get("heatmap-color"@))->Some_0),
            ("heatmap-intensity"@, read_optional::<Expression<()>>(value.get("heatmap-intensity"@))->Some_0),
            ("heatmap-opacity"@, read_optional::<Expression<()>>(value.get("heatmap-opacity"@))->Some_0),
            ("heatmap-radius"@, read_optional::<Expression<()>>(value.get("heatmap-radius"@))->Some_0),
            ("heatmap-weight"@, read_optional::<Expression<()>>(value.get("heatmap-weight"@))->Some_0),
        ]
    }

    /// Reading an object in which looking up the name of each property of
    /// the value finds that property gives the value back.
    pub proof fn lemma_read_from(&self, entries: Seq<(Seq<char>, ValueView)>)
        requires
            self.comes_back(),
            forall|i: int|
                0 <= i < self.slots().len() ==> lookup(entries, (#[trigger] self.slots()[i]).0)
                    == self.slots()[i].1,
        ensures
            Self::spec_read(ValueView::Object(entries)) == Some(self.wire()),
    {
        let value = ValueView::Object(entries);
        let slots = self.slots();
        assert(value.get(slots[0].0) == slots[0].1);
        lemma_optional_round_trip::<Expression<()>>(self.heatmap_color);
        assert(value.get(slots[1].0) == slots[1].1);
        lemma_optional_round_trip::<Expression<()>>(self.heatmap_intensity);
        assert(value.get(slots[2].0) == slots[2].1);
        lemma_optional_round_trip::<Expression<()>>(self.heatmap_opacity);
        assert(value.get(slots[3].0) == slots[3].1);
        lemma_optional_round_trip::<Expression<()>>(self.heatmap_radius);
        assert(value.get(slots[4].0) == slots[4].1);
        lemma_optional_round_trip::<Expression<()>>(self.heatmap_weight);
    }
}

impl FromWire for HeatmapPaint {
    /// The value is read from an object, property by property. Properties of
    /// other names are passed over.
    open spec fn spec_read(value: ValueView) -> Option<ValueView> {
        if value is Object && Self::all_read(value) {
            Some(ValueView::Object(flatten(Self::read_slots(value))))
        } else {
            None
        }
    }

    open spec fn comes_back(&self) -> bool {
        &&& optional_comes_back(self.heatmap_color)
        &&& optional_comes_back(self.heatmap_intensity)
        &&& optional_comes_back(self.heatmap_opacity)
        &&& optional_comes_back(self.heatmap_radius)
        &&& optional_comes_back(self.heatmap_weight)
    }

    fn from_wire(value: &Value) -> (res: Option<HeatmapPaint>) {
        match value {
            Value::Object(_) => {},
            _ => {
                return None;
            },
        }
        let heatmap_color = match optional::<Expression<()>>(value.get("heatmap-color")) {
            Some(read) => read,
            None => {
                return None;
            },
        };
        let heatmap_intensity = match optional::<Expression<()>>(value.get("heatmap-intensity")) {
            Some(read) => read,
            None => {
                return None;
            },
        };
        let heatmap_opacity = match optional::<Expression<()>>(value.get("heatmap-opacity")) {
            Some(read) => read,
            None => {
                return None;
            },
        };
        let heatmap_radius = match optional::<Expression<()>>(value.get("heatmap-radius")) {
            Some(read) => read,
            None => {
                return None;
            },
        };
        let heatmap_weight = match optional::<Expression<()>>(value.get("heatmap-weight")) {
            Some(read) => read,
            None => {
                return None;
            },
        };
        Some(HeatmapPaint { heatmap_color, heatmap_intensity, heatmap_opacity, heatmap_radius, heatmap_weight })
    }

    proof fn law_round_trip(&self) {
        self.law_wire_names_are_distinct();
        self.lemma_read_from(flatten(self.slots()));
    }
}

/// How a heatmap layer is laid out.
#[derive(Debug, Clone)]
pub struct HeatmapLayout {
    pub visibility: Option<Visibility>,
}

impl Default for HeatmapLayout {
    /// Every property is unset.
    fn default() -> (res: HeatmapLayout)
        ensures
            res == HeatmapLayout::unset(),
    {
        HeatmapLayout {
            visibility: None,
        }
    }
}

impl HeatmapLayout {
    /// The properties with every one unset.
    pub open spec fn unset() -> HeatmapLayout {
        HeatmapLayout {
            visibility: None,
        }
    }

    /// The properties of the wire form, in order: each under its wire name,
    /// with its wire form where it is set.
    pub open spec fn slots(&self) -> Slots {
        seq![
            ("visibility"@, optional_wire(self.visibility)),
        ]
    }

    /// Offers every property to a builder, in order.
    pub fn to_entries(&self) -> (b: ObjectBuilder)
        ensures
            b.wf(),
            b@ == self.slots(),
    {
        let mut b = ObjectBuilder::new();
        b.optional_wire("visibility", &self.visibility);
        b
    }

    /// The place of the property with the wire name `key`, which the length of
    /// the name and a few of its characters tell.
    spec fn place_of(key: Seq<char>) -> int {
        if key.len() == 10 {
            0
        } else {
            -1
        }
    }

    /// No two properties have one wire name. So looking the wire name of a
    /// property up in the wire form finds the wire form of that property where it
    /// is set, and nothing where it is unset.
    pub proof fn law_wire_names_are_distinct(&self)
        ensures
            distinct_keys(self.slots()),
            forall|i: int|
                0 <= i < self.slots().len() ==> lookup(
                    flatten(self.slots()),
                    (#[trigger] self.slots()[i]).0,
                ) == self.slots()[i].1,
    {
        reveal_strlit("visibility");
        let slots = self.slots();
        assert(HeatmapLayout::place_of(slots[0].0) == 0);
        assert forall|i: int| 0 <= i < slots.len() implies HeatmapLayout::place_of(
            (#[trigger] slots[i]).0,
        ) - 0 == i by {
        }
        lemma_placed_keys_are_distinct(slots, |key: Seq<char>| HeatmapLayout::place_of(key) - 0);
        assert forall|i: int| 0 <= i < slots.len() implies lookup(
            flatten(slots),
            (#[trigger] slots[i]).0,
        ) == slots[i].1 by {
            law_lookup_of_distinct_keys(slots, i);
        }
    }
}

impl ToWire for HeatmapLayout {
    /// The object of the properties that are set.
    open spec fn wire(&self) -> ValueView {
        ValueView::Object(flatten(self.slots()))
    }

    fn to_wire(&self) -> (value: Value) {
        self.to_entries().finish()
    }
}

impl HeatmapLayout {
    /// Whether every property of a wire value can be read: what must be there
    /// is there, and what is there has the right shape.
    pub open spec fn all_read(value: ValueView) -> bool {
        &&& read_optional::<Visibility>(value.get("visibility"@)) is Some
    }

    /// The slots that the properties of a wire value are read as, in order.
    pub open spec fn read_slots(value: ValueView) -> Slots {
        seq![
            ("visibility"@, read_optional::<Visibility>(value.get("visibility"@))->Some_0),
        ]
    }

    /// Reading an object in which looking up the name of each property of
    /// the value finds that property gives the value back.
    pub proof fn lemma_read_from(&self, entries: Seq<(Seq<char>, ValueView)>)
        requires
            self.comes_back(),
            forall|i: int|
                0 <= i < self.slots().len() ==> lookup(entries, (#[trigger] self.slots()[i]).0)
                    == self.slots()[i].1,
        ensures
            Self::spec_read(ValueView::Object(entries)) == Some(self.wire()),
    {
        let value = ValueView::Object(entries);
        let slots = self.slots();
        assert(value.get(slots[0].0) == slots[0].1);
        lemma_optional_round_trip::<Visibility>(self.visibility);
    }
}

impl FromWire for HeatmapLayout {
    /// The value is read from an object, property by property. Properties of
    /// other names are passed over.
    open spec fn spec_read(value: ValueView) -> Option<ValueView> {
        if value is Object && Self::all_read(value) {
            Some(ValueView::Object(flatten(Self::read_slots(value))))
        } else {
            None
        }
    }

    open spec fn comes_back(&self) -> bool {
        &&& optional_comes_back(self.visibility)
    }

    fn from_wire(value: &Value) -> (res: Option<HeatmapLayout>) {
        match value {
            Value::Object(_) => {},
            _ => {
                return None;
            },
        }
        let visibility = match optional::<Visibility>(value.get("visibility")) {
            Some(read) => read,
            None => {
                return None;
            },
        };
        Some(HeatmapLayout { visibility })
    }

    proof fn law_round_trip(&self) {
        self.law_wire_names_are_distinct();
        self.lemma_read_from(flatten(self.slots()));
    }
}

/// A hillshade layer.
#[derive(Debug, Clone)]
pub struct HillshadeLayer {
    pub id: String,
    pub maxzoom: Option<Number>,
    pub minzoom: Option<Number>,
    pub source: String,
    pub filter: Option<Expression<()>>,
    pub source_layer: Option<String>,
    pub slot: Option<String>,
    pub layout: HillshadeLayout,
    pub paint: HillshadePaint,
}

impl HillshadeLayer {
    /// The layer with the given identifier and source and nothing else set.
    pub fn new(id: &str, source: &str) -> (res: HillshadeLayer)
        ensures
            res.id@ == id@,
            res.maxzoom is None,
            res.minzoom is None,
            res.source@ == source@,
            res.filter is None,
            res.source_layer is None,
            res.slot is None,
            res.layout == HillshadeLayout::unset(),
            res.paint == HillshadePaint::unset(),
    {
        HillshadeLayer {
            id: id.to_owned(),
            maxzoom: None,
            minzoom: None,
            source: source.to_owned(),
            filter: None,
            source_layer: None,
            slot: None,
            layout: HillshadeLayout::default(),
            paint: HillshadePaint::default(),
        }
    }

    /// The properties of the wire form, in order: each under its wire name,
    /// with its wire form where it is set.
    pub open spec fn slots(&self) -> Slots {
        seq![
            ("id"@, Some(self.id.wire())),
            ("maxzoom"@, optional_wire(self.maxzoom)),
            ("minzoom"@, optional_wire(self.minzoom)),
            ("source"@, Some(self.source.wire())),
            ("filter"@, optional_wire(self.filter)),
            ("source-layer"@, optional_wire(self.source_layer)),
            ("slot"@, optional_wire(self.slot)),
            ("layout"@, Some(self.layout.wire())),
            ("paint"@, Some(self.paint.wire())),
        ]
    }

    /// Offers every property to a builder, in order.
    pub fn to_entries(&self) -> (b: ObjectBuilder)
        ensures
            b.wf(),
            b@ == self.slots(),
    {
        let mut b = ObjectBuilder::new();
        b.wire("id", &self.id);
        b.optional_wire("maxzoom", &self.maxzoom);
        b.optional_wire("minzoom", &self.minzoom);
        b.wire("source", &self.source);
        b.optional_wire("filter", &self.filter);
        b.optional_wire("source-layer", &self.source_layer);
        b.optional_wire("slot", &self.slot);
        b.wire("layout", &self.layout);
        b.wire("paint", &self.paint);
        b
    }

    /// The place of the property with the wire name `key`, which the length of
    /// the name and a few of its characters tell.
    spec fn place_of(key: Seq<char>) -> int {
        if key.len() == 4 && key[1] == 'y' {
            0
        } else if key.len() == 2 && key[1] == 'd' {
            1
        } else if key.len() == 7 && key[1] == 'a' {
            2
        } else if key.len() == 7 && key[1] == 'i' {
            3
        } else if key.len() == 6 && key[1] == 'o' {
            4
        } else if key.len() == 6 && key[1] == 'i' {
            5
        } else if key.len() == 12 && key[1] == 'o' {
            6
        } else if key.len() == 4 && key[1] == 'l' {
            7
        } else if key.len() == 6 && key[1] == 'a' {
            8
        } else if key.len() == 5 && key[1] == 'a' {
            9
        } else {
            -1
        }
    }

    /// No two properties have one wire name. So looking the wire name of a
    /// property up in the wire form finds the wire form of that property where it
    /// is set, and nothing where it is unset.
    pub proof fn law_wire_names_are_distinct(&self)
        ensures
            distinct_keys(self.slots()),
            forall|i: int|
                0 <= i < self.slots().len() ==> lookup(
                    flatten(self.slots()),
                    (#[trigger] self.slots()[i]).0,
                ) == self.slots()[i].1,
    {
        reveal_strlit("id");
        reveal_strlit("maxzoom");
        reveal_strlit("minzoom");
        reveal_strlit("source");
        reveal_strlit("filter");
        reveal_strlit("source-layer");
        reveal_strlit("slot");
        reveal_strlit("layout");
        reveal_strlit("paint");
        let slots = self.slots();
        assert(HillshadeLayer::place_of(slots[0].0) == 1);
        assert(HillshadeLayer::place_of(slots[1].0) == 2);
        assert(HillshadeLayer::place_of(slots[2].0) == 3);
        assert(HillshadeLayer::place_of(slots[3].0) == 4);
        assert(HillshadeLayer::place_of(slots[4].0) == 5);
        assert(HillshadeLayer::place_of(slots[5].0) == 6);
        assert(HillshadeLayer::place_of(slots[6].0) == 7);
        assert(HillshadeLayer::place_of(slots[7].0) == 8);
        assert(HillshadeLayer::place_of(slots[8].0) == 9);
        assert forall|i: int| 0 <= i < slots.len() implies HillshadeLayer::place_of(
            (#[trigger] slots[i]).0,
        ) - 1 == i by {
        }
        lemma_placed_keys_are_distinct(slots, |key: Seq<char>| HillshadeLayer::place_of(key) - 1);
        assert forall|i: int| 0 <= i < slots.len() implies lookup(
            flatten(slots),
            (#[trigger] slots[i]).0,
        ) == slots[i].1 by {
            law_lookup_of_distinct_keys(slots, i);
        }
    }

    /// No wire name is `type`, and no two are one: behind a slot named
    /// `type` the properties still have names of their own.
    pub proof fn law_wire_names_leave_room(&self, first: Option<ValueView>)
        ensures
            distinct_keys(seq![("type"@, first)] + self.slots()),
    {
        reveal_strlit("type");
        reveal_strlit("id");
        reveal_strlit("maxzoom");
        reveal_strlit("minzoom");
        reveal_strlit("source");
        reveal_strlit("filter");
        reveal_strlit("source-layer");
        reveal_strlit("slot");
        reveal_strlit("layout");
        reveal_strlit("paint");
        let slots = self.slots();
        let tagged = seq![("type"@, first)] + slots;
        assert(HillshadeLayer::place_of(tagged[0].0) == 0);
        assert(tagged[1] == slots[0]);
        assert(HillshadeLayer::place_of(slots[0].0) == 1);
        assert(tagged[2] == slots[1]);
        assert(HillshadeLayer::place_of(slots[1].0) == 2);
        assert(tagged[3] == slots[2]);
        assert(HillshadeLayer::place_of(slots[2].0) == 3);
        assert(tagged[4] == slots[3]);
        assert(HillshadeLayer::place_of(slots[3].0) == 4);
        assert(tagged[5] == slots[4]);
        assert(HillshadeLayer::place_of(slots[4].0) == 5);
        assert(tagged[6] == slots[5]);
        assert(HillshadeLayer::place_of(slots[5].0) == 6);
        assert(tagged[7] == slots[6]);
        assert(HillshadeLayer::place_of(slots[6].0) == 7);
        assert(tagged[8] == slots[7]);
        assert(HillshadeLayer::place_of(slots[7].0) == 8);
        assert(tagged[9] == slots[8]);
        assert(HillshadeLayer::place_of(slots[8].0) == 9);
        assert forall|i: int| 0 <= i < tagged.len() implies HillshadeLayer::place_of(
            (#[trigger] tagged[i]).0,
        ) == i by {
        }
        lemma_placed_keys_are_distinct(tagged, |key: Seq<char>| HillshadeLayer::place_of(key));
    }
}

impl ToWire for HillshadeLayer {
    /// The object of the properties that are set.
    open spec fn wire(&self) -> ValueView {
        ValueView::Object(flatten(self.slots()))
    }

    fn to_wire(&self) -> (value: Value) {
        self.to_entries().finish()
    }
}

impl HillshadeLayer {
    /// Whether every property of a wire value can be read: what must be there
    /// is there, and what is there has the right shape.
    pub open spec fn all_read(value: ValueView) -> bool {
        &&& read_required::<String>(value.get("id"@)) is Some
        &&& read_optional::<Number>(value.get("maxzoom"@)) is Some
        &&& read_optional::<Number>(value.get("minzoom"@)) is Some
        &&& read_required::<String>(value.get("source"@)) is Some
        &&& read_optional::<Expression<()>>(value.get("filter"@)) is Some
        &&& read_optional::<String>(value.get("source-layer"@)) is Some
        &&& read_optional::<String>(value.get("slot"@)) is Some
        &&& read_defaulted::<HillshadeLayout>(value.get("layout"@), HillshadeLayout::unset().wire()) is Some
        &&& read_defaulted::<HillshadePaint>(value.get("paint"@), HillshadePaint::unset().wire()) is Some
    }

    /// The slots that the properties of a wire value are read as, in order.
    pub open spec fn read_slots(value: ValueView) -> Slots {
        seq![
            ("id"@, read_required::<String>(value.get("id"@))->Some_0),
            ("maxzoom"@, read_optional::<Number>(value.get("maxzoom"@))->Some_0),
            ("minzoom"@, read_optional::<Number>(value.get("minzoom"@))->Some_0),
            ("source"@, read_required::<String>(value.get("source"@))->Some_0),
            ("filter"@, read_optional::<Expression<()>>(value.get("filter"@))->Some_0),
            ("source-layer"@, read_optional::<String>(value.get("source-layer"@))->Some_0),
            ("slot"@, read_optional::<String>(value.get("slot"@))->Some_0),
            ("layout"@, read_defaulted::<HillshadeLayout>(value.get("layout"@), HillshadeLayout::unset().wire())->Some_0),
            ("paint"@, read_defaulted::<HillshadePaint>(value.get("paint"@), HillshadePaint::unset().wire())->Some_0),
        ]
    }

    fn read_part_0(value: &Value) -> (res: Option<(String, Option<Number>, Option<Number>, String, Option<Expression<()>>, Option<String>, Option<String>, HillshadeLayout,)>)
        ensures
            match res {
                Some(part) => {
                    &&& read_required::<String>(value@.get("id"@)) == Some(Some(part.0.wire()))
                    &&& read_optional::<Number>(value@.get("maxzoom"@)) == Some(optional_wire(part.1))
                    &&& read_optional::<Number>(value@.get("minzoom"@)) == Some(optional_wire(part.2))
                    &&& read_required::<String>(value@.get("source"@)) == Some(Some(part.3.wire()))
                    &&& read_optional::<Expression<()>>(value@.get("filter"@)) == Some(optional_wire(part.4))
                    &&& read_optional::<String>(value@.get("source-layer"@)) == Some(optional_wire(part.5))
                    &&& read_optional::<String>(value@.get("slot"@)) == Some(optional_wire(part.6))
                    &&& read_defaulted::<HillshadeLayout>(value@.get("layout"@), HillshadeLayout::unset().wire()) == Some(Some(part.7.wire()))
                },
                None => !Self::all_read(value@),
            },
    {
        let id = match required::<String>(value.get("id")) {
            Some(read) => read,
            None => {
                return None;
            },
        };
        let maxzoom = match optional::<Number>(value.get("maxzoom")) {
            Some(read) => read,
            None => {
                return None;
            },
        };
        let minzoom = match optional::<Number>(value.get("minzoom")) {
            Some(read) => read,
            None => {
                return None;
            },
        };
        let source = match required::<String>(value.get("source")) {
            Some(read) => read,
            None => {
                return None;
            },
        };
        let filter = match optional::<Expression<()>>(value.get("filter")) {
            Some(read) => read,
            None => {
                return None;
            },
        };
        let source_layer = match optional::<String>(value.get("source-layer")) {
            Some(read) => read,
            None => {
                return None;
            },
        };
        let slot = match optional::<String>(value.get("slot")) {
            Some(read) => read,
            None => {
                return None;
            },
        };
        let layout = match value.get("layout") {
            Some(found) => match HillshadeLayout::from_wire(found) {
                Some(read) => read,
                None => {
                    return None;
                },
            },
            None => HillshadeLayout::default(),
        };
        Some((id, maxzoom, minzoom, source, filter, source_layer, slot, layout,))
    }

    fn read_part_1(value: &Value) -> (res: Option<(HillshadePaint,)>)
        ensures
            match res {
                Some(part) => {
                    &&& read_defaulted::<HillshadePaint>(value@.get("paint"@), HillshadePaint::unset().wire()) == Some(Some(part.0.wire()))
                },
                None => !Self::all_read(value@),
            },
    {
        let paint = match value.get("paint") {
            Some(found) => match HillshadePaint::from_wire(found) {
                Some(read) => read,
                None => {
                    return None;
                },
            },
            None => HillshadePaint::default(),
        };
        Some((paint,))
    }

    /// Reading an object in which looking up the name of each property of
    /// the value finds that property gives the value back.
    pub proof fn lemma_read_from(&self, entries: Seq<(Seq<char>, ValueView)>)
        requires
            self.comes_back(),
            forall|i: int|
                0 <= i < self.slots().len() ==> lookup(entries, (#[trigger] self.slots()[i]).0)
                    == self.slots()[i].1,
        ensures
            Self::spec_read(ValueView::Object(entries)) == Some(self.wire()),
    {
        let value = ValueView::Object(entries);
        let slots = self.slots();
        assert(value.get(slots[0].0) == slots[0].1);
        lemma_required_round_trip::<String>(self.id);
        assert(value.get(slots[1].0) == slots[1].1);
        lemma_optional_round_trip::<Number>(self.maxzoom);
        assert(value.get(slots[2].0) == slots[2].1);
        lemma_optional_round_trip::<Number>(self.minzoom);
        assert(value.get(slots[3].0) == slots[3].1);
        lemma_required_round_trip::<String>(self.source);
        assert(value.get(slots[4].0) == slots[4].1);
        lemma_optional_round_trip::<Expression<()>>(self.filter);
        assert(value.get(slots[5].0) == slots[5].1);
        lemma_optional_round_trip::<String>(self.source_layer);
        assert(value.get(slots[6].0) == slots[6].1);
        lemma_optional_round_trip::<String>(self.slot);
        assert(value.get(slots[7].0) == slots[7].1);
        lemma_defaulted_round_trip::<HillshadeLayout>(self.layout, HillshadeLayout::unset().wire());
        assert(value.get(slots[8].0) == slots[8].1);
        lemma_defaulted_round_trip::<HillshadePaint>(self.paint, HillshadePaint::unset().wire());
    }
}

impl FromWire for HillshadeLayer {
    /// The value is read from an object, property by property. Properties of
    /// other names are passed over.
    open spec fn spec_read(value: ValueView) -> Option<ValueView> {
        if value is Object && Self::all_read(value) {
            Some(ValueView::Object(flatten(Self::read_slots(value))))
        } else {
            None
        }
    }

    open spec fn comes_back(&self) -> bool {
        &&& self.id.comes_back()
        &&& optional_comes_back(self.maxzoom)
        &&& optional_comes_back(self.minzoom)
        &&& self.source.comes_back()
        &&& optional_comes_back(self.filter)
        &&& optional_comes_back(self.source_layer)
        &&& optional_comes_back(self.slot)
        &&& self.layout.comes_back()
        &&& self.paint.comes_back()
    }

    fn from_wire(value: &Value) -> (res: Option<HillshadeLayer>) {
        match value {
            Value::Object(_) => {},
            _ => {
                return None;
            },
        }
        let part_0 = match Self::read_part_0(value) {
            Some(part) => part,
            None => {
                return None;
            },
        };
        let part_1 = match Self::read_part_1(value) {
            Some(part) => part,
            None => {
                return None;
            },
        };
        Some(
            HillshadeLayer {
                id: part_0.0,
                maxzoom: part_0.1,
                minzoom: part_0.2,
                source: part_0.3,
                filter: part_0.4,
                source_layer: part_0.5,
                slot: part_0.6,
                layout: part_0.7,
                paint: part_1.0,
            },
        )
    }

    proof fn law_round_trip(&self) {
        self.law_wire_names_are_distinct();
        self.lemma_read_from(flatten(self.slots()));
    }
}

impl IntoLayer for HillshadeLayer {
    open spec fn spec_into_layer(self) -> Layer {
        Layer::Hillshade(self)
    }

    fn into_layer(self) -> (res: Layer) {
        Layer::Hillshade(self)
    }
}

/// How a hillshade layer is painted.
#[derive(Debug, Clone)]
pub struct HillshadePaint {
    pub hillshade_accent_color: Option<Expression<()>>,
    pub hillshade_emissive_strength: Option<Expression<()>>,
    pub hillshade_exaggeration: Option<Expression<()>>,
    pub hillshade_highlight_color: Option<Expression<()>>,
    pub hillshade_illumination_anchor: Option<Expression<TranslateAnchor>>,
    pub hillshade_illumination_direction: Option<Expression<()>>,
    pub hillshade_shadow_color: Option<Expression<()>>,
}

impl Default for HillshadePaint {
    /// Every property is unset.
    fn default() -> (res: HillshadePaint)
        ensures
            res == HillshadePaint::unset(),
    {
        HillshadePaint {
            hillshade_accent_color: None,
            hillshade_emissive_strength: None,
            hillshade_exaggeration: None,
            hillshade_highlight_color: None,
            hillshade_illumination_anchor: None,
            hillshade_illumination_direction: None,
            hillshade_shadow_color: None,
        }
    }
}

impl HillshadePaint {
    /// The properties with every one unset.
    pub open spec fn unset() -> HillshadePaint {
        HillshadePaint {
            hillshade_accent_color: None,
            hillshade_emissive_strength: None,
            hillshade_exaggeration: None,
            hillshade_highlight_color: None,
            hillshade_illumination_anchor: None,
            hillshade_illumination_direction: None,
            hillshade_shadow_color: None,
        }
    }

    /// The properties of the wire form, in order: each under its wire name,
    /// with its wire form where it is set.
    pub open spec fn slots(&self) -> Slots {
        seq![
            ("hillshade-accent-color"@, optional_wire(self.hillshade_accent_color)),
            ("hillshade-emissive-strength"@, optional_wire(self.hillshade_emissive_strength)),
            ("hillshade-exaggeration"@, optional_wire(self.hillshade_exaggeration)),
            ("hillshade-highlight-color"@, optional_wire(self.hillshade_highlight_color)),
            ("hillshade-illumination-anchor"@, optional_wire(self.hillshade_illumination_anchor)),
            ("hillshade-illumination-direction"@, optional_wire(self.hillshade_illumination_direction)),
            ("hillshade-shadow-color"@, optional_wire(self.hillshade_shadow_color)),
        ]
    }

    /// Offers every property to a builder, in order.
    pub fn to_entries(&self) -> (b: ObjectBuilder)
        ensures
            b.wf(),
            b@ == self.slots(),
    {
        let mut b = ObjectBuilder::new();
        b.optional_wire("hillshade-accent-color", &self.hillshade_accent_color);
        b.optional_wire("hillshade-emissive-strength", &self.hillshade_emissive_strength);
        b.optional_wire("hillshade-exaggeration", &self.hillshade_exaggeration);
        b.optional_wire("hillshade-highlight-color", &self.hillshade_highlight_color);
        b.optional_wire("hillshade-illumination-anchor", &self.hillshade_illumination_anchor);
        b.optional_wire("hillshade-illumination-direction", &self.hillshade_illumination_direction);
        b.optional_wire("hillshade-shadow-color", &self.hillshade_shadow_color);
        b
    }

    /// The place of the property with the wire name `key`, which the length of
    /// the name and a few of its characters tell.
    spec fn place_of(key: Seq<char>) -> int {
        if key.len() == 22 && key[10] == 'a' {
            0
        } else if key.len() == 27 && key[10] == 'e' {
            1
        } else if key.len() == 22 && key[10] == 'e' {
            2
        } else if key.len() == 25 && key[10] == 'h' {
            3
        } else if key.len() == 29 && key[10] == 'i' {
            4
        } else if key.len() == 32 && key[10] == 'i' {
            5
        } else if key.len() == 22 && key[10] == 's' {
            6
        } else {
            -1
        }
    }

    /// No two properties have one wire name. So looking the wire name of a
    /// property up in the wire form finds the wire form of that property where it
    /// is set, and nothing where it is unset.
    pub proof fn law_wire_names_are_distinct(&self)
        ensures
            distinct_keys(self.slots()),
            forall|i: int|
                0 <= i < self.slots().len() ==> lookup(
                    flatten(self.slots()),
                    (#[trigger] self.slots()[i]).0,
                ) == self.slots()[i].1,
    {
        reveal_strlit("hillshade-accent-color");
        reveal_strlit("hillshade-emissive-strength");
        reveal_strlit("hillshade-exaggeration");
        reveal_strlit("hillshade-highlight-color");
        reveal_strlit("hillshade-illumination-anchor");
        reveal_strlit("hillshade-illumination-direction");
        reveal_strlit("hillshade-shadow-color");
        let slots = self.slots();
        assert(HillshadePaint::place_of(slots[0].0) == 0);
        assert(HillshadePaint::place_of(slots[1].0) == 1);
        assert(HillshadePaint::place_of(slots[2].0) == 2);
        assert(HillshadePaint::place_of(slots[3].0) == 3);
        assert(HillshadePaint::place_of(slots[4].0) == 4);
        assert(HillshadePaint::place_of(slots[5].0) == 5);
        assert(HillshadePaint::place_of(slots[6].0) == 6);
        assert forall|i: int| 0 <= i < slots.len() implies HillshadePaint::place_of(
            (#[trigger] slots[i]).0,
        ) - 0 == i by {
        }
        lemma_placed_keys_are_distinct(slots, |key: Seq<char>| HillshadePaint::place_of(key) - 0);
        assert forall|i: int| 0 <= i < slots.len() implies lookup(
            flatten(slots),
            (#[trigger] slots[i]).0,
        ) == slots[i].1 by {
            law_lookup_of_distinct_keys(slots, i);
        }
    }
}

impl ToWire for HillshadePaint {
    /// The object of the properties that are set.
    open spec fn wire(&self) -> ValueView {
        ValueView::Object(flatten(self.slots()))
    }

    fn to_wire(&self) -> (value: Value) {
        self.to_entries().finish()
    }
}

impl HillshadePaint {
    /// Whether every property of a wire value can be read: what must be there
    /// is there, and what is there has the right shape.
    pub open spec fn all_read(value: ValueView) -> bool {
        &&& read_optional::<Expression<()>>(value.get("hillshade-accent-color"@)) is Some
        &&& read_optional::<Expression<()>>(value.get("hillshade-emissive-strength"@)) is Some
        &&& read_optional::<Expression<()>>(value.get("hillshade-exaggeration"@)) is Some
        &&& read_optional::<Expression<()>>(value.get("hillshade-highlight-color"@)) is Some
        &&& read_optional::<Expression<TranslateAnchor>>(value.get("hillshade-illumination-anchor"@)) is Some
        &&& read_optional::<Expression<()>>(value.get("hillshade-illumination-direction"@)) is Some
        &&& read_optional::<Expression<()>>(value.get("hillshade-shadow-color"@)) is Some
    }

    /// The slots that the properties of a wire value are read as, in order.
    pub open spec fn read_slots(value: ValueView) -> Slots {
        seq![
            ("hillshade-accent-color"@, read_optional::<Expression<()>>(value.get("hillshade-accent-color"@))->Some_0),
            ("hillshade-emissive-strength"@, read_optional::<Expression<()>>(value.get("hillshade-emissive-strength"@))->Some_0),
            ("hillshade-exaggeration"@, read_optional::<Expression<()>>(value.get("hillshade-exaggeration"@))->Some_0),
            ("hillshade-highlight-color"@, read_optional::<Expression<()>>(value.get("hillshade-highlight-color"@))->Some_0),
            ("hillshade-illumination-anchor"@, read_optional::<Expression<TranslateAnchor>>(value.get("hillshade-illumination-anchor"@))->Some_0),
            ("hillshade-illumination-direction"@, read_optional::<Expression<()>>(value.get("hillshade-illumination-direction"@))->Some_0),
            ("hillshade-shadow-color"@, read_optional::<Expression<()>>(value.get("hillshade-shadow-color"@))->Some_0),
        ]
    }

    /// Reading an object in which looking up the name of each property of
    /// the value finds that property gives the value back.
    pub proof fn lemma_read_from(&self, entries: Seq<(Seq<char>, ValueView)>)
        requires
            self.comes_back(),
            forall|i: int|
                0 <= i < self.slots().len() ==> lookup(entries, (#[trigger] self.slots()[i]).0)
                    == self.slots()[i].1,
        ensures
            Self::spec_read(ValueView::Object(entries)) == Some(self.wire()),
    {
        let value = ValueView::Object(entries);
        let slots = self.slots();
        assert(value.get(slots[0].0) == slots[0].1);
        lemma_optional_round_trip::<Expression<()>>(self.hillshade_accent_color);
        assert(value.get(slots[1].0) == slots[1].1);
        lemma_optional_round_trip::<Expression<()>>(self.hillshade_emissive_strength);
        assert(value.get(slots[2].0) == slots[2].1);
        lemma_optional_round_trip::<Expression<()>>(self.hillshade_exaggeration);
        assert(value.get(slots[3].0) == slots[3].1);
        lemma_optional_round_trip::<Expression<()>>(self.hillshade_highlight_color);
        assert(value.get(slots[4].0) == slots[4].1);
        lemma_optional_round_trip::<Expression<TranslateAnchor>>(self.hillshade_illumination_anchor);
        assert(value.get(slots[5].0) == slots[5].1);
        lemma_optional_round_trip::<Expression<()>>(self.hillshade_illumination_direction);
        assert(value.get(slots[6].0) == slots[6].1);
        lemma_optional_round_trip::<Expression<()>>(self.hillshade_shadow_color);
    }
}

impl FromWire for HillshadePaint {
    /// The value is read from an object, property by property. Properties of
    /// other names are passed over.
    open spec fn spec_read(value: ValueView) -> Option<ValueView> {
        if value is Object && Self::all_read(value) {
            Some(ValueView::Object(flatten(Self::read_slots(value))))
        } else {
            None
        }
    }

    open spec fn comes_back(&self) -> bool {
        &&& optional_comes_back(self.hillshade_accent_color)
        &&& optional_comes_back(self.hillshade_emissive_strength)
        &&& optional_comes_back(self.hillshade_exaggeration)
        &&& optional_comes_back(self.hillshade_highlight_color)
        &&& optional_comes_back(self.hillshade_illumination_anchor)
        &&& optional_comes_back(self.hillshade_illumination_direction)
        &&& optional_comes_back(self.hillshade_shadow_color)
    }

    fn from_wire(value: &Value) -> (res: Option<HillshadePaint>) {
        match value {
            Value::Object(_) => {},
            _ => {
                return None;
            },
        }
        let hillshade_accent_color = match optional::<Expression<()>>(value.get("hillshade-accent-color")) {
            Some(read) => read,
            None => {
                return None;
            },
        };
        let hillshade_emissive_strength = match optional::<Expression<()>>(value.get("hillshade-emissive-strength")) {
            Some(read) => read,
            None => {
                return None;
            },
        };
        let hillshade_exaggeration = match optional::<Expression<()>>(value.get("hillshade-exaggeration")) {
            Some(read) => read,
            None => {
                return None;
            },
        };
        let hillshade_highlight_color = match optional::<Expression<()>>(value.get("hillshade-highlight-color")) {
            Some(read) => read,
            None => {
                return None;
            },
        };
        let hillshade_illumination_anchor = match optional::<Expression<TranslateAnchor>>(value.get("hillshade-illumination-anchor")) {
            Some(read) => read,
            None => {
                return None;
            },
        };
        let hillshade_illumination_direction = match optional::<Expression<()>>(value.get("hillshade-illumination-direction")) {
            Some(read) => read,
            None => {
                return None;
            },
        };
        let hillshade_shadow_color = match optional::<Expression<()>>(value.get("hillshade-shadow-color")) {
            Some(read) => read,
            None => {
                return None;
            },
        };
        Some(HillshadePaint { hillshade_accent_color, hillshade_emissive_strength, hillshade_exaggeration, hillshade_highlight_color, hillshade_illumination_anchor, hillshade_illumination_direction, hillshade_shadow_color })
    }

    proof fn law_round_trip(&self) {
        self.law_wire_names_are_distinct();
        self.lemma_read_from(flatten(self.slots()));
    }
}

/// How a hillshade layer is laid out.
#[derive(Debug, Clone)]
pub struct HillshadeLayout {
    pub visibility: Option<Visibility>,
}

impl Default for HillshadeLayout {
    /// Every property is unset.
    fn default() -> (res: HillshadeLayout)
        ensures
            res == HillshadeLayout::unset(),
    {
        HillshadeLayout {
            visibility: None,
        }
    }
}

impl HillshadeLayout {
    /// The properties with every one unset.
    pub open spec fn unset() -> HillshadeLayout {
        HillshadeLayout {
            visibility: None,
        }
    }

    /// The properties of the wire form, in order: each under its wire name,
    /// with its wire form where it is set.
    pub open spec fn slots(&self) -> Slots {
        seq![
            ("visibility"@, optional_wire(self.visibility)),
        ]
    }

    /// Offers every property to a builder, in order.
    pub fn to_entries(&self) -> (b: ObjectBuilder)
        ensures
            b.wf(),
            b@ == self.slots(),
    {
        let mut b = ObjectBuilder::new();
        b.optional_wire("visibility", &self.visibility);
        b
    }

    /// The place of the property with the wire name `key`, which the length of
    /// the name and a few of its characters tell.
    spec fn place_of(key: Seq<char>) -> int {
        if key.len() == 10 {
            0
        } else {
            -1
        }
    }

    /// No two properties have one wire name. So looking the wire name of a
    /// property up in the wire form finds the wire form of that property where it
    /// is set, and nothing where it is unset.
    pub proof fn law_wire_names_are_distinct(&self)
        ensures
            distinct_keys(self.slots()),
            forall|i: int|
                0 <= i < self.slots().len() ==> lookup(
                    flatten(self.slots()),
                    (#[trigger] self.slots()[i]).0,
                ) == self.slots()[i].1,
    {
        reveal_strlit("visibility");
        let slots = self.slots();
        assert(HillshadeLayout::place_of(slots[0].0) == 0);
        assert forall|i: int| 0 <= i < slots.len() implies HillshadeLayout::place_of(
            (#[trigger] slots[i]).0,
        ) - 0 == i by {
        }
        lemma_placed_keys_are_distinct(slots, |key: Seq<char>| HillshadeLayout::place_of(key) - 0);
        assert forall|i: int| 0 <= i < slots.len() implies lookup(
            flatten(slots),
            (#[trigger] slots[i]).0,
        ) == slots[i].1 by {
            law_lookup_of_distinct_keys(slots, i);
        }
    }
}

impl ToWire for HillshadeLayout {
    /// The object of the properties that are set.
    open spec fn wire(&self) -> ValueView {
        ValueView::Object(flatten(self.slots()))
    }

    fn to_wire(&self) -> (value: Value) {
        self.to_entries().finish()
    }
}

impl HillshadeLayout {
    /// Whether every property of a wire value can be read: what must be there
    /// is there, and what is there has the right shape.
    pub open spec fn all_read(value: ValueView) -> bool {
        &&& read_optional::<Visibility>(value.get("visibility"@)) is Some
    }

    /// The slots that the properties of a wire value are read as, in order.
    pub open spec fn read_slots(value: ValueView) -> Slots {
        seq![
            ("visibility"@, read_optional::<Visibility>(value.get("visibility"@))->Some_0),
        ]
    }

    /// Reading an object in which looking up the name of each property of
    /// the value finds that property gives the value back.
    pub proof fn lemma_read_from(&self, entries: Seq<(Seq<char>, ValueView)>)
        requires
            self.comes_back(),
            forall|i: int|
                0 <= i < self.slots().len() ==> lookup(entries, (#[trigger] self.slots()[i]).0)
                    == self.slots()[i].1,
        ensures
            Self::spec_read(ValueView::Object(entries)) == Some(self.wire()),
    {
        let value = ValueView::Object(entries);
        let slots = self.slots();
        assert(value.get(slots[0].0) == slots[0].1);
        lemma_optional_round_trip::<Visibility>(self.visibility);
    }
}

impl FromWire for HillshadeLayout {
    /// The value is read from an object, property by property. Properties of
    /// other names are passed over.
    open spec fn spec_read(value: ValueView) -> Option<ValueView> {
        if value is Object && Self::all_read(value) {
            Some(ValueView::Object(flatten(Self::read_slots(value))))
        } else {
            None
        }
    }

    open spec fn comes_back(&self) -> bool {
        &&& optional_comes_back(self.visibility)
    }

    fn from_wire(value: &Value) -> (res: Option<HillshadeLayout>) {
        match value {
            Value::Object(_) => {},
            _ => {
                return None;
            },
        }
        let visibility = match optional::<Visibility>(value.get("visibility")) {
            Some(read) => read,
            None => {
                return None;
            },
        };
        Some(HillshadeLayout { visibility })
    }

    proof fn law_round_trip(&self) {
        self.law_wire_names_are_distinct();
        self.lemma_read_from(flatten(self.slots()));
    }
}

/// A sky layer.
#[derive(Debug, Clone)]
pub struct SkyLayer {
    pub id: String,
    pub maxzoom: Option<Number>,
    pub minzoom: Option<Number>,
    pub source: String,
    pub filter: Option<Expression<()>>,
    pub source_layer: Option<String>,
    pub slot: Option<String>,
    pub layout: SkyLayout,
    pub paint: SkyPaint,
}

impl SkyLayer {
    /// The layer with the given identifier and source and nothing else set.
    pub fn new(id: &str, source: &str) -> (res: SkyLayer)
        ensures
            res.id@ == id@,
            res.maxzoom is None,
            res.minzoom is None,
            res.source@ == source@,
            res.filter is None,
            res.source_layer is None,
            res.slot is None,
            res.layout == SkyLayout::unset(),
            res.paint == SkyPaint::unset(),
    {
        SkyLayer {
            id: id.to_owned(),
            maxzoom: None,
            minzoom: None,
            source: source.to_owned(),
            filter: None,
            source_layer: None,
            slot: None,
            layout: SkyLayout::default(),
            paint: SkyPaint::default(),
        }
    }

    /// The properties of the wire form, in order: each under its wire name,
    /// with its wire form where it is set.
    pub open spec fn slots(&self) -> Slots {
        seq![
            ("id"@, Some(self.id.wire())),
            ("maxzoom"@, optional_wire(self.maxzoom)),
            ("minzoom"@, optional_wire(self.minzoom)),
            ("source"@, Some(self.source.wire())),
            ("filter"@, optional_wire(self.filter)),
            ("source-layer"@, optional_wire(self.source_layer)),
            ("slot"@, optional_wire(self.slot)),
            ("layout"@, Some(self.layout.wire())),
            ("paint"@, Some(self.paint.wire())),
        ]
    }

    /// Offers every property to a builder, in order.
    pub fn to_entries(&self) -> (b: ObjectBuilder)
        ensures
            b.wf(),
            b@ == self.slots(),
    {
        let mut b = ObjectBuilder::new();
        b.wire("id", &self.id);
        b.optional_wire("maxzoom", &self.maxzoom);
        b.optional_wire("minzoom", &self.minzoom);
        b.wire("source", &self.source);
        b.optional_wire("filter", &self.filter);
        b.optional_wire("source-layer", &self.source_layer);
        b.optional_wire("slot", &self.slot);
        b.wire("layout", &self.layout);
        b.wire("paint", &self.paint);
        b
    }

    /// The place of the property with the wire name `key`, which the length of
    /// the name and a few of its characters tell.
    spec fn place_of(key: Seq<char>) -> int {
        if key.len() == 4 && key[1] == 'y' {
            0
        } else if key.len() == 2 && key[1] == 'd' {
            1
        } else if key.len() == 7 && key[1] == 'a' {
            2
        } else if key.len() == 7 && key[1] == 'i' {
            3
        } else if key.len() == 6 && key[1] == 'o' {
            4
        } else if key.len() == 6 && key[1] == 'i' {
            5
        } else if key.len() == 12 && key[1] == 'o' {
            6
        } else if key.len() == 4 && key[1] == 'l' {
            7
        } else if key.len() == 6 && key[1] == 'a' {
            8
        } else if key.len() == 5 && key[1] == 'a' {
            9
        } else {
            -1
        }
    }

    /// No two properties have one wire name. So looking the wire name of a
    /// property up in the wire form finds the wire form of that property where it
    /// is set, and nothing where it is unset.
    pub proof fn law_wire_names_are_distinct(&self)
        ensures
            distinct_keys(self.slots()),
            forall|i: int|
                0 <= i < self.slots().len() ==> lookup(
                    flatten(self.slots()),
                    (#[trigger] self.slots()[i]).0,
                ) == self.slots()[i].1,
    {
        reveal_strlit("id");
        reveal_strlit("maxzoom");
        reveal_strlit("minzoom");
        reveal_strlit("source");
        reveal_strlit("filter");
        reveal_strlit("source-layer");
        reveal_strlit("slot");
        reveal_strlit("layout");
        reveal_strlit("paint");
        let slots = self.slots();
        assert(SkyLayer::place_of(slots[0].0) == 1);
        assert(SkyLayer::place_of(slots[1].0) == 2);
        assert(SkyLayer::place_of(slots[2].0) == 3);
        assert(SkyLayer::place_of(slots[3].0) == 4);
        assert(SkyLayer::place_of(slots[4].0) == 5);
        assert(SkyLayer::place_of(slots[5].0) == 6);
        assert(SkyLayer::place_of(slots[6].0) == 7);
        assert(SkyLayer::place_of(slots[7].0) == 8);
        assert(SkyLayer::place_of(slots[8].0) == 9);
        assert forall|i: int| 0 <= i < slots.len() implies SkyLayer::place_of(
            (#[trigger] slots[i]).0,
        ) - 1 == i by {
        }
        lemma_placed_keys_are_distinct(slots, |key: Seq<char>| SkyLayer::place_of(key) - 1);
        assert forall|i: int| 0 <= i < slots.len() implies lookup(
            flatten(slots),
            (#[trigger] slots[i]).0,
        ) == slots[i].1 by {
            law_lookup_of_distinct_keys(slots, i);
        }
    }

    /// No wire name is `type`, and no two are one: behind a slot named
    /// `type` the properties still have names of their own.
    pub proof fn law_wire_names_leave_room(&self, first: Option<ValueView>)
        ensures
            distinct_keys(seq![("type"@, first)] + self.slots()),
    {
        reveal_strlit("type");
        reveal_strlit("id");
        reveal_strlit("maxzoom");
        reveal_strlit("minzoom");
        reveal_strlit("source");
        reveal_strlit("filter");
        reveal_strlit("source-layer");
        reveal_strlit("slot");
        reveal_strlit("layout");
        reveal_strlit("paint");
        let slots = self.slots();
        let tagged = seq![("type"@, first)] + slots;
        assert(SkyLayer::place_of(tagged[0].0) == 0);
        assert(tagged[1] == slots[0]);
        assert(SkyLayer::place_of(slots[0].0) == 1);
        assert(tagged[2] == slots[1]);
        assert(SkyLayer::place_of(slots[1].0) == 2);
        assert(tagged[3] == slots[2]);
        assert(SkyLayer::place_of(slots[2].0) == 3);
        assert(tagged[4] == slots[3]);
        assert(SkyLayer::place_of(slots[3].0) == 4);
        assert(tagged[5] == slots[4]);
        assert(SkyLayer::place_of(slots[4].0) == 5);
        assert(tagged[6] == slots[5]);
        assert(SkyLayer::place_of(slots[5].0) == 6);
        assert(tagged[7] == slots[6]);
        assert(SkyLayer::place_of(slots[6].0) == 7);
        assert(tagged[8] == slots[7]);
        assert(SkyLayer::place_of(slots[7].0) == 8);
        assert(tagged[9] == slots[8]);
        assert(SkyLayer::place_of(slots[8].0) == 9);
        assert forall|i: int| 0 <= i < tagged.len() implies SkyLayer::place_of(
            (#[trigger] tagged[i]).0,
        ) == i by {
        }
        lemma_placed_keys_are_distinct(tagged, |key: Seq<char>| SkyLayer::place_of(key));
    }
}

impl ToWire for SkyLayer {
    /// The object of the properties that are set.
    open spec fn wire(&self) -> ValueView {
        ValueView::Object(flatten(self.slots()))
    }

    fn to_wire(&self) -> (value: Value) {
        self.to_entries().finish()
    }
}

impl SkyLayer {
    /// Whether every property of a wire value can be read: what must be there
    /// is there, and what is there has the right shape.
    pub open spec fn all_read(value: ValueView) -> bool {
        &&& read_required::<String>(value.get("id"@)) is Some
        &&& read_optional::<Number>(value.get("maxzoom"@)) is Some
        &&& read_optional::<Number>(value.get("minzoom"@)) is Some
        &&& read_required::<String>(value.get("source"@)) is Some
        &&& read_optional::<Expression<()>>(value.get("filter"@)) is Some
        &&& read_optional::<String>(value.get("source-layer"@)) is Some
        &&& read_optional::<String>(value.get("slot"@)) is Some
        &&& read_defaulted::<SkyLayout>(value.get("layout"@), SkyLayout::unset().wire()) is Some
        &&& read_defaulted::<SkyPaint>(value.get("paint"@), SkyPaint::unset().wire()) is Some
    }

    /// The slots that the properties of a wire value are read as, in order.
    pub open spec fn read_slots(value: ValueView) -> Slots {
        seq![
            ("id"@, read_required::<String>(value.get("id"@))->Some_0),
            ("maxzoom"@, read_optional::<Number>(value.get("maxzoom"@))->Some_0),
            ("minzoom"@, read_optional::<Number>(value.get("minzoom"@))->Some_0),
            ("source"@, read_required::<String>(value.get("source"@))->Some_0),
            ("filter"@, read_optional::<Expression<()>>(value.get("filter"@))->Some_0),
            ("source-layer"@, read_optional::<String>(value.get("source-layer"@))->Some_0),
            ("slot"@, read_optional::<String>(value.get("slot"@))->Some_0),
            ("layout"@, read_defaulted::<SkyLayout>(value.get("layout"@), SkyLayout::unset().wire())->Some_0),
            ("paint"@, read_defaulted::<SkyPaint>(value.get("paint"@), SkyPaint::unset().wire())->Some_0),
        ]
    }

    fn read_part_0(value: &Value) -> (res: Option<(String, Option<Number>, Option<Number>, String, Option<Expression<()>>, Option<String>, Option<String>, SkyLayout,)>)
        ensures
            match res {
                Some(part) => {
                    &&& read_required::<String>(value@.get("id"@)) == Some(Some(part.0.wire()))
                    &&& read_optional::<Number>(value@.get("maxzoom"@)) == Some(optional_wire(part.1))
                    &&& read_optional::<Number>(value@.get("minzoom"@)) == Some(optional_wire(part.2))
                    &&& read_required::<String>(value@.get("source"@)) == Some(Some(part.3.wire()))
                    &&& read_optional::<Expression<()>>(value@.get("filter"@)) == Some(optional_wire(part.4))
                    &&& read_optional::<String>(value@.get("source-layer"@)) == Some(optional_wire(part.5))
                    &&& read_optional::<String>(value@.get("slot"@)) == Some(optional_wire(part.6))
                    &&& read_defaulted::<SkyLayout>(value@.get("layout"@), SkyLayout::unset().wire()) == Some(Some(part.7.wire()))
                },
                None => !Self::all_read(value@),
            },
    {
        let id = match required::<String>(value.get("id")) {
            Some(read) => read,
            None => {
                return None;
            },
        };
        let maxzoom = match optional::<Number>(value.get("maxzoom")) {
            Some(read) => read,
            None => {
                return None;
            },
        };
        let minzoom = match optional::<Number>(value.get("minzoom")) {
            Some(read) => read,
            None => {
                return None;
            },
        };
        let source = match required::<String>(value.get("source")) {
            Some(read) => read,
            None => {
                return None;
            },
        };
        let filter = match optional::<Expression<()>>(value.get("filter")) {
            Some(read) => read,
            None => {
                return None;
            },
        };
        let source_layer = match optional::<String>(value.get("source-layer")) {
            Some(read) => read,
            None => {
                return None;
            },
        };
        let slot = match optional::<String>(value.get("slot")) {
            Some(read) => read,
            None => {
                return None;
            },
        };
        let layout = match value.get("layout") {
            Some(found) => match SkyLayout::from_wire(found) {
                Some(read) => read,
                None => {
                    return None;
                },
            },
            None => SkyLayout::default(),
        };
        Some((id, maxzoom, minzoom, source, filter, source_layer, slot, layout,))
    }

    fn read_part_1(value: &Value) -> (res: Option<(SkyPaint,)>)
        ensures
            match res {
                Some(part) => {
                    &&& read_defaulted::<SkyPaint>(value@.get("paint"@), SkyPaint::unset().wire()) == Some(Some(part.0.wire()))
                },
                None => !Self::all_read(value@),
            },
    {
        let paint = match value.get("paint") {
            Some(found) => match SkyPaint::from_wire(found) {
                Some(read) => read,
                None => {
                    return None;
                },
            },
            None => SkyPaint::default(),
        };
        Some((paint,))
    }

    /// Reading an object in which looking up the name of each property of
    /// the value finds that property gives the value back.
    pub proof fn lemma_read_from(&self, entries: Seq<(Seq<char>, ValueView)>)
        requires
            self.comes_back(),
            forall|i: int|
                0 <= i < self.slots().len() ==> lookup(entries, (#[trigger] self.slots()[i]).0)
                    == self.slots()[i].1,
        ensures
            Self::spec_read(ValueView::Object(entries)) == Some(self.wire()),
    {
        let value = ValueView::Object(entries);
        let slots = self.slots();
        assert(value.get(slots[0].0) == slots[0].1);
        lemma_required_round_trip::<String>(self.id);
        assert(value.get(slots[1].0) == slots[1].1);
        lemma_optional_round_trip::<Number>(self.maxzoom);
        assert(value.get(slots[2].0) == slots[2].1);
        lemma_optional_round_trip::<Number>(self.minzoom);
        assert(value.get(slots[3].0) == slots[3].1);
        lemma_required_round_trip::<String>(self.source);
        assert(value.get(slots[4].0) == slots[4].1);
        lemma_optional_round_trip::<Expression<()>>(self.filter);
        assert(value.get(slots[5].0) == slots[5].1);
        lemma_optional_round_trip::<String>(self.source_layer);
        assert(value.get(slots[6].0) == slots[6].1);
        lemma_optional_round_trip::<String>(self.slot);
        assert(value.get(slots[7].0) == slots[7].1);
        lemma_defaulted_round_trip::<SkyLayout>(self.layout, SkyLayout::unset().wire());
        assert(value.get(slots[8].0) == slots[8].1);
        lemma_defaulted_round_trip::<SkyPaint>(self.paint, SkyPaint::unset().wire());
    }
}

impl FromWire for SkyLayer {
    /// The value is read from an object, property by property. Properties of
    /// other names are passed over.
    open spec fn spec_read(value: ValueView) -> Option<ValueView> {
        if value is Object && Self::all_read(value) {
            Some(ValueView::Object(flatten(Self::read_slots(value))))
        } else {
            None
        }
    }

    open spec fn comes_back(&self) -> bool {
        &&& self.id.comes_back()
        &&& optional_comes_back(self.maxzoom)
        &&& optional_comes_back(self.minzoom)
        &&& self.source.comes_back()
        &&& optional_comes_back(self.filter)
        &&& optional_comes_back(self.source_layer)
        &&& optional_comes_back(self.slot)
        &&& self.layout.comes_back()
        &&& self.paint.comes_back()
    }

    fn from_wire(value: &Value) -> (res: Option<SkyLayer>) {
        match value {
            Value::Object(_) => {},
            _ => {
                return None;
            },
        }
        let part_0 = match Self::read_part_0(value) {
            Some(part) => part,
            None => {
                return None;
            },
        };
        let part_1 = match Self::read_part_1(value) {
            Some(part) => part,
            None => {
                return None;
            },
        };
        Some(
            SkyLayer {
                id: part_0.0,
                maxzoom: part_0.1,
                minzoom: part_0.2,
                source: part_0.3,
                filter: part_0.4,
                source_layer: part_0.5,
                slot: part_0.6,
                layout: part_0.7,
                paint: part_1.0,
            },
        )
    }

    proof fn law_round_trip(&self) {
        self.law_wire_names_are_distinct();
        self.lemma_read_from(flatten(self.slots()));
    }
}

impl IntoLayer for SkyLayer {
    open spec fn spec_into_layer(self) -> Layer {
        Layer::Sky(self)
    }

    fn into_layer(self) -> (res: Layer) {
        Layer::Sky(self)
    }
}

/// The vocabulary of the sky type properties.
#[derive(Debug, Clone, Copy, PartialEq, Eq, Structural)]
pub enum SkyType {
    Gradient,
    Atmosphere,
}

impl EnumMarker for SkyType {

}

impl Default for SkyType {
    fn default() -> (res: SkyType)
        ensures
            res == SkyType::Gradient,
    {
        SkyType::Gradient
    }
}

impl SkyType {
    /// The name of the constant on the wire.
    pub open spec fn spec_name(self) -> Seq<char> {
        match self {
            SkyType::Gradient => "gradient"@,
            SkyType::Atmosphere => "atmosphere"@,
        }
    }

    /// The name of the constant on the wire.
    pub fn name(&self) -> (res: &'static str)
        ensures
            res@ == self.spec_name(),
    {
        match self {
            SkyType::Gradient => "gradient",
            SkyType::Atmosphere => "atmosphere",
        }
    }
}

impl ToWire for SkyType {
    open spec fn wire(&self) -> ValueView {
        ValueView::String(self.spec_name())
    }

    fn to_wire(&self) -> (value: Value) {
        Value::string(self.name())
    }
}

impl SkyType {
    /// The constant with the wire name `name`, if there is one.
    pub open spec fn spec_named(name: Seq<char>) -> Option<SkyType> {
        if name == "gradient"@ {
            Some(SkyType::Gradient)
        } else if name == "atmosphere"@ {
            Some(SkyType::Atmosphere)
        } else {
            None
        }
    }

    /// The constant with the wire name `name`, if there is one.
    pub fn named(name: &str) -> (res: Option<SkyType>)
        ensures
            res == Self::spec_named(name@),
    {
        if str_eq(name, "gradient") {
            Some(SkyType::Gradient)
        } else if str_eq(name, "atmosphere") {
            Some(SkyType::Atmosphere)
        } else {
            None
        }
    }

    /// Every constant is the constant with its own wire name.
    pub proof fn law_named(self)
        ensures
            Self::spec_named(self.spec_name()) == Some(self),
    {
        reveal_strlit("gradient");
        reveal_strlit("atmosphere");
        assert("gradient"@.len() == 8);
        assert("atmosphere"@.len() == 10);
    }
}

impl FromWire for SkyType {
    /// A constant is read from the string of its wire name.
    open spec fn spec_read(value: ValueView) -> Option<ValueView> {
        match value {
            ValueView::String(name) => if Self::spec_named(name) is Some {
                Some(value)
            } else {
                None
            },
            _ => None,
        }
    }

    open spec fn comes_back(&self) -> bool {
        true
    }

    fn from_wire(value: &Value) -> (res: Option<SkyType>) {
        match value {
            Value::String(name) => match Self::named(name.as_str()) {
                Some(constant) => {
                    proof {
                        Self::lemma_named_is_named(name@);
                    }
                    Some(constant)
                },
                None => None,
            },
            _ => None,
        }
    }

    proof fn law_round_trip(&self) {
        self.law_named();
    }
}

impl SkyType {
    /// The constant with a wire name has that wire name.
    pub proof fn lemma_named_is_named(name: Seq<char>)
        ensures
            Self::spec_named(name) matches Some(constant) ==> constant.spec_name() == name,
    {
    }
}

impl ExactWire for SkyType {
    proof fn law_read_is_exact(value: ValueView) {
    }

    proof fn law_always_comes_back(&self) {
    }
}

/// How a sky layer is painted.
#[derive(Debug, Clone)]
pub struct SkyPaint {
    pub sky_atmosphere_color: Option<Expression<()>>,
    pub sky_atmosphere_halo_color: Option<Expression<()>>,
    pub sky_atmosphere_sun: Option<Expression<()>>,
    pub sky_atmosphere_sun_intensity: Option<Expression<()>>,
    pub sky_gradient: Option<Expression<()>>,
    pub sky_gradient_center: Option<Expression<()>>,
    pub sky_gradient_radius: Option<Expression<()>>,
    pub sky_opacity: Option<Expression<()>>,
    pub sky_type: Option<Expression<SkyType>>,
}

impl Default for SkyPaint {
    /// Every property is unset.
    fn default() -> (res: SkyPaint)
        ensures
            res == SkyPaint::unset(),
    {
        SkyPaint {
            sky_atmosphere_color: None,
            sky_atmosphere_halo_color: None,
            sky_atmosphere_sun: None,
            sky_atmosphere_sun_intensity: None,
            sky_gradient: None,
            sky_gradient_center: None,
            sky_gradient_radius: None,
            sky_opacity: None,
            sky_type: None,
        }
    }
}

impl SkyPaint {
    /// The properties with every one unset.
    pub open spec fn unset() -> SkyPaint {
        SkyPaint {
            sky_atmosphere_color: None,
            sky_atmosphere_halo_color: None,
            sky_atmosphere_sun: None,
            sky_atmosphere_sun_intensity: None,
            sky_gradient: None,
            sky_gradient_center: None,
            sky_gradient_radius: None,
            sky_opacity: None,
            sky_type: None,
        }
    }

    /// The properties of the wire form, in order: each under its wire name,
    /// with its wire form where it is set.
    pub open spec fn slots(&self) -> Slots {
        seq![
            ("sky-atmosphere-color"@, optional_wire(self.sky_atmosphere_color)),
            ("sky-atmosphere-halo-color"@, optional_wire(self.sky_atmosphere_halo_color)),
            ("sky-atmosphere-sun"@, optional_wire(self.sky_atmosphere_sun)),
            ("sky-atmosphere-sun-intensity"@, optional_wire(self.sky_atmosphere_sun_intensity)),
            ("sky-gradient"@, optional_wire(self.sky_gradient)),
            ("sky-gradient-center"@, optional_wire(self.sky_gradient_center)),
            ("sky-gradient-radius"@, optional_wire(self.sky_gradient_radius)),
            ("sky-opacity"@, optional_wire(self.sky_opacity)),
            ("sky-type"@, optional_wire(self.sky_type)),
        ]
    }

    /// Offers every property to a builder, in order.
    pub fn to_entries(&self) -> (b: ObjectBuilder)
        ensures
            b.wf(),
            b@ == self.slots(),
    {
        let mut b = ObjectBuilder::new();
        b.optional_wire("sky-atmosphere-color", &self.sky_atmosphere_color);
        b.optional_wire("sky-atmosphere-halo-color", &self.sky_atmosphere_halo_color);
        b.optional_wire("sky-atmosphere-sun", &self.sky_atmosphere_sun);
        b.optional_wire("sky-atmosphere-sun-intensity", &self.sky_atmosphere_sun_intensity);
        b.optional_wire("sky-gradient", &self.sky_gradient);
        b.optional_wire("sky-gradient-center", &self.sky_gradient_center);
        b.optional_wire("sky-gradient-radius", &self.sky_gradient_radius);
        b.optional_wire("sky-opacity", &self.sky_opacity);
        b.optional_wire("sky-type", &self.sky_type);
        b
    }

    /// The place of the property with the wire name `key`, which the length of
    /// the name and a few of its characters tell.
    spec fn place_of(key: Seq<char>) -> int {
        if key.len() == 20 && key[13] == 'e' {
            0
        } else if key.len() == 25 && key[13] == 'e' {
            1
        } else if key.len() == 18 && key[13] == 'e' {
            2
        } else if key.len() == 28 && key[13] == 'e' {
            3
        } else if key.len() == 12 {
            4
        } else if key.len() == 19 && key[13] == 'c' {
            5
        } else if key.len() == 19 && key[13] == 'r' {
            6
        } else if key.len() == 11 {
            7
        } else if key.len() == 8 {
            8
        } else {
            -1
        }
    }

    /// No two properties have one wire name. So looking the wire name of a
    /// property up in the wire form finds the wire form of that property where it
    /// is set, and nothing where it is unset.
    pub proof fn law_wire_names_are_distinct(&self)
        ensures
            distinct_keys(self.slots()),
            forall|i: int|
                0 <= i < self.slots().len() ==> lookup(
                    flatten(self.slots()),
                    (#[trigger] self.slots()[i]).0,
                ) == self.slots()[i].1,
    {
        reveal_strlit("sky-atmosphere-color");
        reveal_strlit("sky-atmosphere-halo-color");
        reveal_strlit("sky-atmosphere-sun");
        reveal_strlit("sky-atmosphere-sun-intensity");
        reveal_strlit("sky-gradient");
        reveal_strlit("sky-gradient-center");
        reveal_strlit("sky-gradient-radius");
        reveal_strlit("sky-opacity");
        reveal_strlit("sky-type");
        let slots = self.slots();
        assert(SkyPaint::place_of(slots[0].0) == 0);
        assert(SkyPaint::place_of(slots[1].0) == 1);
        assert(SkyPaint::place_of(slots[2].0) == 2);
        assert(SkyPaint::place_of(slots[3].0) == 3);
        assert(SkyPaint::place_of(slots[4].0) == 4);
        assert(SkyPaint::place_of(slots[5].0) == 5);
        assert(SkyPaint::place_of(slots[6].0) == 6);
        assert(SkyPaint::place_of(slots[7].0) == 7);
        assert(SkyPaint::place_of(slots[8].0) == 8);
        assert forall|i: int| 0 <= i < slots.len() implies SkyPaint::place_of(
            (#[trigger] slots[i]).0,
        ) - 0 == i by {
        }
        lemma_placed_keys_are_distinct(slots, |key: Seq<char>| SkyPaint::place_of(key) - 0);
        assert forall|i: int| 0 <= i < slots.len() implies lookup(
            flatten(slots),
            (#[trigger] slots[i]).0,
        ) == slots[i].1 by {
            law_lookup_of_distinct_keys(slots, i);
        }
    }
}

impl ToWire for SkyPaint {
    /// The object of the properties that are set.
    open spec fn wire(&self) -> ValueView {
        ValueView::Object(flatten(self.slots()))
    }

    fn to_wire(&self) -> (value: Value) {
        self.to_entries().finish()
    }
}

impl SkyPaint {
    /// Whether every property of a wire value can be read: what must be there
    /// is there, and what is there has the right shape.
    pub open spec fn all_read(value: ValueView) -> bool {
        &&& read_optional::<Expression<()>>(value.get("sky-atmosphere-color"@)) is Some
        &&& read_optional::<Expression<()>>(value.get("sky-atmosphere-halo-color"@)) is Some
        &&& read_optional::<Expression<()>>(value.get("sky-atmosphere-sun"@)) is Some
        &&& read_optional::<Expression<()>>(value.get("sky-atmosphere-sun-intensity"@)) is Some
        &&& read_optional::<Expression<()>>(value.get("sky-gradient"@)) is Some
        &&& read_optional::<Expression<()>>(value.get("sky-gradient-center"@)) is Some
        &&& read_optional::<Expression<()>>(value.get("sky-gradient-radius"@)) is Some
        &&& read_optional::<Expression<()>>(value.get("sky-opacity"@)) is Some
        &&& read_optional::<Expression<SkyType>>(value.get("sky-type"@)) is Some
    }

    /// The slots that the properties of a wire value are read as, in order.
    pub open spec fn read_slots(value: ValueView) -> Slots {
        seq![
            ("sky-atmosphere-color"@, read_optional::<Expression<()>>(value.get("sky-atmosphere-color"@))->Some_0),
            ("sky-atmosphere-halo-color"@, read_optional::<Expression<()>>(value.get("sky-atmosphere-halo-color"@))->Some_0),
            ("sky-atmosphere-sun"@, read_optional::<Expression<()>>(value.get("sky-atmosphere-sun"@))->Some_0),
            ("sky-atmosphere-sun-intensity"@, read_optional::<Expression<()>>(value.get("sky-atmosphere-sun-intensity"@))->Some_0),
            ("sky-gradient"@, read_optional::<Expression<()>>(value.get("sky-gradient"@))->Some_0),
            ("sky-gradient-center"@, read_optional::<Expression<()>>(value.get("sky-gradient-center"@))->Some_0),
            ("sky-gradient-radius"@, read_optional::<Expression<()>>(value.get("sky-gradient-radius"@))->Some_0),
            ("sky-opacity"@, read_optional::<Expression<()>>(value.get("sky-opacity"@))->Some_0),
            ("sky-type"@, read_optional::<Expression<SkyType>>(value.get("sky-type"@))->Some_0),
        ]
    }

    fn read_part_0(value: &Value) -> (res: Option<(Option<Expression<()>>, Option<Expression<()>>, Option<Expression<()>>, Option<Expression<()>>, Option<Expression<()>>, Option<Expression<()>>, Option<Expression<()>>, Option<Expression<()>>,)>)
        ensures
            match res {
                Some(part) => {
                    &&& read_optional::<Expression<()>>(value@.get("sky-atmosphere-color"@)) == Some(optional_wire(part.0))
                    &&& read_optional::<Expression<()>>(value@.get("sky-atmosphere-halo-color"@)) == Some(optional_wire(part.1))
                    &&& read_optional::<Expression<()>>(value@.get("sky-atmosphere-sun"@)) == Some(optional_wire(part.2))
                    &&& read_optional::<Expression<()>>(value@.get("sky-atmosphere-sun-intensity"@)) == Some(optional_wire(part.3))
                    &&& read_optional::<Expression<()>>(value@.get("sky-gradient"@)) == Some(optional_wire(part.4))
                    &&& read_optional::<Expression<()>>(value@.get("sky-gradient-center"@)) == Some(optional_wire(part.5))
                    &&& read_optional::<Expression<()>>(value@.get("sky-gradient-radius"@)) == Some(optional_wire(part.6))
                    &&& read_optional::<Expression<()>>(value@.get("sky-opacity"@)) == Some(optional_wire(part.7))
                },
                None => !Self::all_read(value@),
            },
    {
        let sky_atmosphere_color = match optional::<Expression<()>>(value.get("sky-atmosphere-color")) {
            Some(read) => read,
            None => {
                return None;
            },
        };
        let sky_atmosphere_halo_color = match optional::<Expression<()>>(value.get("sky-atmosphere-halo-color")) {
            Some(read) => read,
            None => {
                return None;
            },
        };
        let sky_atmosphere_sun = match optional::<Expression<()>>(value.get("sky-atmosphere-sun")) {
            Some(read) => read,
            None => {
                return None;
            },
        };
        let sky_atmosphere_sun_intensity = match optional::<Expression<()>>(value.get("sky-atmosphere-sun-intensity")) {
            Some(read) => read,
            None => {
                return None;
            },
        };
        let sky_gradient = match optional::<Expression<()>>(value.get("sky-gradient")) {
            Some(read) => read,
            None => {
                return None;
            },
        };
        let sky_gradient_center = match optional::<Expression<()>>(value.get("sky-gradient-center")) {
            Some(read) => read,
            None => {
                return None;
            },
        };
        let sky_gradient_radius = match optional::<Expression<()>>(value.get("sky-gradient-radius")) {
            Some(read) => read,
            None => {
                return None;
            },
        };
        let sky_opacity = match optional::<Expression<()>>(value.get("sky-opacity")) {
            Some(read) => read,
            None => {
                return None;
            },
        };
        Some((sky_atmosphere_color, sky_atmosphere_halo_color, sky_atmosphere_sun, sky_atmosphere_sun_intensity, sky_gradient, sky_gradient_center, sky_gradient_radius, sky_opacity,))
    }

    fn read_part_1(value: &Value) -> (res: Option<(Option<Expression<SkyType>>,)>)
        ensures
            match res {
                Some(part) => {
                    &&& read_optional::<Expression<SkyType>>(value@.get("sky-type"@)) == Some(optional_wire(part.0))
                },
                None => !Self::all_read(value@),
            },
    {
        let sky_type = match optional::<Expression<SkyType>>(value.get("sky-type")) {
            Some(read) => read,
            None => {
                return None;
            },
        };
        Some((sky_type,))
    }

    /// Reading an object in which looking up the name of each property of
    /// the value finds that property gives the value back.
    pub proof fn lemma_read_from(&self, entries: Seq<(Seq<char>, ValueView)>)
        requires
            self.comes_back(),
            forall|i: int|
                0 <= i < self.slots().len() ==> lookup(entries, (#[trigger] self.slots()[i]).0)
                    == self.slots()[i].1,
        ensures
            Self::spec_read(ValueView::Object(entries)) == Some(self.wire()),
    {
        let value = ValueView::Object(entries);
        let slots = self.slots();
        assert(value.get(slots[0].0) == slots[0].1);
        lemma_optional_round_trip::<Expression<()>>(self.sky_atmosphere_color);
        assert(value.get(slots[1].0) == slots[1].1);
        lemma_optional_round_trip::<Expression<()>>(self.sky_atmosphere_halo_color);
        assert(value.get(slots[2].0) == slots[2].1);
        lemma_optional_round_trip::<Expression<()>>(self.sky_atmosphere_sun);
        assert(value.get(slots[3].0) == slots[3].1);
        lemma_optional_round_trip::<Expression<()>>(self.sky_atmosphere_sun_intensity);
        assert(value.get(slots[4].0) == slots[4].1);
        lemma_optional_round_trip::<Expression<()>>(self.sky_gradient);
        assert(value.get(slots[5].0) == slots[5].1);
        lemma_optional_round_trip::<Expression<()>>(self.sky_gradient_center);
        assert(value.get(slots[6].0) == slots[6].1);
        lemma_optional_round_trip::<Expression<()>>(self.sky_gradient_radius);
        assert(value.get(slots[7].0) == slots[7].1);
        lemma_optional_round_trip::<Expression<()>>(self.sky_opacity);
        assert(value.get(slots[8].0) == slots[8].1);
        lemma_optional_round_trip::<Expression<SkyType>>(self.sky_type);
    }
}

impl FromWire for SkyPaint {
    /// The value is read from an object, property by property. Properties of
    /// other names are passed over.
    open spec fn spec_read(value: ValueView) -> Option<ValueView> {
        if value is Object && Self::all_read(value) {
            Some(ValueView::Object(flatten(Self::read_slots(value))))
        } else {
            None
        }
    }

    open spec fn comes_back(&self) -> bool {
        &&& optional_comes_back(self.sky_atmosphere_color)
        &&& optional_comes_back(self.sky_atmosphere_halo_color)
        &&& optional_comes_back(self.sky_atmosphere_sun)
        &&& optional_comes_back(self.sky_atmosphere_sun_intensity)
        &&& optional_comes_back(self.sky_gradient)
        &&& optional_comes_back(self.sky_gradient_center)
        &&& optional_comes_back(self.sky_gradient_radius)
        &&& optional_comes_back(self.sky_opacity)
        &&& optional_comes_back(self.sky_type)
    }

    fn from_wire(value: &Value) -> (res: Option<SkyPaint>) {
        match value {
            Value::Object(_) => {},
            _ => {
                return None;
            },
        }
        let part_0 = match Self::read_part_0(value) {
            Some(part) => part,
            None => {
                return None;
            },
        };
        let part_1 = match Self::read_part_1(value) {
            Some(part) => part,
            None => {
                return None;
            },
        };
        Some(
            SkyPaint {
                sky_atmosphere_color: part_0.0,
                sky_atmosphere_halo_color: part_0.1,
                sky_atmosphere_sun: part_0.2,
                sky_atmosphere_sun_intensity: part_0.3,
                sky_gradient: part_0.4,
                sky_gradient_center: part_0.5,
                sky_gradient_radius: part_0.6,
                sky_opacity: part_0.7,
                sky_type: part_1.0,
            },
        )
    }

    proof fn law_round_trip(&self) {
        self.law_wire_names_are_distinct();
        self.lemma_read_from(flatten(self.slots()));
    }
}

/// How a sky layer is laid out.
#[derive(Debug, Clone)]
pub struct SkyLayout {
    pub visibility: Option<Visibility>,
}

impl Default for SkyLayout {
    /// Every property is unset.
    fn default() -> (res: SkyLayout)
        ensures
            res == SkyLayout::unset(),
    {
        SkyLayout {
            visibility: None,
        }
    }
}

impl SkyLayout {
    /// The properties with every one unset.
    pub open spec fn unset() -> SkyLayout {
        SkyLayout {
            visibility: None,
        }
    }

    /// The properties of the wire form, in order: each under its wire name,
    /// with its wire form where it is set.
    pub open spec fn slots(&self) -> Slots {
        seq![
            ("visibility"@, optional_wire(self.visibility)),
        ]
    }

    /// Offers every property to a builder, in order.
    pub fn to_entries(&self) -> (b: ObjectBuilder)
        ensures
            b.wf(),
            b@ == self.slots(),
    {
        let mut b = ObjectBuilder::new();
        b.optional_wire("visibility", &self.visibility);
        b
    }

    /// The place of the property with the wire name `key`, which the length of
    /// the name and a few of its characters tell.
    spec fn place_of(key: Seq<char>) -> int {
        if key.len() == 10 {
            0
        } else {
            -1
        }
    }

    /// No two properties have one wire name. So looking the wire name of a
    /// property up in the wire form finds the wire form of that property where it
    /// is set, and nothing where it is unset.
    pub proof fn law_wire_names_are_distinct(&self)
        ensures
            distinct_keys(self.slots()),
            forall|i: int|
                0 <= i < self.slots().len() ==> lookup(
                    flatten(self.slots()),
                    (#[trigger] self.slots()[i]).0,
                ) == self.slots()[i].1,
    {
        reveal_strlit("visibility");
        let slots = self.slots();
        assert(SkyLayout::place_of(slots[0].0) == 0);
        assert forall|i: int| 0 <= i < slots.len() implies SkyLayout::place_of(
            (#[trigger] slots[i]).0,
        ) - 0 == i by {
        }
        lemma_placed_keys_are_distinct(slots, |key: Seq<char>| SkyLayout::place_of(key) - 0);
        assert forall|i: int| 0 <= i < slots.len() implies lookup(
            flatten(slots),
            (#[trigger] slots[i]).0,
        ) == slots[i].1 by {
            law_lookup_of_distinct_keys(slots, i);
        }
    }
}

impl ToWire for SkyLayout {
    /// The object of the properties that are set.
    open spec fn wire(&self) -> ValueView {
        ValueView::Object(flatten(self.slots()))
    }

    fn to_wire(&self) -> (value: Value) {
        self.to_entries().finish()
    }
}

impl SkyLayout {
    /// Whether every property of a wire value can be read: what must be there
    /// is there, and what is there has the right shape.
    pub open spec fn all_read(value: ValueView) -> bool {
        &&& read_optional::<Visibility>(value.get("visibility"@)) is Some
    }

    /// The slots that the properties of a wire value are read as, in order.
    pub open spec fn read_slots(value: ValueView) -> Slots {
        seq![
            ("visibility"@, read_optional::<Visibility>(value.get("visibility"@))->Some_0),
        ]
    }

    /// Reading an object in which looking up the name of each property of
    /// the value finds that property gives the value back.
    pub proof fn lemma_read_from(&self, entries: Seq<(Seq<char>, ValueView)>)
        requires
            self.comes_back(),
            forall|i: int|
                0 <= i < self.slots().len() ==> lookup(entries, (#[trigger] self.slots()[i]).0)
                    == self.slots()[i].1,
        ensures
            Self::spec_read(ValueView::Object(entries)) == Some(self.wire()),
    {
        let value = ValueView::Object(entries);
        let slots = self.slots();
        assert(value.get(slots[0].0) == slots[0].1);
        lemma_optional_round_trip::<Visibility>(self.visibility);
    }
}

impl FromWire for SkyLayout {
    /// The value is read from an object, property by property. Properties of
    /// other names are passed over.
    open spec fn spec_read(value: ValueView) -> Option<ValueView> {
        if value is Object && Self::all_read(value) {
            Some(ValueView::Object(flatten(Self::read_slots(value))))
        } else {
            None
        }
    }

    open spec fn comes_back(&self) -> bool {
        &&& optional_comes_back(self.visibility)
    }

    fn from_wire(value: &Value) -> (res: Option<SkyLayout>) {
        match value {
            Value::Object(_) => {},
            _ => {
                return None;
            },
        }
        let visibility = match optional::<Visibility>(value.get("visibility")) {
            Some(read) => read,
            None => {
                return None;
            },
        };
        Some(SkyLayout { visibility })
    }

    proof fn law_round_trip(&self) {
        self.law_wire_names_are_distinct();
        self.lemma_read_from(flatten(self.slots()));
    }
}

/// A model layer.
#[derive(Debug, Clone)]
pub struct ModelLayer {
    pub id: String,
    pub maxzoom: Option<Number>,
    pub minzoom: Option<Number>,
    pub source: String,
    pub filter: Option<Expression<()>>,
    pub source_layer: Option<String>,
    pub slot: Option<String>,
    pub layout: ModelLayout,
    pub paint: ModelPaint,
}

impl ModelLayer {
    /// The layer with the given identifier and source and nothing else set.
    pub fn new(id: &str, source: &str) -> (res: ModelLayer)
        ensures
            res.id@ == id@,
            res.maxzoom is None,
            res.minzoom is None,
            res.source@ == source@,
            res.filter is None,
            res.source_layer is None,
            res.slot is None,
            res.layout == ModelLayout::unset(),
            res.paint == ModelPaint::unset(),
    {
        ModelLayer {
            id: id.to_owned(),
            maxzoom: None,
            minzoom: None,
            source: source.to_owned(),
            filter: None,
            source_layer: None,
            slot: None,
            layout: ModelLayout::default(),
            paint: ModelPaint::default(),
        }
    }

    /// The properties of the wire form, in order: each under its wire name,
    /// with its wire form where it is set.
    pub open spec fn slots(&self) -> Slots {
        seq![
            ("id"@, Some(self.id.wire())),
            ("maxzoom"@, optional_wire(self.maxzoom)),
            ("minzoom"@, optional_wire(self.minzoom)),
            ("source"@, Some(self.source.wire())),
            ("filter"@, optional_wire(self.filter)),
            ("source-layer"@, optional_wire(self.source_layer)),
            ("slot"@, optional_wire(self.slot)),
            ("layout"@, Some(self.layout.wire())),
            ("paint"@, Some(self.paint.wire())),
        ]
    }

    /// Offers every property to a builder, in order.
    pub fn to_entries(&self) -> (b: ObjectBuilder)
        ensures
            b.wf(),
            b@ == self.slots(),
    {
        let mut b = ObjectBuilder::new();
        b.wire("id", &self.id);
        b.optional_wire("maxzoom", &self.maxzoom);
        b.optional_wire("minzoom", &self.minzoom);
        b.wire("source", &self.source);
        b.optional_wire("filter", &self.filter);
        b.optional_wire("source-layer", &self.source_layer);
        b.optional_wire("slot", &self.slot);
        b.wire("layout", &self.layout);
        b.wire("paint", &self.paint);
        b
    }

    /// The place of the property with the wire name `key`, which the length of
    /// the name and a few of its characters tell.
    spec fn place_of(key: Seq<char>) -> int {
        if key.len() == 4 && key[1] == 'y' {
            0
        } else if key.len() == 2 && key[1] == 'd' {
            1
        } else if key.len() == 7 && key[1] == 'a' {
            2
        } else if key.len() == 7 && key[1] == 'i' {
            3
        } else if key.len() == 6 && key[1] == 'o' {
            4
        } else if key.len() == 6 && key[1] == 'i' {
            5
        } else if key.len() == 12 && key[1] == 'o' {
            6
        } else if key.len() == 4 && key[1] == 'l' {
            7
        } else if key.len() == 6 && key[1] == 'a' {
            8
        } else if key.len() == 5 && key[1] == 'a' {
            9
        } else {
            -1
        }
    }

    /// No two properties have one wire name. So looking the wire name of a
    /// property up in the wire form finds the wire form of that property where it
    /// is set, and nothing where it is unset.
    pub proof fn law_wire_names_are_distinct(&self)
        ensures
            distinct_keys(self.slots()),
            forall|i: int|
                0 <= i < self.slots().len() ==> lookup(
                    flatten(self.slots()),
                    (#[trigger] self.slots()[i]).0,
                ) == self.slots()[i].1,
    {
        reveal_strlit("id");
        reveal_strlit("maxzoom");
        reveal_strlit("minzoom");
        reveal_strlit("source");
        reveal_strlit("filter");
        reveal_strlit("source-layer");
        reveal_strlit("slot");
        reveal_strlit("layout");
        reveal_strlit("paint");
        let slots = self.slots();
        assert(ModelLayer::place_of(slots[0].0) == 1);
        assert(ModelLayer::place_of(slots[1].0) == 2);
        assert(ModelLayer::place_of(slots[2].0) == 3);
        assert(ModelLayer::place_of(slots[3].0) == 4);
        assert(ModelLayer::place_of(slots[4].0) == 5);
        assert(ModelLayer::place_of(slots[5].0) == 6);
        assert(ModelLayer::place_of(slots[6].0) == 7);
        assert(ModelLayer::place_of(slots[7].0) == 8);
        assert(ModelLayer::place_of(slots[8].0) == 9);
        assert forall|i: int| 0 <= i < slots.len() implies ModelLayer::place_of(
            (#[trigger] slots[i]).0,
        ) - 1 == i by {
        }
        lemma_placed_keys_are_distinct(slots, |key: Seq<char>| ModelLayer::place_of(key) - 1);
        assert forall|i: int| 0 <= i < slots.len() implies lookup(
            flatten(slots),
            (#[trigger] slots[i]).0,
        ) == slots[i].1 by {
            law_lookup_of_distinct_keys(slots, i);
        }
    }

    /// No wire name is `type`, and no two are one: behind a slot named
    /// `type` the properties still have names of their own.
    pub proof fn law_wire_names_leave_room(&self, first: Option<ValueView>)
        ensures
            distinct_keys(seq![("type"@, first)] + self.slots()),
    {
        reveal_strlit("type");
        reveal_strlit("id");
        reveal_strlit("maxzoom");
        reveal_strlit("minzoom");
        reveal_strlit("source");
        reveal_strlit("filter");
        reveal_strlit("source-layer");
        reveal_strlit("slot");
        reveal_strlit("layout");
        reveal_strlit("paint");
        let slots = self.slots();
        let tagged = seq![("type"@, first)] + slots;
        assert(ModelLayer::place_of(tagged[0].0) == 0);
        assert(tagged[1] == slots[0]);
        assert(ModelLayer::place_of(slots[0].0) == 1);
        assert(tagged[2] == slots[1]);
        assert(ModelLayer::place_of(slots[1].0) == 2);
        assert(tagged[3] == slots[2]);
        assert(ModelLayer::place_of(slots[2].0) == 3);
        assert(tagged[4] == slots[3]);
        assert(ModelLayer::place_of(slots[3].0) == 4);
        assert(tagged[5] == slots[4]);
        assert(ModelLayer::place_of(slots[4].0) == 5);
        assert(tagged[6] == slots[5]);
        assert(ModelLayer::place_of(slots[5].0) == 6);
        assert(tagged[7] == slots[6]);
        assert(ModelLayer::place_of(slots[6].0) == 7);
        assert(tagged[8] == slots[7]);
        assert(ModelLayer::place_of(slots[7].0) == 8);
        assert(tagged[9] == slots[8]);
        assert(ModelLayer::place_of(slots[8].0) == 9);
        assert forall|i: int| 0 <= i < tagged.len() implies ModelLayer::place_of(
            (#[trigger] tagged[i]).0,
        ) == i by {
        }
        lemma_placed_keys_are_distinct(tagged, |key: Seq<char>| ModelLayer::place_of(key));
    }
}

impl ToWire for ModelLayer {
    /// The object of the properties that are set.
    open spec fn wire(&self) -> ValueView {
        ValueView::Object(flatten(self.slots()))
    }

    fn to_wire(&self) -> (value: Value) {
        self.to_entries().finish()
    }
}

impl ModelLayer {
    /// Whether every property of a wire value can be read: what must be there
    /// is there, and what is there has the right shape.
    pub open spec fn all_read(value: ValueView) -> bool {
        &&& read_required::<String>(value.get("id"@)) is Some
        &&& read_optional::<Number>(value.get("maxzoom"@)) is Some
        &&& read_optional::<Number>(value.get("minzoom"@)) is Some
        &&& read_required::<String>(value.get("source"@)) is Some
        &&& read_optional::<Expression<()>>(value.get("filter"@)) is Some
        &&& read_optional::<String>(value.get("source-layer"@)) is Some
        &&& read_optional::<String>(value.get("slot"@)) is Some
        &&& read_defaulted::<ModelLayout>(value.get("layout"@), ModelLayout::unset().wire()) is Some
        &&& read_defaulted::<ModelPaint>(value.get("paint"@), ModelPaint::unset().wire()) is Some
    }

    /// The slots that the properties of a wire value are read as, in order.
    pub open spec fn read_slots(value: ValueView) -> Slots {
        seq![
            ("id"@, read_required::<String>(value.get("id"@))->Some_0),
            ("maxzoom"@, read_optional::<Number>(value.get("maxzoom"@))->Some_0),
            ("minzoom"@, read_optional::<Number>(value.get("minzoom"@))->Some_0),
            ("source"@, read_required::<String>(value.get("source"@))->Some_0),
            ("filter"@, read_optional::<Expression<()>>(value.get("filter"@))->Some_0),
            ("source-layer"@, read_optional::<String>(value.get("source-layer"@))->Some_0),
            ("slot"@, read_optional::<String>(value.get("slot"@))->Some_0),
            ("layout"@, read_defaulted::<ModelLayout>(value.get("layout"@), ModelLayout::unset().wire())->Some_0),
            ("paint"@, read_defaulted::<ModelPaint>(value.get("paint"@), ModelPaint::unset().wire())->Some_0),
        ]
    }

    fn read_part_0(value: &Value) -> (res: Option<(String, Option<Number>, Option<Number>, String, Option<Expression<()>>, Option<String>, Option<String>, ModelLayout,)>)
        ensures
            match res {
                Some(part) => {
                    &&& read_required::<String>(value@.get("id"@)) == Some(Some(part.0.wire()))
                    &&& read_optional::<Number>(value@.get("maxzoom"@)) == Some(optional_wire(part.1))
                    &&& read_optional::<Number>(value@.get("minzoom"@)) == Some(optional_wire(part.2))
                    &&& read_required::<String>(value@.get("source"@)) == Some(Some(part.3.wire()))
                    &&& read_optional::<Expression<()>>(value@.get("filter"@)) == Some(optional_wire(part.4))
                    &&& read_optional::<String>(value@.get("source-layer"@)) == Some(optional_wire(part.5))
                    &&& read_optional::<String>(value@.get("slot"@)) == Some(optional_wire(part.6))
                    &&& read_defaulted::<ModelLayout>(value@.get("layout"@), ModelLayout::unset().wire()) == Some(Some(part.7.wire()))
                },
                None => !Self::all_read(value@),
            },
    {
        let id = match required::<String>(value.get("id")) {
            Some(read) => read,
            None => {
                return None;
            },
        };
        let maxzoom = match optional::<Number>(value.get("maxzoom")) {
            Some(read) => read,
            None => {
                return None;
            },
        };
        let minzoom = match optional::<Number>(value.get("minzoom")) {
            Some(read) => read,
            None => {
                return None;
            },
        };
        let source = match required::<String>(value.get("source")) {
            Some(read) => read,
            None => {
                return None;
            },
        };
        let filter = match optional::<Expression<()>>(value.get("filter")) {
            Some(read) => read,
            None => {
                return None;
            },
        };
        let source_layer = match optional::<String>(value.get("source-layer")) {
            Some(read) => read,
            None => {
                return None;
            },
        };
        let slot = match optional::<String>(value.get("slot")) {
            Some(read) => read,
            None => {
                return None;
            },
        };
        let layout = match value.get("layout") {
            Some(found) => match ModelLayout::from_wire(found) {
                Some(read) => read,
                None => {
                    return None;
                },
            },
            None => ModelLayout::default(),
        };
        Some((id, maxzoom, minzoom, source, filter, source_layer, slot, layout,))
    }

    fn read_part_1(value: &Value) -> (res: Option<(ModelPaint,)>)
        ensures
            match res {
                Some(part) => {
                    &&& read_defaulted::<ModelPaint>(value@.get("paint"@), ModelPaint::unset().wire()) == Some(Some(part.0.wire()))
                },
                None => !Self::all_read(value@),
            },
    {
        let paint = match value.get("paint") {
            Some(found) => match ModelPaint::from_wire(found) {
                Some(read) => read,
                None => {
                    return None;
                },
            },
            None => ModelPaint::default(),
        };
        Some((paint,))
    }

    /// Reading an object in which looking up the name of each property of
    /// the value finds that property gives the value back.
    pub proof fn lemma_read_from(&self, entries: Seq<(Seq<char>, ValueView)>)
        requires
            self.comes_back(),
            forall|i: int|
                0 <= i < self.slots().len() ==> lookup(entries, (#[trigger] self.slots()[i]).0)
                    == self.slots()[i].1,
        ensures
            Self::spec_read(ValueView::Object(entries)) == Some(self.wire()),
    {
        let value = ValueView::Object(entries);
        let slots = self.slots();
        assert(value.get(slots[0].0) == slots[0].1);
        lemma_required_round_trip::<String>(self.id);
        assert(value.get(slots[1].0) == slots[1].1);
        lemma_optional_round_trip::<Number>(self.maxzoom);
        assert(value.get(slots[2].0) == slots[2].1);
        lemma_optional_round_trip::<Number>(self.minzoom);
        assert(value.get(slots[3].0) == slots[3].1);
        lemma_required_round_trip::<String>(self.source);
        assert(value.get(slots[4].0) == slots[4].1);
        lemma_optional_round_trip::<Expression<()>>(self.filter);
        assert(value.get(slots[5].0) == slots[5].1);
        lemma_optional_round_trip::<String>(self.source_layer);
        assert(value.get(slots[6].0) == slots[6].1);
        lemma_optional_round_trip::<String>(self.slot);
        assert(value.get(slots[7].0) == slots[7].1);
        lemma_defaulted_round_trip::<ModelLayout>(self.layout, ModelLayout::unset().wire());
        assert(value.get(slots[8].0) == slots[8].1);
        lemma_defaulted_round_trip::<ModelPaint>(self.paint, ModelPaint::unset().wire());
    }
}

impl FromWire for ModelLayer {
    /// The value is read from an object, property by property. Properties of
    /// other names are passed over.
    open spec fn spec_read(value: ValueView) -> Option<ValueView> {
        if value is Object && Self::all_read(value) {
            Some(ValueView::Object(flatten(Self::read_slots(value))))
        } else {
            None
        }
    }

    open spec fn comes_back(&self) -> bool {
        &&& self.id.comes_back()
        &&& optional_comes_back(self.maxzoom)
        &&& optional_comes_back(self.minzoom)
        &&& self.source.comes_back()
        &&& optional_comes_back(self.filter)
        &&& optional_comes_back(self.source_layer)
        &&& optional_comes_back(self.slot)
        &&& self.layout.comes_back()
        &&& self.paint.comes_back()
    }

    fn from_wire(value: &Value) -> (res: Option<ModelLayer>) {
        match value {
            Value::Object(_) => {},
            _ => {
                return None;
            },
        }
        let part_0 = match Self::read_part_0(value) {
            Some(part) => part,
            None => {
                return None;
            },
        };
        let part_1 = match Self::read_part_1(value) {
            Some(part) => part,
            None => {
                return None;
            },
        };
        Some(
            ModelLayer {
                id: part_0.0,
                maxzoom: part_0.1,
                minzoom: part_0.2,
                source: part_0.3,
                filter: part_0.4,
                source_layer: part_0.5,
                slot: part_0.6,
                layout: part_0.7,
                paint: part_1.0,
            },
        )
    }

    proof fn law_round_trip(&self) {
        self.law_wire_names_are_distinct();
        self.lemma_read_from(flatten(self.slots()));
    }
}

impl IntoLayer for ModelLayer {
    open spec fn spec_into_layer(self) -> Layer {
        Layer::Model(self)
    }

    fn into_layer(self) -> (res: Layer) {
        Layer::Model(self)
    }
}

/// The vocabulary of the model type properties.
#[derive(Debug, Clone, Copy, PartialEq, Eq, Structural)]
pub enum ModelType {
    Common3d,
    LocationIndicator,
}

impl EnumMarker for ModelType {

}

impl Default for ModelType {
    fn default() -> (res: ModelType)
        ensures
            res == ModelType::Common3d,
    {
        ModelType::Common3d
    }
}

impl ModelType {
    /// The name of the constant on the wire.
    pub open spec fn spec_name(self) -> Seq<char> {
        match self {
            ModelType::Common3d => "common3d"@,
            ModelType::LocationIndicator => "location-indicator"@,
        }
    }

    /// The name of the constant on the wire.
    pub fn name(&self) -> (res: &'static str)
        ensures
            res@ == self.spec_name(),
    {
        match self {
            ModelType::Common3d => "common3d",
            ModelType::LocationIndicator => "location-indicator",
        }
    }
}

impl ToWire for ModelType {
    open spec fn wire(&self) -> ValueView {
        ValueView::String(self.spec_name())
    }

    fn to_wire(&self) -> (value: Value) {
        Value::string(self.name())
    }
}

impl ModelType {
    /// The constant with the wire name `name`, if there is one.
    pub open spec fn spec_named(name: Seq<char>) -> Option<ModelType> {
        if name == "common3d"@ {
            Some(ModelType::Common3d)
        } else if name == "location-indicator"@ {
            Some(ModelType::LocationIndicator)
        } else {
            None
        }
    }

    /// The constant with the wire name `name`, if there is one.
    pub fn named(name: &str) -> (res: Option<ModelType>)
        ensures
            res == Self::spec_named(name@),
    {
        if str_eq(name, "common3d") {
            Some(ModelType::Common3d)
        } else if str_eq(name, "location-indicator") {
            Some(ModelType::LocationIndicator)
        } else {
            None
        }
    }

    /// Every constant is the constant with its own wire name.
    pub proof fn law_named(self)
        ensures
            Self::spec_named(self.spec_name()) == Some(self),
    {
        reveal_strlit("common3d");
        reveal_strlit("location-indicator");
        assert("common3d"@.len() == 8);
        assert("location-indicator"@.len() == 18);
    }
}

impl FromWire for ModelType {
    /// A constant is read from the string of its wire name.
    open spec fn spec_read(value: ValueView) -> Option<ValueView> {
        match value {
            ValueView::String(name) => if Self::spec_named(name) is Some {
                Some(value)
            } else {
                None
            },
            _ => None,
        }
    }

    open spec fn comes_back(&self) -> bool {
        true
    }

    fn from_wire(value: &Value) -> (res: Option<ModelType>) {
        match value {
            Value::String(name) => match Self::named(name.as_str()) {
                Some(constant) => {
                    proof {
                        Self::lemma_named_is_named(name@);
                    }
                    Some(constant)
                },
                None => None,
            },
            _ => None,
        }
    }

    proof fn law_round_trip(&self) {
        self.law_named();
    }
}

impl ModelType {
    /// The constant with a wire name has that wire name.
    pub proof fn lemma_named_is_named(name: Seq<char>)
        ensures
            Self::spec_named(name) matches Some(constant) ==> constant.spec_name() == name,
    {
    }
}

impl ExactWire for ModelType {
    proof fn law_read_is_exact(value: ValueView) {
    }

    proof fn law_always_comes_back(&self) {
    }
}

/// How a model layer is painted.
#[derive(Debug, Clone)]
pub struct ModelPaint {
    pub model_ambient_occlusion_intensity: Option<Expression<()>>,
    pub model_cast_shadows: Option<Expression<()>>,
    pub model_color: Option<Expression<()>>,
    pub model_color_mix_intensity: Option<Expression<()>>,
    pub model_cutoff_fade_range: Option<Expression<()>>,
    pub model_emissive_strength: Option<Expression<()>>,
    pub model_height_based_emissive_strength_multiplier: Option<Expression<()>>,
    pub model_opacity: Option<Expression<()>>,
    pub model_receive_shadows: Option<Expression<()>>,
    pub model_rotation: Option<Expression<()>>,
    pub model_roughness: Option<Expression<()>>,
    pub model_scale: Option<Expression<()>>,
    pub model_translation: Option<Expression<()>>,
    pub model_type: Option<Expression<ModelType>>,
}

impl Default for ModelPaint {
    /// Every property is unset.
    fn default() -> (res: ModelPaint)
        ensures
            res == ModelPaint::unset(),
    {
        ModelPaint {
            model_ambient_occlusion_intensity: None,
            model_cast_shadows: None,
            model_color: None,
            model_color_mix_intensity: None,
            model_cutoff_fade_range: None,
            model_emissive_strength: None,
            model_height_based_emissive_strength_multiplier: None,
            model_opacity: None,
            model_receive_shadows: None,
            model_rotation: None,
            model_roughness: None,
            model_scale: None,
            model_translation: None,
            model_type: None,
        }
    }
}

impl ModelPaint {
    /// The properties with every one unset.
    pub open spec fn unset() -> ModelPaint {
        ModelPaint {
            model_ambient_occlusion_intensity: None,
            model_cast_shadows: None,
            model_color: None,
            model_color_mix_intensity: None,
            model_cutoff_fade_range: None,
            model_emissive_strength: None,
            model_height_based_emissive_strength_multiplier: None,
            model_opacity: None,
            model_receive_shadows: None,
            model_rotation: None,
            model_roughness: None,
            model_scale: None,
            model_translation: None,
            model_type: None,
        }
    }

    /// The properties of the wire form, in order: each under its wire name,
    /// with its wire form where it is set.
    pub open spec fn slots(&self) -> Slots {
        seq![
            ("model-ambient-occlusion-intensity"@, optional_wire(self.model_ambient_occlusion_intensity)),
            ("model-cast-shadows"@, optional_wire(self.model_cast_shadows)),
            ("model-color"@, optional_wire(self.model_color)),
            ("model-color-mix-intensity"@, optional_wire(self.model_color_mix_intensity)),
            ("model-cutoff-fade-range"@, optional_wire(self.model_cutoff_fade_range)),
            ("model-emissive-strength"@, optional_wire(self.model_emissive_strength)),
            ("model-height-based-emissive-strength-multiplier"@, optional_wire(self.model_height_based_emissive_strength_multiplier)),
            ("model-opacity"@, optional_wire(self.model_opacity)),
            ("model-receive-shadows"@, optional_wire(self.model_receive_shadows)),
            ("model-rotation"@, optional_wire(self.model_rotation)),
            ("model-roughness"@, optional_wire(self.model_roughness)),
            ("model-scale"@, optional_wire(self.model_scale)),
            ("model-translation"@, optional_wire(self.model_translation)),
            ("model-type"@, optional_wire(self.model_type)),
        ]
    }

    /// Offers every property to a builder, in order.
    pub fn to_entries(&self) -> (b: ObjectBuilder)
        ensures
            b.wf(),
            b@ == self.slots(),
    {
        let mut b = ObjectBuilder::new();
        b.optional_wire("model-ambient-occlusion-intensity", &self.model_ambient_occlusion_intensity);
        b.optional_wire("model-cast-shadows", &self.model_cast_shadows);
        b.optional_wire("model-color", &self.model_color);
        b.optional_wire("model-color-mix-intensity", &self.model_color_mix_intensity);
        b.optional_wire("model-cutoff-fade-range", &self.model_cutoff_fade_range);
        b.optional_wire("model-emissive-strength", &self.model_emissive_strength);
        b.optional_wire("model-height-based-emissive-strength-multiplier", &self.model_height_based_emissive_strength_multiplier);
        b.optional_wire("model-opacity", &self.model_opacity);
        b.optional_wire("model-receive-shadows", &self.model_receive_shadows);
        b.optional_wire("model-rotation", &self.model_rotation);
        b.optional_wire("model-roughness", &self.model_roughness);
        b.optional_wire("model-scale", &self.model_scale);
        b.optional_wire("model-translation", &self.model_translation);
        b.optional_wire("model-type", &self.model_type);
        b
    }

    /// The place of the property with the wire name `key`, which the length of
    /// the name and a few of its characters tell.
    spec fn place_of(key: Seq<char>) -> int {
        if key.len() == 33 && key[6] == 'a' {
            0
        } else if key.len() == 18 && key[6] == 'c' {
            1
        } else if key.len() == 11 && key[6] == 'c' {
            2
        } else if key.len() == 25 && key[6] == 'c' {
            3
        } else if key.len() == 23 && key[6] == 'c' {
            4
        } else if key.len() == 23 && key[6] == 'e' {
            5
        } else if key.len() == 47 && key[6] == 'h' {
            6
        } else if key.len() == 13 && key[6] == 'o' {
            7
        } else if key.len() == 21 && key[6] == 'r' {
            8
        } else if key.len() == 14 && key[6] == 'r' {
            9
        } else if key.len() == 15 && key[6] == 'r' {
            10
        } else if key.len() == 11 && key[6] == 's' {
            11
        } else if key.len() == 17 && key[6] == 't' {
            12
        } else if key.len() == 10 && key[6] == 't' {
            13
        } else {
            -1
        }
    }

    /// No two properties have one wire name. So looking the wire name of a
    /// property up in the wire form finds the wire form of that property where it
    /// is set, and nothing where it is unset.
    #[verifier::rlimit(50)]
    pub proof fn law_wire_names_are_distinct(&self)
        ensures
            distinct_keys(self.slots()),
            forall|i: int|
                0 <= i < self.slots().len() ==> lookup(
                    flatten(self.slots()),
                    (#[trigger] self.slots()[i]).0,
                ) == self.slots()[i].1,
    {
        reveal_strlit("model-ambient-occlusion-intensity");
        reveal_strlit("model-cast-shadows");
        reveal_strlit("model-color");
        reveal_strlit("model-color-mix-intensity");
        reveal_strlit("model-cutoff-fade-range");
        reveal_strlit("model-emissive-strength");
        reveal_strlit("model-height-based-emissive-strength-multiplier");
        reveal_strlit("model-opacity");
        reveal_strlit("model-receive-shadows");
        reveal_strlit("model-rotation");
        reveal_strlit("model-roughness");
        reveal_strlit("model-scale");
        reveal_strlit("model-translation");
        reveal_strlit("model-type");
        let slots = self.slots();
        assert(ModelPaint::place_of(slots[0].0) == 0);
        assert(ModelPaint::place_of(slots[1].0) == 1);
        assert(ModelPaint::place_of(slots[2].0) == 2);
        assert(ModelPaint::place_of(slots[3].0) == 3);
        assert(ModelPaint::place_of(slots[4].0) == 4);
        assert(ModelPaint::place_of(slots[5].0) == 5);
        assert(ModelPaint::place_of(slots[6].0) == 6);
        assert(ModelPaint::place_of(slots[7].0) == 7);
        assert(ModelPaint::place_of(slots[8].0) == 8);
        assert(ModelPaint::place_of(slots[9].0) == 9);
        assert(ModelPaint::place_of(slots[10].0) == 10);
        assert(ModelPaint::place_of(slots[11].0) == 11);
        assert(ModelPaint::place_of(slots[12].0) == 12);
        assert(ModelPaint::place_of(slots[13].0) == 13);
        assert forall|i: int| 0 <= i < slots.len() implies ModelPaint::place_of(
            (#[trigger] slots[i]).0,
        ) - 0 == i by {
        }
        lemma_placed_keys_are_distinct(slots, |key: Seq<char>| ModelPaint::place_of(key) - 0);
        assert forall|i: int| 0 <= i < slots.len() implies lookup(
            flatten(slots),
            (#[trigger] slots[i]).0,
        ) == slots[i].1 by {
            law_lookup_of_distinct_keys(slots, i);
        }
    }
}

impl ToWire for ModelPaint {
    /// The object of the properties that are set.
    open spec fn wire(&self) -> ValueView {
        ValueView::Object(flatten(self.slots()))
    }

    fn to_wire(&self) -> (value: Value) {
        self.to_entries().finish()
    }
}

impl ModelPaint {
    /// Whether every property of a wire value can be read: what must be there
    /// is there, and what is there has the right shape.
    pub open spec fn all_read(value: ValueView) -> bool {
        &&& read_optional::<Expression<()>>(value.get("model-ambient-occlusion-intensity"@)) is Some
        &&& read_optional::<Expression<()>>(value.get("model-cast-shadows"@)) is Some
        &&& read_optional::<Expression<()>>(value.get("model-color"@)) is Some
        &&& read_optional::<Expression<()>>(value.get("model-color-mix-intensity"@)) is Some
        &&& read_optional::<Expression<()>>(value.get("model-cutoff-fade-range"@)) is Some
        &&& read_optional::<Expression<()>>(value.get("model-emissive-strength"@)) is Some
        &&& read_optional::<Expression<()>>(value.get("model-height-based-emissive-strength-multiplier"@)) is Some
        &&& read_optional::<Expression<()>>(value.get("model-opacity"@)) is Some
        &&& read_optional::<Expression<()>>(value.get("model-receive-shadows"@)) is Some
        &&& read_optional::<Expression<()>>(value.get("model-rotation"@)) is Some
        &&& read_optional::<Expression<()>>(value.get("model-roughness"@)) is Some
        &&& read_optional::<Expression<()>>(value.get("model-scale"@)) is Some
        &&& read_optional::<Expression<()>>(value.get("model-translation"@)) is Some
        &&& read_optional::<Expression<ModelType>>(value.get("model-type"@)) is Some
    }

    /// The slots that the properties of a wire value are read as, in order.
    pub open spec fn read_slots(value: ValueView) -> Slots {
        seq![
            ("model-ambient-occlusion-intensity"@, read_optional::<Expression<()>>(value.get("model-ambient-occlusion-intensity"@))->Some_0),
            ("model-cast-shadows"@, read_optional::<Expression<()>>(value.get("model-cast-shadows"@))->Some_0),
            ("model-color"@, read_optional::<Expression<()>>(value.get("model-color"@))->Some_0),
            ("model-color-mix-intensity"@, read_optional::<Expression<()>>(value.get("model-color-mix-intensity"@))->Some_0),
            ("model-cutoff-fade-range"@, read_optional::<Expression<()>>(value.get("model-cutoff-fade-range"@))->Some_0),
            ("model-emissive-strength"@, read_optional::<Expression<()>>(value.get("model-emissive-strength"@))->Some_0),
            ("model-height-based-emissive-strength-multiplier"@, read_optional::<Expression<()>>(value.get("model-height-based-emissive-strength-multiplier"@))->Some_0),
            ("model-opacity"@, read_optional::<Expression<()>>(value.get("model-opacity"@))->Some_0),
            ("model-receive-shadows"@, read_optional::<Expression<()>>(value.get("model-receive-shadows"@))->Some_0),
            ("model-rotation"@, read_optional::<Expression<()>>(value.get("model-rotation"@))->Some_0),
            ("model-roughness"@, read_optional::<Expression<()>>(value.get("model-roughness"@))->Some_0),
            ("model-scale"@, read_optional::<Expression<()>>(value.get("model-scale"@))->Some_0),
            ("model-translation"@, read_optional::<Expression<()>>(value.get("model-translation"@))->Some_0),
            ("model-type"@, read_optional::<Expression<ModelType>>(value.get("model-type"@))->Some_0),
        ]
    }

    fn read_part_0(value: &Value) -> (res: Option<(Option<Expression<()>>, Option<Expression<()>>, Option<Expression<()>>, Option<Expression<()>>, Option<Expression<()>>, Option<Expression<()>>, Option<Expression<()>>, Option<Expression<()>>,)>)
        ensures
            match res {
                Some(part) => {
                    &&& read_optional::<Expression<()>>(value@.get("model-ambient-occlusion-intensity"@)) == Some(optional_wire(part.0))
                    &&& read_optional::<Expression<()>>(value@.get("model-cast-shadows"@)) == Some(optional_wire(part.1))
                    &&& read_optional::<Expression<()>>(value@.get("model-color"@)) == Some(optional_wire(part.2))
                    &&& read_optional::<Expression<()>>(value@.get("model-color-mix-intensity"@)) == Some(optional_wire(part.3))
                    &&& read_optional::<Expression<()>>(value@.get("model-cutoff-fade-range"@)) == Some(optional_wire(part.4))
                    &&& read_optional::<Expression<()>>(value@.get("model-emissive-strength"@)) == Some(optional_wire(part.5))
                    &&& read_optional::<Expression<()>>(value@.get("model-height-based-emissive-strength-multiplier"@)) == Some(optional_wire(part.6))
                    &&& read_optional::<Expression<()>>(value@.get("model-opacity"@)) == Some(optional_wire(part.7))
                },
                None => !Self::all_read(value@),
            },
    {
        let model_ambient_occlusion_intensity = match optional::<Expression<()>>(value.get("model-ambient-occlusion-intensity")) {
            Some(read) => read,
            None => {
                return None;
            },
        };
        let model_cast_shadows = match optional::<Expression<()>>(value.get("model-cast-shadows")) {
            Some(read) => read,
            None => {
                return None;
            },
        };
        let model_color = match optional::<Expression<()>>(value.get("model-color")) {
            Some(read) => read,
            None => {
                return None;
            },
        };
        let model_color_mix_intensity = match optional::<Expression<()>>(value.get("model-color-mix-intensity")) {
            Some(read) => read,
            None => {
                return None;
            },
        };
        let model_cutoff_fade_range = match optional::<Expression<()>>(value.get("model-cutoff-fade-range")) {
            Some(read) => read,
            None => {
                return None;
            },
        };
        let model_emissive_strength = match optional::<Expression<()>>(value.get("model-emissive-strength")) {
            Some(read) => read,
            None => {
                return None;
            },
        };
        let model_height_based_emissive_strength_multiplier = match optional::<Expression<()>>(value.get("model-height-based-emissive-strength-multiplier")) {
            Some(read) => read,
            None => {
                return None;
            },
        };
        let model_opacity = match optional::<Expression<()>>(value.get("model-opacity")) {
            Some(read) => read,
            None => {
                return None;
            },
        };
        Some((model_ambient_occlusion_intensity, model_cast_shadows, model_color, model_color_mix_intensity, model_cutoff_fade_range, model_emissive_strength, model_height_based_emissive_strength_multiplier, model_opacity,))
    }

    fn read_part_1(value: &Value) -> (res: Option<(Option<Expression<()>>, Option<Expression<()>>, Option<Expression<()>>, Option<Expression<()>>, Option<Expression<()>>, Option<Expression<ModelType>>,)>)
        ensures
            match res {
                Some(part) => {
                    &&& read_optional::<Expression<()>>(value@.get("model-receive-shadows"@)) == Some(optional_wire(part.0))
                    &&& read_optional::<Expression<()>>(value@.get("model-rotation"@)) == Some(optional_wire(part.1))
                    &&& read_optional::<Expression<()>>(value@.get("model-roughness"@)) == Some(optional_wire(part.2))
                    &&& read_optional::<Expression<()>>(value@.get("model-scale"@)) == Some(optional_wire(part.3))
                    &&& read_optional::<Expression<()>>(value@.get("model-translation"@)) == Some(optional_wire(part.4))
                    &&& read_optional::<Expression<ModelType>>(value@.get("model-type"@)) == Some(optional_wire(part.5))
                },
                None => !Self::all_read(value@),
            },
    {
        let model_receive_shadows = match optional::<Expression<()>>(value.get("model-receive-shadows")) {
            Some(read) => read,
            None => {
                return None;
            },
        };
        let model_rotation = match optional::<Expression<()>>(value.get("model-rotation")) {
            Some(read) => read,
            None => {
                return None;
            },
        };
        let model_roughness = match optional::<Expression<()>>(value.get("model-roughness")) {
            Some(read) => read,
            None => {
                return None;
            },
        };
        let model_scale = match optional::<Expression<()>>(value.get("model-scale")) {
            Some(read) => read,
            None => {
                return None;
            },
        };
        let model_translation = match optional::<Expression<()>>(value.get("model-translation")) {
            Some(read) => read,
            None => {
                return None;
            },
        };
        let model_type = match optional::<Expression<ModelType>>(value.get("model-type")) {
            Some(read) => read,
            None => {
                return None;
            },
        };
        Some((model_receive_shadows, model_rotation, model_roughness, model_scale, model_translation, model_type,))
    }

    /// Reading an object in which looking up the name of each property of
    /// the value finds that property gives the value back.
    pub proof fn lemma_read_from(&self, entries: Seq<(Seq<char>, ValueView)>)
        requires
            self.comes_back(),
            forall|i: int|
                0 <= i < self.slots().len() ==> lookup(entries, (#[trigger] self.slots()[i]).0)
                    == self.slots()[i].1,
        ensures
            Self::spec_read(ValueView::Object(entries)) == Some(self.wire()),
    {
        let value = ValueView::Object(entries);
        let slots = self.slots();
        assert(value.get(slots[0].0) == slots[0].1);
        lemma_optional_round_trip::<Expression<()>>(self.model_ambient_occlusion_intensity);
        assert(value.get(slots[1].0) == slots[1].1);
        lemma_optional_round_trip::<Expression<()>>(self.model_cast_shadows);
        assert(value.get(slots[2].0) == slots[2].1);
        lemma_optional_round_trip::<Expression<()>>(self.model_color);
        assert(value.get(slots[3].0) == slots[3].1);
        lemma_optional_round_trip::<Expression<()>>(self.model_color_mix_intensity);
        assert(value.get(slots[4].0) == slots[4].1);
        lemma_optional_round_trip::<Expression<()>>(self.model_cutoff_fade_range);
        assert(value.get(slots[5].0) == slots[5].1);
        lemma_optional_round_trip::<Expression<()>>(self.model_emissive_strength);
        assert(value.get(slots[6].0) == slots[6].1);
        lemma_optional_round_trip::<Expression<()>>(self.model_height_based_emissive_strength_multiplier);
        assert(value.get(slots[7].0) == slots[7].1);
        lemma_optional_round_trip::<Expression<()>>(self.model_opacity);
        assert(value.get(slots[8].0) == slots[8].1);
        lemma_optional_round_trip::<Expression<()>>(self.model_receive_shadows);
        assert(value.get(slots[9].0) == slots[9].1);
        lemma_optional_round_trip::<Expression<()>>(self.model_rotation);
        assert(value.get(slots[10].0) == slots[10].1);
        lemma_optional_round_trip::<Expression<()>>(self.model_roughness);
        assert(value.get(slots[11].0) == slots[11].1);
        lemma_optional_round_trip::<Expression<()>>(self.model_scale);
        assert(value.get(slots[12].0) == slots[12].1);
        lemma_optional_round_trip::<Expression<()>>(self.model_translation);
        assert(value.get(slots[13].0) == slots[13].1);
        lemma_optional_round_trip::<Expression<ModelType>>(self.model_type);
    }
}

impl FromWire for ModelPaint {
    /// The value is read from an object, property by property. Properties of
    /// other names are passed over.
    open spec fn spec_read(value: ValueView) -> Option<ValueView> {
        if value is Object && Self::all_read(value) {
            Some(ValueView::Object(flatten(Self::read_slots(value))))
        } else {
            None
        }
    }

    open spec fn comes_back(&self) -> bool {
        &&& optional_comes_back(self.model_ambient_occlusion_intensity)
        &&& optional_comes_back(self.model_cast_shadows)
        &&& optional_comes_back(self.model_color)
        &&& optional_comes_back(self.model_color_mix_intensity)
        &&& optional_comes_back(self.model_cutoff_fade_range)
        &&& optional_comes_back(self.model_emissive_strength)
        &&& optional_comes_back(self.model_height_based_emissive_strength_multiplier)
        &&& optional_comes_back(self.model_opacity)
        &&& optional_comes_back(self.model_receive_shadows)
        &&& optional_comes_back(self.model_rotation)
        &&& optional_comes_back(self.model_roughness)
        &&& optional_comes_back(self.model_scale)
        &&& optional_comes_back(self.model_translation)
        &&& optional_comes_back(self.model_type)
    }

    fn from_wire(value: &Value) -> (res: Option<ModelPaint>) {
        match value {
            Value::Object(_) => {},
            _ => {
                return None;
            },
        }
        let part_0 = match Self::read_part_0(value) {
            Some(part) => part,
            None => {
                return None;
            },
        };
        let part_1 = match Self::read_part_1(value) {
            Some(part) => part,
            None => {
                return None;
            },
        };
        Some(
            ModelPaint {
                model_ambient_occlusion_intensity: part_0.0,
                model_cast_shadows: part_0.1,
                model_color: part_0.2,
                model_color_mix_intensity: part_0.3,
                model_cutoff_fade_range: part_0.4,
                model_emissive_strength: part_0.5,
                model_height_based_emissive_strength_multiplier: part_0.6,
                model_opacity: part_0.7,
                model_receive_shadows: part_1.0,
                model_rotation: part_1.1,
                model_roughness: part_1.2,
                model_scale: part_1.3,
                model_translation: part_1.4,
                model_type: part_1.5,
            },
        )
    }

    proof fn law_round_trip(&self) {
        self.law_wire_names_are_distinct();
        self.lemma_read_from(flatten(self.slots()));
    }
}

/// How a model layer is laid out.
#[derive(Debug, Clone)]
pub struct ModelLayout {
    pub model_id: Option<Expression<()>>,
    pub visibility: Option<Visibility>,
}

impl Default for ModelLayout {
    /// Every property is unset.
    fn default() -> (res: ModelLayout)
        ensures
            res == ModelLayout::unset(),
    {
        ModelLayout {
            model_id: None,
            visibility: None,
        }
    }
}

impl ModelLayout {
    /// The properties with every one unset.
    pub open spec fn unset() -> ModelLayout {
        ModelLayout {
            model_id: None,
            visibility: None,
        }
    }

    /// The properties of the wire form, in order: each under its wire name,
    /// with its wire form where it is set.
    pub open spec fn slots(&self) -> Slots {
        seq![
            ("model-id"@, optional_wire(self.model_id)),
            ("visibility"@, optional_wire(self.visibility)),
        ]
    }

    /// Offers every property to a builder, in order.
    pub fn to_entries(&self) -> (b: ObjectBuilder)
        ensures
            b.wf(),
            b@ == self.slots(),
    {
        let mut b = ObjectBuilder::new();
        b.optional_wire("model-id", &self.model_id);
        b.optional_wire("visibility", &self.visibility);
        b
    }

    /// The place of the property with the wire name `key`, which the length of
    /// the name and a few of its characters tell.
    spec fn place_of(key: Seq<char>) -> int {
        if key.len() == 8 {
            0
        } else if key.len() == 10 {
            1
        } else {
            -1
        }
    }

    /// No two properties have one wire name. So looking the wire name of a
    /// property up in the wire form finds the wire form of that property where it
    /// is set, and nothing where it is unset.
    pub proof fn law_wire_names_are_distinct(&self)
        ensures
            distinct_keys(self.slots()),
            forall|i: int|
                0 <= i < self.slots().len() ==> lookup(
                    flatten(self.slots()),
                    (#[trigger] self.slots()[i]).0,
                ) == self.slots()[i].1,
    {
        reveal_strlit("model-id");
        reveal_strlit("visibility");
        let slots = self.slots();
        assert(ModelLayout::place_of(slots[0].0) == 0);
        assert(ModelLayout::place_of(slots[1].0) == 1);
        assert forall|i: int| 0 <= i < slots.len() implies ModelLayout::place_of(
            (#[trigger] slots[i]).0,
        ) - 0 == i by {
        }
        lemma_placed_keys_are_distinct(slots, |key: Seq<char>| ModelLayout::place_of(key) - 0);
        assert forall|i: int| 0 <= i < slots.len() implies lookup(
            flatten(slots),
            (#[trigger] slots[i]).0,
        ) == slots[i].1 by {
            law_lookup_of_distinct_keys(slots, i);
        }
    }
}

impl ToWire for ModelLayout {
    /// The object of the properties that are set.
    open spec fn wire(&self) -> ValueView {
        ValueView::Object(flatten(self.slots()))
    }

    fn to_wire(&self) -> (value: Value) {
        self.to_entries().finish()
    }
}

impl ModelLayout {
    /// Whether every property of a wire value can be read: what must be there
    /// is there, and what is there has the right shape.
    pub open spec fn all_read(value: ValueView) -> bool {
        &&& read_optional::<Expression<()>>(value.get("model-id"@)) is Some
        &&& read_optional::<Visibility>(value.get("visibility"@)) is Some
    }

    /// The slots that the properties of a wire value are read as, in order.
    pub open spec fn read_slots(value: ValueView) -> Slots {
        seq![
            ("model-id"@, read_optional::<Expression<()>>(value.get("model-id"@))->Some_0),
            ("visibility"@, read_optional::<Visibility>(value.get("visibility"@))->Some_0),
        ]
    }

    /// Reading an object in which looking up the name of each property of
    /// the value finds that property gives the value back.
    pub proof fn lemma_read_from(&self, entries: Seq<(Seq<char>, ValueView)>)
        requires
            self.comes_back(),
            forall|i: int|
                0 <= i < self.slots().len() ==> lookup(entries, (#[trigger] self.slots()[i]).0)
                    == self.slots()[i].1,
        ensures
            Self::spec_read(ValueView::Object(entries)) == Some(self.wire()),
    {
        let value = ValueView::Object(entries);
        let slots = self.slots();
        assert(value.get(slots[0].0) == slots[0].1);
        lemma_optional_round_trip::<Expression<()>>(self.model_id);
        assert(value.get(slots[1].0) == slots[1].1);
        lemma_optional_round_trip::<Visibility>(self.visibility);
    }
}

impl FromWire for ModelLayout {
    /// The value is read from an object, property by property. Properties of
    /// other names are passed over.
    open spec fn spec_read(value: ValueView) -> Option<ValueView> {
        if value is Object && Self::all_read(value) {
            Some(ValueView::Object(flatten(Self::read_slots(value))))
        } else {
            None
        }
    }

    open spec fn comes_back(&self) -> bool {
        &&& optional_comes_back(self.model_id)
        &&& optional_comes_back(self.visibility)
    }

    fn from_wire(value: &Value) -> (res: Option<ModelLayout>) {
        match value {
            Value::Object(_) => {},
            _ => {
                return None;
            },
        }
        let model_id = match optional::<Expression<()>>(value.get("model-id")) {
            Some(read) => read,
            None => {
                return None;
            },
        };
        let visibility = match optional::<Visibility>(value.get("visibility")) {
            Some(read) => read,
            None => {
                return None;
            },
        };
        Some(ModelLayout { model_id, visibility })
    }

    proof fn law_round_trip(&self) {
        self.law_wire_names_are_distinct();
        self.lemma_read_from(flatten(self.slots()));
    }
}

} // verus!
