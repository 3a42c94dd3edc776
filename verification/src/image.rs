//! Images of a style: their options, and the outcome of loading one.

use vstd::prelude::*;
use crate::error::{Error, ErrorView, Result};
use crate::wire::{
    distinct_keys, flatten, law_lookup_of_distinct_keys, lemma_list_round_trip,
    lemma_optional_round_trip, lemma_placed_keys_are_distinct, lemma_required_round_trip,
    list, list_comes_back, lookup, nonempty_wire, optional, optional_comes_back, optional_wire,
    read_list, read_optional, read_required, required, str_eq, FromWire, Number, ObjectBuilder,
    Slots, ToWire, Value, ValueView,
};

verus! {

/// An image that the engine has loaded. `I` is the engine's own handle to it.
#[derive(Debug, Clone)]
pub struct Image<I> {
    pub inner: I,
}

/// What loading an image came to, where the engine reported `error` and
/// handed over `image`: the image when the engine reported null, and else the
/// error that holds what the engine reported.
pub fn load_image_result<I>(error: &Value, image: I) -> (res: Result<Image<I>>)
    ensures
        match res {
            Ok(loaded) => error@ is Null && loaded.inner == image,
            Err(e) => !(error@ is Null) && e@ == ErrorView::LoadImage(error@),
        },
{
    if error.is_null() {
        Ok(Image { inner: image })
    } else {
        Err(Error::LoadImage(error.clone()))
    }
}

/// How an image of a style is to be used.
#[derive(Debug, Clone)]
pub struct ImageOptions {
    pub content: Option<(Number, Number, Number, Number)>,
    pub pixcel_ratio: Option<Number>,
    pub sdf: Option<bool>,
    pub stretch_x: Vec<(Number, Number)>,
    pub stretch_y: Vec<(Number, Number)>,
}

impl Default for ImageOptions {
    /// Nothing is set, and nothing stretches.
    fn default() -> (res: ImageOptions)
        ensures
            res.content is None,
            res.pixcel_ratio is None,
            res.sdf is None,
            res.stretch_x@.len() == 0,
            res.stretch_y@.len() == 0,
    {
        ImageOptions {
            content: None,
            pixcel_ratio: None,
            sdf: None,
            stretch_x: Vec::new(),
            stretch_y: Vec::new(),
        }
    }
}

impl ImageOptions {
    /// The properties of the wire form, in order: each field under its wire
    /// name, with its wire form where it is set.
    pub open spec fn slots(&self) -> Slots {
        seq![
            ("content"@, optional_wire(self.content)),
            ("pixcelRatio"@, optional_wire(self.pixcel_ratio)),
            ("sdf"@, optional_wire(self.sdf)),
            ("stretchX"@, nonempty_wire(self.stretch_x@)),
            ("stretchY"@, nonempty_wire(self.stretch_y@)),
        ]
    }

    /// Offers every field to a builder, in order.
    pub fn to_entries(&self) -> (b: ObjectBuilder)
        ensures
            b.wf(),
            b@ == self.slots(),
    {
        let mut b = ObjectBuilder::new();
        b.optional_wire("content", &self.content);
        b.optional_wire("pixcelRatio", &self.pixcel_ratio);
        b.optional_wire("sdf", &self.sdf);
        b.nonempty("stretchX", &self.stretch_x);
        b.nonempty("stretchY", &self.stretch_y);
        b
    }

    /// The place of the field with the wire name `key`, which the length of
    /// the name and a few of its characters tell.
    spec fn place_of(key: Seq<char>) -> int {
        if key.len() == 7 {
            0
        } else if key.len() == 11 && key[7] == 'a' {
            1
        } else if key.len() == 3 {
            2
        } else if key.len() == 8 && key[7] == 'X' {
            3
        } else if key.len() == 8 && key[7] == 'Y' {
            4
        } else {
            -1
        }
    }

    /// No two fields have one wire name. So looking the wire name of a
    /// field up in the wire form finds the wire form of that field where it
    /// is set, and nothing where it is unset.
    pub proof fn law_wire_names_are_distinct(&self)
        ensures
            distinct_keys(self.slots()),
            forall|i: int|
                0 <= i < self.slots().len() ==> lookup(
                    flatten(self.slots()),
                    (#[trigger] self.slots()[i]).0,
                ) == self.slots()[i].1,
    {
        reveal_strlit("content");
        reveal_strlit("pixcelRatio");
        reveal_strlit("sdf");
        reveal_strlit("stretchX");
        reveal_strlit("stretchY");
        let slots = self.slots();
        assert(ImageOptions::place_of(slots[0].0) == 0);
        assert(ImageOptions::place_of(slots[1].0) == 1);
        assert(ImageOptions::place_of(slots[2].0) == 2);
        assert(ImageOptions::place_of(slots[3].0) == 3);
        assert(ImageOptions::place_of(slots[4].0) == 4);
        assert forall|i: int| 0 <= i < slots.len() implies ImageOptions::place_of(
            (#[trigger] slots[i]).0,
        ) - 0 == i by {
        }
        lemma_placed_keys_are_distinct(slots, |key: Seq<char>| ImageOptions::place_of(key) - 0);
        assert forall|i: int| 0 <= i < slots.len() implies lookup(
            flatten(slots),
            (#[trigger] slots[i]).0,
        ) == slots[i].1 by {
            law_lookup_of_distinct_keys(slots, i);
        }
    }
}

impl ToWire for ImageOptions {
    /// The object of the fields that are set.
    open spec fn wire(&self) -> ValueView {
        ValueView::Object(flatten(self.slots()))
    }

    fn to_wire(&self) -> (value: Value) {
        self.to_entries().finish()
    }
}

impl ImageOptions {
    /// Whether every property of a wire value can be read: what must be there
    /// is there, and what is there has the right shape.
    pub open spec fn all_read(value: ValueView) -> bool {
        &&& read_optional::<(Number, Number, Number, Number)>(value.get("content"@)) is Some
        &&& read_optional::<Number>(value.get("pixcelRatio"@)) is Some
        &&& read_optional::<bool>(value.get("sdf"@)) is Some
        &&& read_list::<(Number, Number)>(value.get("stretchX"@)) is Some
        &&& read_list::<(Number, Number)>(value.get("stretchY"@)) is Some
    }

    /// The slots that the properties of a wire value are read as, in order.
    pub open spec fn read_slots(value: ValueView) -> Slots {
        seq![
            ("content"@, read_optional::<(Number, Number, Number, Number)>(value.get("content"@))->Some_0),
            ("pixcelRatio"@, read_optional::<Number>(value.get("pixcelRatio"@))->Some_0),
            ("sdf"@, read_optional::<bool>(value.get("sdf"@))->Some_0),
            ("stretchX"@, read_list::<(Number, Number)>(value.get("stretchX"@))->Some_0),
            ("stretchY"@, read_list::<(Number, Number)>(value.get("stretchY"@))->Some_0),
        ]
    }

    /// Reading an object in which looking up the name of each property of
    /// the value finds that property gives the value back.
    pub proof fn lemma_read_from(&self, entries: Seq<(Seq<char>, ValueView)>)
        requires
            self.comes_back(),
            forall|i: int|
                0 <= i < self.slots().len() ==> lookup(entries, (#[trigger] self.slots()[i]).0)
                    == self.slots()[i].1,
        ensures
            Self::spec_read(ValueView::Object(entries)) == Some(self.wire()),
    {
        let value = ValueView::Object(entries);
        let slots = self.slots();
        assert(value.get(slots[0].0) == slots[0].1);
        lemma_optional_round_trip::<(Number, Number, Number, Number)>(self.content);
        assert(value.get(slots[1].0) == slots[1].1);
        lemma_optional_round_trip::<Number>(self.pixcel_ratio);
        assert(value.get(slots[2].0) == slots[2].1);
        lemma_optional_round_trip::<bool>(self.sdf);
        assert(value.get(slots[3].0) == slots[3].1);
        lemma_list_round_trip::<(Number, Number)>(self.stretch_x);
        assert(value.get(slots[4].0) == slots[4].1);
        lemma_list_round_trip::<(Number, Number)>(self.stretch_y);
    }
}

impl FromWire for ImageOptions {
    /// The value is read from an object, property by property. Properties of
    /// other names are passed over.
    open spec fn spec_read(value: ValueView) -> Option<ValueView> {
        if value is Object && Self::all_read(value) {
            Some(ValueView::Object(flatten(Self::read_slots(value))))
        } else {
            None
        }
    }

    open spec fn comes_back(&self) -> bool {
        &&& optional_comes_back(self.content)
        &&& optional_comes_back(self.pixcel_ratio)
        &&& optional_comes_back(self.sdf)
        &&& list_comes_back(self.stretch_x@)
        &&& list_comes_back(self.stretch_y@)
    }

    fn from_wire(value: &Value) -> (res: Option<ImageOptions>) {
        match value {
            Value::Object(_) => {},
            _ => {
                return None;
            },
        }
        let content = match optional::<(Number, Number, Number, Number)>(value.get("content")) {
            Some(read) => read,
            None => {
                return None;
            },
        };
        let pixcel_ratio = match optional::<Number>(value.get("pixcelRatio")) {
            Some(read) => read,
            None => {
                return None;
            },
        };
        let sdf = match optional::<bool>(value.get("sdf")) {
            Some(read) => read,
            None => {
                return None;
            },
        };
        let stretch_x = match list::<(Number, Number)>(value.get("stretchX")) {
            Some(read) => read,
            None => {
                return None;
            },
        };
        let stretch_y = match list::<(Number, Number)>(value.get("stretchY")) {
            Some(read) => read,
            None => {
                return None;
            },
        };
        Some(ImageOptions { content, pixcel_ratio, sdf, stretch_x, stretch_y })
    }

    proof fn law_round_trip(&self) {
        self.law_wire_names_are_distinct();
        self.lemma_read_from(flatten(self.slots()));
    }
}

} // verus!
