//! Styles: the sources and layers that a map shows, and where it starts.

use vstd::prelude::*;
use crate::layer::Layer;
use crate::wire::{
    distinct_keys, flatten, law_lookup_of_distinct_keys, lemma_list_round_trip,
    lemma_optional_round_trip, lemma_placed_keys_are_distinct, lemma_required_round_trip,
    list, list_comes_back, lookup, nonempty_wire, optional, optional_comes_back, optional_wire,
    read_list, read_optional, read_required, required, str_eq, FromWire, Number, ObjectBuilder,
    Slots, ToWire, Value, ValueView,
};

verus! {

/// The style of a map: a style document, or a reference to one by URL.
#[derive(Debug, Clone)]
pub enum StyleOrRef {
    Style(Style),
    Ref(String),
}

impl Default for StyleOrRef {
    /// The reference to the engine's standard street style.
    fn default() -> (res: StyleOrRef)
        ensures
            res is Ref,
            res->Ref_0@ == "mapbox://styles/mapbox/streets-v11"@,
    {
        StyleOrRef::Ref("mapbox://styles/mapbox/streets-v11".to_owned())
    }
}

impl ToWire for StyleOrRef {
    /// The style document as an object, or the reference as a string.
    open spec fn wire(&self) -> ValueView {
        match self {
            StyleOrRef::Style(style) => style.wire(),
            StyleOrRef::Ref(url) => ValueView::String(url@),
        }
    }

    fn to_wire(&self) -> (value: Value) {
        match self {
            StyleOrRef::Style(style) => style.to_wire(),
            StyleOrRef::Ref(url) => Value::String(url.clone()),
        }
    }
}

impl FromWire for StyleOrRef {
    /// A style is read from a style document, and else from the string that
    /// refers to one.
    open spec fn spec_read(value: ValueView) -> Option<ValueView> {
        match Style::spec_read(value) {
            Some(w) => Some(w),
            None => match value {
                ValueView::String(_) => Some(value),
                _ => None,
            },
        }
    }

    open spec fn comes_back(&self) -> bool {
        match self {
            StyleOrRef::Style(style) => style.comes_back(),
            StyleOrRef::Ref(_) => true,
        }
    }

    fn from_wire(value: &Value) -> (res: Option<StyleOrRef>) {
        match Style::from_wire(value) {
            Some(style) => Some(StyleOrRef::Style(style)),
            None => match value {
                Value::String(url) => Some(StyleOrRef::Ref(url.clone())),
                _ => None,
            },
        }
    }

    proof fn law_round_trip(&self) {
        match self {
            StyleOrRef::Style(style) => {
                style.law_round_trip();
            },
            StyleOrRef::Ref(_) => {},
        }
    }
}

/// A style document.
#[derive(Debug, Clone)]
pub struct Style {
    pub version: u32,
    pub sources: Sources,
    pub layers: Vec<Layer>,
    pub name: Option<String>,
    pub sprite: Option<String>,
    pub glyphs: Option<String>,
    pub metadata: Option<Metadata>,
    pub center: Option<Vec<Number>>,
    pub zoom: Option<Number>,
    pub bearing: Option<Number>,
    pub pitch: Option<Number>,
    pub created: Option<String>,
    pub id: Option<String>,
    pub modified: Option<String>,
    pub owner: Option<String>,
    pub visibility: Option<String>,
    pub draft: Option<bool>,
}

impl Default for Style {
    /// Version zero, without sources or layers, and every optional field unset.
    fn default() -> (res: Style)
        ensures
            res.version == 0,
            res.sources@.len() == 0,
            res.layers@.len() == 0,
            res.name is None,
            res.sprite is None,
            res.glyphs is None,
            res.metadata is None,
            res.center is None,
            res.zoom is None,
            res.bearing is None,
            res.pitch is None,
            res.created is None,
            res.id is None,
            res.modified is None,
            res.owner is None,
            res.visibility is None,
            res.draft is None,
    {
        Style {
            version: 0,
            sources: Sources::new(),
            layers: Vec::new(),
            name: None,
            sprite: None,
            glyphs: None,
            metadata: None,
            center: None,
            zoom: None,
            bearing: None,
            pitch: None,
            created: None,
            id: None,
            modified: None,
            owner: None,
            visibility: None,
            draft: None,
        }
    }
}

impl Style {
    /// The properties of the wire form, in order: each field under its wire
    /// name, with its wire form where it is set.
    pub open spec fn slots(&self) -> Slots {
        seq![
            ("version"@, Some(self.version.wire())),
            ("sources"@, Some(self.sources.wire())),
            ("layers"@, Some(self.layers.wire())),
            ("name"@, optional_wire(self.name)),
            ("sprite"@, optional_wire(self.sprite)),
            ("glyphs"@, optional_wire(self.glyphs)),
            ("metadata"@, optional_wire(self.metadata)),
            ("center"@, optional_wire(self.center)),
            ("zoom"@, optional_wire(self.zoom)),
            ("bearing"@, optional_wire(self.bearing)),
            ("pitch"@, optional_wire(self.pitch)),
            ("created"@, optional_wire(self.created)),
            ("id"@, optional_wire(self.id)),
            ("modified"@, optional_wire(self.modified)),
            ("owner"@, optional_wire(self.owner)),
            ("visibility"@, optional_wire(self.visibility)),
            ("draft"@, optional_wire(self.draft)),
        ]
    }

    /// Offers every field to a builder, in order.
    pub fn to_entries(&self) -> (b: ObjectBuilder)
        ensures
            b.wf(),
            b@ == self.slots(),
    {
        let mut b = ObjectBuilder::new();
        b.wire("version", &self.version);
        b.wire("sources", &self.sources);
        b.wire("layers", &self.layers);
        b.optional_wire("name", &self.name);
        b.optional_wire("sprite", &self.sprite);
        b.optional_wire("glyphs", &self.glyphs);
        b.optional_wire("metadata", &self.metadata);
        b.optional_wire("center", &self.center);
        b.optional_wire("zoom", &self.zoom);
        b.optional_wire("bearing", &self.bearing);
        b.optional_wire("pitch", &self.pitch);
        b.optional_wire("created", &self.created);
        b.optional_wire("id", &self.id);
        b.optional_wire("modified", &self.modified);
        b.optional_wire("owner", &self.owner);
        b.optional_wire("visibility", &self.visibility);
        b.optional_wire("draft", &self.draft);
        b
    }

    /// The place of the field with the wire name `key`, which the length of
    /// the name and a few of its characters tell.
    spec fn place_of(key: Seq<char>) -> int {
        if key.len() == 7 && key[0] == 'v' && key[1] == 'e' {
            0
        } else if key.len() == 7 && key[0] == 's' && key[1] == 'o' {
            1
        } else if key.len() == 6 && key[0] == 'l' && key[1] == 'a' {
            2
        } else if key.len() == 4 && key[0] == 'n' && key[1] == 'a' {
            3
        } else if key.len() == 6 && key[0] == 's' && key[1] == 'p' {
            4
        } else if key.len() == 6 && key[0] == 'g' && key[1] == 'l' {
            5
        } else if key.len() == 8 && key[0] == 'm' && key[1] == 'e' {
            6
        } else if key.len() == 6 && key[0] == 'c' && key[1] == 'e' {
            7
        } else if key.len() == 4 && key[0] == 'z' && key[1] == 'o' {
            8
        } else if key.len() == 7 && key[0] == 'b' && key[1] == 'e' {
            9
        } else if key.len() == 5 && key[0] == 'p' && key[1] == 'i' {
            10
        } else if key.len() == 7 && key[0] == 'c' && key[1] == 'r' {
            11
        } else if key.len() == 2 && key[0] == 'i' && key[1] == 'd' {
            12
        } else if key.len() == 8 && key[0] == 'm' && key[1] == 'o' {
            13
        } else if key.len() == 5 && key[0] == 'o' && key[1] == 'w' {
            14
        } else if key.len() == 10 && key[0] == 'v' && key[1] == 'i' {
            15
        } else if key.len() == 5 && key[0] == 'd' && key[1] == 'r' {
            16
        } else {
            -1
        }
    }

    /// No two fields have one wire name. So looking the wire name of a
    /// field up in the wire form finds the wire form of that field where it
    /// is set, and nothing where it is unset.
    #[verifier::rlimit(50)]
    pub proof fn law_wire_names_are_distinct(&self)
        ensures
            distinct_keys(self.slots()),
            forall|i: int|
                0 <= i < self.slots().len() ==> lookup(
                    flatten(self.slots()),
                    (#[trigger] self.slots()[i]).0,
                ) == self.slots()[i].1,
    {
        reveal_strlit("version");
        reveal_strlit("sources");
        reveal_strlit("layers");
        reveal_strlit("name");
        reveal_strlit("sprite");
        reveal_strlit("glyphs");
        reveal_strlit("metadata");
        reveal_strlit("center");
        reveal_strlit("zoom");
        reveal_strlit("bearing");
        reveal_strlit("pitch");
        reveal_strlit("created");
        reveal_strlit("id");
        reveal_strlit("modified");
        reveal_strlit("owner");
        reveal_strlit("visibility");
        reveal_strlit("draft");
        let slots = self.slots();
        assert(Style::place_of(slots[0].0) == 0);
        assert(Style::place_of(slots[1].0) == 1);
        assert(Style::place_of(slots[2].0) == 2);
        assert(Style::place_of(slots[3].0) == 3);
        assert(Style::place_of(slots[4].0) == 4);
        assert(Style::place_of(slots[5].0) == 5);
        assert(Style::place_of(slots[6].0) == 6);
        assert(Style::place_of(slots[7].0) == 7);
        assert(Style::place_of(slots[8].0) == 8);
        assert(Style::place_of(slots[9].0) == 9);
        assert(Style::place_of(slots[10].0) == 10);
        assert(Style::place_of(slots[11].0) == 11);
        assert(Style::place_of(slots[12].0) == 12);
        assert(Style::place_of(slots[13].0) == 13);
        assert(Style::place_of(slots[14].0) == 14);
        assert(Style::place_of(slots[15].0) == 15);
        assert(Style::place_of(slots[16].0) == 16);
        assert forall|i: int| 0 <= i < slots.len() implies Style::place_of(
            (#[trigger] slots[i]).0,
        ) - 0 == i by {
        }
        lemma_placed_keys_are_distinct(slots, |key: Seq<char>| Style::place_of(key) - 0);
        assert forall|i: int| 0 <= i < slots.len() implies lookup(
            flatten(slots),
            (#[trigger] slots[i]).0,
        ) == slots[i].1 by {
            law_lookup_of_distinct_keys(slots, i);
        }
    }
}

impl ToWire for Style {
    /// The object of the fields that are set.
    open spec fn wire(&self) -> ValueView {
        ValueView::Object(flatten(self.slots()))
    }

    fn to_wire(&self) -> (value: Value) {
        self.to_entries().finish()
    }
}

impl Style {
    /// Whether every property of a wire value can be read: what must be there
    /// is there, and what is there has the right shape.
    pub open spec fn all_read(value: ValueView) -> bool {
        &&& read_required::<u32>(value.get("version"@)) is Some
        &&& read_required::<Sources>(value.get("sources"@)) is Some
        &&& read_required::<Vec<Layer>>(value.get("layers"@)) is Some
        &&& read_optional::<String>(value.get("name"@)) is Some
        &&& read_optional::<String>(value.get("sprite"@)) is Some
        &&& read_optional::<String>(value.get("glyphs"@)) is Some
        &&& read_optional::<Metadata>(value.get("metadata"@)) is Some
        &&& read_optional::<Vec<Number>>(value.get("center"@)) is Some
        &&& read_optional::<Number>(value.get("zoom"@)) is Some
        &&& read_optional::<Number>(value.get("bearing"@)) is Some
        &&& read_optional::<Number>(value.get("pitch"@)) is Some
        &&& read_optional::<String>(value.get("created"@)) is Some
        &&& read_optional::<String>(value.get("id"@)) is Some
        &&& read_optional::<String>(value.get("modified"@)) is Some
        &&& read_optional::<String>(value.get("owner"@)) is Some
        &&& read_optional::<String>(value.get("visibility"@)) is Some
        &&& read_optional::<bool>(value.get("draft"@)) is Some
    }

    /// The slots that the properties of a wire value are read as, in order.
    pub open spec fn read_slots(value: ValueView) -> Slots {
        seq![
            ("version"@, read_required::<u32>(value.get("version"@))->Some_0),
            ("sources"@, read_required::<Sources>(value.get("sources"@))->Some_0),
            ("layers"@, read_required::<Vec<Layer>>(value.get("layers"@))->Some_0),
            ("name"@, read_optional::<String>(value.get("name"@))->Some_0),
            ("sprite"@, read_optional::<String>(value.get("sprite"@))->Some_0),
            ("glyphs"@, read_optional::<String>(value.get("glyphs"@))->Some_0),
            ("metadata"@, read_optional::<Metadata>(value.get("metadata"@))->Some_0),
            ("center"@, read_optional::<Vec<Number>>(value.get("center"@))->Some_0),
            ("zoom"@, read_optional::<Number>(value.get("zoom"@))->Some_0),
            ("bearing"@, read_optional::<Number>(value.get("bearing"@))->Some_0),
            ("pitch"@, read_optional::<Number>(value.get("pitch"@))->Some_0),
            ("created"@, read_optional::<String>(value.get("created"@))->Some_0),
            ("id"@, read_optional::<String>(value.get("id"@))->Some_0),
            ("modified"@, read_optional::<String>(value.get("modified"@))->Some_0),
            ("owner"@, read_optional::<String>(value.get("owner"@))->Some_0),
            ("visibility"@, read_optional::<String>(value.get("visibility"@))->Some_0),
            ("draft"@, read_optional::<bool>(value.get("draft"@))->Some_0),
        ]
    }

    fn read_part_0(value: &Value) -> (res: Option<(u32, Sources, Vec<Layer>, Option<String>, Option<String>, Option<String>, Option<Metadata>, Option<Vec<Number>>,)>)
        ensures
            match res {
                Some(part) => {
                    &&& read_required::<u32>(value@.get("version"@)) == Some(Some(part.0.wire()))
                    &&& read_required::<Sources>(value@.get("sources"@)) == Some(Some(part.1.wire()))
                    &&& read_required::<Vec<Layer>>(value@.get("layers"@)) == Some(Some(part.2.wire()))
                    &&& read_optional::<String>(value@.get("name"@)) == Some(optional_wire(part.3))
                    &&& read_optional::<String>(value@.get("sprite"@)) == Some(optional_wire(part.4))
                    &&& read_optional::<String>(value@.get("glyphs"@)) == Some(optional_wire(part.5))
                    &&& read_optional::<Metadata>(value@.get("metadata"@)) == Some(optional_wire(part.6))
                    &&& read_optional::<Vec<Number>>(value@.get("center"@)) == Some(optional_wire(part.7))
                },
                None => !Self::all_read(value@),
            },
    {
        let version = match required::<u32>(value.get("version")) {
            Some(read) => read,
            None => {
                return None;
            },
        };
        let sources = match required::<Sources>(value.get("sources")) {
            Some(read) => read,
            None => {
                return None;
            },
        };
        let layers = match required::<Vec<Layer>>(value.get("layers")) {
            Some(read) => read,
            None => {
                return None;
            },
        };
        let name = match optional::<String>(value.get("name")) {
            Some(read) => read,
            None => {
                return None;
            },
        };
        let sprite = match optional::<String>(value.get("sprite")) {
            Some(read) => read,
            None => {
                return None;
            },
        };
        let glyphs = match optional::<String>(value.get("glyphs")) {
            Some(read) => read,
            None => {
                return None;
            },
        };
        let metadata = match optional::<Metadata>(value.get("metadata")) {
            Some(read) => read,
            None => {
                return None;
            },
        };
        let center = match optional::<Vec<Number>>(value.get("center")) {
            Some(read) => read,
            None => {
                return None;
            },
        };
        Some((version, sources, layers, name, sprite, glyphs, metadata, center,))
    }

    fn read_part_1(value: &Value) -> (res: Option<(Option<Number>, Option<Number>, Option<Number>, Option<String>, Option<String>, Option<String>, Option<String>, Option<String>,)>)
        ensures
            match res {
                Some(part) => {
                    &&& read_optional::<Number>(value@.get("zoom"@)) == Some(optional_wire(part.0))
                    &&& read_optional::<Number>(value@.get("bearing"@)) == Some(optional_wire(part.1))
                    &&& read_optional::<Number>(value@.get("pitch"@)) == Some(optional_wire(part.2))
                    &&& read_optional::<String>(value@.get("created"@)) == Some(optional_wire(part.3))
                    &&& read_optional::<String>(value@.get("id"@)) == Some(optional_wire(part.4))
                    &&& read_optional::<String>(value@.get("modified"@)) == Some(optional_wire(part.5))
                    &&& read_optional::<String>(value@.get("owner"@)) == Some(optional_wire(part.6))
                    &&& read_optional::<String>(value@.get("visibility"@)) == Some(optional_wire(part.7))
                },
                None => !Self::all_read(value@),
            },
    {
        let zoom = match optional::<Number>(value.get("zoom")) {
            Some(read) => read,
            None => {
                return None;
            },
        };
        let bearing = match optional::<Number>(value.get("bearing")) {
            Some(read) => read,
            None => {
                return None;
            },
        };
        let pitch = match optional::<Number>(value.get("pitch")) {
            Some(read) => read,
            None => {
                return None;
            },
        };
        let created = match optional::<String>(value.get("created")) {
            Some(read) => read,
            None => {
                return None;
            },
        };
        let id = match optional::<String>(value.get("id")) {
            Some(read) => read,
            None => {
                return None;
            },
        };
        let modified = match optional::<String>(value.get("modified")) {
            Some(read) => read,
            None => {
                return None;
            },
        };
        let owner = match optional::<String>(value.get("owner")) {
            Some(read) => read,
            None => {
                return None;
            },
        };
        let visibility = match optional::<String>(value.get("visibility")) {
            Some(read) => read,
            None => {
                return None;
            },
        };
        Some((zoom, bearing, pitch, created, id, modified, owner, visibility,))
    }

    fn read_part_2(value: &Value) -> (res: Option<(Option<bool>,)>)
        ensures
            match res {
                Some(part) => {
                    &&& read_optional::<bool>(value@.get("draft"@)) == Some(optional_wire(part.0))
                },
                None => !Self::all_read(value@),
            },
    {
        let draft = match optional::<bool>(value.get("draft")) {
            Some(read) => read,
            None => {
                return None;
            },
        };
        Some((draft,))
    }

    /// Reading an object in which looking up the name of each property of
    /// the value finds that property gives the value back.
    pub proof fn lemma_read_from(&self, entries: Seq<(Seq<char>, ValueView)>)
        requires
            self.comes_back(),
            forall|i: int|
                0 <= i < self.slots().len() ==> lookup(entries, (#[trigger] self.slots()[i]).0)
                    == self.slots()[i].1,
        ensures
            Self::spec_read(ValueView::Object(entries)) == Some(self.wire()),
    {
        let value = ValueView::Object(entries);
        let slots = self.slots();
        assert(value.get(slots[0].0) == slots[0].1);
        lemma_required_round_trip::<u32>(self.version);
        assert(value.get(slots[1].0) == slots[1].1);
        lemma_required_round_trip::<Sources>(self.sources);
        assert(value.get(slots[2].0) == slots[2].1);
        lemma_required_round_trip::<Vec<Layer>>(self.layers);
        assert(value.get(slots[3].0) == slots[3].1);
        lemma_optional_round_trip::<String>(self.name);
        assert(value.get(slots[4].0) == slots[4].1);
        lemma_optional_round_trip::<String>(self.sprite);
        assert(value.get(slots[5].0) == slots[5].1);
        lemma_optional_round_trip::<String>(self.glyphs);
        assert(value.get(slots[6].0) == slots[6].1);
        lemma_optional_round_trip::<Metadata>(self.metadata);
        assert(value.get(slots[7].0) == slots[7].1);
        lemma_optional_round_trip::<Vec<Number>>(self.center);
        assert(value.get(slots[8].0) == slots[8].1);
        lemma_optional_round_trip::<Number>(self.zoom);
        assert(value.get(slots[9].0) == slots[9].1);
        lemma_optional_round_trip::<Number>(self.bearing);
        assert(value.get(slots[10].0) == slots[10].1);
        lemma_optional_round_trip::<Number>(self.pitch);
        assert(value.get(slots[11].0) == slots[11].1);
        lemma_optional_round_trip::<String>(self.created);
        assert(value.get(slots[12].0) == slots[12].1);
        lemma_optional_round_trip::<String>(self.id);
        assert(value.get(slots[13].0) == slots[13].1);
        lemma_optional_round_trip::<String>(self.modified);
        assert(value.get(slots[14].0) == slots[14].1);
        lemma_optional_round_trip::<String>(self.owner);
        assert(value.get(slots[15].0) == slots[15].1);
        lemma_optional_round_trip::<String>(self.visibility);
        assert(value.get(slots[16].0) == slots[16].1);
        lemma_optional_round_trip::<bool>(self.draft);
    }
}

impl FromWire for Style {
    /// The value is read from an object, property by property. Properties of
    /// other names are passed over.
    open spec fn spec_read(value: ValueView) -> Option<ValueView> {
        if value is Object && Self::all_read(value) {
            Some(ValueView::Object(flatten(Self::read_slots(value))))
        } else {
            None
        }
    }

    open spec fn comes_back(&self) -> bool {
        &&& self.version.comes_back()
        &&& self.sources.comes_back()
        &&& self.layers.comes_back()
        &&& optional_comes_back(self.name)
        &&& optional_comes_back(self.sprite)
        &&& optional_comes_back(self.glyphs)
        &&& optional_comes_back(self.metadata)
        &&& optional_comes_back(self.center)
        &&& optional_comes_back(self.zoom)
        &&& optional_comes_back(self.bearing)
        &&& optional_comes_back(self.pitch)
        &&& optional_comes_back(self.created)
        &&& optional_comes_back(self.id)
        &&& optional_comes_back(self.modified)
        &&& optional_comes_back(self.owner)
        &&& optional_comes_back(self.visibility)
        &&& optional_comes_back(self.draft)
    }

    fn from_wire(value: &Value) -> (res: Option<Style>) {
        match value {
            Value::Object(_) => {},
            _ => {
                return None;
            },
        }
        let part_0 = match Self::read_part_0(value) {
            Some(part) => part,
            None => {
                return None;
            },
        };
        let part_1 = match Self::read_part_1(value) {
            Some(part) => part,
            None => {
                return None;
            },
        };
        let part_2 = match Self::read_part_2(value) {
            Some(part) => part,
            None => {
                return None;
            },
        };
        Some(
            Style {
                version: part_0.0,
                sources: part_0.1,
                layers: part_0.2,
                name: part_0.3,
                sprite: part_0.4,
                glyphs: part_0.5,
                metadata: part_0.6,
                center: part_0.7,
                zoom: part_1.0,
                bearing: part_1.1,
                pitch: part_1.2,
                created: part_1.3,
                id: part_1.4,
                modified: part_1.5,
                owner: part_1.6,
                visibility: part_1.7,
                draft: part_2.0,
            },
        )
    }

    proof fn law_round_trip(&self) {
        self.law_wire_names_are_distinct();
        self.lemma_read_from(flatten(self.slots()));
    }
}

/// The sources of a style by name, in the order in which they were first
/// inserted. No name occurs twice.
#[derive(Debug, Clone)]
pub struct Sources {
    entries: Vec<(String, Source)>,
}

impl View for Sources {
    type V = Seq<(Seq<char>, Source)>;

    closed spec fn view(&self) -> Seq<(Seq<char>, Source)> {
        Seq::new(self.entries@.len(), |i: int| (self.entries@[i].0@, self.entries@[i].1))
    }
}

/// No name occurs twice among `sources`.
pub open spec fn distinct_names(sources: Seq<(Seq<char>, Source)>) -> bool {
    forall|i: int, j: int|
        0 <= i < sources.len() && 0 <= j < sources.len() && i != j ==> (#[trigger] sources[i]).0
            != (#[trigger] sources[j]).0
}

/// Whether the source at place `i` is the first that is named `name`.
pub open spec fn is_first_named(sources: Seq<(Seq<char>, Source)>, name: Seq<char>, i: int) -> bool {
    &&& 0 <= i < sources.len()
    &&& sources[i].0 == name
    &&& forall|j: int| 0 <= j < i ==> (#[trigger] sources[j]).0 != name
}

/// The place of the first source named `name`, if there is one.
pub open spec fn position(sources: Seq<(Seq<char>, Source)>, name: Seq<char>) -> Option<int> {
    if exists|i: int| is_first_named(sources, name, i) {
        Some(choose|i: int| is_first_named(sources, name, i))
    } else {
        None
    }
}

/// The first source with a name is the only first source with that name.
proof fn lemma_position(sources: Seq<(Seq<char>, Source)>, name: Seq<char>, i: int)
    requires
        is_first_named(sources, name, i),
    ensures
        position(sources, name) == Some(i),
{
    let k = choose|k: int| is_first_named(sources, name, k);
    if k < i {
        assert(sources[k].0 != name);
    }
    if i < k {
        assert(sources[i].0 != name);
    }
}

/// Where no source has a name, the name has no place.
proof fn lemma_no_position(sources: Seq<(Seq<char>, Source)>, name: Seq<char>)
    requires
        forall|j: int| 0 <= j < sources.len() ==> (#[trigger] sources[j]).0 != name,
    ensures
        position(sources, name) is None,
{
    if exists|i: int| is_first_named(sources, name, i) {
        let k = choose|k: int| is_first_named(sources, name, k);
        assert(sources[k].0 != name);
    }
}

impl Sources {
    /// No sources.
    pub fn new() -> (res: Sources)
        ensures
            res@.len() == 0,
    {
        Sources { entries: Vec::new() }
    }

    /// The number of sources.
    pub fn len(&self) -> (res: usize)
        ensures
            res == self@.len(),
    {
        self.entries.len()
    }

    fn find(&self, name: &str) -> (res: Option<usize>)
        ensures
            match res {
                Some(i) => is_first_named(self@, name@, i as int),
                None => forall|j: int| 0 <= j < self@.len() ==> (#[trigger] self@[j]).0 != name@,
            },
    {
        let mut i: usize = 0;
        while i < self.entries.len()
            invariant
                i <= self.entries.len(),
                forall|j: int| 0 <= j < i ==> (#[trigger] self@[j]).0 != name@,
            decreases self.entries.len() - i,
        {
            if str_eq(self.entries[i].0.as_str(), name) {
                assert(self@[i as int].0 == name@);
                return Some(i);
            }
            i += 1;
        }
        None
    }

    /// The first source named `name`, if there is one.
    pub fn get(&self, name: &str) -> (res: Option<&Source>)
        ensures
            match res {
                Some(source) => position(self@, name@) matches Some(i) && self@[i].1 == *source,
                None => position(self@, name@) is None,
            },
    {
        match self.find(name) {
            Some(i) => {
                proof {
                    lemma_position(self@, name@, i as int);
                }
                Some(&self.entries[i].1)
            },
            None => {
                proof {
                    lemma_no_position(self@, name@);
                }
                None
            },
        }
    }

    /// Puts `source` under `name`: in the place of the first source that had
    /// the name, which is returned, or else behind every other source. Where
    /// no name occurred twice before, none does after.
    pub fn insert(&mut self, name: String, source: Source) -> (res: Option<Source>)
        ensures
            match position(old(self)@, name@) {
                Some(i) => final(self)@ == old(self)@.update(i, (name@, source)) && res == Some(
                    old(self)@[i].1,
                ),
                None => final(self)@ == old(self)@.push((name@, source)) && res is None,
            },
            distinct_names(old(self)@) ==> distinct_names(final(self)@),
    {
        let ghost before = self@;
        match self.find(name.as_str()) {
            Some(i) => {
                proof {
                    lemma_position(before, name@, i as int);
                }
                let mut tail = self.entries.split_off(i);
                let old_entry = tail.remove(0);
                self.entries.push((name, source));
                self.entries.append(&mut tail);
                assert(self@ =~= before.update(i as int, (name@, source)));
                assert(old_entry.1 == before[i as int].1);
                assert(distinct_names(before) ==> distinct_names(self@)) by {
                    if distinct_names(before) {
                        assert forall|a: int, b: int|
                            0 <= a < self@.len() && 0 <= b < self@.len() && a != b implies (
                        #[trigger] self@[a]).0 != (#[trigger] self@[b]).0 by {
                            assert(self@[a].0 == before[a].0);
                            assert(self@[b].0 == before[b].0);
                        }
                    }
                }
                Some(old_entry.1)
            },
            None => {
                proof {
                    lemma_no_position(before, name@);
                }
                self.entries.push((name, source));
                assert(self@ =~= before.push((name@, source)));
                assert(distinct_names(before) ==> distinct_names(self@)) by {
                    if distinct_names(before) {
                        assert forall|a: int, b: int|
                            0 <= a < self@.len() && 0 <= b < self@.len() && a != b implies (
                        #[trigger] self@[a]).0 != (#[trigger] self@[b]).0 by {
                            if a < before.len() {
                                assert(self@[a] == before[a]);
                            }
                            if b < before.len() {
                                assert(self@[b] == before[b]);
                            }
                        }
                    }
                }
                None
            },
        }
    }
}

/// Whether the sources among `entries` can all be read, and no two of them
/// have one name.
pub open spec fn sources_readable(entries: Seq<(Seq<char>, ValueView)>) -> bool {
    &&& forall|i: int| 0 <= i < entries.len() ==> Source::spec_read((#[trigger] entries[i]).1) is Some
    &&& forall|i: int, j: int|
        0 <= i < entries.len() && 0 <= j < entries.len() && i != j ==> (#[trigger] entries[i]).0
            != (#[trigger] entries[j]).0
}

/// The wire forms of what the sources among `entries` are read as.
pub open spec fn read_sources(entries: Seq<(Seq<char>, ValueView)>) -> Seq<(Seq<char>, ValueView)> {
    Seq::new(entries.len(), |i: int| (entries[i].0, Source::spec_read(entries[i].1)->Some_0))
}

impl FromWire for Sources {
    /// Sources are read from an object that holds a source under each name,
    /// and no name twice.
    open spec fn spec_read(value: ValueView) -> Option<ValueView> {
        match value {
            ValueView::Object(entries) => if sources_readable(entries) {
                Some(ValueView::Object(read_sources(entries)))
            } else {
                None
            },
            _ => None,
        }
    }

    /// Sources come back where no two of them have one name and each comes
    /// back.
    open spec fn comes_back(&self) -> bool {
        &&& distinct_names(self@)
        &&& forall|i: int| 0 <= i < self@.len() ==> (#[trigger] self@[i]).1.comes_back()
    }

    fn from_wire(value: &Value) -> (res: Option<Sources>) {
        match value {
            Value::Object(entries) => {
                proof {
                    crate::wire::lemma_object_view(*entries);
                }
                let ghost views = crate::wire::entries_view(entries@);
                let mut sources = Sources::new();
                let mut i: usize = 0;
                while i < entries.len()
                    invariant
                        i <= entries.len(),
                        sources@.len() == i,
                        views == crate::wire::entries_view(entries@),
                        value@ == ValueView::Object(views),
                        forall|j: int|
                            0 <= j < i ==> (#[trigger] sources@[j]).0 == views[j].0
                                && Source::spec_read(views[j].1) == Some(sources@[j].1.wire()),
                        forall|a: int, b: int|
                            0 <= a < i && 0 <= b < i && a != b ==> (#[trigger] views[a]).0 != (
                            #[trigger] views[b]).0,
                    decreases entries.len() - i,
                {
                    let name = &entries[i].0;
                    assert(views[i as int].0 == name@);
                    match sources.find(name.as_str()) {
                        Some(at) => {
                            assert(views[at as int].0 == views[i as int].0);
                            return None;
                        },
                        None => {},
                    }
                    let source = match Source::from_wire(&entries[i].1) {
                        Some(source) => source,
                        None => {
                            assert(Source::spec_read(views[i as int].1) is None);
                            return None;
                        },
                    };
                    let ghost before = sources@;
                    sources.entries.push((name.clone(), source));
                    assert(sources@ =~= before.push((name@, source)));
                    assert forall|a: int, b: int| 0 <= a < i + 1 && 0 <= b < i + 1 && a != b implies (
                    #[trigger] views[a]).0 != (#[trigger] views[b]).0 by {
                        if a < i {
                            assert(sources@[a].0 == views[a].0);
                            assert(before[a] == sources@[a]);
                        }
                        if b < i {
                            assert(sources@[b].0 == views[b].0);
                            assert(before[b] == sources@[b]);
                        }
                    }
                    i += 1;
                }
                proof {
                    assert(sources_readable(views)) by {
                        assert forall|j: int| 0 <= j < views.len() implies Source::spec_read(
                            (#[trigger] views[j]).1,
                        ) is Some by {
                            assert(sources@[j].0 == views[j].0);
                        }
                    }
                    assert(read_sources(views) =~= sources.wire()->Object_0);
                }
                Some(sources)
            },
            _ => None,
        }
    }

    proof fn law_round_trip(&self) {
        let entries = self.wire()->Object_0;
        assert forall|i: int| 0 <= i < entries.len() implies Source::spec_read(
            (#[trigger] entries[i]).1,
        ) == Some(entries[i].1) by {
            self@[i].1.law_round_trip();
        }
        assert forall|i: int, j: int|
            0 <= i < entries.len() && 0 <= j < entries.len() && i != j implies (
        #[trigger] entries[i]).0 != (#[trigger] entries[j]).0 by {
            assert(entries[i].0 == self@[i].0);
            assert(entries[j].0 == self@[j].0);
        }
        assert(read_sources(entries) =~= entries);
    }
}

impl ToWire for Sources {
    /// The object that holds the wire form of each source under its name.
    open spec fn wire(&self) -> ValueView {
        ValueView::Object(Seq::new(self@.len(), |i: int| (self@[i].0, self@[i].1.wire())))
    }

    fn to_wire(&self) -> (value: Value) {
        let mut entries: Vec<(String, Value)> = Vec::new();
        let mut i: usize = 0;
        while i < self.entries.len()
            invariant
                i <= self.entries.len(),
                entries.len() == i,
                forall|j: int|
                    0 <= j < i ==> (#[trigger] entries@[j]).0@ == self@[j].0 && entries@[j].1@
                        == self@[j].1.wire(),
            decreases self.entries.len() - i,
        {
            let name = self.entries[i].0.clone();
            let source = self.entries[i].1.to_wire();
            entries.push((name, source));
            i += 1;
        }
        assert(crate::wire::entries_view(entries@) =~= self.wire()->Object_0);
        Value::object(entries)
    }
}

/// A source of a style: where the data of its layers comes from.
#[derive(Debug, Clone)]
pub struct Source {
    pub type_: String,
    pub tiles: Option<Vec<String>>,
    pub url: Option<String>,
}

impl Default for Source {
    /// A source without a type and without tiles or URL.
    fn default() -> (res: Source)
        ensures
            res.type_@.len() == 0,
            res.tiles is None,
            res.url is None,
    {
        Source {
            type_: String::new(),
            tiles: None,
            url: None,
        }
    }
}

impl Source {
    /// The properties of the wire form, in order: each field under its wire
    /// name, with its wire form where it is set.
    pub open spec fn slots(&self) -> Slots {
        seq![
            ("type"@, Some(self.type_.wire())),
            ("tiles"@, optional_wire(self.tiles)),
            ("url"@, optional_wire(self.url)),
        ]
    }

    /// Offers every field to a builder, in order.
    pub fn to_entries(&self) -> (b: ObjectBuilder)
        ensures
            b.wf(),
            b@ == self.slots(),
    {
        let mut b = ObjectBuilder::new();
        b.wire("type", &self.type_);
        b.optional_wire("tiles", &self.tiles);
        b.optional_wire("url", &self.url);
        b
    }

    /// The place of the field with the wire name `key`, which the length of
    /// the name and a few of its characters tell.
    spec fn place_of(key: Seq<char>) -> int {
        if key.len() == 4 {
            0
        } else if key.len() == 5 {
            1
        } else if key.len() == 3 {
            2
        } else {
            -1
        }
    }

    /// No two fields have one wire name. So looking the wire name of a
    /// field up in the wire form finds the wire form of that field where it
    /// is set, and nothing where it is unset.
    pub proof fn law_wire_names_are_distinct(&self)
        ensures
            distinct_keys(self.slots()),
            forall|i: int|
                0 <= i < self.slots().len() ==> lookup(
                    flatten(self.slots()),
                    (#[trigger] self.slots()[i]).0,
                ) == self.slots()[i].1,
    {
        reveal_strlit("type");
        reveal_strlit("tiles");
        reveal_strlit("url");
        let slots = self.slots();
        assert(Source::place_of(slots[0].0) == 0);
        assert(Source::place_of(slots[1].0) == 1);
        assert(Source::place_of(slots[2].0) == 2);
        assert forall|i: int| 0 <= i < slots.len() implies Source::place_of(
            (#[trigger] slots[i]).0,
        ) - 0 == i by {
        }
        lemma_placed_keys_are_distinct(slots, |key: Seq<char>| Source::place_of(key) - 0);
        assert forall|i: int| 0 <= i < slots.len() implies lookup(
            flatten(slots),
            (#[trigger] slots[i]).0,
        ) == slots[i].1 by {
            law_lookup_of_distinct_keys(slots, i);
        }
    }
}

impl ToWire for Source {
    /// The object of the fields that are set.
    open spec fn wire(&self) -> ValueView {
        ValueView::Object(flatten(self.slots()))
    }

    fn to_wire(&self) -> (value: Value) {
        self.to_entries().finish()
    }
}

impl Source {
    /// Whether every property of a wire value can be read: what must be there
    /// is there, and what is there has the right shape.
    pub open spec fn all_read(value: ValueView) -> bool {
        &&& read_required::<String>(value.get("type"@)) is Some
        &&& read_optional::<Vec<String>>(value.get("tiles"@)) is Some
        &&& read_optional::<String>(value.get("url"@)) is Some
    }

    /// The slots that the properties of a wire value are read as, in order.
    pub open spec fn read_slots(value: ValueView) -> Slots {
        seq![
            ("type"@, read_required::<String>(value.get("type"@))->Some_0),
            ("tiles"@, read_optional::<Vec<String>>(value.get("tiles"@))->Some_0),
            ("url"@, read_optional::<String>(value.get("url"@))->Some_0),
        ]
    }

    /// Reading an object in which looking up the name of each property of
    /// the value finds that property gives the value back.
    pub proof fn lemma_read_from(&self, entries: Seq<(Seq<char>, ValueView)>)
        requires
            self.comes_back(),
            forall|i: int|
                0 <= i < self.slots().len() ==> lookup(entries, (#[trigger] self.slots()[i]).0)
                    == self.slots()[i].1,
        ensures
            Self::spec_read(ValueView::Object(entries)) == Some(self.wire()),
    {
        let value = ValueView::Object(entries);
        let slots = self.slots();
        assert(value.get(slots[0].0) == slots[0].1);
        lemma_required_round_trip::<String>(self.type_);
        assert(value.get(slots[1].0) == slots[1].1);
        lemma_optional_round_trip::<Vec<String>>(self.tiles);
        assert(value.get(slots[2].0) == slots[2].1);
        lemma_optional_round_trip::<String>(self.url);
    }
}

impl FromWire for Source {
    /// The value is read from an object, property by property. Properties of
    /// other names are passed over.
    open spec fn spec_read(value: ValueView) -> Option<ValueView> {
        if value is Object && Self::all_read(value) {
            Some(ValueView::Object(flatten(Self::read_slots(value))))
        } else {
            None
        }
    }

    open spec fn comes_back(&self) -> bool {
        &&& self.type_.comes_back()
        &&& optional_comes_back(self.tiles)
        &&& optional_comes_back(self.url)
    }

    fn from_wire(value: &Value) -> (res: Option<Source>) {
        match value {
            Value::Object(_) => {},
            _ => {
                return None;
            },
        }
        let type_ = match required::<String>(value.get("type")) {
            Some(read) => read,
            None => {
                return None;
            },
        };
        let tiles = match optional::<Vec<String>>(value.get("tiles")) {
            Some(read) => read,
            None => {
                return None;
            },
        };
        let url = match optional::<String>(value.get("url")) {
            Some(read) => read,
            None => {
                return None;
            },
        };
        Some(Source { type_, tiles, url })
    }

    proof fn law_round_trip(&self) {
        self.law_wire_names_are_distinct();
        self.lemma_read_from(flatten(self.slots()));
    }
}

/// How a map takes on a new style.
#[derive(Debug, Clone)]
pub struct StyleOptions {
    pub diff: Option<bool>,
    pub local_ideograph_font_family: Option<String>,
}

impl Default for StyleOptions {
    /// Every optional field is unset.
    fn default() -> (res: StyleOptions)
        ensures
            res.diff is None,
            res.local_ideograph_font_family is None,
    {
        StyleOptions {
            diff: None,
            local_ideograph_font_family: None,
        }
    }
}

impl StyleOptions {
    /// The options with nothing set.
    pub fn new() -> (res: StyleOptions)
        ensures
            res.diff is None,
            res.local_ideograph_font_family is None,
    {
        StyleOptions { diff: None, local_ideograph_font_family: None }
    }

    /// The properties of the wire form, in order: each field under its wire
    /// name, with its wire form where it is set.
    pub open spec fn slots(&self) -> Slots {
        seq![
            ("diff"@, optional_wire(self.diff)),
            ("localIdeographFontFamily"@, optional_wire(self.local_ideograph_font_family)),
        ]
    }

    /// Offers every field to a builder, in order.
    pub fn to_entries(&self) -> (b: ObjectBuilder)
        ensures
            b.wf(),
            b@ == self.slots(),
    {
        let mut b = ObjectBuilder::new();
        b.optional_wire("diff", &self.diff);
        b.optional_wire("localIdeographFontFamily", &self.local_ideograph_font_family);
        b
    }

    /// The place of the field with the wire name `key`, which the length of
    /// the name and a few of its characters tell.
    spec fn place_of(key: Seq<char>) -> int {
        if key.len() == 4 {
            0
        } else if key.len() == 24 {
            1
        } else {
            -1
        }
    }

    /// No two fields have one wire name. So looking the wire name of a
    /// field up in the wire form finds the wire form of that field where it
    /// is set, and nothing where it is unset.
    pub proof fn law_wire_names_are_distinct(&self)
        ensures
            distinct_keys(self.slots()),
            forall|i: int|
                0 <= i < self.slots().len() ==> lookup(
                    flatten(self.slots()),
                    (#[trigger] self.slots()[i]).0,
                ) == self.slots()[i].1,
    {
        reveal_strlit("diff");
        reveal_strlit("localIdeographFontFamily");
        let slots = self.slots();
        assert(StyleOptions::place_of(slots[0].0) == 0);
        assert(StyleOptions::place_of(slots[1].0) == 1);
        assert forall|i: int| 0 <= i < slots.len() implies StyleOptions::place_of(
            (#[trigger] slots[i]).0,
        ) - 0 == i by {
        }
        lemma_placed_keys_are_distinct(slots, |key: Seq<char>| StyleOptions::place_of(key) - 0);
        assert forall|i: int| 0 <= i < slots.len() implies lookup(
            flatten(slots),
            (#[trigger] slots[i]).0,
        ) == slots[i].1 by {
            law_lookup_of_distinct_keys(slots, i);
        }
    }
}

impl ToWire for StyleOptions {
    /// The object of the fields that are set.
    open spec fn wire(&self) -> ValueView {
        ValueView::Object(flatten(self.slots()))
    }

    fn to_wire(&self) -> (value: Value) {
        self.to_entries().finish()
    }
}

impl StyleOptions {
    /// Whether every property of a wire value can be read: what must be there
    /// is there, and what is there has the right shape.
    pub open spec fn all_read(value: ValueView) -> bool {
        &&& read_optional::<bool>(value.get("diff"@)) is Some
        &&& read_optional::<String>(value.get("localIdeographFontFamily"@)) is Some
    }

    /// The slots that the properties of a wire value are read as, in order.
    pub open spec fn read_slots(value: ValueView) -> Slots {
        seq![
            ("diff"@, read_optional::<bool>(value.get("diff"@))->Some_0),
            ("localIdeographFontFamily"@, read_optional::<String>(value.get("localIdeographFontFamily"@))->Some_0),
        ]
    }

    /// Reading an object in which looking up the name of each property of
    /// the value finds that property gives the value back.
    pub proof fn lemma_read_from(&self, entries: Seq<(Seq<char>, ValueView)>)
        requires
            self.comes_back(),
            forall|i: int|
                0 <= i < self.slots().len() ==> lookup(entries, (#[trigger] self.slots()[i]).0)
                    == self.slots()[i].1,
        ensures
            Self::spec_read(ValueView::Object(entries)) == Some(self.wire()),
    {
        let value = ValueView::Object(entries);
        let slots = self.slots();
        assert(value.get(slots[0].0) == slots[0].1);
        lemma_optional_round_trip::<bool>(self.diff);
        assert(value.get(slots[1].0) == slots[1].1);
        lemma_optional_round_trip::<String>(self.local_ideograph_font_family);
    }
}

impl FromWire for StyleOptions {
    /// The value is read from an object, property by property. Properties of
    /// other names are passed over.
    open spec fn spec_read(value: ValueView) -> Option<ValueView> {
        if value is Object && Self::all_read(value) {
            Some(ValueView::Object(flatten(Self::read_slots(value))))
        } else {
            None
        }
    }

    open spec fn comes_back(&self) -> bool {
        &&& optional_comes_back(self.diff)
        &&& optional_comes_back(self.local_ideograph_font_family)
    }

    fn from_wire(value: &Value) -> (res: Option<StyleOptions>) {
        match value {
            Value::Object(_) => {},
            _ => {
                return None;
            },
        }
        let diff = match optional::<bool>(value.get("diff")) {
            Some(read) => read,
            None => {
                return None;
            },
        };
        let local_ideograph_font_family = match optional::<String>(value.get("localIdeographFontFamily")) {
            Some(read) => read,
            None => {
                return None;
            },
        };
        Some(StyleOptions { diff, local_ideograph_font_family })
    }

    proof fn law_round_trip(&self) {
        self.law_wire_names_are_distinct();
        self.lemma_read_from(flatten(self.slots()));
    }
}

/// The versions of the SDKs that support a style.
#[derive(Debug, Clone)]
pub struct MapboxSdkSupport {
    pub js: Option<String>,
    pub android: Option<String>,
    pub ios: Option<String>,
}

impl MapboxSdkSupport {
    /// The properties of the wire form, in order: each field under its wire
    /// name, with its wire form where it is set.
    pub open spec fn slots(&self) -> Slots {
        seq![
            ("js"@, optional_wire(self.js)),
            ("android"@, optional_wire(self.android)),
            ("ios"@, optional_wire(self.ios)),
        ]
    }

    /// Offers every field to a builder, in order.
    pub fn to_entries(&self) -> (b: ObjectBuilder)
        ensures
            b.wf(),
            b@ == self.slots(),
    {
        let mut b = ObjectBuilder::new();
        b.optional_wire("js", &self.js);
        b.optional_wire("android", &self.android);
        b.optional_wire("ios", &self.ios);
        b
    }

    /// The place of the field with the wire name `key`, which the length of
    /// the name and a few of its characters tell.
    spec fn place_of(key: Seq<char>) -> int {
        if key.len() == 2 {
            0
        } else if key.len() == 7 {
            1
        } else if key.len() == 3 {
            2
        } else {
            -1
        }
    }

    /// No two fields have one wire name. So looking the wire name of a
    /// field up in the wire form finds the wire form of that field where it
    /// is set, and nothing where it is unset.
    pub proof fn law_wire_names_are_distinct(&self)
        ensures
            distinct_keys(self.slots()),
            forall|i: int|
                0 <= i < self.slots().len() ==> lookup(
                    flatten(self.slots()),
                    (#[trigger] self.slots()[i]).0,
                ) == self.slots()[i].1,
    {
        reveal_strlit("js");
        reveal_strlit("android");
        reveal_strlit("ios");
        let slots = self.slots();
        assert(MapboxSdkSupport::place_of(slots[0].0) == 0);
        assert(MapboxSdkSupport::place_of(slots[1].0) == 1);
        assert(MapboxSdkSupport::place_of(slots[2].0) == 2);
        assert forall|i: int| 0 <= i < slots.len() implies MapboxSdkSupport::place_of(
            (#[trigger] slots[i]).0,
        ) - 0 == i by {
        }
        lemma_placed_keys_are_distinct(slots, |key: Seq<char>| MapboxSdkSupport::place_of(key) - 0);
        assert forall|i: int| 0 <= i < slots.len() implies lookup(
            flatten(slots),
            (#[trigger] slots[i]).0,
        ) == slots[i].1 by {
            law_lookup_of_distinct_keys(slots, i);
        }
    }
}

impl ToWire for MapboxSdkSupport {
    /// The object of the fields that are set.
    open spec fn wire(&self) -> ValueView {
        ValueView::Object(flatten(self.slots()))
    }

    fn to_wire(&self) -> (value: Value) {
        self.to_entries().finish()
    }
}

impl MapboxSdkSupport {
    /// Whether every property of a wire value can be read: what must be there
    /// is there, and what is there has the right shape.
    pub open spec fn all_read(value: ValueView) -> bool {
        &&& read_optional::<String>(value.get("js"@)) is Some
        &&& read_optional::<String>(value.get("android"@)) is Some
        &&& read_optional::<String>(value.get("ios"@)) is Some
    }

    /// The slots that the properties of a wire value are read as, in order.
    pub open spec fn read_slots(value: ValueView) -> Slots {
        seq![
            ("js"@, read_optional::<String>(value.get("js"@))->Some_0),
            ("android"@, read_optional::<String>(value.get("android"@))->Some_0),
            ("ios"@, read_optional::<String>(value.get("ios"@))->Some_0),
        ]
    }

    /// Reading an object in which looking up the name of each property of
    /// the value finds that property gives the value back.
    pub proof fn lemma_read_from(&self, entries: Seq<(Seq<char>, ValueView)>)
        requires
            self.comes_back(),
            forall|i: int|
                0 <= i < self.slots().len() ==> lookup(entries, (#[trigger] self.slots()[i]).0)
                    == self.slots()[i].1,
        ensures
            Self::spec_read(ValueView::Object(entries)) == Some(self.wire()),
    {
        let value = ValueView::Object(entries);
        let slots = self.slots();
        assert(value.get(slots[0].0) == slots[0].1);
        lemma_optional_round_trip::<String>(self.js);
        assert(value.get(slots[1].0) == slots[1].1);
        lemma_optional_round_trip::<String>(self.android);
        assert(value.get(slots[2].0) == slots[2].1);
        lemma_optional_round_trip::<String>(self.ios);
    }
}

impl FromWire for MapboxSdkSupport {
    /// The value is read from an object, property by property. Properties of
    /// other names are passed over.
    open spec fn spec_read(value: ValueView) -> Option<ValueView> {
        if value is Object && Self::all_read(value) {
            Some(ValueView::Object(flatten(Self::read_slots(value))))
        } else {
            None
        }
    }

    open spec fn comes_back(&self) -> bool {
        &&& optional_comes_back(self.js)
        &&& optional_comes_back(self.android)
        &&& optional_comes_back(self.ios)
    }

    fn from_wire(value: &Value) -> (res: Option<MapboxSdkSupport>) {
        match value {
            Value::Object(_) => {},
            _ => {
                return None;
            },
        }
        let js = match optional::<String>(value.get("js")) {
            Some(read) => read,
            None => {
                return None;
            },
        };
        let android = match optional::<String>(value.get("android")) {
            Some(read) => read,
            None => {
                return None;
            },
        };
        let ios = match optional::<String>(value.get("ios")) {
            Some(read) => read,
            None => {
                return None;
            },
        };
        Some(MapboxSdkSupport { js, android, ios })
    }

    proof fn law_round_trip(&self) {
        self.law_wire_names_are_distinct();
        self.lemma_read_from(flatten(self.slots()));
    }
}

/// What a style tells of itself.
#[derive(Debug, Clone)]
pub struct Metadata {
    pub mapbox_origin: Option<String>,
    pub mapbox_autocomposite: Option<bool>,
    pub mapbox_type: Option<String>,
    pub mapbox_sdk_support: Option<MapboxSdkSupport>,
}

impl Metadata {
    /// The properties of the wire form, in order: each field under its wire
    /// name, with its wire form where it is set.
    pub open spec fn slots(&self) -> Slots {
        seq![
            ("mapbox:origin"@, optional_wire(self.mapbox_origin)),
            ("mapbox:autocomposite"@, optional_wire(self.mapbox_autocomposite)),
            ("mapbox:type"@, optional_wire(self.mapbox_type)),
            ("mapbox:sdk-support"@, optional_wire(self.mapbox_sdk_support)),
        ]
    }

    /// Offers every field to a builder, in order.
    pub fn to_entries(&self) -> (b: ObjectBuilder)
        ensures
            b.wf(),
            b@ == self.slots(),
    {
        let mut b = ObjectBuilder::new();
        b.optional_wire("mapbox:origin", &self.mapbox_origin);
        b.optional_wire("mapbox:autocomposite", &self.mapbox_autocomposite);
        b.optional_wire("mapbox:type", &self.mapbox_type);
        b.optional_wire("mapbox:sdk-support", &self.mapbox_sdk_support);
        b
    }

    /// The place of the field with the wire name `key`, which the length of
    /// the name and a few of its characters tell.
    spec fn place_of(key: Seq<char>) -> int {
        if key.len() == 13 {
            0
        } else if key.len() == 20 {
            1
        } else if key.len() == 11 {
            2
        } else if key.len() == 18 {
            3
        } else {
            -1
        }
    }

    /// No two fields have one wire name. So looking the wire name of a
    /// field up in the wire form finds the wire form of that field where it
    /// is set, and nothing where it is unset.
    pub proof fn law_wire_names_are_distinct(&self)
        ensures
            distinct_keys(self.slots()),
            forall|i: int|
                0 <= i < self.slots().len() ==> lookup(
                    flatten(self.slots()),
                    (#[trigger] self.slots()[i]).0,
                ) == self.slots()[i].1,
    {
        reveal_strlit("mapbox:origin");
        reveal_strlit("mapbox:autocomposite");
        reveal_strlit("mapbox:type");
        reveal_strlit("mapbox:sdk-support");
        let slots = self.slots();
        assert(Metadata::place_of(slots[0].0) == 0);
        assert(Metadata::place_of(slots[1].0) == 1);
        assert(Metadata::place_of(slots[2].0) == 2);
        assert(Metadata::place_of(slots[3].0) == 3);
        assert forall|i: int| 0 <= i < slots.len() implies Metadata::place_of(
            (#[trigger] slots[i]).0,
        ) - 0 == i by {
        }
        lemma_placed_keys_are_distinct(slots, |key: Seq<char>| Metadata::place_of(key) - 0);
        assert forall|i: int| 0 <= i < slots.len() implies lookup(
            flatten(slots),
            (#[trigger] slots[i]).0,
        ) == slots[i].1 by {
            law_lookup_of_distinct_keys(slots, i);
        }
    }
}

impl ToWire for Metadata {
    /// The object of the fields that are set.
    open spec fn wire(&self) -> ValueView {
        ValueView::Object(flatten(self.slots()))
    }

    fn to_wire(&self) -> (value: Value) {
        self.to_entries().finish()
    }
}

impl Metadata {
    /// Whether every property of a wire value can be read: what must be there
    /// is there, and what is there has the right shape.
    pub open spec fn all_read(value: ValueView) -> bool {
        &&& read_optional::<String>(value.get("mapbox:origin"@)) is Some
        &&& read_optional::<bool>(value.get("mapbox:autocomposite"@)) is Some
        &&& read_optional::<String>(value.get("mapbox:type"@)) is Some
        &&& read_optional::<MapboxSdkSupport>(value.get("mapbox:sdk-support"@)) is Some
    }

    /// The slots that the properties of a wire value are read as, in order.
    pub open spec fn read_slots(value: ValueView) -> Slots {
        seq![
            ("mapbox:origin"@, read_optional::<String>(value.get("mapbox:origin"@))->Some_0),
            ("mapbox:autocomposite"@, read_optional::<bool>(value.get("mapbox:autocomposite"@))->Some_0),
            ("mapbox:type"@, read_optional::<String>(value.get("mapbox:type"@))->Some_0),
            ("mapbox:sdk-support"@, read_optional::<MapboxSdkSupport>(value.get("mapbox:sdk-support"@))->Some_0),
        ]
    }

    /// Reading an object in which looking up the name of each property of
    /// the value finds that property gives the value back.
    pub proof fn lemma_read_from(&self, entries: Seq<(Seq<char>, ValueView)>)
        requires
            self.comes_back(),
            forall|i: int|
                0 <= i < self.slots().len() ==> lookup(entries, (#[trigger] self.slots()[i]).0)
                    == self.slots()[i].1,
        ensures
            Self::spec_read(ValueView::Object(entries)) == Some(self.wire()),
    {
        let value = ValueView::Object(entries);
        let slots = self.slots();
        assert(value.get(slots[0].0) == slots[0].1);
        lemma_optional_round_trip::<String>(self.mapbox_origin);
        assert(value.get(slots[1].0) == slots[1].1);
        lemma_optional_round_trip::<bool>(self.mapbox_autocomposite);
        assert(value.get(slots[2].0) == slots[2].1);
        lemma_optional_round_trip::<String>(self.mapbox_type);
        assert(value.get(slots[3].0) == slots[3].1);
        lemma_optional_round_trip::<MapboxSdkSupport>(self.mapbox_sdk_support);
    }
}

impl FromWire for Metadata {
    /// The value is read from an object, property by property. Properties of
    /// other names are passed over.
    open spec fn spec_read(value: ValueView) -> Option<ValueView> {
        if value is Object && Self::all_read(value) {
            Some(ValueView::Object(flatten(Self::read_slots(value))))
        } else {
            None
        }
    }

    open spec fn comes_back(&self) -> bool {
        &&& optional_comes_back(self.mapbox_origin)
        &&& optional_comes_back(self.mapbox_autocomposite)
        &&& optional_comes_back(self.mapbox_type)
        &&& optional_comes_back(self.mapbox_sdk_support)
    }

    fn from_wire(value: &Value) -> (res: Option<Metadata>) {
        match value {
            Value::Object(_) => {},
            _ => {
                return None;
            },
        }
        let mapbox_origin = match optional::<String>(value.get("mapbox:origin")) {
            Some(read) => read,
            None => {
                return None;
            },
        };
        let mapbox_autocomposite = match optional::<bool>(value.get("mapbox:autocomposite")) {
            Some(read) => read,
            None => {
                return None;
            },
        };
        let mapbox_type = match optional::<String>(value.get("mapbox:type")) {
            Some(read) => read,
            None => {
                return None;
            },
        };
        let mapbox_sdk_support = match optional::<MapboxSdkSupport>(value.get("mapbox:sdk-support")) {
            Some(read) => read,
            None => {
                return None;
            },
        };
        Some(Metadata { mapbox_origin, mapbox_autocomposite, mapbox_type, mapbox_sdk_support })
    }

    proof fn law_round_trip(&self) {
        self.law_wire_names_are_distinct();
        self.lemma_read_from(flatten(self.slots()));
    }
}

} // verus!
