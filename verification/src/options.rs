//! The options that a map is built and queried with, and their wire forms.
//!
//! The wire name of an option is its name in camel case. An option that is
//! unset is left out of the wire form.

use vstd::prelude::*;
use vstd::string::StringExecFns;
use crate::error::{Error, ErrorView, Result};
use crate::lnglat::LngLat;
use crate::style::{Style, StyleOrRef};
use crate::wire::{
    distinct_keys, flatten, is_safe_integer, law_lookup_of_distinct_keys,
    lemma_flatten_concat, lemma_list_round_trip, lemma_optional_round_trip,
    lemma_placed_keys_are_distinct, lemma_required_round_trip, list,
    list_comes_back, lookup, nonempty_wire, optional, optional_comes_back, optional_wire,
    read_list, read_optional, read_required, ref_view, required, FromWire, Number,
    ObjectBuilder, Slots, ToWire, Value, ValueView,
};

verus! {

/// The attribution that a map shows besides its own: one line, or several.
#[derive(Debug, Clone)]
pub enum CustomAttribution {
    Single(String),
    Multiple(Vec<String>),
}

impl ToWire for CustomAttribution {
    /// One line as a string, several as an array of strings.
    open spec fn wire(&self) -> ValueView {
        match self {
            CustomAttribution::Single(line) => line.wire(),
            CustomAttribution::Multiple(lines) => lines.wire(),
        }
    }

    fn to_wire(&self) -> (value: Value) {
        match self {
            CustomAttribution::Single(line) => line.to_wire(),
            CustomAttribution::Multiple(lines) => lines.to_wire(),
        }
    }
}

impl FromWire for CustomAttribution {
    /// An attribution is read from a string, and else from an array of
    /// strings.
    open spec fn spec_read(value: ValueView) -> Option<ValueView> {
        match value {
            ValueView::String(_) => Some(value),
            _ => Vec::<String>::spec_read(value),
        }
    }

    open spec fn comes_back(&self) -> bool {
        true
    }

    fn from_wire(value: &Value) -> (res: Option<CustomAttribution>) {
        match value {
            Value::String(line) => Some(CustomAttribution::Single(line.clone())),
            _ => match Vec::<String>::from_wire(value) {
                Some(lines) => Some(CustomAttribution::Multiple(lines)),
                None => None,
            },
        }
    }

    proof fn law_round_trip(&self) {
        match self {
            CustomAttribution::Single(_) => {},
            CustomAttribution::Multiple(lines) => {
                lines.law_round_trip();
            },
        }
    }
}

/// What reading an optional integer comes to: unset where it is absent or
/// null, nothing where it is no integer that the engine's number type holds
/// exactly, or is negative where it must not be, and else the integer.
pub open spec fn read_integer(found: Option<ValueView>, signed: bool) -> Option<Option<ValueView>> {
    match found {
        None => Some(None),
        Some(ValueView::Null) => Some(None),
        Some(ValueView::Number(Number::Int(n))) => if is_safe_integer(n as int) && (signed || n
            >= 0) {
            Some(found)
        } else {
            None
        },
        Some(_) => None,
    }
}

/// Reads an optional signed integer.
pub fn optional_i64(found: Option<&Value>) -> (res: Option<Option<i64>>)
    ensures
        match res {
            Some(x) => integer_fits(signed(x)) && read_integer(ref_view(found), true) == Some(
                integer_wire(signed(x)),
            ),
            None => read_integer(ref_view(found), true) is None,
        },
{
    match found {
        None => Some(None),
        Some(Value::Null) => Some(None),
        Some(Value::Number(Number::Int(n))) => match Number::from_i64(*n) {
            Some(_) => Some(Some(*n)),
            None => None,
        },
        Some(_) => None,
    }
}

/// Reads an optional unsigned integer.
pub fn optional_u64(found: Option<&Value>) -> (res: Option<Option<u64>>)
    ensures
        match res {
            Some(x) => integer_fits(unsigned(x)) && read_integer(ref_view(found), false) == Some(
                integer_wire(unsigned(x)),
            ),
            None => read_integer(ref_view(found), false) is None,
        },
{
    match found {
        None => Some(None),
        Some(Value::Null) => Some(None),
        Some(Value::Number(Number::Int(n))) => if 0 <= *n && *n <= crate::wire::MAX_SAFE_INTEGER {
            Some(Some(*n as u64))
        } else {
            None
        },
        Some(_) => None,
    }
}

/// The wire form of an optional string, given by its characters.
pub open spec fn chars_wire(value: Option<Seq<char>>) -> Option<ValueView> {
    match value {
        Some(s) => Some(ValueView::String(s)),
        None => None,
    }
}

/// The wire form of an optional integer.
pub open spec fn integer_wire(value: Option<int>) -> Option<ValueView> {
    match value {
        Some(n) => Some(ValueView::Number(Number::Int(n as i64))),
        None => None,
    }
}

/// Whether an optional integer has a wire form: an integer that is set must
/// be one that the engine's number type holds exactly.
pub open spec fn integer_fits(value: Option<int>) -> bool {
    match value {
        Some(n) => is_safe_integer(n),
        None => true,
    }
}

/// A signed integer as a mathematical one.
pub open spec fn signed(value: Option<i64>) -> Option<int> {
    match value {
        Some(n) => Some(n as int),
        None => None,
    }
}

/// An unsigned integer as a mathematical one.
pub open spec fn unsigned(value: Option<u64>) -> Option<int> {
    match value {
        Some(n) => Some(n as int),
        None => None,
    }
}

/// The error of an option whose integer the engine's number type does not
/// hold exactly. It names the option by its wire name.
pub open spec fn unsafe_integer(option: Seq<char>) -> ErrorView {
    ErrorView::JsError(option + " can't be represented as a JavaScript number"@)
}

/// Encodes an optional signed integer, or fails with the error that names
/// `option`.
pub fn encode_i64(option: &str, value: Option<i64>) -> (res: Result<Option<Value>>)
    ensures
        match res {
            Ok(wire) => integer_fits(signed(value)) && crate::wire::option_view(wire)
                == integer_wire(signed(value)),
            Err(e) => !integer_fits(signed(value)) && e@ == unsafe_integer(option@),
        },
{
    match value {
        None => Ok(None),
        Some(n) => match Number::from_i64(n) {
            Some(number) => Ok(Some(Value::Number(number))),
            None => Err(
                Error::JsError(
                    String::from_str(option).concat(" can't be represented as a JavaScript number"),
                ),
            ),
        },
    }
}

/// Encodes an optional unsigned integer, or fails with the error that names
/// `option`.
pub fn encode_u64(option: &str, value: Option<u64>) -> (res: Result<Option<Value>>)
    ensures
        match res {
            Ok(wire) => integer_fits(unsigned(value)) && crate::wire::option_view(wire)
                == integer_wire(unsigned(value)),
            Err(e) => !integer_fits(unsigned(value)) && e@ == unsafe_integer(option@),
        },
{
    match value {
        None => Ok(None),
        Some(n) => match Number::from_u64(n) {
            Some(number) => Ok(Some(Value::Number(number))),
            None => Err(
                Error::JsError(
                    String::from_str(option).concat(" can't be represented as a JavaScript number"),
                ),
            ),
        },
    }
}

/// The options that a map is built with.
#[derive(Debug, Clone)]
pub struct MapOptions {
    access_token: String,
    antialias: Option<bool>,
    attribution_control: Option<bool>,
    bearing: Option<i64>,
    box_zoom: Option<bool>,
    center: Option<LngLat>,
    click_tolerance: Option<u64>,
    collect_resource_timing: Option<bool>,
    container: String,
    cooperative_gestures: Option<bool>,
    cross_source_collisions: Option<bool>,
    custom_attribution: Option<CustomAttribution>,
    double_click_zoom: Option<bool>,
    drag_pan: Option<bool>,
    style: StyleOrRef,
    projection: Option<String>,
    refresh_expired_tiles: Option<bool>,
    render_world_copies: Option<bool>,
    scroll_zoom: Option<bool>,
    test_mode: Option<bool>,
    zoom: Option<Number>,
}

/// The options of a map as a mathematical term.
pub struct MapOptionsView {
    pub access_token: Seq<char>,
    pub antialias: Option<bool>,
    pub attribution_control: Option<bool>,
    pub bearing: Option<i64>,
    pub box_zoom: Option<bool>,
    pub center: Option<LngLat>,
    pub click_tolerance: Option<u64>,
    pub collect_resource_timing: Option<bool>,
    pub container: Seq<char>,
    pub cooperative_gestures: Option<bool>,
    pub cross_source_collisions: Option<bool>,
    pub custom_attribution: Option<CustomAttribution>,
    pub double_click_zoom: Option<bool>,
    pub drag_pan: Option<bool>,
    pub style: StyleOrRef,
    pub projection: Option<Seq<char>>,
    pub refresh_expired_tiles: Option<bool>,
    pub render_world_copies: Option<bool>,
    pub scroll_zoom: Option<bool>,
    pub test_mode: Option<bool>,
    pub zoom: Option<Number>,
}

impl View for MapOptions {
    type V = MapOptionsView;

    closed spec fn view(&self) -> MapOptionsView {
        MapOptionsView {
            access_token: self.access_token@,
            antialias: self.antialias,
            attribution_control: self.attribution_control,
            bearing: self.bearing,
            box_zoom: self.box_zoom,
            center: self.center,
            click_tolerance: self.click_tolerance,
            collect_resource_timing: self.collect_resource_timing,
            container: self.container@,
            cooperative_gestures: self.cooperative_gestures,
            cross_source_collisions: self.cross_source_collisions,
            custom_attribution: self.custom_attribution,
            double_click_zoom: self.double_click_zoom,
            drag_pan: self.drag_pan,
            style: self.style,
            projection: match self.projection {
                Some(s) => Some(s@),
                None => None,
            },
            refresh_expired_tiles: self.refresh_expired_tiles,
            render_world_copies: self.render_world_copies,
            scroll_zoom: self.scroll_zoom,
            test_mode: self.test_mode,
            zoom: self.zoom,
        }
    }
}

impl MapOptionsView {
    /// Whether every option apart from the access token, the container and
    /// the style is unset.
    pub open spec fn bare(self) -> bool {
        &&& self.antialias is None
        &&& self.attribution_control is None
        &&& self.bearing is None
        &&& self.box_zoom is None
        &&& self.center is None
        &&& self.click_tolerance is None
        &&& self.collect_resource_timing is None
        &&& self.cooperative_gestures is None
        &&& self.cross_source_collisions is None
        &&& self.custom_attribution is None
        &&& self.double_click_zoom is None
        &&& self.drag_pan is None
        &&& self.projection is None
        &&& self.refresh_expired_tiles is None
        &&& self.render_world_copies is None
        &&& self.scroll_zoom is None
        &&& self.test_mode is None
        &&& self.zoom is None
    }

    /// Whether the options have a wire form: the integers among them must be
    /// ones that the engine's number type holds exactly.
    pub open spec fn encodable(self) -> bool {
        integer_fits(signed(self.bearing)) && integer_fits(unsigned(self.click_tolerance))
    }

    /// The properties of the wire form, in order: each option under its wire
    /// name, with its wire form where it is set.
    pub open spec fn slots(self) -> Slots {
        seq![
            ("accessToken"@, Some(ValueView::String(self.access_token))),
            ("antialias"@, optional_wire(self.antialias)),
            ("attributionControl"@, optional_wire(self.attribution_control)),
            ("bearing"@, integer_wire(signed(self.bearing))),
            ("boxZoom"@, optional_wire(self.box_zoom)),
            ("center"@, optional_wire(self.center)),
            ("clickTolerance"@, integer_wire(unsigned(self.click_tolerance))),
            ("collectResourceTiming"@, optional_wire(self.collect_resource_timing)),
            ("container"@, Some(ValueView::String(self.container))),
            ("cooperativeGestures"@, optional_wire(self.cooperative_gestures)),
            ("crossSourceCollisions"@, optional_wire(self.cross_source_collisions)),
            ("customAttribution"@, optional_wire(self.custom_attribution)),
            ("doubleClickZoom"@, optional_wire(self.double_click_zoom)),
            ("dragPan"@, optional_wire(self.drag_pan)),
            ("style"@, Some(self.style.wire())),
            ("projection"@, chars_wire(self.projection)),
            ("refreshExpiredTiles"@, optional_wire(self.refresh_expired_tiles)),
            ("renderWorldCopies"@, optional_wire(self.render_world_copies)),
            ("scrollZoom"@, optional_wire(self.scroll_zoom)),
            ("testMode"@, optional_wire(self.test_mode)),
            ("zoom"@, optional_wire(self.zoom)),
        ]
    }

    /// The wire form: the object of the options that are set.
    pub open spec fn wire(self) -> ValueView {
        ValueView::Object(flatten(self.slots()))
    }

    /// What building the options gives: the wire form, or the error that
    /// names the first option whose integer does not fit.
    pub open spec fn build(self) -> std::result::Result<ValueView, ErrorView> {
        if !integer_fits(signed(self.bearing)) {
            Err(unsafe_integer("bearing"@))
        } else if !integer_fits(unsigned(self.click_tolerance)) {
            Err(unsafe_integer("clickTolerance"@))
        } else {
            Ok(self.wire())
        }
    }
}

impl MapOptionsView {
    /// The place of the option with the wire name `key`, which the length of
    /// the name and a few of its characters tell.
    spec fn place_of(key: Seq<char>) -> int {
        if key.len() == 11 && key[1] == 'c' {
            0
        } else if key.len() == 9 && key[1] == 'n' {
            1
        } else if key.len() == 18 && key[1] == 't' {
            2
        } else if key.len() == 7 && key[1] == 'e' {
            3
        } else if key.len() == 7 && key[1] == 'o' {
            4
        } else if key.len() == 6 && key[1] == 'e' {
            5
        } else if key.len() == 14 && key[1] == 'l' {
            6
        } else if key.len() == 21 && key[1] == 'o' {
            7
        } else if key.len() == 9 && key[1] == 'o' {
            8
        } else if key.len() == 19 && key[1] == 'o' {
            9
        } else if key.len() == 21 && key[1] == 'r' {
            10
        } else if key.len() == 17 && key[1] == 'u' {
            11
        } else if key.len() == 15 && key[1] == 'o' {
            12
        } else if key.len() == 7 && key[1] == 'r' {
            13
        } else if key.len() == 5 && key[1] == 't' {
            14
        } else if key.len() == 10 && key[1] == 'r' {
            15
        } else if key.len() == 19 && key[1] == 'e' {
            16
        } else if key.len() == 17 && key[1] == 'e' {
            17
        } else if key.len() == 10 && key[1] == 'c' {
            18
        } else if key.len() == 8 && key[1] == 'e' {
            19
        } else if key.len() == 4 && key[1] == 'o' {
            20
        } else {
            -1
        }
    }

    /// No two options have one wire name. So looking the wire name of a
    /// option up in the wire form finds the wire form of that option where it
    /// is set, and nothing where it is unset.
    #[verifier::rlimit(50)]
    pub proof fn law_wire_names_are_distinct(self)
        ensures
            distinct_keys(self.slots()),
            forall|i: int|
                0 <= i < self.slots().len() ==> lookup(
                    flatten(self.slots()),
                    (#[trigger] self.slots()[i]).0,
                ) == self.slots()[i].1,
    {
        reveal_strlit("accessToken");
        reveal_strlit("antialias");
        reveal_strlit("attributionControl");
        reveal_strlit("bearing");
        reveal_strlit("boxZoom");
        reveal_strlit("center");
        reveal_strlit("clickTolerance");
        reveal_strlit("collectResourceTiming");
        reveal_strlit("container");
        reveal_strlit("cooperativeGestures");
        reveal_strlit("crossSourceCollisions");
        reveal_strlit("customAttribution");
        reveal_strlit("doubleClickZoom");
        reveal_strlit("dragPan");
        reveal_strlit("style");
        reveal_strlit("projection");
        reveal_strlit("refreshExpiredTiles");
        reveal_strlit("renderWorldCopies");
        reveal_strlit("scrollZoom");
        reveal_strlit("testMode");
        reveal_strlit("zoom");
        let slots = self.slots();
        assert(MapOptionsView::place_of(slots[0].0) == 0);
        assert(MapOptionsView::place_of(slots[1].0) == 1);
        assert(MapOptionsView::place_of(slots[2].0) == 2);
        assert(MapOptionsView::place_of(slots[3].0) == 3);
        assert(MapOptionsView::place_of(slots[4].0) == 4);
        assert(MapOptionsView::place_of(slots[5].0) == 5);
        assert(MapOptionsView::place_of(slots[6].0) == 6);
        assert(MapOptionsView::place_of(slots[7].0) == 7);
        assert(MapOptionsView::place_of(slots[8].0) == 8);
        assert(MapOptionsView::place_of(slots[9].0) == 9);
        assert(MapOptionsView::place_of(slots[10].0) == 10);
        assert(MapOptionsView::place_of(slots[11].0) == 11);
        assert(MapOptionsView::place_of(slots[12].0) == 12);
        assert(MapOptionsView::place_of(slots[13].0) == 13);
        assert(MapOptionsView::place_of(slots[14].0) == 14);
        assert(MapOptionsView::place_of(slots[15].0) == 15);
        assert(MapOptionsView::place_of(slots[16].0) == 16);
        assert(MapOptionsView::place_of(slots[17].0) == 17);
        assert(MapOptionsView::place_of(slots[18].0) == 18);
        assert(MapOptionsView::place_of(slots[19].0) == 19);
        assert(MapOptionsView::place_of(slots[20].0) == 20);
        assert forall|i: int| 0 <= i < slots.len() implies MapOptionsView::place_of(
            (#[trigger] slots[i]).0,
        ) - 0 == i by {
        }
        lemma_placed_keys_are_distinct(slots, |key: Seq<char>| MapOptionsView::place_of(key) - 0);
        assert forall|i: int| 0 <= i < slots.len() implies lookup(
            flatten(slots),
            (#[trigger] slots[i]).0,
        ) == slots[i].1 by {
            law_lookup_of_distinct_keys(slots, i);
        }
    }
}

impl MapOptions {
    /// The options for a map that is authorised by `access_token` and drawn
    /// into the element named `container`. The style is the reference to the
    /// engine's standard street style; nothing else is set.
    pub fn new(access_token: String, container: String) -> (res: MapOptions)
        ensures
            res@.access_token == access_token@,
            res@.container == container@,
            res@.style is Ref,
            res@.style->Ref_0@ == "mapbox://styles/mapbox/streets-v11"@,
            res@.bare(),
    {
        MapOptions {
            access_token,
            antialias: None,
            attribution_control: None,
            bearing: None,
            box_zoom: None,
            center: None,
            click_tolerance: None,
            collect_resource_timing: None,
            container,
            cooperative_gestures: None,
            cross_source_collisions: None,
            custom_attribution: None,
            double_click_zoom: None,
            drag_pan: None,
            style: StyleOrRef::default(),
            projection: None,
            refresh_expired_tiles: None,
            render_world_copies: None,
            scroll_zoom: None,
            test_mode: None,
            zoom: None,
        }
    }

    /// The same options with the style document `style`.
    pub fn style(self, style: Style) -> (res: MapOptions)
        ensures
            res@ == (MapOptionsView { style: StyleOrRef::Style(style), ..self@ }),
    {
        let mut res = self;
        res.style = StyleOrRef::Style(style);
        res
    }

    /// The same options with the style that `style` refers to.
    pub fn style_ref(self, style: String) -> (res: MapOptions)
        ensures
            res@ == (MapOptionsView { style: StyleOrRef::Ref(style), ..self@ }),
    {
        let mut res = self;
        res.style = StyleOrRef::Ref(style);
        res
    }

    /// The same options with the projection named `projection`.
    pub fn projection(self, projection: String) -> (res: MapOptions)
        ensures
            res@ == (MapOptionsView { projection: Some(projection@), ..self@ }),
    {
        let mut res = self;
        res.projection = Some(projection);
        res
    }

    /// The same options with the map centered on `latlng`.
    pub fn center(self, latlng: LngLat) -> (res: MapOptions)
        ensures
            res@ == (MapOptionsView { center: Some(latlng), ..self@ }),
    {
        let mut res = self;
        res.center = Some(latlng);
        res
    }

    /// The same options with the zoom level `zoom`.
    pub fn zoom(self, zoom: Number) -> (res: MapOptions)
        ensures
            res@ == (MapOptionsView { zoom: Some(zoom), ..self@ }),
    {
        let mut res = self;
        res.zoom = Some(zoom);
        res
    }

    /// Encodes the options as the configuration that the engine builds a map
    /// from. Fails where an integer among the options does not fit the
    /// engine's number type.
    pub fn build(&self) -> (res: Result<Value>)
        ensures
            match res {
                Ok(value) => self@.build() == Ok::<ValueView, ErrorView>(value@),
                Err(e) => self@.build() == Err::<ValueView, ErrorView>(e@),
            },
    {
        let bearing = encode_i64("bearing", self.bearing)?;
        let click_tolerance = encode_u64("clickTolerance", self.click_tolerance)?;
        let mut b = ObjectBuilder::new();
        b.string("accessToken", self.access_token.as_str());
        b.optional_wire("antialias", &self.antialias);
        b.optional_wire("attributionControl", &self.attribution_control);
        b.optional("bearing", bearing);
        b.optional_wire("boxZoom", &self.box_zoom);
        b.optional_wire("center", &self.center);
        b.optional("clickTolerance", click_tolerance);
        b.optional_wire("collectResourceTiming", &self.collect_resource_timing);
        b.string("container", self.container.as_str());
        b.optional_wire("cooperativeGestures", &self.cooperative_gestures);
        b.optional_wire("crossSourceCollisions", &self.cross_source_collisions);
        b.optional_wire("customAttribution", &self.custom_attribution);
        b.optional_wire("doubleClickZoom", &self.double_click_zoom);
        b.optional_wire("dragPan", &self.drag_pan);
        b.wire("style", &self.style);
        b.optional_wire("projection", &self.projection);
        assert(optional_wire(self.projection) == chars_wire(self@.projection));
        b.optional_wire("refreshExpiredTiles", &self.refresh_expired_tiles);
        b.optional_wire("renderWorldCopies", &self.render_world_copies);
        b.optional_wire("scrollZoom", &self.scroll_zoom);
        b.optional_wire("testMode", &self.test_mode);
        b.optional_wire("zoom", &self.zoom);
        assert(b@ =~= self@.slots());
        Ok(b.finish())
    }
}

impl MapOptionsView {
    /// Whether every option of a wire value can be read: what must be there is
    /// there, and what is there has the right shape.
    pub open spec fn all_read(value: ValueView) -> bool {
        &&& read_required::<String>(value.get("accessToken"@)) is Some
        &&& read_optional::<bool>(value.get("antialias"@)) is Some
        &&& read_optional::<bool>(value.get("attributionControl"@)) is Some
        &&& read_integer(value.get("bearing"@), true) is Some
        &&& read_optional::<bool>(value.get("boxZoom"@)) is Some
        &&& read_optional::<LngLat>(value.get("center"@)) is Some
        &&& read_integer(value.get("clickTolerance"@), false) is Some
        &&& read_optional::<bool>(value.get("collectResourceTiming"@)) is Some
        &&& read_required::<String>(value.get("container"@)) is Some
        &&& read_optional::<bool>(value.get("cooperativeGestures"@)) is Some
        &&& read_optional::<bool>(value.get("crossSourceCollisions"@)) is Some
        &&& read_optional::<CustomAttribution>(value.get("customAttribution"@)) is Some
        &&& read_optional::<bool>(value.get("doubleClickZoom"@)) is Some
        &&& read_optional::<bool>(value.get("dragPan"@)) is Some
        &&& read_required::<StyleOrRef>(value.get("style"@)) is Some
        &&& read_optional::<String>(value.get("projection"@)) is Some
        &&& read_optional::<bool>(value.get("refreshExpiredTiles"@)) is Some
        &&& read_optional::<bool>(value.get("renderWorldCopies"@)) is Some
        &&& read_optional::<bool>(value.get("scrollZoom"@)) is Some
        &&& read_optional::<bool>(value.get("testMode"@)) is Some
        &&& read_optional::<Number>(value.get("zoom"@)) is Some
    }

    /// The slots that the options of a wire value are read as, in order.
    pub open spec fn read_slots(value: ValueView) -> Slots {
        seq![
            ("accessToken"@, read_required::<String>(value.get("accessToken"@))->Some_0),
            ("antialias"@, read_optional::<bool>(value.get("antialias"@))->Some_0),
            ("attributionControl"@, read_optional::<bool>(value.get("attributionControl"@))->Some_0),
            ("bearing"@, read_integer(value.get("bearing"@), true)->Some_0),
            ("boxZoom"@, read_optional::<bool>(value.get("boxZoom"@))->Some_0),
            ("center"@, read_optional::<LngLat>(value.get("center"@))->Some_0),
            ("clickTolerance"@, read_integer(value.get("clickTolerance"@), false)->Some_0),
            ("collectResourceTiming"@, read_optional::<bool>(value.get("collectResourceTiming"@))->Some_0),
            ("container"@, read_required::<String>(value.get("container"@))->Some_0),
            ("cooperativeGestures"@, read_optional::<bool>(value.get("cooperativeGestures"@))->Some_0),
            ("crossSourceCollisions"@, read_optional::<bool>(value.get("crossSourceCollisions"@))->Some_0),
            ("customAttribution"@, read_optional::<CustomAttribution>(value.get("customAttribution"@))->Some_0),
            ("doubleClickZoom"@, read_optional::<bool>(value.get("doubleClickZoom"@))->Some_0),
            ("dragPan"@, read_optional::<bool>(value.get("dragPan"@))->Some_0),
            ("style"@, read_required::<StyleOrRef>(value.get("style"@))->Some_0),
            ("projection"@, read_optional::<String>(value.get("projection"@))->Some_0),
            ("refreshExpiredTiles"@, read_optional::<bool>(value.get("refreshExpiredTiles"@))->Some_0),
            ("renderWorldCopies"@, read_optional::<bool>(value.get("renderWorldCopies"@))->Some_0),
            ("scrollZoom"@, read_optional::<bool>(value.get("scrollZoom"@))->Some_0),
            ("testMode"@, read_optional::<bool>(value.get("testMode"@))->Some_0),
            ("zoom"@, read_optional::<Number>(value.get("zoom"@))->Some_0),
        ]
    }

    /// The wire form of the options that a wire value is read as, where it can
    /// be read. The options are read from an object, option by option;
    /// properties of other names are passed over.
    pub open spec fn spec_read(value: ValueView) -> Option<ValueView> {
        if value is Object && Self::all_read(value) {
            Some(ValueView::Object(flatten(Self::read_slots(value))))
        } else {
            None
        }
    }

    /// Whether reading the wire form of the options gives the options back:
    /// the integers among them fit the engine's number type, and what else is
    /// set comes back.
    pub open spec fn comes_back(self) -> bool {
        &&& self.encodable()
        &&& optional_comes_back(self.antialias)
        &&& optional_comes_back(self.attribution_control)
        &&& optional_comes_back(self.box_zoom)
        &&& optional_comes_back(self.center)
        &&& optional_comes_back(self.collect_resource_timing)
        &&& optional_comes_back(self.cooperative_gestures)
        &&& optional_comes_back(self.cross_source_collisions)
        &&& optional_comes_back(self.custom_attribution)
        &&& optional_comes_back(self.double_click_zoom)
        &&& optional_comes_back(self.drag_pan)
        &&& self.style.comes_back()
        &&& optional_comes_back(self.refresh_expired_tiles)
        &&& optional_comes_back(self.render_world_copies)
        &&& optional_comes_back(self.scroll_zoom)
        &&& optional_comes_back(self.test_mode)
        &&& optional_comes_back(self.zoom)
    }

    /// Reading the wire form of options that come back succeeds, and what is
    /// read has the wire form of the options.
    pub proof fn law_round_trip(self)
        requires
            self.comes_back(),
        ensures
            Self::spec_read(self.wire()) == Some(self.wire()),
    {
        let value = self.wire();
        let slots = self.slots();
        self.law_wire_names_are_distinct();
        assert(value.get(slots[0].0) == slots[0].1);
        assert(value.get(slots[1].0) == slots[1].1);
        lemma_optional_round_trip::<bool>(self.antialias);
        assert(value.get(slots[2].0) == slots[2].1);
        lemma_optional_round_trip::<bool>(self.attribution_control);
        assert(value.get(slots[3].0) == slots[3].1);
        assert(value.get(slots[4].0) == slots[4].1);
        lemma_optional_round_trip::<bool>(self.box_zoom);
        assert(value.get(slots[5].0) == slots[5].1);
        lemma_optional_round_trip::<LngLat>(self.center);
        assert(value.get(slots[6].0) == slots[6].1);
        assert(value.get(slots[7].0) == slots[7].1);
        lemma_optional_round_trip::<bool>(self.collect_resource_timing);
        assert(value.get(slots[8].0) == slots[8].1);
        assert(value.get(slots[9].0) == slots[9].1);
        lemma_optional_round_trip::<bool>(self.cooperative_gestures);
        assert(value.get(slots[10].0) == slots[10].1);
        lemma_optional_round_trip::<bool>(self.cross_source_collisions);
        assert(value.get(slots[11].0) == slots[11].1);
        lemma_optional_round_trip::<CustomAttribution>(self.custom_attribution);
        assert(value.get(slots[12].0) == slots[12].1);
        lemma_optional_round_trip::<bool>(self.double_click_zoom);
        assert(value.get(slots[13].0) == slots[13].1);
        lemma_optional_round_trip::<bool>(self.drag_pan);
        assert(value.get(slots[14].0) == slots[14].1);
        lemma_required_round_trip::<StyleOrRef>(self.style);
        assert(value.get(slots[15].0) == slots[15].1);
        assert(value.get(slots[16].0) == slots[16].1);
        lemma_optional_round_trip::<bool>(self.refresh_expired_tiles);
        assert(value.get(slots[17].0) == slots[17].1);
        lemma_optional_round_trip::<bool>(self.render_world_copies);
        assert(value.get(slots[18].0) == slots[18].1);
        lemma_optional_round_trip::<bool>(self.scroll_zoom);
        assert(value.get(slots[19].0) == slots[19].1);
        lemma_optional_round_trip::<bool>(self.test_mode);
        assert(value.get(slots[20].0) == slots[20].1);
        lemma_optional_round_trip::<Number>(self.zoom);
    }
}

impl MapOptions {
    fn read_part_0(value: &Value) -> (res: Option<(String, Option<bool>, Option<bool>, Option<i64>, Option<bool>, Option<LngLat>, Option<u64>, Option<bool>,)>)
        ensures
            match res {
                Some(part) => {
                    &&& read_required::<String>(value@.get("accessToken"@)) == Some(Some(ValueView::String(part.0@)))
                    &&& read_optional::<bool>(value@.get("antialias"@)) == Some(optional_wire(part.1))
                    &&& read_optional::<bool>(value@.get("attributionControl"@)) == Some(optional_wire(part.2))
                    &&& read_integer(value@.get("bearing"@), true) == Some(integer_wire(signed(part.3)))
                    &&& integer_fits(signed(part.3))
                    &&& read_optional::<bool>(value@.get("boxZoom"@)) == Some(optional_wire(part.4))
                    &&& read_optional::<LngLat>(value@.get("center"@)) == Some(optional_wire(part.5))
                    &&& read_integer(value@.get("clickTolerance"@), false) == Some(integer_wire(unsigned(part.6)))
                    &&& integer_fits(unsigned(part.6))
                    &&& read_optional::<bool>(value@.get("collectResourceTiming"@)) == Some(optional_wire(part.7))
                },
                None => !MapOptionsView::all_read(value@),
            },
    {
        let access_token = match required::<String>(value.get("accessToken")) {
            Some(read) => read,
            None => {
                return None;
            },
        };
        let antialias = match optional::<bool>(value.get("antialias")) {
            Some(read) => read,
            None => {
                return None;
            },
        };
        let attribution_control = match optional::<bool>(value.get("attributionControl")) {
            Some(read) => read,
            None => {
                return None;
            },
        };
        let bearing = match optional_i64(value.get("bearing")) {
            Some(read) => read,
            None => {
                return None;
            },
        };
        let box_zoom = match optional::<bool>(value.get("boxZoom")) {
            Some(read) => read,
            None => {
                return None;
            },
        };
        let center = match optional::<LngLat>(value.get("center")) {
            Some(read) => read,
            None => {
                return None;
            },
        };
        let click_tolerance = match optional_u64(value.get("clickTolerance")) {
            Some(read) => read,
            None => {
                return None;
            },
        };
        let collect_resource_timing = match optional::<bool>(value.get("collectResourceTiming")) {
            Some(read) => read,
            None => {
                return None;
            },
        };
        Some((access_token, antialias, attribution_control, bearing, box_zoom, center, click_tolerance, collect_resource_timing,))
    }

    fn read_part_1(value: &Value) -> (res: Option<(String, Option<bool>, Option<bool>, Option<CustomAttribution>, Option<bool>, Option<bool>, StyleOrRef, Option<String>,)>)
        ensures
            match res {
                Some(part) => {
                    &&& read_required::<String>(value@.get("container"@)) == Some(Some(ValueView::String(part.0@)))
                    &&& read_optional::<bool>(value@.get("cooperativeGestures"@)) == Some(optional_wire(part.1))
                    &&& read_optional::<bool>(value@.get("crossSourceCollisions"@)) == Some(optional_wire(part.2))
                    &&& read_optional::<CustomAttribution>(value@.get("customAttribution"@)) == Some(optional_wire(part.3))
                    &&& read_optional::<bool>(value@.get("doubleClickZoom"@)) == Some(optional_wire(part.4))
                    &&& read_optional::<bool>(value@.get("dragPan"@)) == Some(optional_wire(part.5))
                    &&& read_required::<StyleOrRef>(value@.get("style"@)) == Some(Some(part.6.wire()))
                    &&& read_optional::<String>(value@.get("projection"@)) == Some(optional_wire(part.7))
                },
                None => !MapOptionsView::all_read(value@),
            },
    {
        let container = match required::<String>(value.get("container")) {
            Some(read) => read,
            None => {
                return None;
            },
        };
        let cooperative_gestures = match optional::<bool>(value.get("cooperativeGestures")) {
            Some(read) => read,
            None => {
                return None;
            },
        };
        let cross_source_collisions = match optional::<bool>(value.get("crossSourceCollisions")) {
            Some(read) => read,
            None => {
                return None;
            },
        };
        let custom_attribution = match optional::<CustomAttribution>(value.get("customAttribution")) {
            Some(read) => read,
            None => {
                return None;
            },
        };
        let double_click_zoom = match optional::<bool>(value.get("doubleClickZoom")) {
            Some(read) => read,
            None => {
                return None;
            },
        };
        let drag_pan = match optional::<bool>(value.get("dragPan")) {
            Some(read) => read,
            None => {
                return None;
            },
        };
        let style = match required::<StyleOrRef>(value.get("style")) {
            Some(read) => read,
            None => {
                return None;
            },
        };
        let projection = match optional::<String>(value.get("projection")) {
            Some(read) => read,
            None => {
                return None;
            },
        };
        Some((container, cooperative_gestures, cross_source_collisions, custom_attribution, double_click_zoom, drag_pan, style, projection,))
    }

    fn read_part_2(value: &Value) -> (res: Option<(Option<bool>, Option<bool>, Option<bool>, Option<bool>, Option<Number>,)>)
        ensures
            match res {
                Some(part) => {
                    &&& read_optional::<bool>(value@.get("refreshExpiredTiles"@)) == Some(optional_wire(part.0))
                    &&& read_optional::<bool>(value@.get("renderWorldCopies"@)) == Some(optional_wire(part.1))
                    &&& read_optional::<bool>(value@.get("scrollZoom"@)) == Some(optional_wire(part.2))
                    &&& read_optional::<bool>(value@.get("testMode"@)) == Some(optional_wire(part.3))
                    &&& read_optional::<Number>(value@.get("zoom"@)) == Some(optional_wire(part.4))
                },
                None => !MapOptionsView::all_read(value@),
            },
    {
        let refresh_expired_tiles = match optional::<bool>(value.get("refreshExpiredTiles")) {
            Some(read) => read,
            None => {
                return None;
            },
        };
        let render_world_copies = match optional::<bool>(value.get("renderWorldCopies")) {
            Some(read) => read,
            None => {
                return None;
            },
        };
        let scroll_zoom = match optional::<bool>(value.get("scrollZoom")) {
            Some(read) => read,
            None => {
                return None;
            },
        };
        let test_mode = match optional::<bool>(value.get("testMode")) {
            Some(read) => read,
            None => {
                return None;
            },
        };
        let zoom = match optional::<Number>(value.get("zoom")) {
            Some(read) => read,
            None => {
                return None;
            },
        };
        Some((refresh_expired_tiles, render_world_copies, scroll_zoom, test_mode, zoom,))
    }

    /// Reads the options of a map from the configuration that they were
    /// encoded as. The options that are read have a wire form.
    pub fn from_wire(value: &Value) -> (res: Option<MapOptions>)
        ensures
            match res {
                Some(options) => options@.encodable() && MapOptionsView::spec_read(value@)
                    == Some(options@.wire()),
                None => MapOptionsView::spec_read(value@) is None,
            },
    {
        match value {
            Value::Object(_) => {},
            _ => {
                return None;
            },
        }
        let part_0 = match Self::read_part_0(value) {
            Some(part) => part,
            None => {
                return None;
            },
        };
        let part_1 = match Self::read_part_1(value) {
            Some(part) => part,
            None => {
                return None;
            },
        };
        let part_2 = match Self::read_part_2(value) {
            Some(part) => part,
            None => {
                return None;
            },
        };
        let res = MapOptions {
            access_token: part_0.0,
            antialias: part_0.1,
            attribution_control: part_0.2,
            bearing: part_0.3,
            box_zoom: part_0.4,
            center: part_0.5,
            click_tolerance: part_0.6,
            collect_resource_timing: part_0.7,
            container: part_1.0,
            cooperative_gestures: part_1.1,
            cross_source_collisions: part_1.2,
            custom_attribution: part_1.3,
            double_click_zoom: part_1.4,
            drag_pan: part_1.5,
            style: part_1.6,
            projection: part_1.7,
            refresh_expired_tiles: part_2.0,
            render_world_copies: part_2.1,
            scroll_zoom: part_2.2,
            test_mode: part_2.3,
            zoom: part_2.4,
        };
        proof {
            assert(optional_wire(res.projection) == chars_wire(res@.projection));
        }
        Some(res)
    }
}

/// What a query for rendered features is narrowed by.
#[derive(Debug, Clone)]
pub struct QueryFeatureOptions {
    pub filters: Vec<String>,
    pub layers: Vec<String>,
    pub validate: Option<bool>,
}

impl Default for QueryFeatureOptions {
    /// No filters, no layers, and validation unset.
    fn default() -> (res: QueryFeatureOptions)
        ensures
            res.filters@.len() == 0,
            res.layers@.len() == 0,
            res.validate is None,
    {
        QueryFeatureOptions {
            filters: Vec::new(),
            layers: Vec::new(),
            validate: None,
        }
    }
}

impl QueryFeatureOptions {
    /// The properties of the wire form, in order: each field under its wire
    /// name, with its wire form where it is set.
    pub open spec fn slots(&self) -> Slots {
        seq![
            ("filters"@, nonempty_wire(self.filters@)),
            ("layers"@, nonempty_wire(self.layers@)),
            ("validate"@, optional_wire(self.validate)),
        ]
    }

    /// Offers every field to a builder, in order.
    pub fn to_entries(&self) -> (b: ObjectBuilder)
        ensures
            b.wf(),
            b@ == self.slots(),
    {
        let mut b = ObjectBuilder::new();
        b.nonempty("filters", &self.filters);
        b.nonempty("layers", &self.layers);
        b.optional_wire("validate", &self.validate);
        b
    }

    /// The place of the field with the wire name `key`, which the length of
    /// the name and a few of its characters tell.
    spec fn place_of(key: Seq<char>) -> int {
        if key.len() == 7 {
            0
        } else if key.len() == 6 {
            1
        } else if key.len() == 8 {
            2
        } else {
            -1
        }
    }

    /// No two fields have one wire name. So looking the wire name of a
    /// field up in the wire form finds the wire form of that field where it
    /// is set, and nothing where it is unset.
    pub proof fn law_wire_names_are_distinct(&self)
        ensures
            distinct_keys(self.slots()),
            forall|i: int|
                0 <= i < self.slots().len() ==> lookup(
                    flatten(self.slots()),
                    (#[trigger] self.slots()[i]).0,
                ) == self.slots()[i].1,
    {
        reveal_strlit("filters");
        reveal_strlit("layers");
        reveal_strlit("validate");
        let slots = self.slots();
        assert(QueryFeatureOptions::place_of(slots[0].0) == 0);
        assert(QueryFeatureOptions::place_of(slots[1].0) == 1);
        assert(QueryFeatureOptions::place_of(slots[2].0) == 2);
        assert forall|i: int| 0 <= i < slots.len() implies QueryFeatureOptions::place_of(
            (#[trigger] slots[i]).0,
        ) - 0 == i by {
        }
        lemma_placed_keys_are_distinct(slots, |key: Seq<char>| QueryFeatureOptions::place_of(key) - 0);
        assert forall|i: int| 0 <= i < slots.len() implies lookup(
            flatten(slots),
            (#[trigger] slots[i]).0,
        ) == slots[i].1 by {
            law_lookup_of_distinct_keys(slots, i);
        }
    }
}

impl ToWire for QueryFeatureOptions {
    /// The object of the fields that are set.
    open spec fn wire(&self) -> ValueView {
        ValueView::Object(flatten(self.slots()))
    }

    fn to_wire(&self) -> (value: Value) {
        self.to_entries().finish()
    }
}

impl QueryFeatureOptions {
    /// Whether every property of a wire value can be read: what must be there
    /// is there, and what is there has the right shape.
    pub open spec fn all_read(value: ValueView) -> bool {
        &&& read_list::<String>(value.get("filters"@)) is Some
        &&& read_list::<String>(value.get("layers"@)) is Some
        &&& read_optional::<bool>(value.get("validate"@)) is Some
    }

    /// The slots that the properties of a wire value are read as, in order.
    pub open spec fn read_slots(value: ValueView) -> Slots {
        seq![
            ("filters"@, read_list::<String>(value.get("filters"@))->Some_0),
            ("layers"@, read_list::<String>(value.get("layers"@))->Some_0),
            ("validate"@, read_optional::<bool>(value.get("validate"@))->Some_0),
        ]
    }

    /// Reading an object in which looking up the name of each property of
    /// the value finds that property gives the value back.
    pub proof fn lemma_read_from(&self, entries: Seq<(Seq<char>, ValueView)>)
        requires
            self.comes_back(),
            forall|i: int|
                0 <= i < self.slots().len() ==> lookup(entries, (#[trigger] self.slots()[i]).0)
                    == self.slots()[i].1,
        ensures
            Self::spec_read(ValueView::Object(entries)) == Some(self.wire()),
    {
        let value = ValueView::Object(entries);
        let slots = self.slots();
        assert(value.get(slots[0].0) == slots[0].1);
        lemma_list_round_trip::<String>(self.filters);
        assert(value.get(slots[1].0) == slots[1].1);
        lemma_list_round_trip::<String>(self.layers);
        assert(value.get(slots[2].0) == slots[2].1);
        lemma_optional_round_trip::<bool>(self.validate);
    }
}

impl FromWire for QueryFeatureOptions {
    /// The value is read from an object, property by property. Properties of
    /// other names are passed over.
    open spec fn spec_read(value: ValueView) -> Option<ValueView> {
        if value is Object && Self::all_read(value) {
            Some(ValueView::Object(flatten(Self::read_slots(value))))
        } else {
            None
        }
    }

    open spec fn comes_back(&self) -> bool {
        &&& list_comes_back(self.filters@)
        &&& list_comes_back(self.layers@)
        &&& optional_comes_back(self.validate)
    }

    fn from_wire(value: &Value) -> (res: Option<QueryFeatureOptions>) {
        match value {
            Value::Object(_) => {},
            _ => {
                return None;
            },
        }
        let filters = match list::<String>(value.get("filters")) {
            Some(read) => read,
            None => {
                return None;
            },
        };
        let layers = match list::<String>(value.get("layers")) {
            Some(read) => read,
            None => {
                return None;
            },
        };
        let validate = match optional::<bool>(value.get("validate")) {
            Some(read) => read,
            None => {
                return None;
            },
        };
        Some(QueryFeatureOptions { filters, layers, validate })
    }

    proof fn law_round_trip(&self) {
        self.law_wire_names_are_distinct();
        self.lemma_read_from(flatten(self.slots()));
    }
}

/// Where a camera looks from.
#[derive(Debug, Clone)]
pub struct CameraOptions {
    pub around: Option<LngLat>,
    pub bearing: Option<Number>,
    pub center: LngLat,
    pub padding: Option<PaddingOptions>,
    pub pitch: Option<Number>,
    pub zoom: Option<Number>,
}

impl Default for CameraOptions {
    /// A camera centered on longitude zero and latitude zero, with nothing
    /// else set.
    fn default() -> (res: CameraOptions)
        ensures
            res.around is None,
            res.bearing is None,
            res.center.lng() == Number::Real(0),
            res.center.lat() == Number::Real(0),
            res.padding is None,
            res.pitch is None,
            res.zoom is None,
    {
        CameraOptions {
            around: None,
            bearing: None,
            center: LngLat::default(),
            padding: None,
            pitch: None,
            zoom: None,
        }
    }
}

impl CameraOptions {
    /// The properties of the wire form, in order: each field under its wire
    /// name, with its wire form where it is set. The center is the array
    /// `[lng, lat]`.
    pub open spec fn slots(&self) -> Slots {
        seq![
            ("around"@, optional_wire(self.around)),
            ("bearing"@, optional_wire(self.bearing)),
            ("center"@, Some(self.center.array_wire())),
            ("padding"@, optional_wire(self.padding)),
            ("pitch"@, optional_wire(self.pitch)),
            ("zoom"@, optional_wire(self.zoom)),
        ]
    }

    /// The place of the field with the wire name `key`, which the length of
    /// the name and a few of its characters tell.
    spec fn place_of(key: Seq<char>) -> int {
        if key.len() == 6 && key[0] == 'a' {
            0
        } else if key.len() == 7 && key[0] == 'b' {
            1
        } else if key.len() == 6 && key[0] == 'c' {
            2
        } else if key.len() == 7 && key[0] == 'p' {
            3
        } else if key.len() == 5 && key[0] == 'p' {
            4
        } else if key.len() == 4 && key[0] == 'z' {
            5
        } else {
            -1
        }
    }

    /// No two fields have one wire name. So looking the wire name of a
    /// field up in the wire form finds the wire form of that field where it
    /// is set, and nothing where it is unset.
    pub proof fn law_wire_names_are_distinct(&self)
        ensures
            distinct_keys(self.slots()),
            forall|i: int|
                0 <= i < self.slots().len() ==> lookup(
                    flatten(self.slots()),
                    (#[trigger] self.slots()[i]).0,
                ) == self.slots()[i].1,
    {
        reveal_strlit("around");
        reveal_strlit("bearing");
        reveal_strlit("center");
        reveal_strlit("padding");
        reveal_strlit("pitch");
        reveal_strlit("zoom");
        let slots = self.slots();
        assert(CameraOptions::place_of(slots[0].0) == 0);
        assert(CameraOptions::place_of(slots[1].0) == 1);
        assert(CameraOptions::place_of(slots[2].0) == 2);
        assert(CameraOptions::place_of(slots[3].0) == 3);
        assert(CameraOptions::place_of(slots[4].0) == 4);
        assert(CameraOptions::place_of(slots[5].0) == 5);
        assert forall|i: int| 0 <= i < slots.len() implies CameraOptions::place_of(
            (#[trigger] slots[i]).0,
        ) - 0 == i by {
        }
        lemma_placed_keys_are_distinct(slots, |key: Seq<char>| CameraOptions::place_of(key) - 0);
        assert forall|i: int| 0 <= i < slots.len() implies lookup(
            flatten(slots),
            (#[trigger] slots[i]).0,
        ) == slots[i].1 by {
            law_lookup_of_distinct_keys(slots, i);
        }
    }

    /// Offers every field to a builder, in order.
    pub fn to_entries(&self) -> (b: ObjectBuilder)
        ensures
            b.wf(),
            b@ == self.slots(),
    {
        let mut b = ObjectBuilder::new();
        b.optional_wire("around", &self.around);
        b.optional_wire("bearing", &self.bearing);
        b.field("center", self.center.to_wire_array());
        b.optional_wire("padding", &self.padding);
        b.optional_wire("pitch", &self.pitch);
        b.optional_wire("zoom", &self.zoom);
        b
    }
}

impl ToWire for CameraOptions {
    /// The object of the fields that are set.
    open spec fn wire(&self) -> ValueView {
        ValueView::Object(flatten(self.slots()))
    }

    fn to_wire(&self) -> (value: Value) {
        self.to_entries().finish()
    }
}

impl CameraOptions {
    /// Whether every field of a wire value can be read: the center is there,
    /// and what is there has the right shape.
    pub open spec fn all_read(value: ValueView) -> bool {
        &&& read_optional::<LngLat>(value.get("around"@)) is Some
        &&& read_optional::<Number>(value.get("bearing"@)) is Some
        &&& read_required::<(Number, Number)>(value.get("center"@)) is Some
        &&& read_optional::<PaddingOptions>(value.get("padding"@)) is Some
        &&& read_optional::<Number>(value.get("pitch"@)) is Some
        &&& read_optional::<Number>(value.get("zoom"@)) is Some
    }

    /// The slots that the fields of a wire value are read as, in order.
    pub open spec fn read_slots(value: ValueView) -> Slots {
        seq![
            ("around"@, read_optional::<LngLat>(value.get("around"@))->Some_0),
            ("bearing"@, read_optional::<Number>(value.get("bearing"@))->Some_0),
            ("center"@, read_required::<(Number, Number)>(value.get("center"@))->Some_0),
            ("padding"@, read_optional::<PaddingOptions>(value.get("padding"@))->Some_0),
            ("pitch"@, read_optional::<Number>(value.get("pitch"@))->Some_0),
            ("zoom"@, read_optional::<Number>(value.get("zoom"@))->Some_0),
        ]
    }

    /// Reading an object in which looking up the name of each field of the
    /// value finds that field gives the value back.
    pub proof fn lemma_read_from(&self, entries: Seq<(Seq<char>, ValueView)>)
        requires
            self.comes_back(),
            forall|i: int|
                0 <= i < self.slots().len() ==> lookup(entries, (#[trigger] self.slots()[i]).0)
                    == self.slots()[i].1,
        ensures
            Self::spec_read(ValueView::Object(entries)) == Some(self.wire()),
    {
        let value = ValueView::Object(entries);
        let slots = self.slots();
        assert(value.get(slots[0].0) == slots[0].1);
        lemma_optional_round_trip::<LngLat>(self.around);
        assert(value.get(slots[1].0) == slots[1].1);
        lemma_optional_round_trip::<Number>(self.bearing);
        assert(value.get(slots[2].0) == slots[2].1);
        assert(self.center.array_wire() == (self.center.lng(), self.center.lat()).wire());
        lemma_required_round_trip::<(Number, Number)>((self.center.lng(), self.center.lat()));
        assert(value.get(slots[3].0) == slots[3].1);
        lemma_optional_round_trip::<PaddingOptions>(self.padding);
        assert(value.get(slots[4].0) == slots[4].1);
        lemma_optional_round_trip::<Number>(self.pitch);
        assert(value.get(slots[5].0) == slots[5].1);
        lemma_optional_round_trip::<Number>(self.zoom);
    }
}

impl FromWire for CameraOptions {
    /// The value is read from an object, field by field; the center is read
    /// from an array of two numbers. Properties of other names are passed
    /// over.
    open spec fn spec_read(value: ValueView) -> Option<ValueView> {
        if value is Object && Self::all_read(value) {
            Some(ValueView::Object(flatten(Self::read_slots(value))))
        } else {
            None
        }
    }

    open spec fn comes_back(&self) -> bool {
        &&& optional_comes_back(self.around)
        &&& optional_comes_back(self.bearing)
        &&& optional_comes_back(self.padding)
        &&& optional_comes_back(self.pitch)
        &&& optional_comes_back(self.zoom)
    }

    fn from_wire(value: &Value) -> (res: Option<CameraOptions>) {
        match value {
            Value::Object(_) => {},
            _ => {
                return None;
            },
        }
        let around = match optional::<LngLat>(value.get("around")) {
            Some(read) => read,
            None => {
                return None;
            },
        };
        let bearing = match optional::<Number>(value.get("bearing")) {
            Some(read) => read,
            None => {
                return None;
            },
        };
        let center = match required::<(Number, Number)>(value.get("center")) {
            Some(read) => LngLat::new(read.0, read.1),
            None => {
                return None;
            },
        };
        let padding = match optional::<PaddingOptions>(value.get("padding")) {
            Some(read) => read,
            None => {
                return None;
            },
        };
        let pitch = match optional::<Number>(value.get("pitch")) {
            Some(read) => read,
            None => {
                return None;
            },
        };
        let zoom = match optional::<Number>(value.get("zoom")) {
            Some(read) => read,
            None => {
                return None;
            },
        };
        let res = CameraOptions { around, bearing, center, padding, pitch, zoom };
        assert(res.center.array_wire() == (res.center.lng(), res.center.lat()).wire());
        Some(res)
    }

    proof fn law_round_trip(&self) {
        self.law_wire_names_are_distinct();
        self.lemma_read_from(flatten(self.slots()));
    }
}

/// The padding around what a camera shows.
#[derive(Debug, Clone)]
pub struct PaddingOptions {
    pub bottom: Option<LngLat>,
    pub left: Option<LngLat>,
    pub right: Option<LngLat>,
    pub top: Option<LngLat>,
}

impl Default for PaddingOptions {
    /// Every optional field is unset.
    fn default() -> (res: PaddingOptions)
        ensures
            res.bottom is None,
            res.left is None,
            res.right is None,
            res.top is None,
    {
        PaddingOptions {
            bottom: None,
            left: None,
            right: None,
            top: None,
        }
    }
}

impl PaddingOptions {
    /// The properties of the wire form, in order: each field under its wire
    /// name, with its wire form where it is set.
    pub open spec fn slots(&self) -> Slots {
        seq![
            ("bottom"@, optional_wire(self.bottom)),
            ("left"@, optional_wire(self.left)),
            ("right"@, optional_wire(self.right)),
            ("top"@, optional_wire(self.top)),
        ]
    }

    /// Offers every field to a builder, in order.
    pub fn to_entries(&self) -> (b: ObjectBuilder)
        ensures
            b.wf(),
            b@ == self.slots(),
    {
        let mut b = ObjectBuilder::new();
        b.optional_wire("bottom", &self.bottom);
        b.optional_wire("left", &self.left);
        b.optional_wire("right", &self.right);
        b.optional_wire("top", &self.top);
        b
    }

    /// The place of the field with the wire name `key`, which the length of
    /// the name and a few of its characters tell.
    spec fn place_of(key: Seq<char>) -> int {
        if key.len() == 6 {
            0
        } else if key.len() == 4 {
            1
        } else if key.len() == 5 {
            2
        } else if key.len() == 3 {
            3
        } else {
            -1
        }
    }

    /// No two fields have one wire name. So looking the wire name of a
    /// field up in the wire form finds the wire form of that field where it
    /// is set, and nothing where it is unset.
    pub proof fn law_wire_names_are_distinct(&self)
        ensures
            distinct_keys(self.slots()),
            forall|i: int|
                0 <= i < self.slots().len() ==> lookup(
                    flatten(self.slots()),
                    (#[trigger] self.slots()[i]).0,
                ) == self.slots()[i].1,
    {
        reveal_strlit("bottom");
        reveal_strlit("left");
        reveal_strlit("right");
        reveal_strlit("top");
        let slots = self.slots();
        assert(PaddingOptions::place_of(slots[0].0) == 0);
        assert(PaddingOptions::place_of(slots[1].0) == 1);
        assert(PaddingOptions::place_of(slots[2].0) == 2);
        assert(PaddingOptions::place_of(slots[3].0) == 3);
        assert forall|i: int| 0 <= i < slots.len() implies PaddingOptions::place_of(
            (#[trigger] slots[i]).0,
        ) - 0 == i by {
        }
        lemma_placed_keys_are_distinct(slots, |key: Seq<char>| PaddingOptions::place_of(key) - 0);
        assert forall|i: int| 0 <= i < slots.len() implies lookup(
            flatten(slots),
            (#[trigger] slots[i]).0,
        ) == slots[i].1 by {
            law_lookup_of_distinct_keys(slots, i);
        }
    }
}

impl ToWire for PaddingOptions {
    /// The object of the fields that are set.
    open spec fn wire(&self) -> ValueView {
        ValueView::Object(flatten(self.slots()))
    }

    fn to_wire(&self) -> (value: Value) {
        self.to_entries().finish()
    }
}

impl PaddingOptions {
    /// Whether every property of a wire value can be read: what must be there
    /// is there, and what is there has the right shape.
    pub open spec fn all_read(value: ValueView) -> bool {
        &&& read_optional::<LngLat>(value.get("bottom"@)) is Some
        &&& read_optional::<LngLat>(value.get("left"@)) is Some
        &&& read_optional::<LngLat>(value.get("right"@)) is Some
        &&& read_optional::<LngLat>(value.get("top"@)) is Some
    }

    /// The slots that the properties of a wire value are read as, in order.
    pub open spec fn read_slots(value: ValueView) -> Slots {
        seq![
            ("bottom"@, read_optional::<LngLat>(value.get("bottom"@))->Some_0),
            ("left"@, read_optional::<LngLat>(value.get("left"@))->Some_0),
            ("right"@, read_optional::<LngLat>(value.get("right"@))->Some_0),
            ("top"@, read_optional::<LngLat>(value.get("top"@))->Some_0),
        ]
    }

    /// Reading an object in which looking up the name of each property of
    /// the value finds that property gives the value back.
    pub proof fn lemma_read_from(&self, entries: Seq<(Seq<char>, ValueView)>)
        requires
            self.comes_back(),
            forall|i: int|
                0 <= i < self.slots().len() ==> lookup(entries, (#[trigger] self.slots()[i]).0)
                    == self.slots()[i].1,
        ensures
            Self::spec_read(ValueView::Object(entries)) == Some(self.wire()),
    {
        let value = ValueView::Object(entries);
        let slots = self.slots();
        assert(value.get(slots[0].0) == slots[0].1);
        lemma_optional_round_trip::<LngLat>(self.bottom);
        assert(value.get(slots[1].0) == slots[1].1);
        lemma_optional_round_trip::<LngLat>(self.left);
        assert(value.get(slots[2].0) == slots[2].1);
        lemma_optional_round_trip::<LngLat>(self.right);
        assert(value.get(slots[3].0) == slots[3].1);
        lemma_optional_round_trip::<LngLat>(self.top);
    }
}

impl FromWire for PaddingOptions {
    /// The value is read from an object, property by property. Properties of
    /// other names are passed over.
    open spec fn spec_read(value: ValueView) -> Option<ValueView> {
        if value is Object && Self::all_read(value) {
            Some(ValueView::Object(flatten(Self::read_slots(value))))
        } else {
            None
        }
    }

    open spec fn comes_back(&self) -> bool {
        &&& optional_comes_back(self.bottom)
        &&& optional_comes_back(self.left)
        &&& optional_comes_back(self.right)
        &&& optional_comes_back(self.top)
    }

    fn from_wire(value: &Value) -> (res: Option<PaddingOptions>) {
        match value {
            Value::Object(_) => {},
            _ => {
                return None;
            },
        }
        let bottom = match optional::<LngLat>(value.get("bottom")) {
            Some(read) => read,
            None => {
                return None;
            },
        };
        let left = match optional::<LngLat>(value.get("left")) {
            Some(read) => read,
            None => {
                return None;
            },
        };
        let right = match optional::<LngLat>(value.get("right")) {
            Some(read) => read,
            None => {
                return None;
            },
        };
        let top = match optional::<LngLat>(value.get("top")) {
            Some(read) => read,
            None => {
                return None;
            },
        };
        Some(PaddingOptions { bottom, left, right, top })
    }

    proof fn law_round_trip(&self) {
        self.law_wire_names_are_distinct();
        self.lemma_read_from(flatten(self.slots()));
    }
}

/// How a camera moves to where it is sent.
#[derive(Debug, Clone)]
pub struct AnimationOptions {
    pub animate: Option<bool>,
    pub curve: Option<Number>,
    pub duration: Option<Number>,
    pub essential: Option<bool>,
    pub max_duration: Option<Number>,
    pub min_zoom: Option<Number>,
    pub preloading_only: Option<bool>,
    pub screen_speed: Option<Number>,
}

impl Default for AnimationOptions {
    /// Every optional field is unset.
    fn default() -> (res: AnimationOptions)
        ensures
            res.animate is None,
            res.curve is None,
            res.duration is None,
            res.essential is None,
            res.max_duration is None,
            res.min_zoom is None,
            res.preloading_only is None,
            res.screen_speed is None,
    {
        AnimationOptions {
            animate: None,
            curve: None,
            duration: None,
            essential: None,
            max_duration: None,
            min_zoom: None,
            preloading_only: None,
            screen_speed: None,
        }
    }
}

impl AnimationOptions {
    /// The properties of the wire form, in order: each field under its wire
    /// name, with its wire form where it is set.
    pub open spec fn slots(&self) -> Slots {
        seq![
            ("animate"@, optional_wire(self.animate)),
            ("curve"@, optional_wire(self.curve)),
            ("duration"@, optional_wire(self.duration)),
            ("essential"@, optional_wire(self.essential)),
            ("maxDuration"@, optional_wire(self.max_duration)),
            ("minZoom"@, optional_wire(self.min_zoom)),
            ("preloadingOnly"@, optional_wire(self.preloading_only)),
            ("screenSpeed"@, optional_wire(self.screen_speed)),
        ]
    }

    /// Offers every field to a builder, in order.
    pub fn to_entries(&self) -> (b: ObjectBuilder)
        ensures
            b.wf(),
            b@ == self.slots(),
    {
        let mut b = ObjectBuilder::new();
        b.optional_wire("animate", &self.animate);
        b.optional_wire("curve", &self.curve);
        b.optional_wire("duration", &self.duration);
        b.optional_wire("essential", &self.essential);
        b.optional_wire("maxDuration", &self.max_duration);
        b.optional_wire("minZoom", &self.min_zoom);
        b.optional_wire("preloadingOnly", &self.preloading_only);
        b.optional_wire("screenSpeed", &self.screen_speed);
        b
    }

    /// The place of the field with the wire name `key`, which the length of
    /// the name and a few of its characters tell.
    spec fn place_of(key: Seq<char>) -> int {
        if key.len() == 7 && key[0] == 'a' {
            0
        } else if key.len() == 5 && key[0] == 'c' {
            1
        } else if key.len() == 8 && key[0] == 'd' {
            2
        } else if key.len() == 9 && key[0] == 'e' {
            3
        } else if key.len() == 11 && key[0] == 'm' {
            4
        } else if key.len() == 7 && key[0] == 'm' {
            5
        } else if key.len() == 14 && key[0] == 'p' {
            6
        } else if key.len() == 11 && key[0] == 's' {
            7
        } else {
            -1
        }
    }

    /// No two fields have one wire name. So looking the wire name of a
    /// field up in the wire form finds the wire form of that field where it
    /// is set, and nothing where it is unset.
    pub proof fn law_wire_names_are_distinct(&self)
        ensures
            distinct_keys(self.slots()),
            forall|i: int|
                0 <= i < self.slots().len() ==> lookup(
                    flatten(self.slots()),
                    (#[trigger] self.slots()[i]).0,
                ) == self.slots()[i].1,
    {
        reveal_strlit("animate");
        reveal_strlit("curve");
        reveal_strlit("duration");
        reveal_strlit("essential");
        reveal_strlit("maxDuration");
        reveal_strlit("minZoom");
        reveal_strlit("preloadingOnly");
        reveal_strlit("screenSpeed");
        let slots = self.slots();
        assert(AnimationOptions::place_of(slots[0].0) == 0);
        assert(AnimationOptions::place_of(slots[1].0) == 1);
        assert(AnimationOptions::place_of(slots[2].0) == 2);
        assert(AnimationOptions::place_of(slots[3].0) == 3);
        assert(AnimationOptions::place_of(slots[4].0) == 4);
        assert(AnimationOptions::place_of(slots[5].0) == 5);
        assert(AnimationOptions::place_of(slots[6].0) == 6);
        assert(AnimationOptions::place_of(slots[7].0) == 7);
        assert forall|i: int| 0 <= i < slots.len() implies AnimationOptions::place_of(
            (#[trigger] slots[i]).0,
        ) - 0 == i by {
        }
        lemma_placed_keys_are_distinct(slots, |key: Seq<char>| AnimationOptions::place_of(key) - 0);
        assert forall|i: int| 0 <= i < slots.len() implies lookup(
            flatten(slots),
            (#[trigger] slots[i]).0,
        ) == slots[i].1 by {
            law_lookup_of_distinct_keys(slots, i);
        }
    }
}

impl ToWire for AnimationOptions {
    /// The object of the fields that are set.
    open spec fn wire(&self) -> ValueView {
        ValueView::Object(flatten(self.slots()))
    }

    fn to_wire(&self) -> (value: Value) {
        self.to_entries().finish()
    }
}

impl AnimationOptions {
    /// Whether every property of a wire value can be read: what must be there
    /// is there, and what is there has the right shape.
    pub open spec fn all_read(value: ValueView) -> bool {
        &&& read_optional::<bool>(value.get("animate"@)) is Some
        &&& read_optional::<Number>(value.get("curve"@)) is Some
        &&& read_optional::<Number>(value.get("duration"@)) is Some
        &&& read_optional::<bool>(value.get("essential"@)) is Some
        &&& read_optional::<Number>(value.get("maxDuration"@)) is Some
        &&& read_optional::<Number>(value.get("minZoom"@)) is Some
        &&& read_optional::<bool>(value.get("preloadingOnly"@)) is Some
        &&& read_optional::<Number>(value.get("screenSpeed"@)) is Some
    }

    /// The slots that the properties of a wire value are read as, in order.
    pub open spec fn read_slots(value: ValueView) -> Slots {
        seq![
            ("animate"@, read_optional::<bool>(value.get("animate"@))->Some_0),
            ("curve"@, read_optional::<Number>(value.get("curve"@))->Some_0),
            ("duration"@, read_optional::<Number>(value.get("duration"@))->Some_0),
            ("essential"@, read_optional::<bool>(value.get("essential"@))->Some_0),
            ("maxDuration"@, read_optional::<Number>(value.get("maxDuration"@))->Some_0),
            ("minZoom"@, read_optional::<Number>(value.get("minZoom"@))->Some_0),
            ("preloadingOnly"@, read_optional::<bool>(value.get("preloadingOnly"@))->Some_0),
            ("screenSpeed"@, read_optional::<Number>(value.get("screenSpeed"@))->Some_0),
        ]
    }

    /// Reading an object in which looking up the name of each property of
    /// the value finds that property gives the value back.
    pub proof fn lemma_read_from(&self, entries: Seq<(Seq<char>, ValueView)>)
        requires
            self.comes_back(),
            forall|i: int|
                0 <= i < self.slots().len() ==> lookup(entries, (#[trigger] self.slots()[i]).0)
                    == self.slots()[i].1,
        ensures
            Self::spec_read(ValueView::Object(entries)) == Some(self.wire()),
    {
        let value = ValueView::Object(entries);
        let slots = self.slots();
        assert(value.get(slots[0].0) == slots[0].1);
        lemma_optional_round_trip::<bool>(self.animate);
        assert(value.get(slots[1].0) == slots[1].1);
        lemma_optional_round_trip::<Number>(self.curve);
        assert(value.get(slots[2].0) == slots[2].1);
        lemma_optional_round_trip::<Number>(self.duration);
        assert(value.get(slots[3].0) == slots[3].1);
        lemma_optional_round_trip::<bool>(self.essential);
        assert(value.get(slots[4].0) == slots[4].1);
        lemma_optional_round_trip::<Number>(self.max_duration);
        assert(value.get(slots[5].0) == slots[5].1);
        lemma_optional_round_trip::<Number>(self.min_zoom);
        assert(value.get(slots[6].0) == slots[6].1);
        lemma_optional_round_trip::<bool>(self.preloading_only);
        assert(value.get(slots[7].0) == slots[7].1);
        lemma_optional_round_trip::<Number>(self.screen_speed);
    }
}

impl FromWire for AnimationOptions {
    /// The value is read from an object, property by property. Properties of
    /// other names are passed over.
    open spec fn spec_read(value: ValueView) -> Option<ValueView> {
        if value is Object && Self::all_read(value) {
            Some(ValueView::Object(flatten(Self::read_slots(value))))
        } else {
            None
        }
    }

    open spec fn comes_back(&self) -> bool {
        &&& optional_comes_back(self.animate)
        &&& optional_comes_back(self.curve)
        &&& optional_comes_back(self.duration)
        &&& optional_comes_back(self.essential)
        &&& optional_comes_back(self.max_duration)
        &&& optional_comes_back(self.min_zoom)
        &&& optional_comes_back(self.preloading_only)
        &&& optional_comes_back(self.screen_speed)
    }

    fn from_wire(value: &Value) -> (res: Option<AnimationOptions>) {
        match value {
            Value::Object(_) => {},
            _ => {
                return None;
            },
        }
        let animate = match optional::<bool>(value.get("animate")) {
            Some(read) => read,
            None => {
                return None;
            },
        };
        let curve = match optional::<Number>(value.get("curve")) {
            Some(read) => read,
            None => {
                return None;
            },
        };
        let duration = match optional::<Number>(value.get("duration")) {
            Some(read) => read,
            None => {
                return None;
            },
        };
        let essential = match optional::<bool>(value.get("essential")) {
            Some(read) => read,
            None => {
                return None;
            },
        };
        let max_duration = match optional::<Number>(value.get("maxDuration")) {
            Some(read) => read,
            None => {
                return None;
            },
        };
        let min_zoom = match optional::<Number>(value.get("minZoom")) {
            Some(read) => read,
            None => {
                return None;
            },
        };
        let preloading_only = match optional::<bool>(value.get("preloadingOnly")) {
            Some(read) => read,
            None => {
                return None;
            },
        };
        let screen_speed = match optional::<Number>(value.get("screenSpeed")) {
            Some(read) => read,
            None => {
                return None;
            },
        };
        Some(AnimationOptions { animate, curve, duration, essential, max_duration, min_zoom, preloading_only, screen_speed })
    }

    proof fn law_round_trip(&self) {
        self.law_wire_names_are_distinct();
        self.lemma_read_from(flatten(self.slots()));
    }
}

/// Where a camera is sent and how it moves there, as one flat object.
#[derive(Debug, Clone)]
pub struct CameraAnimationOptions {
    camera_options: CameraOptions,
    animation_options: AnimationOptions,
}

impl CameraAnimationOptions {
    /// Where the camera is sent.
    pub closed spec fn camera(&self) -> CameraOptions {
        self.camera_options
    }

    /// How the camera moves there.
    pub closed spec fn animation(&self) -> AnimationOptions {
        self.animation_options
    }

    /// Joins where a camera is sent with how it moves there.
    pub fn new(camera_options: CameraOptions, animation_options: AnimationOptions) -> (res:
        CameraAnimationOptions)
        ensures
            res.camera() == camera_options,
            res.animation() == animation_options,
    {
        CameraAnimationOptions { camera_options, animation_options }
    }
}

impl CameraAnimationOptions {
    /// The properties of the wire form, in order: those of the camera,
    /// followed by those of the animation.
    pub open spec fn slots(&self) -> Slots {
        self.camera().slots() + self.animation().slots()
    }

    /// The place of the field with the wire name `key`, which the length of
    /// the name and a few of its characters tell.
    spec fn place_of(key: Seq<char>) -> int {
        if key.len() == 6 && key[0] == 'a' {
            0
        } else if key.len() == 7 && key[0] == 'b' {
            1
        } else if key.len() == 6 && key[0] == 'c' {
            2
        } else if key.len() == 7 && key[0] == 'p' {
            3
        } else if key.len() == 5 && key[0] == 'p' {
            4
        } else if key.len() == 4 && key[0] == 'z' {
            5
        } else if key.len() == 7 && key[0] == 'a' {
            6
        } else if key.len() == 5 && key[0] == 'c' {
            7
        } else if key.len() == 8 && key[0] == 'd' {
            8
        } else if key.len() == 9 && key[0] == 'e' {
            9
        } else if key.len() == 11 && key[0] == 'm' {
            10
        } else if key.len() == 7 && key[0] == 'm' {
            11
        } else if key.len() == 14 && key[0] == 'p' {
            12
        } else if key.len() == 11 && key[0] == 's' {
            13
        } else {
            -1
        }
    }

    /// No two fields have one wire name. So looking the wire name of a
    /// field up in the wire form finds the wire form of that field where it
    /// is set, and nothing where it is unset.
    #[verifier::rlimit(50)]
    pub proof fn law_wire_names_are_distinct(&self)
        ensures
            distinct_keys(self.slots()),
            forall|i: int|
                0 <= i < self.slots().len() ==> lookup(
                    flatten(self.slots()),
                    (#[trigger] self.slots()[i]).0,
                ) == self.slots()[i].1,
    {
        reveal_strlit("around");
        reveal_strlit("bearing");
        reveal_strlit("center");
        reveal_strlit("padding");
        reveal_strlit("pitch");
        reveal_strlit("zoom");
        reveal_strlit("animate");
        reveal_strlit("curve");
        reveal_strlit("duration");
        reveal_strlit("essential");
        reveal_strlit("maxDuration");
        reveal_strlit("minZoom");
        reveal_strlit("preloadingOnly");
        reveal_strlit("screenSpeed");
        let slots = self.slots();
        assert(CameraAnimationOptions::place_of(slots[0].0) == 0);
        assert(CameraAnimationOptions::place_of(slots[1].0) == 1);
        assert(CameraAnimationOptions::place_of(slots[2].0) == 2);
        assert(CameraAnimationOptions::place_of(slots[3].0) == 3);
        assert(CameraAnimationOptions::place_of(slots[4].0) == 4);
        assert(CameraAnimationOptions::place_of(slots[5].0) == 5);
        assert(CameraAnimationOptions::place_of(slots[6].0) == 6);
        assert(CameraAnimationOptions::place_of(slots[7].0) == 7);
        assert(CameraAnimationOptions::place_of(slots[8].0) == 8);
        assert(CameraAnimationOptions::place_of(slots[9].0) == 9);
        assert(CameraAnimationOptions::place_of(slots[10].0) == 10);
        assert(CameraAnimationOptions::place_of(slots[11].0) == 11);
        assert(CameraAnimationOptions::place_of(slots[12].0) == 12);
        assert(CameraAnimationOptions::place_of(slots[13].0) == 13);
        assert forall|i: int| 0 <= i < slots.len() implies CameraAnimationOptions::place_of(
            (#[trigger] slots[i]).0,
        ) - 0 == i by {
        }
        lemma_placed_keys_are_distinct(slots, |key: Seq<char>| CameraAnimationOptions::place_of(key) - 0);
        assert forall|i: int| 0 <= i < slots.len() implies lookup(
            flatten(slots),
            (#[trigger] slots[i]).0,
        ) == slots[i].1 by {
            law_lookup_of_distinct_keys(slots, i);
        }
    }
}

impl ToWire for CameraAnimationOptions {
    /// One flat object of the fields that are set.
    open spec fn wire(&self) -> ValueView {
        ValueView::Object(flatten(self.slots()))
    }

    fn to_wire(&self) -> (value: Value) {
        let mut b = self.camera_options.to_entries();
        b.extend(self.animation_options.to_entries());
        b.finish()
    }
}

/// The object that holds the entries of one object before those of another.
pub open spec fn joined(first: Option<ValueView>, second: Option<ValueView>) -> Option<ValueView> {
    match (first, second) {
        (Some(ValueView::Object(a)), Some(ValueView::Object(b))) => Some(ValueView::Object(a + b)),
        _ => None,
    }
}

impl FromWire for CameraAnimationOptions {
    /// The camera and the animation are both read from the one object.
    open spec fn spec_read(value: ValueView) -> Option<ValueView> {
        joined(CameraOptions::spec_read(value), AnimationOptions::spec_read(value))
    }

    open spec fn comes_back(&self) -> bool {
        self.camera().comes_back() && self.animation().comes_back()
    }

    fn from_wire(value: &Value) -> (res: Option<CameraAnimationOptions>) {
        let camera_options = match CameraOptions::from_wire(value) {
            Some(read) => read,
            None => {
                return None;
            },
        };
        let animation_options = match AnimationOptions::from_wire(value) {
            Some(read) => read,
            None => {
                return None;
            },
        };
        proof {
            lemma_flatten_concat(camera_options.slots(), animation_options.slots());
        }
        Some(CameraAnimationOptions { camera_options, animation_options })
    }

    proof fn law_round_trip(&self) {
        let camera = self.camera();
        let animation = self.animation();
        let slots = self.slots();
        let entries = flatten(slots);
        self.law_wire_names_are_distinct();
        lemma_flatten_concat(camera.slots(), animation.slots());
        assert forall|i: int| 0 <= i < camera.slots().len() implies lookup(
            entries,
            (#[trigger] camera.slots()[i]).0,
        ) == camera.slots()[i].1 by {
            assert(slots[i] == camera.slots()[i]);
        }
        camera.lemma_read_from(entries);
        assert forall|i: int| 0 <= i < animation.slots().len() implies lookup(
            entries,
            (#[trigger] animation.slots()[i]).0,
        ) == animation.slots()[i].1 by {
            assert(slots[i + 6] == animation.slots()[i]);
        }
        animation.lemma_read_from(entries);
    }
}

} // verus!
