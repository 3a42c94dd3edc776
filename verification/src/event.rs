//! Typed events and the decoders that produce them from wire payloads.
//!
//! The engine hands every listener one untyped payload. A decoder reads the
//! fields that its event type expects, in a fixed order. A required field that
//! is absent ends the decoding with [`DecodeError::MissingField`]; a field that
//! is present but has the wrong shape ends it with
//! [`DecodeError::InvalidField`]. Fields that the engine leaves out at will
//! (`features`, the point lists of a touch event) default to empty instead.

use vstd::prelude::*;
use vstd::string::StringExecFns;
use crate::error::{Error, ErrorView};
use crate::wire::{lemma_array_view, items_view, Number, Value, ValueView};

verus! {

/// The event types that a payload can be decoded into.
#[derive(Debug, Clone, Copy, PartialEq, Eq, Structural)]
pub enum EventType {
    MapBaseEvent,
    MapEvent,
    MapDataEvent,
    MapBoxZoomEvent,
    MapMouseEvent,
    MapTouchEvent,
    MapWheelEvent,
    DragEvent,
    /// The plain string that an error event carries.
    Message,
}

impl EventType {
    /// The name of the event type.
    pub open spec fn spec_name(self) -> Seq<char> {
        match self {
            EventType::MapBaseEvent => "MapBaseEvent"@,
            EventType::MapEvent => "MapEvent"@,
            EventType::MapDataEvent => "MapDataEvent"@,
            EventType::MapBoxZoomEvent => "MapBoxZoomEvent"@,
            EventType::MapMouseEvent => "MapMouseEvent"@,
            EventType::MapTouchEvent => "MapTouchEvent"@,
            EventType::MapWheelEvent => "MapWheelEvent"@,
            EventType::DragEvent => "DragEvent"@,
            EventType::Message => "Message"@,
        }
    }

    /// The name of the event type.
    pub fn name(&self) -> (res: &'static str)
        ensures
            res@ == self.spec_name(),
    {
        match self {
            EventType::MapBaseEvent => "MapBaseEvent",
            EventType::MapEvent => "MapEvent",
            EventType::MapDataEvent => "MapDataEvent",
            EventType::MapBoxZoomEvent => "MapBoxZoomEvent",
            EventType::MapMouseEvent => "MapMouseEvent",
            EventType::MapTouchEvent => "MapTouchEvent",
            EventType::MapWheelEvent => "MapWheelEvent",
            EventType::DragEvent => "DragEvent",
            EventType::Message => "Message",
        }
    }
}

/// The payload fields that the decoders read.
#[derive(Debug, Clone, Copy, PartialEq, Eq, Structural)]
pub enum Field {
    Type,
    OriginalEvent,
    Point,
    Points,
    LngLat,
    LngLats,
    Features,
    DataType,
    IsSourceLoaded,
    SourceDataType,
    SourceId,
}

impl Field {
    /// The key under which the payload holds the field.
    pub open spec fn spec_key(self) -> Seq<char> {
        match self {
            Field::Type => "type"@,
            Field::OriginalEvent => "originalEvent"@,
            Field::Point => "point"@,
            Field::Points => "points"@,
            Field::LngLat => "lngLat"@,
            Field::LngLats => "lngLats"@,
            Field::Features => "features"@,
            Field::DataType => "dataType"@,
            Field::IsSourceLoaded => "isSourceLoaded"@,
            Field::SourceDataType => "sourceDataType"@,
            Field::SourceId => "sourceId"@,
        }
    }

    /// The key under which the payload holds the field.
    pub fn key(&self) -> (res: &'static str)
        ensures
            res@ == self.spec_key(),
    {
        match self {
            Field::Type => "type",
            Field::OriginalEvent => "originalEvent",
            Field::Point => "point",
            Field::Points => "points",
            Field::LngLat => "lngLat",
            Field::LngLats => "lngLats",
            Field::Features => "features",
            Field::DataType => "dataType",
            Field::IsSourceLoaded => "isSourceLoaded",
            Field::SourceDataType => "sourceDataType",
            Field::SourceId => "sourceId",
        }
    }
}

/// Why a payload could not be decoded.
#[derive(Debug, Clone, Copy, PartialEq, Eq, Structural)]
pub enum DecodeError {
    /// The payload has no field of that name, which the event type requires.
    MissingField(EventType, Field),
    /// The payload has the field, but its value has the wrong shape.
    InvalidField(EventType, Field),
    /// The payload as a whole has the wrong shape.
    InvalidPayload(EventType),
}

impl DecodeError {
    /// The event type that was being decoded.
    pub open spec fn event(self) -> EventType {
        match self {
            DecodeError::MissingField(event, _) => event,
            DecodeError::InvalidField(event, _) => event,
            DecodeError::InvalidPayload(event) => event,
        }
    }

    /// The reason as it is reported: it names the field.
    pub open spec fn reason(self) -> Seq<char> {
        match self {
            DecodeError::MissingField(_, field) => "property \""@ + field.spec_key()
                + "\" is missing"@,
            DecodeError::InvalidField(_, field) => "property \""@ + field.spec_key()
                + "\" has an unexpected type"@,
            DecodeError::InvalidPayload(_) => "the payload has an unexpected type"@,
        }
    }

    /// The error as it is reported: it names the event type and the field.
    pub open spec fn error_view(self) -> ErrorView {
        ErrorView::BadEventFormat(self.event().spec_name(), self.reason())
    }

    /// The error that reports this failure: it names the event type and the
    /// field.
    pub fn into_error(self) -> (res: Error)
        ensures
            res@ == self.error_view(),
    {
        match self {
            DecodeError::MissingField(event, field) => Error::BadEventFormat(
                event.name(),
                String::from_str("property \"").concat(field.key()).concat("\" is missing"),
            ),
            DecodeError::InvalidField(event, field) => Error::BadEventFormat(
                event.name(),
                String::from_str("property \"").concat(field.key()).concat(
                    "\" has an unexpected type",
                ),
            ),
            DecodeError::InvalidPayload(event) => Error::BadEventFormat(
                event.name(),
                String::from_str("the payload has an unexpected type"),
            ),
        }
    }
}

/// A position on the screen, in pixels.
#[derive(Debug, Clone, Copy, PartialEq, Eq, Structural)]
pub struct Point {
    pub x: Number,
    pub y: Number,
}

/// A position on the globe, in degrees.
#[derive(Debug, Clone, Copy, PartialEq, Eq, Structural)]
pub struct LngLat {
    pub lng: Number,
    pub lat: Number,
}

/// The characters of each string of a sequence.
pub open spec fn strings_view(strings: Seq<String>) -> Seq<Seq<char>> {
    Seq::new(strings.len(), |i: int| strings[i]@)
}

// ---------------------------------------------------------------------------
// What the decoders compute, over views.
// ---------------------------------------------------------------------------
/// The value of a required field.
pub open spec fn spec_required(v: ValueView, event: EventType, field: Field) -> Result<
    ValueView,
    DecodeError,
> {
    match v.get(field.spec_key()) {
        Some(x) => Ok(x),
        None => Err(DecodeError::MissingField(event, field)),
    }
}

/// The characters of a required string field.
pub open spec fn spec_required_string(v: ValueView, event: EventType, field: Field) -> Result<
    Seq<char>,
    DecodeError,
> {
    match spec_required(v, event, field) {
        Ok(ValueView::String(s)) => Ok(s),
        Ok(_) => Err(DecodeError::InvalidField(event, field)),
        Err(e) => Err(e),
    }
}

/// The point that a value denotes: an object with numbers under `x` and `y`.
pub open spec fn spec_point(x: ValueView) -> Option<Point> {
    match (x.get("x"@), x.get("y"@)) {
        (Some(ValueView::Number(a)), Some(ValueView::Number(b))) => Some(Point { x: a, y: b }),
        _ => None,
    }
}

/// The position that a value denotes: an object with numbers under `lng` and
/// `lat`.
pub open spec fn spec_lng_lat(x: ValueView) -> Option<LngLat> {
    match (x.get("lng"@), x.get("lat"@)) {
        (Some(ValueView::Number(a)), Some(ValueView::Number(b))) => Some(LngLat { lng: a, lat: b }),
        _ => None,
    }
}

/// The points that a value denotes: an array of points.
pub open spec fn spec_points(x: ValueView) -> Option<Seq<Point>> {
    match x {
        ValueView::Array(items) => if forall|i: int|
            0 <= i < items.len() ==> (#[trigger] spec_point(items[i])) is Some {
            Some(Seq::new(items.len(), |i: int| spec_point(items[i])->Some_0))
        } else {
            None
        },
        _ => None,
    }
}

/// The positions that a value denotes: an array of positions.
pub open spec fn spec_lng_lats(x: ValueView) -> Option<Seq<LngLat>> {
    match x {
        ValueView::Array(items) => if forall|i: int|
            0 <= i < items.len() ==> (#[trigger] spec_lng_lat(items[i])) is Some {
            Some(Seq::new(items.len(), |i: int| spec_lng_lat(items[i])->Some_0))
        } else {
            None
        },
        _ => None,
    }
}

/// The strings that a value denotes: an array of strings.
pub open spec fn spec_strings(x: ValueView) -> Option<Seq<Seq<char>>> {
    match x {
        ValueView::Array(items) => if forall|i: int|
            0 <= i < items.len() ==> (#[trigger] items[i]) is String {
            Some(Seq::new(items.len(), |i: int| items[i]->String_0))
        } else {
            None
        },
        _ => None,
    }
}

/// A required point.
pub open spec fn spec_required_point(v: ValueView, event: EventType, field: Field) -> Result<
    Point,
    DecodeError,
> {
    match spec_required(v, event, field) {
        Ok(x) => match spec_point(x) {
            Some(p) => Ok(p),
            None => Err(DecodeError::InvalidField(event, field)),
        },
        Err(e) => Err(e),
    }
}

/// A required position.
pub open spec fn spec_required_lng_lat(v: ValueView, event: EventType, field: Field) -> Result<
    LngLat,
    DecodeError,
> {
    match spec_required(v, event, field) {
        Ok(x) => match spec_lng_lat(x) {
            Some(p) => Ok(p),
            None => Err(DecodeError::InvalidField(event, field)),
        },
        Err(e) => Err(e),
    }
}

/// A list of points that may be absent, and is then empty.
pub open spec fn spec_optional_points(v: ValueView, event: EventType, field: Field) -> Result<
    Seq<Point>,
    DecodeError,
> {
    match v.get(field.spec_key()) {
        None => Ok(Seq::empty()),
        Some(x) => match spec_points(x) {
            Some(points) => Ok(points),
            None => Err(DecodeError::InvalidField(event, field)),
        },
    }
}

/// A list of positions that may be absent, and is then empty.
pub open spec fn spec_optional_lng_lats(v: ValueView, event: EventType, field: Field) -> Result<
    Seq<LngLat>,
    DecodeError,
> {
    match v.get(field.spec_key()) {
        None => Ok(Seq::empty()),
        Some(x) => match spec_lng_lats(x) {
            Some(positions) => Ok(positions),
            None => Err(DecodeError::InvalidField(event, field)),
        },
    }
}

/// A list of strings that is empty unless the field holds an array of strings.
pub open spec fn spec_lenient_strings(v: ValueView, field: Field) -> Seq<Seq<char>> {
    match v.get(field.spec_key()) {
        Some(x) => match spec_strings(x) {
            Some(strings) => strings,
            None => Seq::empty(),
        },
        None => Seq::empty(),
    }
}

/// A truth value that may be absent or null.
pub open spec fn spec_optional_bool(v: ValueView, event: EventType, field: Field) -> Result<
    Option<bool>,
    DecodeError,
> {
    match v.get(field.spec_key()) {
        None => Ok(None),
        Some(ValueView::Null) => Ok(None),
        Some(ValueView::Bool(b)) => Ok(Some(b)),
        Some(_) => Err(DecodeError::InvalidField(event, field)),
    }
}

/// A string that may be absent or null.
pub open spec fn spec_optional_string(v: ValueView, event: EventType, field: Field) -> Result<
    Option<Seq<char>>,
    DecodeError,
> {
    match v.get(field.spec_key()) {
        None => Ok(None),
        Some(ValueView::Null) => Ok(None),
        Some(ValueView::String(s)) => Ok(Some(s)),
        Some(_) => Err(DecodeError::InvalidField(event, field)),
    }
}

// ---------------------------------------------------------------------------
// The decoders of single fields.
// ---------------------------------------------------------------------------
/// Reads the property of `value` that holds `field`, for a payload of the
/// event type `event`. A payload without the property, and one that is no
/// object, gives the error that names the event type and the field.
pub fn get_property<'a>(value: &'a Value, event: EventType, field: Field) -> (res: Result<
    &'a Value,
    DecodeError,
>)
    ensures
        match res {
            Ok(x) => spec_required(value@, event, field) == Ok::<ValueView, DecodeError>(x@),
            Err(e) => spec_required(value@, event, field) == Err::<ValueView, DecodeError>(e),
        },
        value@.get(field.spec_key()) is None ==> res == Err::<&Value, DecodeError>(
            DecodeError::MissingField(event, field),
        ),
        value@.get(field.spec_key()) is Some ==> res is Ok,
{
    match value.get(field.key()) {
        Some(x) => Ok(x),
        None => Err(DecodeError::MissingField(event, field)),
    }
}

fn required_string(value: &Value, event: EventType, field: Field) -> (res: Result<
    String,
    DecodeError,
>)
    ensures
        match res {
            Ok(s) => spec_required_string(value@, event, field) == Ok::<Seq<char>, DecodeError>(s@),
            Err(e) => spec_required_string(value@, event, field) == Err::<Seq<char>, DecodeError>(
                e,
            ),
        },
{
    match get_property(value, event, field)? {
        Value::String(s) => Ok(s.clone()),
        _ => Err(DecodeError::InvalidField(event, field)),
    }
}

/// Decodes a point: an object that holds numbers under `x` and `y`.
pub fn decode_point(value: &Value) -> (res: Option<Point>)
    ensures
        res == spec_point(value@),
{
    match (value.get("x"), value.get("y")) {
        (Some(Value::Number(a)), Some(Value::Number(b))) => Some(Point { x: *a, y: *b }),
        _ => None,
    }
}

/// Decodes a position: an object that holds numbers under `lng` and `lat`.
pub fn decode_lng_lat(value: &Value) -> (res: Option<LngLat>)
    ensures
        res == spec_lng_lat(value@),
{
    match (value.get("lng"), value.get("lat")) {
        (Some(Value::Number(a)), Some(Value::Number(b))) => Some(LngLat { lng: *a, lat: *b }),
        _ => None,
    }
}

/// Decodes an array of points; one item that is no point spoils the array.
pub fn decode_points(value: &Value) -> (res: Option<Vec<Point>>)
    ensures
        match res {
            Some(points) => spec_points(value@) == Some(points@),
            None => spec_points(value@) is None,
        },
{
    match value {
        Value::Array(items) => {
            proof {
                lemma_array_view(*items);
            }
            let ghost views = items_view(items@);
            let mut out: Vec<Point> = Vec::new();
            let mut i: usize = 0;
            while i < items.len()
                invariant
                    i <= items.len(),
                    out.len() == i,
                    views == items_view(items@),
                    value@ == ValueView::Array(views),
                    forall|j: int| 0 <= j < i ==> spec_point(views[j]) == Some(#[trigger] out@[j]),
                decreases items.len() - i,
            {
                match decode_point(&items[i]) {
                    Some(p) => {
                        out.push(p);
                    },
                    None => {
                        assert(spec_point(views[i as int]) is None);
                        return None;
                    },
                }
                i += 1;
            }
            proof {
                assert forall|j: int| 0 <= j < views.len() implies (#[trigger] spec_point(
                    views[j],
                )) is Some by {
                    assert(spec_point(views[j]) == Some(out@[j]));
                }
                assert(out@ =~= spec_points(value@)->Some_0);
            }
            Some(out)
        },
        _ => None,
    }
}

/// Decodes an array of positions; one item that is no position spoils the
/// array.
pub fn decode_lng_lats(value: &Value) -> (res: Option<Vec<LngLat>>)
    ensures
        match res {
            Some(positions) => spec_lng_lats(value@) == Some(positions@),
            None => spec_lng_lats(value@) is None,
        },
{
    match value {
        Value::Array(items) => {
            proof {
                lemma_array_view(*items);
            }
            let ghost views = items_view(items@);
            let mut out: Vec<LngLat> = Vec::new();
            let mut i: usize = 0;
            while i < items.len()
                invariant
                    i <= items.len(),
                    out.len() == i,
                    views == items_view(items@),
                    value@ == ValueView::Array(views),
                    forall|j: int|
                        0 <= j < i ==> spec_lng_lat(views[j]) == Some(#[trigger] out@[j]),
                decreases items.len() - i,
            {
                match decode_lng_lat(&items[i]) {
                    Some(p) => {
                        out.push(p);
                    },
                    None => {
                        assert(spec_lng_lat(views[i as int]) is None);
                        return None;
                    },
                }
                i += 1;
            }
            proof {
                assert forall|j: int| 0 <= j < views.len() implies (#[trigger] spec_lng_lat(
                    views[j],
                )) is Some by {
                    assert(spec_lng_lat(views[j]) == Some(out@[j]));
                }
                assert(out@ =~= spec_lng_lats(value@)->Some_0);
            }
            Some(out)
        },
        _ => None,
    }
}

/// Decodes an array of strings; one item that is no string spoils the array.
pub fn decode_strings(value: &Value) -> (res: Option<Vec<String>>)
    ensures
        match res {
            Some(strings) => spec_strings(value@) == Some(strings_view(strings@)),
            None => spec_strings(value@) is None,
        },
{
    match value {
        Value::Array(items) => {
            proof {
                lemma_array_view(*items);
            }
            let ghost views = items_view(items@);
            let mut out: Vec<String> = Vec::new();
            let mut i: usize = 0;
            while i < items.len()
                invariant
                    i <= items.len(),
                    out.len() == i,
                    views == items_view(items@),
                    value@ == ValueView::Array(views),
                    forall|j: int|
                        0 <= j < i ==> views[j] == ValueView::String((#[trigger] out@[j])@),
                decreases items.len() - i,
            {
                match &items[i] {
                    Value::String(s) => {
                        out.push(s.clone());
                    },
                    _ => {
                        assert(!(views[i as int] is String));
                        return None;
                    },
                }
                i += 1;
            }
            proof {
                assert forall|j: int| 0 <= j < views.len() implies (#[trigger] views[j]) is String by {
                    assert(views[j] == ValueView::String(out@[j]@));
                }
                assert(strings_view(out@) =~= spec_strings(value@)->Some_0);
            }
            Some(out)
        },
        _ => None,
    }
}

fn required_point(value: &Value, event: EventType, field: Field) -> (res: Result<
    Point,
    DecodeError,
>)
    ensures
        res == spec_required_point(value@, event, field),
{
    match decode_point(get_property(value, event, field)?) {
        Some(p) => Ok(p),
        None => Err(DecodeError::InvalidField(event, field)),
    }
}

fn required_lng_lat(value: &Value, event: EventType, field: Field) -> (res: Result<
    LngLat,
    DecodeError,
>)
    ensures
        res == spec_required_lng_lat(value@, event, field),
{
    match decode_lng_lat(get_property(value, event, field)?) {
        Some(p) => Ok(p),
        None => Err(DecodeError::InvalidField(event, field)),
    }
}

fn optional_points(value: &Value, event: EventType, field: Field) -> (res: Result<
    Vec<Point>,
    DecodeError,
>)
    ensures
        match res {
            Ok(points) => spec_optional_points(value@, event, field) == Ok::<
                Seq<Point>,
                DecodeError,
            >(points@),
            Err(e) => spec_optional_points(value@, event, field) == Err::<Seq<Point>, DecodeError>(
                e,
            ),
        },
{
    match value.get(field.key()) {
        None => Ok(Vec::new()),
        Some(x) => match decode_points(x) {
            Some(points) => Ok(points),
            None => Err(DecodeError::InvalidField(event, field)),
        },
    }
}

fn optional_lng_lats(value: &Value, event: EventType, field: Field) -> (res: Result<
    Vec<LngLat>,
    DecodeError,
>)
    ensures
        match res {
            Ok(positions) => spec_optional_lng_lats(value@, event, field) == Ok::<
                Seq<LngLat>,
                DecodeError,
            >(positions@),
            Err(e) => spec_optional_lng_lats(value@, event, field) == Err::<
                Seq<LngLat>,
                DecodeError,
            >(e),
        },
{
    match value.get(field.key()) {
        None => Ok(Vec::new()),
        Some(x) => match decode_lng_lats(x) {
            Some(positions) => Ok(positions),
            None => Err(DecodeError::InvalidField(event, field)),
        },
    }
}

fn lenient_strings(value: &Value, field: Field) -> (res: Vec<String>)
    ensures
        strings_view(res@) == spec_lenient_strings(value@, field),
{
    let found = match value.get(field.key()) {
        Some(x) => decode_strings(x),
        None => None,
    };
    match found {
        Some(strings) => strings,
        None => {
            let empty: Vec<String> = Vec::new();
            assert(strings_view(empty@) =~= Seq::<Seq<char>>::empty());
            empty
        },
    }
}

fn optional_bool(value: &Value, event: EventType, field: Field) -> (res: Result<
    Option<bool>,
    DecodeError,
>)
    ensures
        res == spec_optional_bool(value@, event, field),
{
    match value.get(field.key()) {
        None => Ok(None),
        Some(Value::Null) => Ok(None),
        Some(Value::Bool(b)) => Ok(Some(*b)),
        Some(_) => Err(DecodeError::InvalidField(event, field)),
    }
}

fn optional_string(value: &Value, event: EventType, field: Field) -> (res: Result<
    Option<String>,
    DecodeError,
>)
    ensures
        match res {
            Ok(Some(s)) => spec_optional_string(value@, event, field) == Ok::<
                Option<Seq<char>>,
                DecodeError,
            >(Some(s@)),
            Ok(None) => spec_optional_string(value@, event, field) == Ok::<
                Option<Seq<char>>,
                DecodeError,
            >(None),
            Err(e) => spec_optional_string(value@, event, field) == Err::<
                Option<Seq<char>>,
                DecodeError,
            >(e),
        },
{
    match value.get(field.key()) {
        None => Ok(None),
        Some(Value::Null) => Ok(None),
        Some(Value::String(s)) => Ok(Some(s.clone())),
        Some(_) => Err(DecodeError::InvalidField(event, field)),
    }
}

// ---------------------------------------------------------------------------
// The events.
// ---------------------------------------------------------------------------
/// An event that carries nothing but its name.
#[derive(Debug, Clone)]
pub struct MapBaseEvent {
    pub type_: String,
}

pub struct MapBaseEventView {
    pub type_: Seq<char>,
}

impl View for MapBaseEvent {
    type V = MapBaseEventView;

    open spec fn view(&self) -> MapBaseEventView {
        MapBaseEventView { type_: self.type_@ }
    }
}

impl MapBaseEvent {
    /// What [`MapBaseEvent::try_from`] makes of a payload.
    pub open spec fn spec_try_from(v: ValueView) -> Result<MapBaseEventView, DecodeError> {
        match spec_required_string(v, EventType::MapBaseEvent, Field::Type) {
            Ok(type_) => Ok(MapBaseEventView { type_ }),
            Err(e) => Err(e),
        }
    }

    /// Decodes a payload that must hold a string under `type`.
    pub fn try_from(value: &Value) -> (res: Result<MapBaseEvent, DecodeError>)
        ensures
            match res {
                Ok(event) => Self::spec_try_from(value@) == Ok::<MapBaseEventView, DecodeError>(
                    event@,
                ),
                Err(e) => Self::spec_try_from(value@) == Err::<MapBaseEventView, DecodeError>(e),
            },
    {
        let type_ = required_string(value, EventType::MapBaseEvent, Field::Type)?;
        Ok(MapBaseEvent { type_ })
    }
}

/// A movement of the map, with the input event that caused it, if any did.
#[derive(Debug, Clone)]
pub struct MapEvent {
    pub type_: String,
    pub original_event: Option<Value>,
}

pub struct MapEventView {
    pub type_: Seq<char>,
    pub original_event: Option<ValueView>,
}

impl View for MapEvent {
    type V = MapEventView;

    open spec fn view(&self) -> MapEventView {
        MapEventView {
            type_: self.type_@,
            original_event: match self.original_event {
                Some(e) => Some(e@),
                None => None,
            },
        }
    }
}

impl MapEvent {
    /// What [`MapEvent::try_from`] makes of a payload.
    pub open spec fn spec_try_from(v: ValueView) -> Result<MapEventView, DecodeError> {
        match spec_required_string(v, EventType::MapEvent, Field::Type) {
            Ok(type_) => Ok(
                MapEventView { type_, original_event: v.get(Field::OriginalEvent.spec_key()) },
            ),
            Err(e) => Err(e),
        }
    }

    /// Decodes a payload that must hold a string under `type`; a movement that
    /// no input caused has no `originalEvent`.
    pub fn try_from(value: &Value) -> (res: Result<MapEvent, DecodeError>)
        ensures
            match res {
                Ok(event) => Self::spec_try_from(value@) == Ok::<MapEventView, DecodeError>(event@),
                Err(e) => Self::spec_try_from(value@) == Err::<MapEventView, DecodeError>(e),
            },
    {
        let type_ = required_string(value, EventType::MapEvent, Field::Type)?;
        let original_event = match value.get(Field::OriginalEvent.key()) {
            Some(e) => Some(e.clone()),
            None => None,
        };
        Ok(MapEvent { type_, original_event })
    }
}

/// A change in the data that the map shows.
#[derive(Debug, Clone)]
pub struct MapDataEvent {
    pub type_: String,
    pub data_type: String,
    pub is_source_loaded: Option<bool>,
    pub source_data_type: Option<String>,
    pub source_id: Option<String>,
}

pub struct MapDataEventView {
    pub type_: Seq<char>,
    pub data_type: Seq<char>,
    pub is_source_loaded: Option<bool>,
    pub source_data_type: Option<Seq<char>>,
    pub source_id: Option<Seq<char>>,
}

impl View for MapDataEvent {
    type V = MapDataEventView;

    open spec fn view(&self) -> MapDataEventView {
        MapDataEventView {
            type_: self.type_@,
            data_type: self.data_type@,
            is_source_loaded: self.is_source_loaded,
            source_data_type: match self.source_data_type {
                Some(s) => Some(s@),
                None => None,
            },
            source_id: match self.source_id {
                Some(s) => Some(s@),
                None => None,
            },
        }
    }
}

impl MapDataEvent {
    /// What [`MapDataEvent::try_from`] makes of a payload.
    pub open spec fn spec_try_from(v: ValueView) -> Result<MapDataEventView, DecodeError> {
        let event = EventType::MapDataEvent;
        match spec_required_string(v, event, Field::Type) {
            Err(e) => Err(e),
            Ok(type_) => match spec_required_string(v, event, Field::DataType) {
                Err(e) => Err(e),
                Ok(data_type) => match spec_optional_bool(v, event, Field::IsSourceLoaded) {
                    Err(e) => Err(e),
                    Ok(is_source_loaded) => match spec_optional_string(
                        v,
                        event,
                        Field::SourceDataType,
                    ) {
                        Err(e) => Err(e),
                        Ok(source_data_type) => match spec_optional_string(
                            v,
                            event,
                            Field::SourceId,
                        ) {
                            Err(e) => Err(e),
                            Ok(source_id) => Ok(
                                MapDataEventView {
                                    type_,
                                    data_type,
                                    is_source_loaded,
                                    source_data_type,
                                    source_id,
                                },
                            ),
                        },
                    },
                },
            },
        }
    }

    /// Decodes a payload that must hold strings under `type` and `dataType`,
    /// and may hold `isSourceLoaded`, `sourceDataType` and `sourceId`.
    pub fn try_from(value: &Value) -> (res: Result<MapDataEvent, DecodeError>)
        ensures
            match res {
                Ok(event) => Self::spec_try_from(value@) == Ok::<MapDataEventView, DecodeError>(
                    event@,
                ),
                Err(e) => Self::spec_try_from(value@) == Err::<MapDataEventView, DecodeError>(e),
            },
    {
        let event = EventType::MapDataEvent;
        let type_ = required_string(value, event, Field::Type)?;
        let data_type = required_string(value, event, Field::DataType)?;
        let is_source_loaded = optional_bool(value, event, Field::IsSourceLoaded)?;
        let source_data_type = optional_string(value, event, Field::SourceDataType)?;
        let source_id = optional_string(value, event, Field::SourceId)?;
        Ok(MapDataEvent { type_, data_type, is_source_loaded, source_data_type, source_id })
    }
}

/// A zoom to a box that the user drags open.
#[derive(Debug, Clone)]
pub struct MapBoxZoomEvent {
    pub type_: String,
    pub original_event: Value,
}

pub struct MapBoxZoomEventView {
    pub type_: Seq<char>,
    pub original_event: ValueView,
}

impl View for MapBoxZoomEvent {
    type V = MapBoxZoomEventView;

    open spec fn view(&self) -> MapBoxZoomEventView {
        MapBoxZoomEventView { type_: self.type_@, original_event: self.original_event@ }
    }
}

impl MapBoxZoomEvent {
    /// What [`MapBoxZoomEvent::try_from`] makes of a payload.
    pub open spec fn spec_try_from(v: ValueView) -> Result<MapBoxZoomEventView, DecodeError> {
        let event = EventType::MapBoxZoomEvent;
        match spec_required_string(v, event, Field::Type) {
            Err(e) => Err(e),
            Ok(type_) => match spec_required(v, event, Field::OriginalEvent) {
                Err(e) => Err(e),
                Ok(original_event) => Ok(MapBoxZoomEventView { type_, original_event }),
            },
        }
    }

    /// Decodes a payload that must hold a string under `type` and the input
    /// event under `originalEvent`.
    pub fn try_from(value: &Value) -> (res: Result<MapBoxZoomEvent, DecodeError>)
        ensures
            match res {
                Ok(event) => Self::spec_try_from(value@) == Ok::<MapBoxZoomEventView, DecodeError>(
                    event@,
                ),
                Err(e) => Self::spec_try_from(value@) == Err::<MapBoxZoomEventView, DecodeError>(
                    e,
                ),
            },
    {
        let event = EventType::MapBoxZoomEvent;
        let type_ = required_string(value, event, Field::Type)?;
        let original_event = get_property(value, event, Field::OriginalEvent)?.clone();
        Ok(MapBoxZoomEvent { type_, original_event })
    }
}

/// A mouse event on the map.
#[derive(Debug, Clone)]
pub struct MapMouseEvent {
    pub type_: String,
    pub original_event: Value,
    pub point: Point,
    pub lng_lat: LngLat,
    pub features: Vec<String>,
}

pub struct MapMouseEventView {
    pub type_: Seq<char>,
    pub original_event: ValueView,
    pub point: Point,
    pub lng_lat: LngLat,
    pub features: Seq<Seq<char>>,
}

impl View for MapMouseEvent {
    type V = MapMouseEventView;

    open spec fn view(&self) -> MapMouseEventView {
        MapMouseEventView {
            type_: self.type_@,
            original_event: self.original_event@,
            point: self.point,
            lng_lat: self.lng_lat,
            features: strings_view(self.features@),
        }
    }
}

impl MapMouseEvent {
    /// What [`MapMouseEvent::try_from`] makes of a payload.
    pub open spec fn spec_try_from(v: ValueView) -> Result<MapMouseEventView, DecodeError> {
        let event = EventType::MapMouseEvent;
        match spec_required_string(v, event, Field::Type) {
            Err(e) => Err(e),
            Ok(type_) => match spec_required(v, event, Field::OriginalEvent) {
                Err(e) => Err(e),
                Ok(original_event) => match spec_required_point(v, event, Field::Point) {
                    Err(e) => Err(e),
                    Ok(point) => match spec_required_lng_lat(v, event, Field::LngLat) {
                        Err(e) => Err(e),
                        Ok(lng_lat) => Ok(
                            MapMouseEventView {
                                type_,
                                original_event,
                                point,
                                lng_lat,
                                features: spec_lenient_strings(v, Field::Features),
                            },
                        ),
                    },
                },
            },
        }
    }

    /// Decodes a payload that must hold `type`, `originalEvent`, `point` and
    /// `lngLat`, in that order of reading. `features` is empty unless the
    /// payload holds an array of strings there.
    pub fn try_from(value: &Value) -> (res: Result<MapMouseEvent, DecodeError>)
        ensures
            match res {
                Ok(event) => Self::spec_try_from(value@) == Ok::<MapMouseEventView, DecodeError>(
                    event@,
                ),
                Err(e) => Self::spec_try_from(value@) == Err::<MapMouseEventView, DecodeError>(e),
            },
    {
        let event = EventType::MapMouseEvent;
        let type_ = required_string(value, event, Field::Type)?;
        let original_event = get_property(value, event, Field::OriginalEvent)?.clone();
        let point = required_point(value, event, Field::Point)?;
        let lng_lat = required_lng_lat(value, event, Field::LngLat)?;
        let features = lenient_strings(value, Field::Features);
        Ok(MapMouseEvent { type_, original_event, point, lng_lat, features })
    }
}

/// A touch event on the map.
#[derive(Debug, Clone)]
pub struct MapTouchEvent {
    pub type_: String,
    pub original_event: Value,
    pub point: Point,
    pub points: Vec<Point>,
    pub lng_lat: LngLat,
    pub lng_lats: Vec<LngLat>,
    pub features: Vec<String>,
}

pub struct MapTouchEventView {
    pub type_: Seq<char>,
    pub original_event: ValueView,
    pub point: Point,
    pub points: Seq<Point>,
    pub lng_lat: LngLat,
    pub lng_lats: Seq<LngLat>,
    pub features: Seq<Seq<char>>,
}

impl View for MapTouchEvent {
    type V = MapTouchEventView;

    open spec fn view(&self) -> MapTouchEventView {
        MapTouchEventView {
            type_: self.type_@,
            original_event: self.original_event@,
            point: self.point,
            points: self.points@,
            lng_lat: self.lng_lat,
            lng_lats: self.lng_lats@,
            features: strings_view(self.features@),
        }
    }
}

impl MapTouchEvent {
    /// What [`MapTouchEvent::try_from`] makes of a payload.
    pub open spec fn spec_try_from(v: ValueView) -> Result<MapTouchEventView, DecodeError> {
        let event = EventType::MapTouchEvent;
        match spec_required_string(v, event, Field::Type) {
            Err(e) => Err(e),
            Ok(type_) => match spec_required(v, event, Field::OriginalEvent) {
                Err(e) => Err(e),
                Ok(original_event) => match spec_required_point(v, event, Field::Point) {
                    Err(e) => Err(e),
                    Ok(point) => match spec_optional_points(v, event, Field::Points) {
                        Err(e) => Err(e),
                        Ok(points) => match spec_required_lng_lat(v, event, Field::LngLat) {
                            Err(e) => Err(e),
                            Ok(lng_lat) => match spec_optional_lng_lats(
                                v,
                                event,
                                Field::LngLats,
                            ) {
                                Err(e) => Err(e),
                                Ok(lng_lats) => Ok(
                                    MapTouchEventView {
                                        type_,
                                        original_event,
                                        point,
                                        points,
                                        lng_lat,
                                        lng_lats,
                                        features: spec_lenient_strings(v, Field::Features),
                                    },
                                ),
                            },
                        },
                    },
                },
            },
        }
    }

    /// Decodes a payload that must hold `type`, `originalEvent`, `point` and
    /// `lngLat`. The lists `points` and `lngLats` are empty when absent, and
    /// must be well-formed when present. `features` is empty unless the
    /// payload holds an array of strings there. The fields are read in the
    /// order `type`, `originalEvent`, `point`, `points`, `lngLat`, `lngLats`.
    pub fn try_from(value: &Value) -> (res: Result<MapTouchEvent, DecodeError>)
        ensures
            match res {
                Ok(event) => Self::spec_try_from(value@) == Ok::<MapTouchEventView, DecodeError>(
                    event@,
                ),
                Err(e) => Self::spec_try_from(value@) == Err::<MapTouchEventView, DecodeError>(e),
            },
    {
        let event = EventType::MapTouchEvent;
        let type_ = required_string(value, event, Field::Type)?;
        let original_event = get_property(value, event, Field::OriginalEvent)?.clone();
        let point = required_point(value, event, Field::Point)?;
        let points = optional_points(value, event, Field::Points)?;
        let lng_lat = required_lng_lat(value, event, Field::LngLat)?;
        let lng_lats = optional_lng_lats(value, event, Field::LngLats)?;
        let features = lenient_strings(value, Field::Features);
        Ok(MapTouchEvent { type_, original_event, point, points, lng_lat, lng_lats, features })
    }
}

/// A turn of the mouse wheel over the map.
#[derive(Debug, Clone)]
pub struct MapWheelEvent {
    pub type_: String,
    pub original_event: Value,
}

pub struct MapWheelEventView {
    pub type_: Seq<char>,
    pub original_event: ValueView,
}

impl View for MapWheelEvent {
    type V = MapWheelEventView;

    open spec fn view(&self) -> MapWheelEventView {
        MapWheelEventView { type_: self.type_@, original_event: self.original_event@ }
    }
}

impl MapWheelEvent {
    /// What [`MapWheelEvent::try_from`] makes of a payload.
    pub open spec fn spec_try_from(v: ValueView) -> Result<MapWheelEventView, DecodeError> {
        let event = EventType::MapWheelEvent;
        match spec_required_string(v, event, Field::Type) {
            Err(e) => Err(e),
            Ok(type_) => match spec_required(v, event, Field::OriginalEvent) {
                Err(e) => Err(e),
                Ok(original_event) => Ok(MapWheelEventView { type_, original_event }),
            },
        }
    }

    /// Decodes a payload that must hold a string under `type` and the input
    /// event under `originalEvent`.
    pub fn try_from(value: &Value) -> (res: Result<MapWheelEvent, DecodeError>)
        ensures
            match res {
                Ok(event) => Self::spec_try_from(value@) == Ok::<MapWheelEventView, DecodeError>(
                    event@,
                ),
                Err(e) => Self::spec_try_from(value@) == Err::<MapWheelEventView, DecodeError>(e),
            },
    {
        let event = EventType::MapWheelEvent;
        let type_ = required_string(value, event, Field::Type)?;
        let original_event = get_property(value, event, Field::OriginalEvent)?.clone();
        Ok(MapWheelEvent { type_, original_event })
    }
}

/// A step of a drag.
#[derive(Debug, Clone)]
pub struct DragEvent {
    pub original_event: Value,
}

pub struct DragEventView {
    pub original_event: ValueView,
}

impl View for DragEvent {
    type V = DragEventView;

    open spec fn view(&self) -> DragEventView {
        DragEventView { original_event: self.original_event@ }
    }
}

impl DragEvent {
    /// What [`DragEvent::try_from`] makes of a payload.
    pub open spec fn spec_try_from(v: ValueView) -> Result<DragEventView, DecodeError> {
        match spec_required(v, EventType::DragEvent, Field::OriginalEvent) {
            Err(e) => Err(e),
            Ok(original_event) => Ok(DragEventView { original_event }),
        }
    }

    /// Decodes a payload that must hold the input event under `originalEvent`.
    pub fn try_from(value: &Value) -> (res: Result<DragEvent, DecodeError>)
        ensures
            match res {
                Ok(event) => Self::spec_try_from(value@) == Ok::<DragEventView, DecodeError>(
                    event@,
                ),
                Err(e) => Self::spec_try_from(value@) == Err::<DragEventView, DecodeError>(e),
            },
    {
        let original_event = get_property(value, EventType::DragEvent, Field::OriginalEvent)?.clone();
        Ok(DragEvent { original_event })
    }
}

/// What [`decode_message`] makes of a payload.
pub open spec fn spec_message(v: ValueView) -> Result<Seq<char>, DecodeError> {
    match v {
        ValueView::String(s) => Ok(s),
        _ => Err(DecodeError::InvalidPayload(EventType::Message)),
    }
}

/// Decodes the payload of an error event, which is a plain string and no
/// object.
pub fn decode_message(value: &Value) -> (res: Result<String, DecodeError>)
    ensures
        match res {
            Ok(s) => spec_message(value@) == Ok::<Seq<char>, DecodeError>(s@),
            Err(e) => spec_message(value@) == Err::<Seq<char>, DecodeError>(e),
        },
{
    match value {
        Value::String(s) => Ok(s.clone()),
        _ => Err(DecodeError::InvalidPayload(EventType::Message)),
    }
}

} // verus!
