//! Queries for the features that a map has rendered: the request that goes to
//! the engine, and the decoding of what comes back.

use vstd::prelude::*;
use vstd::string::StringExecFns;
use crate::error::{Error, ErrorView, Result};
use crate::geometry::{query_geometry_wire, spec_query_geometry_wire, IntoQueryGeometry};
use crate::options::QueryFeatureOptions;
use crate::wire::{
    items_view, lemma_array_view, option_view, ref_view, Number, ToWire, Value, ValueView,
};

verus! {

/// The two arguments of a query for rendered features.
#[derive(Debug, Clone)]
pub struct FeatureQuery {
    /// The flat array of the geometry, or nothing for the whole viewport.
    pub geometry: Option<Value>,
    /// The object of the options.
    pub options: Value,
}

/// Builds the request of a query for the features under `geometry`, or in the
/// whole viewport where there is none, narrowed by `options`.
pub fn feature_query<G: IntoQueryGeometry>(geometry: Option<G>, options: &QueryFeatureOptions) -> (res:
    FeatureQuery)
    ensures
        option_view(res.geometry) == spec_query_geometry_wire(geometry),
        res.options@ == options.wire(),
{
    FeatureQuery { geometry: query_geometry_wire(geometry), options: options.to_wire() }
}

/// The identifier of a feature: a string or a number.
#[derive(Debug, Clone)]
pub enum FeatureId {
    String(String),
    Number(Number),
}

pub enum FeatureIdView {
    String(Seq<char>),
    Number(Number),
}

impl View for FeatureId {
    type V = FeatureIdView;

    open spec fn view(&self) -> FeatureIdView {
        match self {
            FeatureId::String(s) => FeatureIdView::String(s@),
            FeatureId::Number(n) => FeatureIdView::Number(*n),
        }
    }
}

/// A feature as the engine reports it. The geometry, the properties and the
/// foreign members are kept as the objects that the engine sent.
#[derive(Debug, Clone)]
pub struct Feature {
    pub bbox: Option<Vec<Number>>,
    pub geometry: Option<Value>,
    pub id: Option<FeatureId>,
    pub properties: Option<Value>,
    pub foreign_members: Option<Value>,
}

pub struct FeatureView {
    pub bbox: Option<Seq<Number>>,
    pub geometry: Option<ValueView>,
    pub id: Option<FeatureIdView>,
    pub properties: Option<ValueView>,
    pub foreign_members: Option<ValueView>,
}

impl View for Feature {
    type V = FeatureView;

    open spec fn view(&self) -> FeatureView {
        FeatureView {
            bbox: match self.bbox {
                Some(b) => Some(b@),
                None => None,
            },
            geometry: option_view(self.geometry),
            id: match self.id {
                Some(id) => Some(id@),
                None => None,
            },
            properties: option_view(self.properties),
            foreign_members: option_view(self.foreign_members),
        }
    }
}

/// The views of a list of features.
pub open spec fn features_view(features: Seq<Feature>) -> Seq<FeatureView> {
    Seq::new(features.len(), |i: int| features[i]@)
}

/// A field that is absent or null is unset.
pub open spec fn is_unset(field: Option<ValueView>) -> bool {
    field is None || field == Some(ValueView::Null)
}

/// The numbers that a value denotes: an array of numbers.
pub open spec fn spec_numbers(x: ValueView) -> Option<Seq<Number>> {
    match x {
        ValueView::Array(items) => if forall|i: int|
            0 <= i < items.len() ==> (#[trigger] items[i]) is Number {
            Some(Seq::new(items.len(), |i: int| items[i]->Number_0))
        } else {
            None
        },
        _ => None,
    }
}

/// The bounding box of a feature: unset, or an array of numbers. The outer
/// option is nothing where the field has another shape.
pub open spec fn spec_bbox(field: Option<ValueView>) -> Option<Option<Seq<Number>>> {
    if is_unset(field) {
        Some(None)
    } else {
        match spec_numbers(field->Some_0) {
            Some(numbers) => Some(Some(numbers)),
            None => None,
        }
    }
}

/// An object of a feature: unset, or an object. The outer option is nothing
/// where the field has another shape.
pub open spec fn spec_object(field: Option<ValueView>) -> Option<Option<ValueView>> {
    if is_unset(field) {
        Some(None)
    } else if field->Some_0 is Object {
        Some(field)
    } else {
        None
    }
}

/// The identifier of a feature: unset, a string or a number. The outer option
/// is nothing where the field has another shape.
pub open spec fn spec_id(field: Option<ValueView>) -> Option<Option<FeatureIdView>> {
    if is_unset(field) {
        Some(None)
    } else {
        match field->Some_0 {
            ValueView::String(s) => Some(Some(FeatureIdView::String(s))),
            ValueView::Number(n) => Some(Some(FeatureIdView::Number(n))),
            _ => None,
        }
    }
}

/// The feature that a value denotes: an object whose fields `bbox`,
/// `geometry`, `id`, `properties` and `foreign_members` are each unset or of
/// the right shape.
pub open spec fn spec_feature(v: ValueView) -> Option<FeatureView> {
    if !(v is Object) {
        None
    } else {
        match (
            spec_bbox(v.get("bbox"@)),
            spec_object(v.get("geometry"@)),
            spec_id(v.get("id"@)),
            spec_object(v.get("properties"@)),
            spec_object(v.get("foreign_members"@)),
        ) {
            (Some(bbox), Some(geometry), Some(id), Some(properties), Some(foreign_members)) => Some(
                FeatureView { bbox, geometry, id, properties, foreign_members },
            ),
            _ => None,
        }
    }
}

/// The features that a value denotes: an array of features.
pub open spec fn spec_features(v: ValueView) -> Option<Seq<FeatureView>> {
    match v {
        ValueView::Array(items) => if forall|i: int|
            0 <= i < items.len() ==> (#[trigger] spec_feature(items[i])) is Some {
            Some(Seq::new(items.len(), |i: int| spec_feature(items[i])->Some_0))
        } else {
            None
        },
        _ => None,
    }
}

/// The error of a response that is no list of features.
pub open spec fn bad_features() -> ErrorView {
    ErrorView::JsError("the response is no list of features"@)
}

fn decode_numbers(value: &Value) -> (res: Option<Vec<Number>>)
    ensures
        match res {
            Some(numbers) => spec_numbers(value@) == Some(numbers@),
            None => spec_numbers(value@) is None,
        },
{
    match value {
        Value::Array(items) => {
            proof {
                lemma_array_view(*items);
            }
            let ghost views = items_view(items@);
            let mut out: Vec<Number> = Vec::new();
            let mut i: usize = 0;
            while i < items.len()
                invariant
                    i <= items.len(),
                    out.len() == i,
                    views == items_view(items@),
                    value@ == ValueView::Array(views),
                    forall|j: int| 0 <= j < i ==> views[j] == ValueView::Number(#[trigger] out@[j]),
                decreases items.len() - i,
            {
                match &items[i] {
                    Value::Number(n) => {
                        out.push(*n);
                    },
                    _ => {
                        assert(!(views[i as int] is Number));
                        return None;
                    },
                }
                i += 1;
            }
            proof {
                assert forall|j: int| 0 <= j < views.len() implies (#[trigger] views[j]) is Number by {
                    assert(views[j] == ValueView::Number(out@[j]));
                }
                assert(out@ =~= spec_numbers(value@)->Some_0);
            }
            Some(out)
        },
        _ => None,
    }
}

fn decode_bbox(field: Option<&Value>) -> (res: Option<Option<Vec<Number>>>)
    ensures
        match res {
            Some(Some(numbers)) => spec_bbox(ref_view(field)) == Some(Some(numbers@)),
            Some(None) => spec_bbox(ref_view(field)) == Some(None::<Seq<Number>>),
            None => spec_bbox(ref_view(field)) is None,
        },
{
    match field {
        None => Some(None),
        Some(Value::Null) => Some(None),
        Some(value) => match decode_numbers(value) {
            Some(numbers) => Some(Some(numbers)),
            None => None,
        },
    }
}

fn decode_object(field: Option<&Value>) -> (res: Option<Option<Value>>)
    ensures
        match res {
            Some(object) => spec_object(ref_view(field)) == Some(option_view(object)),
            None => spec_object(ref_view(field)) is None,
        },
{
    match field {
        None => Some(None),
        Some(Value::Null) => Some(None),
        Some(value) => match value {
            Value::Object(_) => Some(Some(value.clone())),
            _ => None,
        },
    }
}

fn decode_id(field: Option<&Value>) -> (res: Option<Option<FeatureId>>)
    ensures
        match res {
            Some(Some(id)) => spec_id(ref_view(field)) == Some(Some(id@)),
            Some(None) => spec_id(ref_view(field)) == Some(None::<FeatureIdView>),
            None => spec_id(ref_view(field)) is None,
        },
{
    match field {
        None => Some(None),
        Some(Value::Null) => Some(None),
        Some(Value::String(s)) => Some(Some(FeatureId::String(s.clone()))),
        Some(Value::Number(n)) => Some(Some(FeatureId::Number(*n))),
        Some(_) => None,
    }
}

impl Feature {
    /// Decodes one feature of a response.
    pub fn decode(value: &Value) -> (res: Option<Feature>)
        ensures
            match res {
                Some(feature) => spec_feature(value@) == Some(feature@),
                None => spec_feature(value@) is None,
            },
    {
        match value {
            Value::Object(_) => {},
            _ => {
                return None;
            },
        }
        let bbox = decode_bbox(value.get("bbox"))?;
        let geometry = decode_object(value.get("geometry"))?;
        let id = decode_id(value.get("id"))?;
        let properties = decode_object(value.get("properties"))?;
        let foreign_members = decode_object(value.get("foreign_members"))?;
        Some(Feature { bbox, geometry, id, properties, foreign_members })
    }
}

/// Decodes the response of a query for rendered features: an array of
/// features. One item that is no feature spoils the response.
pub fn decode_features(response: &Value) -> (res: Result<Vec<Feature>>)
    ensures
        match res {
            Ok(features) => spec_features(response@) == Some(features_view(features@)),
            Err(e) => spec_features(response@) is None && e@ == bad_features(),
        },
{
    match response {
        Value::Array(items) => {
            proof {
                lemma_array_view(*items);
            }
            let ghost views = items_view(items@);
            let mut out: Vec<Feature> = Vec::new();
            let mut i: usize = 0;
            while i < items.len()
                invariant
                    i <= items.len(),
                    out.len() == i,
                    views == items_view(items@),
                    response@ == ValueView::Array(views),
                    forall|j: int|
                        0 <= j < i ==> spec_feature(views[j]) == Some((#[trigger] out@[j])@),
                decreases items.len() - i,
            {
                match Feature::decode(&items[i]) {
                    Some(feature) => {
                        out.push(feature);
                    },
                    None => {
                        assert(spec_feature(views[i as int]) is None);
                        return Err(
                            Error::JsError(String::from_str("the response is no list of features")),
                        );
                    },
                }
                i += 1;
            }
            proof {
                assert forall|j: int| 0 <= j < views.len() implies (#[trigger] spec_feature(
                    views[j],
                )) is Some by {
                    assert(spec_feature(views[j]) == Some(out@[j]@));
                }
                assert(features_view(out@) =~= spec_features(response@)->Some_0);
            }
            Ok(out)
        },
        _ => Err(Error::JsError(String::from_str("the response is no list of features"))),
    }
}

} // verus!
