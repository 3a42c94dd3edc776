//! The geometry of a feature query, and its flat wire form.
//!
//! A query asks for the features under one point or inside one box. The engine
//! takes either as a flat array: `[lng, lat]` or `[west, south, east, north]`.

use vstd::prelude::*;
use crate::event::Point;
use crate::lnglat::LngLatBounds;
use crate::wire::{items_view, Number, ToWire, Value, ValueView};

verus! {

/// What can stand for the geometry of a feature query.
pub trait IntoQueryGeometry: Sized {
    /// The geometry that the value stands for.
    spec fn spec_query_geometry(self) -> QueryGeometry;

    /// The geometry that the value stands for.
    fn into_query_geometry(self) -> (res: QueryGeometry)
        ensures
            res == self.spec_query_geometry(),
    ;
}

/// One point or one box.
#[derive(Debug, Clone, Copy, PartialEq, Eq, Structural)]
pub enum QueryGeometry {
    Point { lng: Number, lat: Number },
    BBox { west: Number, south: Number, east: Number, north: Number },
}

impl QueryGeometry {
    /// The flat form: two numbers for a point, four for a box.
    pub open spec fn spec_vec(self) -> Seq<Number> {
        match self {
            QueryGeometry::Point { lng, lat } => seq![lng, lat],
            QueryGeometry::BBox { west, south, east, north } => seq![west, south, east, north],
        }
    }

    /// The flat form: `[lng, lat]` for a point, `[west, south, east, north]`
    /// for a box.
    pub fn into_vec(self) -> (res: Vec<Number>)
        ensures
            res@ == self.spec_vec(),
    {
        let mut res: Vec<Number> = Vec::new();
        match self {
            QueryGeometry::Point { lng, lat } => {
                res.push(lng);
                res.push(lat);
            },
            QueryGeometry::BBox { west, south, east, north } => {
                res.push(west);
                res.push(south);
                res.push(east);
                res.push(north);
            },
        }
        assert(res@ =~= self.spec_vec());
        res
    }
}

impl ToWire for QueryGeometry {
    /// The flat form as an array of numbers.
    open spec fn wire(&self) -> ValueView {
        ValueView::Array(
            Seq::new(self.spec_vec().len(), |i: int| ValueView::Number(self.spec_vec()[i])),
        )
    }

    fn to_wire(&self) -> (value: Value) {
        let numbers = self.into_vec();
        let mut items: Vec<Value> = Vec::new();
        let mut i: usize = 0;
        while i < numbers.len()
            invariant
                i <= numbers.len(),
                items.len() == i,
                forall|j: int|
                    0 <= j < i ==> (#[trigger] items@[j])@ == ValueView::Number(numbers@[j]),
            decreases numbers.len() - i,
        {
            items.push(Value::Number(numbers[i]));
            i += 1;
        }
        assert(items_view(items@) =~= self.wire()->Array_0);
        Value::array(items)
    }
}

impl IntoQueryGeometry for [Number; 2] {
    open spec fn spec_query_geometry(self) -> QueryGeometry {
        QueryGeometry::Point { lng: self[0], lat: self[1] }
    }

    fn into_query_geometry(self) -> (res: QueryGeometry) {
        QueryGeometry::Point { lng: self[0], lat: self[1] }
    }
}

impl IntoQueryGeometry for [Number; 4] {
    open spec fn spec_query_geometry(self) -> QueryGeometry {
        QueryGeometry::BBox { west: self[0], south: self[1], east: self[2], north: self[3] }
    }

    fn into_query_geometry(self) -> (res: QueryGeometry) {
        QueryGeometry::BBox { west: self[0], south: self[1], east: self[2], north: self[3] }
    }
}

impl IntoQueryGeometry for Point {
    open spec fn spec_query_geometry(self) -> QueryGeometry {
        QueryGeometry::Point { lng: self.x, lat: self.y }
    }

    fn into_query_geometry(self) -> (res: QueryGeometry) {
        QueryGeometry::Point { lng: self.x, lat: self.y }
    }
}

impl IntoQueryGeometry for LngLatBounds {
    open spec fn spec_query_geometry(self) -> QueryGeometry {
        QueryGeometry::BBox {
            west: self.south_west().lng(),
            south: self.south_west().lat(),
            east: self.north_east().lng(),
            north: self.north_east().lat(),
        }
    }

    fn into_query_geometry(self) -> (res: QueryGeometry) {
        let sw = self.get_south_west();
        let ne = self.get_north_east();
        QueryGeometry::BBox { west: sw.lng(), south: sw.lat(), east: ne.lng(), north: ne.lat() }
    }
}

/// The wire form of the geometry of a query: the flat array of the geometry,
/// or nothing for a query of the whole viewport.
pub open spec fn spec_query_geometry_wire<G: IntoQueryGeometry>(geometry: Option<G>) -> Option<
    ValueView,
> {
    match geometry {
        Some(g) => Some(g.spec_query_geometry().wire()),
        None => None,
    }
}

/// Encodes the geometry of a query: the flat array of the geometry, or nothing
/// for a query of the whole viewport.
pub fn query_geometry_wire<G: IntoQueryGeometry>(geometry: Option<G>) -> (res: Option<Value>)
    ensures
        crate::wire::option_view(res) == spec_query_geometry_wire(geometry),
{
    match geometry {
        Some(g) => Some(g.into_query_geometry().to_wire()),
        None => None,
    }
}

} // verus!
