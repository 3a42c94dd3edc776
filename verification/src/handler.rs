//! The interaction handlers of a map.

use vstd::prelude::*;
use crate::wire::{
    flatten, lemma_flatten_one, lookup, read_required, required, FromWire, ObjectBuilder, Slots,
    ToWire, Value, ValueView,
};

verus! {

/// The interaction handlers that a map has.
#[derive(Debug, Clone, Copy, PartialEq, Eq, Structural)]
pub enum HandlerType {
    BoxZoom,
}

impl HandlerType {
    /// The name of the property of the map that holds the handler.
    pub open spec fn spec_name(self) -> Seq<char> {
        match self {
            HandlerType::BoxZoom => "boxZoom"@,
        }
    }

    /// The name of the property of the map that holds the handler.
    pub fn name(&self) -> (res: &'static str)
        ensures
            res@ == self.spec_name(),
    {
        match self {
            HandlerType::BoxZoom => "boxZoom",
        }
    }
}

/// What a box zoom handler is built with.
#[derive(Debug, Clone, Copy, PartialEq, Eq, Structural)]
pub struct BoxZoomHandlerOption {
    click_tolerance: u32,
}

impl BoxZoomHandlerOption {
    /// How far, in pixels, the pointer may move during a click.
    pub closed spec fn spec_click_tolerance(&self) -> u32 {
        self.click_tolerance
    }

    /// How far, in pixels, the pointer may move during a click.
    pub fn click_tolerance(&self) -> (res: u32)
        ensures
            res == self.spec_click_tolerance(),
    {
        self.click_tolerance
    }
}

impl Default for BoxZoomHandlerOption {
    /// A click tolerance of one pixel.
    fn default() -> (res: BoxZoomHandlerOption)
        ensures
            res.spec_click_tolerance() == 1,
    {
        BoxZoomHandlerOption { click_tolerance: 1 }
    }
}

impl BoxZoomHandlerOption {
    /// The properties of the wire form, in order.
    pub open spec fn slots(&self) -> Slots {
        seq![("clickTolerance"@, Some(self.spec_click_tolerance().wire()))]
    }
}

impl ToWire for BoxZoomHandlerOption {
    /// The object `{clickTolerance}`.
    open spec fn wire(&self) -> ValueView {
        ValueView::Object(flatten(self.slots()))
    }

    fn to_wire(&self) -> (value: Value) {
        let mut b = ObjectBuilder::new();
        b.wire("clickTolerance", &self.click_tolerance);
        assert(b@ =~= self.slots());
        b.finish()
    }
}

impl FromWire for BoxZoomHandlerOption {
    /// The option is read from an object that holds `clickTolerance`.
    /// Properties of other names are passed over.
    open spec fn spec_read(value: ValueView) -> Option<ValueView> {
        if value is Object && read_required::<u32>(value.get("clickTolerance"@)) is Some {
            Some(
                ValueView::Object(
                    flatten(
                        seq![
                            (
                                "clickTolerance"@,
                                read_required::<u32>(value.get("clickTolerance"@))->Some_0,
                            ),
                        ],
                    ),
                ),
            )
        } else {
            None
        }
    }

    open spec fn comes_back(&self) -> bool {
        true
    }

    fn from_wire(value: &Value) -> (res: Option<BoxZoomHandlerOption>) {
        match value {
            Value::Object(_) => {},
            _ => {
                return None;
            },
        }
        let click_tolerance = match required::<u32>(value.get("clickTolerance")) {
            Some(read) => read,
            None => {
                return None;
            },
        };
        Some(BoxZoomHandlerOption { click_tolerance })
    }

    proof fn law_round_trip(&self) {
        let wire = self.spec_click_tolerance().wire();
        lemma_flatten_one("clickTolerance"@, wire);
        crate::wire::lemma_lookup_entry("clickTolerance"@, wire, "clickTolerance"@);
    }
}

/// A box zoom handler. `H` is the engine's own handle to it.
#[derive(Debug, Clone)]
pub struct BoxZoomHandler<H> {
    pub inner: H,
}

} // verus!
