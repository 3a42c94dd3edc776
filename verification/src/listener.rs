//! The kinds of events that a map emits, the listener that receives them, and
//! the decoding of a payload by kind.
//!
//! A listener has one method per kind of event. The method `on_<event>`
//! receives the events that the engine emits under the name `<event>`.

use vstd::prelude::*;
use vstd::string::StrSliceExecFns;
use crate::event::{
    decode_message, spec_message, spec_optional_bool, spec_optional_lng_lats,
    spec_optional_points, spec_optional_string, spec_required, spec_required_lng_lat,
    spec_required_point, spec_required_string, DecodeError, Field, DragEvent, DragEventView, EventType, MapBaseEvent,
    MapBaseEventView, MapBoxZoomEvent, MapBoxZoomEventView, MapDataEvent, MapDataEventView,
    MapEvent, MapEventView, MapMouseEvent, MapMouseEventView, MapTouchEvent, MapTouchEventView,
    MapWheelEvent, MapWheelEventView,
};
use crate::wire::{Value, ValueView};

verus! {

/// The kinds of events that a map emits, in the order in which a listener is
/// subscribed to them.
#[derive(Debug, Clone, Copy, PartialEq, Eq, Hash, Structural)]
pub enum MapEventKind {
    Resize,
    Remove,
    MouseDown,
    MouseUp,
    PreClick,
    Click,
    DblClick,
    MouseMove,
    MouseOver,
    MouseEnter,
    MouseLeave,
    MouseOut,
    ContextMenu,
    TouchStart,
    TouchEnd,
    TouchCancel,
    Wheel,
    MoveStart,
    Move,
    MoveEnd,
    DragStart,
    Drag,
    DragEnd,
    ZoomStart,
    Zoom,
    ZoomEnd,
    RotateStart,
    Rotate,
    RotateEnd,
    PitchStart,
    Pitch,
    PitchEnd,
    BoxZoomStart,
    BoxZoomEnd,
    BoxZoomCancel,
    Load,
    Render,
    Idle,
    WebGlContextLost,
    WebGlContextRestored,
    Data,
    StyleData,
    SourceData,
    DataLoading,
    StyleDataLoading,
    SourceDataLoading,
    StyleImageMissing,
    Error,
}

/// The number of kinds of events.
pub const KIND_COUNT: usize = 48;

/// Whether `name` begins with `on_`.
pub open spec fn has_on_prefix(name: Seq<char>) -> bool {
    name.len() >= 3 && name[0] == 'o' && name[1] == 'n' && name[2] == '_'
}

/// `name` without any leading run of `on_`.
pub open spec fn strip_on(name: Seq<char>) -> Seq<char>
    decreases name.len(),
{
    if has_on_prefix(name) {
        strip_on(name.skip(3))
    } else {
        name
    }
}

/// Stripping one `on_` from the rest of a name does not change what is left
/// when every leading `on_` is stripped.
proof fn lemma_strip_step(name: Seq<char>, start: int)
    requires
        0 <= start <= name.len(),
        has_on_prefix(name.skip(start)),
    ensures
        start + 3 <= name.len(),
        strip_on(name.skip(start)) == strip_on(name.skip(start + 3)),
{
    assert(name.skip(start).skip(3) =~= name.skip(start + 3));
}

/// The name under which the engine emits the events that the listener method
/// `method` receives: the name of the method without its leading `on_`.
pub fn event_name_of(method: &str) -> (res: String)
    ensures
        res@ == strip_on(method@),
{
    let len = method.unicode_len();
    let mut start: usize = 0;
    let mut stripping = true;
    assert(method@.skip(0) =~= method@);
    while stripping
        invariant
            start <= len,
            len == method@.len(),
            strip_on(method@) == strip_on(method@.skip(start as int)),
            !stripping ==> !has_on_prefix(method@.skip(start as int)),
        decreases (len - start) + (if stripping { 1int } else { 0int }),
    {
        let ghost rest = method@.skip(start as int);
        if len - start >= 3 {
            let a = method.get_char(start);
            let b = method.get_char(start + 1);
            let c = method.get_char(start + 2);
            assert(rest[0] == a && rest[1] == b && rest[2] == c);
            if a == 'o' && b == 'n' && c == '_' {
                proof {
                    lemma_strip_step(method@, start as int);
                }
                start += 3;
            } else {
                stripping = false;
            }
        } else {
            stripping = false;
        }
    }
    proof {
        let rest = method@.skip(start as int);
        assert(rest =~= method@.subrange(start as int, len as int));
    }
    method.substring_char(start, len).to_owned()
}

impl MapEventKind {
    /// The name of the listener method that receives events of this kind.
    pub open spec fn spec_method_name(self) -> Seq<char> {
        match self {
            MapEventKind::Resize => "on_resize"@,
            MapEventKind::Remove => "on_remove"@,
            MapEventKind::MouseDown => "on_mousedown"@,
            MapEventKind::MouseUp => "on_mouseup"@,
            MapEventKind::PreClick => "on_preclick"@,
            MapEventKind::Click => "on_click"@,
            MapEventKind::DblClick => "on_dblclick"@,
            MapEventKind::MouseMove => "on_mousemove"@,
            MapEventKind::MouseOver => "on_mouseover"@,
            MapEventKind::MouseEnter => "on_mouseenter"@,
            MapEventKind::MouseLeave => "on_mouseleave"@,
            MapEventKind::MouseOut => "on_mouseout"@,
            MapEventKind::ContextMenu => "on_contextmenu"@,
            MapEventKind::TouchStart => "on_touchstart"@,
            MapEventKind::TouchEnd => "on_touchend"@,
            MapEventKind::TouchCancel => "on_touchcancel"@,
            MapEventKind::Wheel => "on_wheel"@,
            MapEventKind::MoveStart => "on_movestart"@,
            MapEventKind::Move => "on_move"@,
            MapEventKind::MoveEnd => "on_moveend"@,
            MapEventKind::DragStart => "on_dragstart"@,
            MapEventKind::Drag => "on_drag"@,
            MapEventKind::DragEnd => "on_dragend"@,
            MapEventKind::ZoomStart => "on_zoomstart"@,
            MapEventKind::Zoom => "on_zoom"@,
            MapEventKind::ZoomEnd => "on_zoomend"@,
            MapEventKind::RotateStart => "on_rotatestart"@,
            MapEventKind::Rotate => "on_rotate"@,
            MapEventKind::RotateEnd => "on_rotateend"@,
            MapEventKind::PitchStart => "on_pitchstart"@,
            MapEventKind::Pitch => "on_pitch"@,
            MapEventKind::PitchEnd => "on_pitchend"@,
            MapEventKind::BoxZoomStart => "on_boxzoomstart"@,
            MapEventKind::BoxZoomEnd => "on_boxzoomend"@,
            MapEventKind::BoxZoomCancel => "on_boxzoomcancel"@,
            MapEventKind::Load => "on_load"@,
            MapEventKind::Render => "on_render"@,
            MapEventKind::Idle => "on_idle"@,
            MapEventKind::WebGlContextLost => "on_webglcontextlost"@,
            MapEventKind::WebGlContextRestored => "on_webglcontextrestored"@,
            MapEventKind::Data => "on_data"@,
            MapEventKind::StyleData => "on_styledata"@,
            MapEventKind::SourceData => "on_sourcedata"@,
            MapEventKind::DataLoading => "on_dataloading"@,
            MapEventKind::StyleDataLoading => "on_styledataloading"@,
            MapEventKind::SourceDataLoading => "on_sourcedataloading"@,
            MapEventKind::StyleImageMissing => "on_styleimagemissing"@,
            MapEventKind::Error => "on_error"@,
        }
    }

    /// The name of the listener method that receives events of this kind.
    pub fn method_name(&self) -> (res: &'static str)
        ensures
            res@ == self.spec_method_name(),
    {
        match self {
            MapEventKind::Resize => "on_resize",
            MapEventKind::Remove => "on_remove",
            MapEventKind::MouseDown => "on_mousedown",
            MapEventKind::MouseUp => "on_mouseup",
            MapEventKind::PreClick => "on_preclick",
            MapEventKind::Click => "on_click",
            MapEventKind::DblClick => "on_dblclick",
            MapEventKind::MouseMove => "on_mousemove",
            MapEventKind::MouseOver => "on_mouseover",
            MapEventKind::MouseEnter => "on_mouseenter",
            MapEventKind::MouseLeave => "on_mouseleave",
            MapEventKind::MouseOut => "on_mouseout",
            MapEventKind::ContextMenu => "on_contextmenu",
            MapEventKind::TouchStart => "on_touchstart",
            MapEventKind::TouchEnd => "on_touchend",
            MapEventKind::TouchCancel => "on_touchcancel",
            MapEventKind::Wheel => "on_wheel",
            MapEventKind::MoveStart => "on_movestart",
            MapEventKind::Move => "on_move",
            MapEventKind::MoveEnd => "on_moveend",
            MapEventKind::DragStart => "on_dragstart",
            MapEventKind::Drag => "on_drag",
            MapEventKind::DragEnd => "on_dragend",
            MapEventKind::ZoomStart => "on_zoomstart",
            MapEventKind::Zoom => "on_zoom",
            MapEventKind::ZoomEnd => "on_zoomend",
            MapEventKind::RotateStart => "on_rotatestart",
            MapEventKind::Rotate => "on_rotate",
            MapEventKind::RotateEnd => "on_rotateend",
            MapEventKind::PitchStart => "on_pitchstart",
            MapEventKind::Pitch => "on_pitch",
            MapEventKind::PitchEnd => "on_pitchend",
            MapEventKind::BoxZoomStart => "on_boxzoomstart",
            MapEventKind::BoxZoomEnd => "on_boxzoomend",
            MapEventKind::BoxZoomCancel => "on_boxzoomcancel",
            MapEventKind::Load => "on_load",
            MapEventKind::Render => "on_render",
            MapEventKind::Idle => "on_idle",
            MapEventKind::WebGlContextLost => "on_webglcontextlost",
            MapEventKind::WebGlContextRestored => "on_webglcontextrestored",
            MapEventKind::Data => "on_data",
            MapEventKind::StyleData => "on_styledata",
            MapEventKind::SourceData => "on_sourcedata",
            MapEventKind::DataLoading => "on_dataloading",
            MapEventKind::StyleDataLoading => "on_styledataloading",
            MapEventKind::SourceDataLoading => "on_sourcedataloading",
            MapEventKind::StyleImageMissing => "on_styleimagemissing",
            MapEventKind::Error => "on_error",
        }
    }

    /// The name under which the engine emits events of this kind.
    pub open spec fn spec_event_name(self) -> Seq<char> {
        match self {
            MapEventKind::Resize => "resize"@,
            MapEventKind::Remove => "remove"@,
            MapEventKind::MouseDown => "mousedown"@,
            MapEventKind::MouseUp => "mouseup"@,
            MapEventKind::PreClick => "preclick"@,
            MapEventKind::Click => "click"@,
            MapEventKind::DblClick => "dblclick"@,
            MapEventKind::MouseMove => "mousemove"@,
            MapEventKind::MouseOver => "mouseover"@,
            MapEventKind::MouseEnter => "mouseenter"@,
            MapEventKind::MouseLeave => "mouseleave"@,
            MapEventKind::MouseOut => "mouseout"@,
            MapEventKind::ContextMenu => "contextmenu"@,
            MapEventKind::TouchStart => "touchstart"@,
            MapEventKind::TouchEnd => "touchend"@,
            MapEventKind::TouchCancel => "touchcancel"@,
            MapEventKind::Wheel => "wheel"@,
            MapEventKind::MoveStart => "movestart"@,
            MapEventKind::Move => "move"@,
            MapEventKind::MoveEnd => "moveend"@,
            MapEventKind::DragStart => "dragstart"@,
            MapEventKind::Drag => "drag"@,
            MapEventKind::DragEnd => "dragend"@,
            MapEventKind::ZoomStart => "zoomstart"@,
            MapEventKind::Zoom => "zoom"@,
            MapEventKind::ZoomEnd => "zoomend"@,
            MapEventKind::RotateStart => "rotatestart"@,
            MapEventKind::Rotate => "rotate"@,
            MapEventKind::RotateEnd => "rotateend"@,
            MapEventKind::PitchStart => "pitchstart"@,
            MapEventKind::Pitch => "pitch"@,
            MapEventKind::PitchEnd => "pitchend"@,
            MapEventKind::BoxZoomStart => "boxzoomstart"@,
            MapEventKind::BoxZoomEnd => "boxzoomend"@,
            MapEventKind::BoxZoomCancel => "boxzoomcancel"@,
            MapEventKind::Load => "load"@,
            MapEventKind::Render => "render"@,
            MapEventKind::Idle => "idle"@,
            MapEventKind::WebGlContextLost => "webglcontextlost"@,
            MapEventKind::WebGlContextRestored => "webglcontextrestored"@,
            MapEventKind::Data => "data"@,
            MapEventKind::StyleData => "styledata"@,
            MapEventKind::SourceData => "sourcedata"@,
            MapEventKind::DataLoading => "dataloading"@,
            MapEventKind::StyleDataLoading => "styledataloading"@,
            MapEventKind::SourceDataLoading => "sourcedataloading"@,
            MapEventKind::StyleImageMissing => "styleimagemissing"@,
            MapEventKind::Error => "error"@,
        }
    }

    /// The name under which the engine emits events of this kind.
    pub fn event_name(&self) -> (res: &'static str)
        ensures
            res@ == self.spec_event_name(),
    {
        match self {
            MapEventKind::Resize => "resize",
            MapEventKind::Remove => "remove",
            MapEventKind::MouseDown => "mousedown",
            MapEventKind::MouseUp => "mouseup",
            MapEventKind::PreClick => "preclick",
            MapEventKind::Click => "click",
            MapEventKind::DblClick => "dblclick",
            MapEventKind::MouseMove => "mousemove",
            MapEventKind::MouseOver => "mouseover",
            MapEventKind::MouseEnter => "mouseenter",
            MapEventKind::MouseLeave => "mouseleave",
            MapEventKind::MouseOut => "mouseout",
            MapEventKind::ContextMenu => "contextmenu",
            MapEventKind::TouchStart => "touchstart",
            MapEventKind::TouchEnd => "touchend",
            MapEventKind::TouchCancel => "touchcancel",
            MapEventKind::Wheel => "wheel",
            MapEventKind::MoveStart => "movestart",
            MapEventKind::Move => "move",
            MapEventKind::MoveEnd => "moveend",
            MapEventKind::DragStart => "dragstart",
            MapEventKind::Drag => "drag",
            MapEventKind::DragEnd => "dragend",
            MapEventKind::ZoomStart => "zoomstart",
            MapEventKind::Zoom => "zoom",
            MapEventKind::ZoomEnd => "zoomend",
            MapEventKind::RotateStart => "rotatestart",
            MapEventKind::Rotate => "rotate",
            MapEventKind::RotateEnd => "rotateend",
            MapEventKind::PitchStart => "pitchstart",
            MapEventKind::Pitch => "pitch",
            MapEventKind::PitchEnd => "pitchend",
            MapEventKind::BoxZoomStart => "boxzoomstart",
            MapEventKind::BoxZoomEnd => "boxzoomend",
            MapEventKind::BoxZoomCancel => "boxzoomcancel",
            MapEventKind::Load => "load",
            MapEventKind::Render => "render",
            MapEventKind::Idle => "idle",
            MapEventKind::WebGlContextLost => "webglcontextlost",
            MapEventKind::WebGlContextRestored => "webglcontextrestored",
            MapEventKind::Data => "data",
            MapEventKind::StyleData => "styledata",
            MapEventKind::SourceData => "sourcedata",
            MapEventKind::DataLoading => "dataloading",
            MapEventKind::StyleDataLoading => "styledataloading",
            MapEventKind::SourceDataLoading => "sourcedataloading",
            MapEventKind::StyleImageMissing => "styleimagemissing",
            MapEventKind::Error => "error",
        }
    }

    /// The type of event that a payload of this kind is decoded into.
    pub open spec fn spec_event_type(self) -> EventType {
        match self {
            MapEventKind::Resize => EventType::MapBaseEvent,
            MapEventKind::Remove => EventType::MapBaseEvent,
            MapEventKind::MouseDown => EventType::MapMouseEvent,
            MapEventKind::MouseUp => EventType::MapMouseEvent,
            MapEventKind::PreClick => EventType::MapMouseEvent,
            MapEventKind::Click => EventType::MapMouseEvent,
            MapEventKind::DblClick => EventType::MapMouseEvent,
            MapEventKind::MouseMove => EventType::MapMouseEvent,
            MapEventKind::MouseOver => EventType::MapMouseEvent,
            MapEventKind::MouseEnter => EventType::MapMouseEvent,
            MapEventKind::MouseLeave => EventType::MapMouseEvent,
            MapEventKind::MouseOut => EventType::MapMouseEvent,
            MapEventKind::ContextMenu => EventType::MapMouseEvent,
            MapEventKind::TouchStart => EventType::MapTouchEvent,
            MapEventKind::TouchEnd => EventType::MapTouchEvent,
            MapEventKind::TouchCancel => EventType::MapTouchEvent,
            MapEventKind::Wheel => EventType::MapWheelEvent,
            MapEventKind::MoveStart => EventType::DragEvent,
            MapEventKind::Move => EventType::MapEvent,
            MapEventKind::MoveEnd => EventType::DragEvent,
            MapEventKind::DragStart => EventType::MapBaseEvent,
            MapEventKind::Drag => EventType::DragEvent,
            MapEventKind::DragEnd => EventType::DragEvent,
            MapEventKind::ZoomStart => EventType::MapBaseEvent,
            MapEventKind::Zoom => EventType::MapBaseEvent,
            MapEventKind::ZoomEnd => EventType::MapBaseEvent,
            MapEventKind::RotateStart => EventType::MapBaseEvent,
            MapEventKind::Rotate => EventType::MapBaseEvent,
            MapEventKind::RotateEnd => EventType::MapBaseEvent,
            MapEventKind::PitchStart => EventType::MapBaseEvent,
            MapEventKind::Pitch => EventType::MapBaseEvent,
            MapEventKind::PitchEnd => EventType::MapBaseEvent,
            MapEventKind::BoxZoomStart => EventType::MapBoxZoomEvent,
            MapEventKind::BoxZoomEnd => EventType::MapBoxZoomEvent,
            MapEventKind::BoxZoomCancel => EventType::MapBoxZoomEvent,
            MapEventKind::Load => EventType::MapBaseEvent,
            MapEventKind::Render => EventType::MapBaseEvent,
            MapEventKind::Idle => EventType::MapBaseEvent,
            MapEventKind::WebGlContextLost => EventType::MapBaseEvent,
            MapEventKind::WebGlContextRestored => EventType::MapBaseEvent,
            MapEventKind::Data => EventType::MapDataEvent,
            MapEventKind::StyleData => EventType::MapDataEvent,
            MapEventKind::SourceData => EventType::MapDataEvent,
            MapEventKind::DataLoading => EventType::MapDataEvent,
            MapEventKind::StyleDataLoading => EventType::MapDataEvent,
            MapEventKind::SourceDataLoading => EventType::MapBaseEvent,
            MapEventKind::StyleImageMissing => EventType::MapBaseEvent,
            MapEventKind::Error => EventType::Message,
        }
    }

    /// The type of event that a payload of this kind is decoded into.
    pub fn event_type(&self) -> (res: EventType)
        ensures
            res == self.spec_event_type(),
    {
        match self {
            MapEventKind::Resize => EventType::MapBaseEvent,
            MapEventKind::Remove => EventType::MapBaseEvent,
            MapEventKind::MouseDown => EventType::MapMouseEvent,
            MapEventKind::MouseUp => EventType::MapMouseEvent,
            MapEventKind::PreClick => EventType::MapMouseEvent,
            MapEventKind::Click => EventType::MapMouseEvent,
            MapEventKind::DblClick => EventType::MapMouseEvent,
            MapEventKind::MouseMove => EventType::MapMouseEvent,
            MapEventKind::MouseOver => EventType::MapMouseEvent,
            MapEventKind::MouseEnter => EventType::MapMouseEvent,
            MapEventKind::MouseLeave => EventType::MapMouseEvent,
            MapEventKind::MouseOut => EventType::MapMouseEvent,
            MapEventKind::ContextMenu => EventType::MapMouseEvent,
            MapEventKind::TouchStart => EventType::MapTouchEvent,
            MapEventKind::TouchEnd => EventType::MapTouchEvent,
            MapEventKind::TouchCancel => EventType::MapTouchEvent,
            MapEventKind::Wheel => EventType::MapWheelEvent,
            MapEventKind::MoveStart => EventType::DragEvent,
            MapEventKind::Move => EventType::MapEvent,
            MapEventKind::MoveEnd => EventType::DragEvent,
            MapEventKind::DragStart => EventType::MapBaseEvent,
            MapEventKind::Drag => EventType::DragEvent,
            MapEventKind::DragEnd => EventType::DragEvent,
            MapEventKind::ZoomStart => EventType::MapBaseEvent,
            MapEventKind::Zoom => EventType::MapBaseEvent,
            MapEventKind::ZoomEnd => EventType::MapBaseEvent,
            MapEventKind::RotateStart => EventType::MapBaseEvent,
            MapEventKind::Rotate => EventType::MapBaseEvent,
            MapEventKind::RotateEnd => EventType::MapBaseEvent,
            MapEventKind::PitchStart => EventType::MapBaseEvent,
            MapEventKind::Pitch => EventType::MapBaseEvent,
            MapEventKind::PitchEnd => EventType::MapBaseEvent,
            MapEventKind::BoxZoomStart => EventType::MapBoxZoomEvent,
            MapEventKind::BoxZoomEnd => EventType::MapBoxZoomEvent,
            MapEventKind::BoxZoomCancel => EventType::MapBoxZoomEvent,
            MapEventKind::Load => EventType::MapBaseEvent,
            MapEventKind::Render => EventType::MapBaseEvent,
            MapEventKind::Idle => EventType::MapBaseEvent,
            MapEventKind::WebGlContextLost => EventType::MapBaseEvent,
            MapEventKind::WebGlContextRestored => EventType::MapBaseEvent,
            MapEventKind::Data => EventType::MapDataEvent,
            MapEventKind::StyleData => EventType::MapDataEvent,
            MapEventKind::SourceData => EventType::MapDataEvent,
            MapEventKind::DataLoading => EventType::MapDataEvent,
            MapEventKind::StyleDataLoading => EventType::MapDataEvent,
            MapEventKind::SourceDataLoading => EventType::MapBaseEvent,
            MapEventKind::StyleImageMissing => EventType::MapBaseEvent,
            MapEventKind::Error => EventType::Message,
        }
    }

    /// The place of the kind in the order of subscription.
    pub open spec fn spec_index(self) -> int {
        match self {
            MapEventKind::Resize => 0,
            MapEventKind::Remove => 1,
            MapEventKind::MouseDown => 2,
            MapEventKind::MouseUp => 3,
            MapEventKind::PreClick => 4,
            MapEventKind::Click => 5,
            MapEventKind::DblClick => 6,
            MapEventKind::MouseMove => 7,
            MapEventKind::MouseOver => 8,
            MapEventKind::MouseEnter => 9,
            MapEventKind::MouseLeave => 10,
            MapEventKind::MouseOut => 11,
            MapEventKind::ContextMenu => 12,
            MapEventKind::TouchStart => 13,
            MapEventKind::TouchEnd => 14,
            MapEventKind::TouchCancel => 15,
            MapEventKind::Wheel => 16,
            MapEventKind::MoveStart => 17,
            MapEventKind::Move => 18,
            MapEventKind::MoveEnd => 19,
            MapEventKind::DragStart => 20,
            MapEventKind::Drag => 21,
            MapEventKind::DragEnd => 22,
            MapEventKind::ZoomStart => 23,
            MapEventKind::Zoom => 24,
            MapEventKind::ZoomEnd => 25,
            MapEventKind::RotateStart => 26,
            MapEventKind::Rotate => 27,
            MapEventKind::RotateEnd => 28,
            MapEventKind::PitchStart => 29,
            MapEventKind::Pitch => 30,
            MapEventKind::PitchEnd => 31,
            MapEventKind::BoxZoomStart => 32,
            MapEventKind::BoxZoomEnd => 33,
            MapEventKind::BoxZoomCancel => 34,
            MapEventKind::Load => 35,
            MapEventKind::Render => 36,
            MapEventKind::Idle => 37,
            MapEventKind::WebGlContextLost => 38,
            MapEventKind::WebGlContextRestored => 39,
            MapEventKind::Data => 40,
            MapEventKind::StyleData => 41,
            MapEventKind::SourceData => 42,
            MapEventKind::DataLoading => 43,
            MapEventKind::StyleDataLoading => 44,
            MapEventKind::SourceDataLoading => 45,
            MapEventKind::StyleImageMissing => 46,
            MapEventKind::Error => 47,
        }
    }

    /// The place of the kind in the order of subscription.
    pub fn index(&self) -> (res: usize)
        ensures
            res == self.spec_index(),
            res < KIND_COUNT,
    {
        match self {
            MapEventKind::Resize => 0,
            MapEventKind::Remove => 1,
            MapEventKind::MouseDown => 2,
            MapEventKind::MouseUp => 3,
            MapEventKind::PreClick => 4,
            MapEventKind::Click => 5,
            MapEventKind::DblClick => 6,
            MapEventKind::MouseMove => 7,
            MapEventKind::MouseOver => 8,
            MapEventKind::MouseEnter => 9,
            MapEventKind::MouseLeave => 10,
            MapEventKind::MouseOut => 11,
            MapEventKind::ContextMenu => 12,
            MapEventKind::TouchStart => 13,
            MapEventKind::TouchEnd => 14,
            MapEventKind::TouchCancel => 15,
            MapEventKind::Wheel => 16,
            MapEventKind::MoveStart => 17,
            MapEventKind::Move => 18,
            MapEventKind::MoveEnd => 19,
            MapEventKind::DragStart => 20,
            MapEventKind::Drag => 21,
            MapEventKind::DragEnd => 22,
            MapEventKind::ZoomStart => 23,
            MapEventKind::Zoom => 24,
            MapEventKind::ZoomEnd => 25,
            MapEventKind::RotateStart => 26,
            MapEventKind::Rotate => 27,
            MapEventKind::RotateEnd => 28,
            MapEventKind::PitchStart => 29,
            MapEventKind::Pitch => 30,
            MapEventKind::PitchEnd => 31,
            MapEventKind::BoxZoomStart => 32,
            MapEventKind::BoxZoomEnd => 33,
            MapEventKind::BoxZoomCancel => 34,
            MapEventKind::Load => 35,
            MapEventKind::Render => 36,
            MapEventKind::Idle => 37,
            MapEventKind::WebGlContextLost => 38,
            MapEventKind::WebGlContextRestored => 39,
            MapEventKind::Data => 40,
            MapEventKind::StyleData => 41,
            MapEventKind::SourceData => 42,
            MapEventKind::DataLoading => 43,
            MapEventKind::StyleDataLoading => 44,
            MapEventKind::SourceDataLoading => 45,
            MapEventKind::StyleImageMissing => 46,
            MapEventKind::Error => 47,
        }
    }

    /// The kind at a place in the order of subscription.
    pub open spec fn spec_from_index(index: int) -> Option<MapEventKind> {
        if index == 0 {
            Some(MapEventKind::Resize)
        } else if index == 1 {
            Some(MapEventKind::Remove)
        } else if index == 2 {
            Some(MapEventKind::MouseDown)
        } else if index == 3 {
            Some(MapEventKind::MouseUp)
        } else if index == 4 {
            Some(MapEventKind::PreClick)
        } else if index == 5 {
            Some(MapEventKind::Click)
        } else if index == 6 {
            Some(MapEventKind::DblClick)
        } else if index == 7 {
            Some(MapEventKind::MouseMove)
        } else if index == 8 {
            Some(MapEventKind::MouseOver)
        } else if index == 9 {
            Some(MapEventKind::MouseEnter)
        } else if index == 10 {
            Some(MapEventKind::MouseLeave)
        } else if index == 11 {
            Some(MapEventKind::MouseOut)
        } else if index == 12 {
            Some(MapEventKind::ContextMenu)
        } else if index == 13 {
            Some(MapEventKind::TouchStart)
        } else if index == 14 {
            Some(MapEventKind::TouchEnd)
        } else if index == 15 {
            Some(MapEventKind::TouchCancel)
        } else if index == 16 {
            Some(MapEventKind::Wheel)
        } else if index == 17 {
            Some(MapEventKind::MoveStart)
        } else if index == 18 {
            Some(MapEventKind::Move)
        } else if index == 19 {
            Some(MapEventKind::MoveEnd)
        } else if index == 20 {
            Some(MapEventKind::DragStart)
        } else if index == 21 {
            Some(MapEventKind::Drag)
        } else if index == 22 {
            Some(MapEventKind::DragEnd)
        } else if index == 23 {
            Some(MapEventKind::ZoomStart)
        } else if index == 24 {
            Some(MapEventKind::Zoom)
        } else if index == 25 {
            Some(MapEventKind::ZoomEnd)
        } else if index == 26 {
            Some(MapEventKind::RotateStart)
        } else if index == 27 {
            Some(MapEventKind::Rotate)
        } else if index == 28 {
            Some(MapEventKind::RotateEnd)
        } else if index == 29 {
            Some(MapEventKind::PitchStart)
        } else if index == 30 {
            Some(MapEventKind::Pitch)
        } else if index == 31 {
            Some(MapEventKind::PitchEnd)
        } else if index == 32 {
            Some(MapEventKind::BoxZoomStart)
        } else if index == 33 {
            Some(MapEventKind::BoxZoomEnd)
        } else if index == 34 {
            Some(MapEventKind::BoxZoomCancel)
        } else if index == 35 {
            Some(MapEventKind::Load)
        } else if index == 36 {
            Some(MapEventKind::Render)
        } else if index == 37 {
            Some(MapEventKind::Idle)
        } else if index == 38 {
            Some(MapEventKind::WebGlContextLost)
        } else if index == 39 {
            Some(MapEventKind::WebGlContextRestored)
        } else if index == 40 {
            Some(MapEventKind::Data)
        } else if index == 41 {
            Some(MapEventKind::StyleData)
        } else if index == 42 {
            Some(MapEventKind::SourceData)
        } else if index == 43 {
            Some(MapEventKind::DataLoading)
        } else if index == 44 {
            Some(MapEventKind::StyleDataLoading)
        } else if index == 45 {
            Some(MapEventKind::SourceDataLoading)
        } else if index == 46 {
            Some(MapEventKind::StyleImageMissing)
        } else if index == 47 {
            Some(MapEventKind::Error)
        } else {
            None
        }
    }

    /// The kind at a place in the order of subscription.
    pub fn from_index(index: usize) -> (res: Option<MapEventKind>)
        ensures
            res == Self::spec_from_index(index as int),
    {
        match index {
            0 => Some(MapEventKind::Resize),
            1 => Some(MapEventKind::Remove),
            2 => Some(MapEventKind::MouseDown),
            3 => Some(MapEventKind::MouseUp),
            4 => Some(MapEventKind::PreClick),
            5 => Some(MapEventKind::Click),
            6 => Some(MapEventKind::DblClick),
            7 => Some(MapEventKind::MouseMove),
            8 => Some(MapEventKind::MouseOver),
            9 => Some(MapEventKind::MouseEnter),
            10 => Some(MapEventKind::MouseLeave),
            11 => Some(MapEventKind::MouseOut),
            12 => Some(MapEventKind::ContextMenu),
            13 => Some(MapEventKind::TouchStart),
            14 => Some(MapEventKind::TouchEnd),
            15 => Some(MapEventKind::TouchCancel),
            16 => Some(MapEventKind::Wheel),
            17 => Some(MapEventKind::MoveStart),
            18 => Some(MapEventKind::Move),
            19 => Some(MapEventKind::MoveEnd),
            20 => Some(MapEventKind::DragStart),
            21 => Some(MapEventKind::Drag),
            22 => Some(MapEventKind::DragEnd),
            23 => Some(MapEventKind::ZoomStart),
            24 => Some(MapEventKind::Zoom),
            25 => Some(MapEventKind::ZoomEnd),
            26 => Some(MapEventKind::RotateStart),
            27 => Some(MapEventKind::Rotate),
            28 => Some(MapEventKind::RotateEnd),
            29 => Some(MapEventKind::PitchStart),
            30 => Some(MapEventKind::Pitch),
            31 => Some(MapEventKind::PitchEnd),
            32 => Some(MapEventKind::BoxZoomStart),
            33 => Some(MapEventKind::BoxZoomEnd),
            34 => Some(MapEventKind::BoxZoomCancel),
            35 => Some(MapEventKind::Load),
            36 => Some(MapEventKind::Render),
            37 => Some(MapEventKind::Idle),
            38 => Some(MapEventKind::WebGlContextLost),
            39 => Some(MapEventKind::WebGlContextRestored),
            40 => Some(MapEventKind::Data),
            41 => Some(MapEventKind::StyleData),
            42 => Some(MapEventKind::SourceData),
            43 => Some(MapEventKind::DataLoading),
            44 => Some(MapEventKind::StyleDataLoading),
            45 => Some(MapEventKind::SourceDataLoading),
            46 => Some(MapEventKind::StyleImageMissing),
            47 => Some(MapEventKind::Error),
            _ => None,
        }
    }

    /// Every kind, in the order of subscription.
    pub open spec fn spec_all() -> Seq<MapEventKind> {
        Seq::new(KIND_COUNT as nat, |i: int| Self::spec_from_index(i)->Some_0)
    }

    /// Every kind, in the order of subscription.
    pub fn all() -> (res: Vec<MapEventKind>)
        ensures
            res@ == Self::spec_all(),
    {
        let mut res: Vec<MapEventKind> = Vec::new();
        let mut i: usize = 0;
        while i < KIND_COUNT
            invariant
                i <= KIND_COUNT,
                res.len() == i,
                forall|j: int| 0 <= j < i ==> Self::spec_from_index(j) == Some(#[trigger] res@[j]),
            decreases KIND_COUNT - i,
        {
            match Self::from_index(i) {
                Some(kind) => {
                    res.push(kind);
                },
                None => {
                    assert(false);
                },
            }
            i += 1;
        }
        assert(res@ =~= Self::spec_all());
        res
    }
}

/// Every kind has a place of its own in the order of subscription: it is the
/// kind at its place, and every kind is subscribed to once.
pub proof fn law_every_kind_has_its_place(kind: MapEventKind)
    ensures
        0 <= kind.spec_index() < KIND_COUNT,
        MapEventKind::spec_from_index(kind.spec_index()) == Some(kind),
        MapEventKind::spec_all()[kind.spec_index()] == kind,
{
}

/// An event of any type.
#[derive(Debug, Clone)]
pub enum TypedEvent {
    Base(MapBaseEvent),
    Movement(MapEvent),
    Data(MapDataEvent),
    BoxZoom(MapBoxZoomEvent),
    Mouse(MapMouseEvent),
    Touch(MapTouchEvent),
    Wheel(MapWheelEvent),
    Drag(DragEvent),
    /// The message of an error event.
    Message(String),
}

pub enum TypedEventView {
    Base(MapBaseEventView),
    Movement(MapEventView),
    Data(MapDataEventView),
    BoxZoom(MapBoxZoomEventView),
    Mouse(MapMouseEventView),
    Touch(MapTouchEventView),
    Wheel(MapWheelEventView),
    Drag(DragEventView),
    Message(Seq<char>),
}

impl TypedEventView {
    /// The type of the event.
    pub open spec fn event_type(self) -> EventType {
        match self {
            TypedEventView::Base(_) => EventType::MapBaseEvent,
            TypedEventView::Movement(_) => EventType::MapEvent,
            TypedEventView::Data(_) => EventType::MapDataEvent,
            TypedEventView::BoxZoom(_) => EventType::MapBoxZoomEvent,
            TypedEventView::Mouse(_) => EventType::MapMouseEvent,
            TypedEventView::Touch(_) => EventType::MapTouchEvent,
            TypedEventView::Wheel(_) => EventType::MapWheelEvent,
            TypedEventView::Drag(_) => EventType::DragEvent,
            TypedEventView::Message(_) => EventType::Message,
        }
    }
}

impl View for TypedEvent {
    type V = TypedEventView;

    open spec fn view(&self) -> TypedEventView {
        match self {
            TypedEvent::Base(e) => TypedEventView::Base(e@),
            TypedEvent::Movement(e) => TypedEventView::Movement(e@),
            TypedEvent::Data(e) => TypedEventView::Data(e@),
            TypedEvent::BoxZoom(e) => TypedEventView::BoxZoom(e@),
            TypedEvent::Mouse(e) => TypedEventView::Mouse(e@),
            TypedEvent::Touch(e) => TypedEventView::Touch(e@),
            TypedEvent::Wheel(e) => TypedEventView::Wheel(e@),
            TypedEvent::Drag(e) => TypedEventView::Drag(e@),
            TypedEvent::Message(s) => TypedEventView::Message(s@),
        }
    }
}

/// What [`decode`] makes of a payload: the event of the type that the kind
/// calls for, or the error of that type's decoder.
pub open spec fn spec_decode(v: ValueView, kind: MapEventKind) -> Result<
    TypedEventView,
    DecodeError,
> {
    match kind.spec_event_type() {
        EventType::MapBaseEvent => match MapBaseEvent::spec_try_from(v) {
            Ok(e) => Ok(TypedEventView::Base(e)),
            Err(e) => Err(e),
        },
        EventType::MapEvent => match MapEvent::spec_try_from(v) {
            Ok(e) => Ok(TypedEventView::Movement(e)),
            Err(e) => Err(e),
        },
        EventType::MapDataEvent => match MapDataEvent::spec_try_from(v) {
            Ok(e) => Ok(TypedEventView::Data(e)),
            Err(e) => Err(e),
        },
        EventType::MapBoxZoomEvent => match MapBoxZoomEvent::spec_try_from(v) {
            Ok(e) => Ok(TypedEventView::BoxZoom(e)),
            Err(e) => Err(e),
        },
        EventType::MapMouseEvent => match MapMouseEvent::spec_try_from(v) {
            Ok(e) => Ok(TypedEventView::Mouse(e)),
            Err(e) => Err(e),
        },
        EventType::MapTouchEvent => match MapTouchEvent::spec_try_from(v) {
            Ok(e) => Ok(TypedEventView::Touch(e)),
            Err(e) => Err(e),
        },
        EventType::MapWheelEvent => match MapWheelEvent::spec_try_from(v) {
            Ok(e) => Ok(TypedEventView::Wheel(e)),
            Err(e) => Err(e),
        },
        EventType::DragEvent => match DragEvent::spec_try_from(v) {
            Ok(e) => Ok(TypedEventView::Drag(e)),
            Err(e) => Err(e),
        },
        EventType::Message => match spec_message(v) {
            Ok(s) => Ok(TypedEventView::Message(s)),
            Err(e) => Err(e),
        },
    }
}

/// Decodes the payload of an event of the given kind into the event type that
/// the kind calls for. The payload of an error event is a plain string; every
/// other payload is an object that is read field by field.
pub fn decode(raw: &Value, kind: MapEventKind) -> (res: Result<TypedEvent, DecodeError>)
    ensures
        match res {
            Ok(event) => spec_decode(raw@, kind) == Ok::<TypedEventView, DecodeError>(event@),
            Err(e) => spec_decode(raw@, kind) == Err::<TypedEventView, DecodeError>(e),
        },
{
    match kind.event_type() {
        EventType::MapBaseEvent => Ok(TypedEvent::Base(MapBaseEvent::try_from(raw)?)),
        EventType::MapEvent => Ok(TypedEvent::Movement(MapEvent::try_from(raw)?)),
        EventType::MapDataEvent => Ok(TypedEvent::Data(MapDataEvent::try_from(raw)?)),
        EventType::MapBoxZoomEvent => Ok(TypedEvent::BoxZoom(MapBoxZoomEvent::try_from(raw)?)),
        EventType::MapMouseEvent => Ok(TypedEvent::Mouse(MapMouseEvent::try_from(raw)?)),
        EventType::MapTouchEvent => Ok(TypedEvent::Touch(MapTouchEvent::try_from(raw)?)),
        EventType::MapWheelEvent => Ok(TypedEvent::Wheel(MapWheelEvent::try_from(raw)?)),
        EventType::DragEvent => Ok(TypedEvent::Drag(DragEvent::try_from(raw)?)),
        EventType::Message => Ok(TypedEvent::Message(decode_message(raw)?)),
    }
}


/// The fields of a payload of the event type, in the order in which they are
/// read.
pub open spec fn read_order(event: EventType) -> Seq<Field> {
    match event {
        EventType::MapBaseEvent => seq![Field::Type],
        EventType::MapEvent => seq![Field::Type, Field::OriginalEvent],
        EventType::MapDataEvent => seq![
            Field::Type,
            Field::DataType,
            Field::IsSourceLoaded,
            Field::SourceDataType,
            Field::SourceId,
        ],
        EventType::MapBoxZoomEvent => seq![Field::Type, Field::OriginalEvent],
        EventType::MapMouseEvent => seq![
            Field::Type,
            Field::OriginalEvent,
            Field::Point,
            Field::LngLat,
            Field::Features,
        ],
        EventType::MapTouchEvent => seq![
            Field::Type,
            Field::OriginalEvent,
            Field::Point,
            Field::Points,
            Field::LngLat,
            Field::LngLats,
            Field::Features,
        ],
        EventType::MapWheelEvent => seq![Field::Type, Field::OriginalEvent],
        EventType::DragEvent => seq![Field::OriginalEvent],
        EventType::Message => Seq::empty(),
    }
}

/// Whether a payload of the event type must hold the field.
pub open spec fn is_required(event: EventType, field: Field) -> bool {
    match field {
        Field::Type => !(event is DragEvent) && !(event is Message),
        Field::DataType => event is MapDataEvent,
        Field::OriginalEvent => event is MapBoxZoomEvent || event is MapMouseEvent
            || event is MapTouchEvent || event is MapWheelEvent || event is DragEvent,
        Field::Point => event is MapMouseEvent || event is MapTouchEvent,
        Field::LngLat => event is MapMouseEvent || event is MapTouchEvent,
        _ => false,
    }
}

/// The error of a result, if it is one.
pub open spec fn error_of<T>(result: Result<T, DecodeError>) -> Option<DecodeError> {
    match result {
        Ok(_) => None,
        Err(e) => Some(e),
    }
}

/// The error that reading one field of a payload gives, if it gives one.
pub open spec fn read_error(v: ValueView, event: EventType, field: Field) -> Option<DecodeError> {
    match field {
        Field::Type => error_of(spec_required_string(v, event, field)),
        Field::DataType => error_of(spec_required_string(v, event, field)),
        Field::OriginalEvent => if event is MapEvent {
            None
        } else {
            error_of(spec_required(v, event, field))
        },
        Field::Point => error_of(spec_required_point(v, event, field)),
        Field::LngLat => error_of(spec_required_lng_lat(v, event, field)),
        Field::Points => error_of(spec_optional_points(v, event, field)),
        Field::LngLats => error_of(spec_optional_lng_lats(v, event, field)),
        Field::Features => None,
        Field::IsSourceLoaded => error_of(spec_optional_bool(v, event, field)),
        Field::SourceDataType => error_of(spec_optional_string(v, event, field)),
        Field::SourceId => error_of(spec_optional_string(v, event, field)),
    }
}

/// The error of the first field, from the place `from` of the reading order
/// on, that cannot be read.
pub open spec fn first_error(v: ValueView, event: EventType, from: int) -> Option<DecodeError>
    decreases read_order(event).len() - from,
{
    if from < 0 || from >= read_order(event).len() {
        None
    } else {
        match read_error(v, event, read_order(event)[from]) {
            Some(e) => Some(e),
            None => first_error(v, event, from + 1),
        }
    }
}

/// Decoding reads the fields of a payload in order and stops at the first that
/// cannot be read: it fails with the error of that field, and succeeds where
/// every field can be read. This holds of every kind of event whose payload is
/// an object.
pub proof fn law_decode_stops_at_first_error(v: ValueView, kind: MapEventKind)
    requires
        !(kind is Error),
    ensures
        match first_error(v, kind.spec_event_type(), 0) {
            Some(e) => spec_decode(v, kind) == Err::<TypedEventView, DecodeError>(e),
            None => spec_decode(v, kind) is Ok,
        },
{
    reveal_with_fuel(first_error, 8);
}

/// A payload that lacks a field that its event type requires is refused with
/// an error that names the event type. Where every field that is read before
/// the missing one can be read, the error is the missing field itself.
pub proof fn law_missing_required_field(v: ValueView, kind: MapEventKind, field: Field)
    requires
        is_required(kind.spec_event_type(), field),
        v.get(field.spec_key()) is None,
    ensures
        read_error(v, kind.spec_event_type(), field) == Some(
            DecodeError::MissingField(kind.spec_event_type(), field),
        ),
        spec_decode(v, kind) is Err,
        spec_decode(v, kind)->Err_0.event() == kind.spec_event_type(),
        forall|place: int|
            0 <= place < read_order(kind.spec_event_type()).len() && read_order(
                kind.spec_event_type(),
            )[place] == field && (forall|before: int|
                0 <= before < place ==> read_error(
                    v,
                    kind.spec_event_type(),
                    #[trigger] read_order(kind.spec_event_type())[before],
                ) is None) ==> spec_decode(v, kind) == Err::<TypedEventView, DecodeError>(
                DecodeError::MissingField(kind.spec_event_type(), field),
            ),
{
    let event = kind.spec_event_type();
    let order = read_order(event);
    assert forall|place: int|
        0 <= place < order.len() && order[place] == field && (forall|before: int|
            0 <= before < place ==> read_error(v, event, #[trigger] order[before])
                is None) implies spec_decode(v, kind) == Err::<TypedEventView, DecodeError>(
        DecodeError::MissingField(event, field),
    ) by {
        assert(forall|before: int|
            0 <= before < place ==> read_error(v, event, #[trigger] order[before]) is None);
        if place > 0 {
            assert(read_error(v, event, order[0]) is None);
        }
        if place > 1 {
            assert(read_error(v, event, order[1]) is None);
        }
        if place > 2 {
            assert(read_error(v, event, order[2]) is None);
        }
        if place > 3 {
            assert(read_error(v, event, order[3]) is None);
        }
        if place > 4 {
            assert(read_error(v, event, order[4]) is None);
        }
    }
}

/// A payload that lacks a list that the engine leaves out at will is not
/// refused for that, and the event that it decodes into has the list empty.
pub proof fn law_absent_list_is_empty(v: ValueView, kind: MapEventKind, field: Field)
    requires
        field is Features || field is Points || field is LngLats,
        v.get(field.spec_key()) is None,
    ensures
        read_error(v, kind.spec_event_type(), field) is None,
        spec_decode(v, kind) matches Ok(TypedEventView::Mouse(e)) ==> (field is Features
            ==> e.features.len() == 0),
        spec_decode(v, kind) matches Ok(TypedEventView::Touch(e)) ==> {
            &&& field is Features ==> e.features.len() == 0
            &&& field is Points ==> e.points.len() == 0
            &&& field is LngLats ==> e.lng_lats.len() == 0
        },
{
}

/// A name that begins with `on_` and goes on with something that does not
/// loses exactly that beginning.
proof fn lemma_strip_once(name: Seq<char>, rest: Seq<char>)
    requires
        name == "on_"@ + rest,
        !has_on_prefix(rest),
    ensures
        strip_on(name) == rest,
{
    reveal_strlit("on_");
    assert(has_on_prefix(name));
    assert(name.skip(3) =~= rest);
    assert(strip_on(name) == strip_on(name.skip(3)));
    assert(strip_on(rest) == rest);
}

proof fn lemma_event_names_0(kind: MapEventKind)
    requires
        kind is Resize || kind is Remove || kind is MouseDown || kind is MouseUp || kind is PreClick || kind is Click || kind is DblClick || kind is MouseMove,
    ensures
        kind.spec_method_name() == "on_"@ + kind.spec_event_name(),
        !has_on_prefix(kind.spec_event_name()),
{
    reveal_strlit("on_");
    match kind {
        MapEventKind::Resize => {
            reveal_strlit("on_resize");
            reveal_strlit("resize");
            assert("on_resize"@ =~= "on_"@ + "resize"@);
        },
        MapEventKind::Remove => {
            reveal_strlit("on_remove");
            reveal_strlit("remove");
            assert("on_remove"@ =~= "on_"@ + "remove"@);
        },
        MapEventKind::MouseDown => {
            reveal_strlit("on_mousedown");
            reveal_strlit("mousedown");
            assert("on_mousedown"@ =~= "on_"@ + "mousedown"@);
        },
        MapEventKind::MouseUp => {
            reveal_strlit("on_mouseup");
            reveal_strlit("mouseup");
            assert("on_mouseup"@ =~= "on_"@ + "mouseup"@);
        },
        MapEventKind::PreClick => {
            reveal_strlit("on_preclick");
            reveal_strlit("preclick");
            assert("on_preclick"@ =~= "on_"@ + "preclick"@);
        },
        MapEventKind::Click => {
            reveal_strlit("on_click");
            reveal_strlit("click");
            assert("on_click"@ =~= "on_"@ + "click"@);
        },
        MapEventKind::DblClick => {
            reveal_strlit("on_dblclick");
            reveal_strlit("dblclick");
            assert("on_dblclick"@ =~= "on_"@ + "dblclick"@);
        },
        MapEventKind::MouseMove => {
            reveal_strlit("on_mousemove");
            reveal_strlit("mousemove");
            assert("on_mousemove"@ =~= "on_"@ + "mousemove"@);
        },
        _ => {},
    }
}

proof fn lemma_event_names_1(kind: MapEventKind)
    requires
        kind is MouseOver || kind is MouseEnter || kind is MouseLeave || kind is MouseOut || kind is ContextMenu || kind is TouchStart || kind is TouchEnd || kind is TouchCancel,
    ensures
        kind.spec_method_name() == "on_"@ + kind.spec_event_name(),
        !has_on_prefix(kind.spec_event_name()),
{
    reveal_strlit("on_");
    match kind {
        MapEventKind::MouseOver => {
            reveal_strlit("on_mouseover");
            reveal_strlit("mouseover");
            assert("on_mouseover"@ =~= "on_"@ + "mouseover"@);
        },
        MapEventKind::MouseEnter => {
            reveal_strlit("on_mouseenter");
            reveal_strlit("mouseenter");
            assert("on_mouseenter"@ =~= "on_"@ + "mouseenter"@);
        },
        MapEventKind::MouseLeave => {
            reveal_strlit("on_mouseleave");
            reveal_strlit("mouseleave");
            assert("on_mouseleave"@ =~= "on_"@ + "mouseleave"@);
        },
        MapEventKind::MouseOut => {
            reveal_strlit("on_mouseout");
            reveal_strlit("mouseout");
            assert("on_mouseout"@ =~= "on_"@ + "mouseout"@);
        },
        MapEventKind::ContextMenu => {
            reveal_strlit("on_contextmenu");
            reveal_strlit("contextmenu");
            assert("on_contextmenu"@ =~= "on_"@ + "contextmenu"@);
        },
        MapEventKind::TouchStart => {
            reveal_strlit("on_touchstart");
            reveal_strlit("touchstart");
            assert("on_touchstart"@ =~= "on_"@ + "touchstart"@);
        },
        MapEventKind::TouchEnd => {
            reveal_strlit("on_touchend");
            reveal_strlit("touchend");
            assert("on_touchend"@ =~= "on_"@ + "touchend"@);
        },
        MapEventKind::TouchCancel => {
            reveal_strlit("on_touchcancel");
            reveal_strlit("touchcancel");
            assert("on_touchcancel"@ =~= "on_"@ + "touchcancel"@);
        },
        _ => {},
    }
}

proof fn lemma_event_names_2(kind: MapEventKind)
    requires
        kind is Wheel || kind is MoveStart || kind is Move || kind is MoveEnd || kind is DragStart || kind is Drag || kind is DragEnd || kind is ZoomStart,
    ensures
        kind.spec_method_name() == "on_"@ + kind.spec_event_name(),
        !has_on_prefix(kind.spec_event_name()),
{
    reveal_strlit("on_");
    match kind {
        MapEventKind::Wheel => {
            reveal_strlit("on_wheel");
            reveal_strlit("wheel");
            assert("on_wheel"@ =~= "on_"@ + "wheel"@);
        },
        MapEventKind::MoveStart => {
            reveal_strlit("on_movestart");
            reveal_strlit("movestart");
            assert("on_movestart"@ =~= "on_"@ + "movestart"@);
        },
        MapEventKind::Move => {
            reveal_strlit("on_move");
            reveal_strlit("move");
            assert("on_move"@ =~= "on_"@ + "move"@);
        },
        MapEventKind::MoveEnd => {
            reveal_strlit("on_moveend");
            reveal_strlit("moveend");
            assert("on_moveend"@ =~= "on_"@ + "moveend"@);
        },
        MapEventKind::DragStart => {
            reveal_strlit("on_dragstart");
            reveal_strlit("dragstart");
            assert("on_dragstart"@ =~= "on_"@ + "dragstart"@);
        },
        MapEventKind::Drag => {
            reveal_strlit("on_drag");
            reveal_strlit("drag");
            assert("on_drag"@ =~= "on_"@ + "drag"@);
        },
        MapEventKind::DragEnd => {
            reveal_strlit("on_dragend");
            reveal_strlit("dragend");
            assert("on_dragend"@ =~= "on_"@ + "dragend"@);
        },
        MapEventKind::ZoomStart => {
            reveal_strlit("on_zoomstart");
            reveal_strlit("zoomstart");
            assert("on_zoomstart"@ =~= "on_"@ + "zoomstart"@);
        },
        _ => {},
    }
}

proof fn lemma_event_names_3(kind: MapEventKind)
    requires
        kind is Zoom || kind is ZoomEnd || kind is RotateStart || kind is Rotate || kind is RotateEnd || kind is PitchStart || kind is Pitch || kind is PitchEnd,
    ensures
        kind.spec_method_name() == "on_"@ + kind.spec_event_name(),
        !has_on_prefix(kind.spec_event_name()),
{
    reveal_strlit("on_");
    match kind {
        MapEventKind::Zoom => {
            reveal_strlit("on_zoom");
            reveal_strlit("zoom");
            assert("on_zoom"@ =~= "on_"@ + "zoom"@);
        },
        MapEventKind::ZoomEnd => {
            reveal_strlit("on_zoomend");
            reveal_strlit("zoomend");
            assert("on_zoomend"@ =~= "on_"@ + "zoomend"@);
        },
        MapEventKind::RotateStart => {
            reveal_strlit("on_rotatestart");
            reveal_strlit("rotatestart");
            assert("on_rotatestart"@ =~= "on_"@ + "rotatestart"@);
        },
        MapEventKind::Rotate => {
            reveal_strlit("on_rotate");
            reveal_strlit("rotate");
            assert("on_rotate"@ =~= "on_"@ + "rotate"@);
        },
        MapEventKind::RotateEnd => {
            reveal_strlit("on_rotateend");
            reveal_strlit("rotateend");
            assert("on_rotateend"@ =~= "on_"@ + "rotateend"@);
        },
        MapEventKind::PitchStart => {
            reveal_strlit("on_pitchstart");
            reveal_strlit("pitchstart");
            assert("on_pitchstart"@ =~= "on_"@ + "pitchstart"@);
        },
        MapEventKind::Pitch => {
            reveal_strlit("on_pitch");
            reveal_strlit("pitch");
            assert("on_pitch"@ =~= "on_"@ + "pitch"@);
        },
        MapEventKind::PitchEnd => {
            reveal_strlit("on_pitchend");
            reveal_strlit("pitchend");
            assert("on_pitchend"@ =~= "on_"@ + "pitchend"@);
        },
        _ => {},
    }
}

proof fn lemma_event_names_4(kind: MapEventKind)
    requires
        kind is BoxZoomStart || kind is BoxZoomEnd || kind is BoxZoomCancel || kind is Load || kind is Render || kind is Idle || kind is WebGlContextLost || kind is WebGlContextRestored,
    ensures
        kind.spec_method_name() == "on_"@ + kind.spec_event_name(),
        !has_on_prefix(kind.spec_event_name()),
{
    reveal_strlit("on_");
    match kind {
        MapEventKind::BoxZoomStart => {
            reveal_strlit("on_boxzoomstart");
            reveal_strlit("boxzoomstart");
            assert("on_boxzoomstart"@ =~= "on_"@ + "boxzoomstart"@);
        },
        MapEventKind::BoxZoomEnd => {
            reveal_strlit("on_boxzoomend");
            reveal_strlit("boxzoomend");
            assert("on_boxzoomend"@ =~= "on_"@ + "boxzoomend"@);
        },
        MapEventKind::BoxZoomCancel => {
            reveal_strlit("on_boxzoomcancel");
            reveal_strlit("boxzoomcancel");
            assert("on_boxzoomcancel"@ =~= "on_"@ + "boxzoomcancel"@);
        },
        MapEventKind::Load => {
            reveal_strlit("on_load");
            reveal_strlit("load");
            assert("on_load"@ =~= "on_"@ + "load"@);
        },
        MapEventKind::Render => {
            reveal_strlit("on_render");
            reveal_strlit("render");
            assert("on_render"@ =~= "on_"@ + "render"@);
        },
        MapEventKind::Idle => {
            reveal_strlit("on_idle");
            reveal_strlit("idle");
            assert("on_idle"@ =~= "on_"@ + "idle"@);
        },
        MapEventKind::WebGlContextLost => {
            reveal_strlit("on_webglcontextlost");
            reveal_strlit("webglcontextlost");
            assert("on_webglcontextlost"@ =~= "on_"@ + "webglcontextlost"@);
        },
        MapEventKind::WebGlContextRestored => {
            reveal_strlit("on_webglcontextrestored");
            reveal_strlit("webglcontextrestored");
            assert("on_webglcontextrestored"@ =~= "on_"@ + "webglcontextrestored"@);
        },
        _ => {},
    }
}

proof fn lemma_event_names_5(kind: MapEventKind)
    requires
        kind is Data || kind is StyleData || kind is SourceData || kind is DataLoading || kind is StyleDataLoading || kind is SourceDataLoading || kind is StyleImageMissing || kind is Error,
    ensures
        kind.spec_method_name() == "on_"@ + kind.spec_event_name(),
        !has_on_prefix(kind.spec_event_name()),
{
    reveal_strlit("on_");
    match kind {
        MapEventKind::Data => {
            reveal_strlit("on_data");
            reveal_strlit("data");
            assert("on_data"@ =~= "on_"@ + "data"@);
        },
        MapEventKind::StyleData => {
            reveal_strlit("on_styledata");
            reveal_strlit("styledata");
            assert("on_styledata"@ =~= "on_"@ + "styledata"@);
        },
        MapEventKind::SourceData => {
            reveal_strlit("on_sourcedata");
            reveal_strlit("sourcedata");
            assert("on_sourcedata"@ =~= "on_"@ + "sourcedata"@);
        },
        MapEventKind::DataLoading => {
            reveal_strlit("on_dataloading");
            reveal_strlit("dataloading");
            assert("on_dataloading"@ =~= "on_"@ + "dataloading"@);
        },
        MapEventKind::StyleDataLoading => {
            reveal_strlit("on_styledataloading");
            reveal_strlit("styledataloading");
            assert("on_styledataloading"@ =~= "on_"@ + "styledataloading"@);
        },
        MapEventKind::SourceDataLoading => {
            reveal_strlit("on_sourcedataloading");
            reveal_strlit("sourcedataloading");
            assert("on_sourcedataloading"@ =~= "on_"@ + "sourcedataloading"@);
        },
        MapEventKind::StyleImageMissing => {
            reveal_strlit("on_styleimagemissing");
            reveal_strlit("styleimagemissing");
            assert("on_styleimagemissing"@ =~= "on_"@ + "styleimagemissing"@);
        },
        MapEventKind::Error => {
            reveal_strlit("on_error");
            reveal_strlit("error");
            assert("on_error"@ =~= "on_"@ + "error"@);
        },
        _ => {},
    }
}

/// The name of an event is the name of its listener method without the
/// leading `on_`: the method `on_<event>` receives the events that the engine
/// emits under the name `<event>`.
pub proof fn law_event_name(kind: MapEventKind)
    ensures
        kind.spec_method_name() == "on_"@ + kind.spec_event_name(),
        strip_on(kind.spec_method_name()) == kind.spec_event_name(),
{
    match kind {
        MapEventKind::Resize | MapEventKind::Remove | MapEventKind::MouseDown | MapEventKind::MouseUp | MapEventKind::PreClick | MapEventKind::Click | MapEventKind::DblClick | MapEventKind::MouseMove => {
            lemma_event_names_0(kind);
        },
        MapEventKind::MouseOver | MapEventKind::MouseEnter | MapEventKind::MouseLeave | MapEventKind::MouseOut | MapEventKind::ContextMenu | MapEventKind::TouchStart | MapEventKind::TouchEnd | MapEventKind::TouchCancel => {
            lemma_event_names_1(kind);
        },
        MapEventKind::Wheel | MapEventKind::MoveStart | MapEventKind::Move | MapEventKind::MoveEnd | MapEventKind::DragStart | MapEventKind::Drag | MapEventKind::DragEnd | MapEventKind::ZoomStart => {
            lemma_event_names_2(kind);
        },
        MapEventKind::Zoom | MapEventKind::ZoomEnd | MapEventKind::RotateStart | MapEventKind::Rotate | MapEventKind::RotateEnd | MapEventKind::PitchStart | MapEventKind::Pitch | MapEventKind::PitchEnd => {
            lemma_event_names_3(kind);
        },
        MapEventKind::BoxZoomStart | MapEventKind::BoxZoomEnd | MapEventKind::BoxZoomCancel | MapEventKind::Load | MapEventKind::Render | MapEventKind::Idle | MapEventKind::WebGlContextLost | MapEventKind::WebGlContextRestored => {
            lemma_event_names_4(kind);
        },
        MapEventKind::Data | MapEventKind::StyleData | MapEventKind::SourceData | MapEventKind::DataLoading | MapEventKind::StyleDataLoading | MapEventKind::SourceDataLoading | MapEventKind::StyleImageMissing | MapEventKind::Error => {
            lemma_event_names_5(kind);
        },
    }
    lemma_strip_once(kind.spec_method_name(), kind.spec_event_name());
}

/// A payload that decodes for a kind decodes to an event of the type that the
/// kind calls for.
pub proof fn law_decoded_event_is_of_the_kind(v: ValueView, kind: MapEventKind)
    ensures
        spec_decode(v, kind) matches Ok(event) ==> event.event_type() == kind.spec_event_type(),
{
}

/// What receives the events of a map. `M` is the strong reference to the map
/// that each method is handed. A listener says in [`received`] what becomes of
/// it when it receives an event, and each method brings that about for the
/// events of its kind: a method of a listener that does not care for the kind
/// leaves the listener as it is.
///
/// [`received`]: MapEventListener::received
pub trait MapEventListener<M>: Sized {
    /// The listener as it is once it has received `event`, an event of kind
    /// `kind`, together with `owner`. Unless the listener says otherwise it
    /// stays as it is: so it is with a listener that acts only on what it
    /// shares with others.
    open spec fn received(self, owner: M, kind: MapEventKind, event: TypedEventView) -> Self {
        self
    }

    fn on_resize(&mut self, map: M, e: MapBaseEvent)
        ensures
            *final(self) == old(self).received(
                map,
                MapEventKind::Resize,
                TypedEventView::Base(e@),
            ),
    ;

    fn on_remove(&mut self, map: M, e: MapBaseEvent)
        ensures
            *final(self) == old(self).received(
                map,
                MapEventKind::Remove,
                TypedEventView::Base(e@),
            ),
    ;

    fn on_mousedown(&mut self, map: M, e: MapMouseEvent)
        ensures
            *final(self) == old(self).received(
                map,
                MapEventKind::MouseDown,
                TypedEventView::Mouse(e@),
            ),
    ;

    fn on_mouseup(&mut self, map: M, e: MapMouseEvent)
        ensures
            *final(self) == old(self).received(
                map,
                MapEventKind::MouseUp,
                TypedEventView::Mouse(e@),
            ),
    ;

    fn on_preclick(&mut self, map: M, e: MapMouseEvent)
        ensures
            *final(self) == old(self).received(
                map,
                MapEventKind::PreClick,
                TypedEventView::Mouse(e@),
            ),
    ;

    fn on_click(&mut self, map: M, e: MapMouseEvent)
        ensures
            *final(self) == old(self).received(
                map,
                MapEventKind::Click,
                TypedEventView::Mouse(e@),
            ),
    ;

    fn on_dblclick(&mut self, map: M, e: MapMouseEvent)
        ensures
            *final(self) == old(self).received(
                map,
                MapEventKind::DblClick,
                TypedEventView::Mouse(e@),
            ),
    ;

    fn on_mousemove(&mut self, map: M, e: MapMouseEvent)
        ensures
            *final(self) == old(self).received(
                map,
                MapEventKind::MouseMove,
                TypedEventView::Mouse(e@),
            ),
    ;

    fn on_mouseover(&mut self, map: M, e: MapMouseEvent)
        ensures
            *final(self) == old(self).received(
                map,
                MapEventKind::MouseOver,
                TypedEventView::Mouse(e@),
            ),
    ;

    fn on_mouseenter(&mut self, map: M, e: MapMouseEvent)
        ensures
            *final(self) == old(self).received(
                map,
                MapEventKind::MouseEnter,
                TypedEventView::Mouse(e@),
            ),
    ;

    fn on_mouseleave(&mut self, map: M, e: MapMouseEvent)
        ensures
            *final(self) == old(self).received(
                map,
                MapEventKind::MouseLeave,
                TypedEventView::Mouse(e@),
            ),
    ;

    fn on_mouseout(&mut self, map: M, e: MapMouseEvent)
        ensures
            *final(self) == old(self).received(
                map,
                MapEventKind::MouseOut,
                TypedEventView::Mouse(e@),
            ),
    ;

    fn on_contextmenu(&mut self, map: M, e: MapMouseEvent)
        ensures
            *final(self) == old(self).received(
                map,
                MapEventKind::ContextMenu,
                TypedEventView::Mouse(e@),
            ),
    ;

    fn on_touchstart(&mut self, map: M, e: MapTouchEvent)
        ensures
            *final(self) == old(self).received(
                map,
                MapEventKind::TouchStart,
                TypedEventView::Touch(e@),
            ),
    ;

    fn on_touchend(&mut self, map: M, e: MapTouchEvent)
        ensures
            *final(self) == old(self).received(
                map,
                MapEventKind::TouchEnd,
                TypedEventView::Touch(e@),
            ),
    ;

    fn on_touchcancel(&mut self, map: M, e: MapTouchEvent)
        ensures
            *final(self) == old(self).received(
                map,
                MapEventKind::TouchCancel,
                TypedEventView::Touch(e@),
            ),
    ;

    fn on_wheel(&mut self, map: M, e: MapWheelEvent)
        ensures
            *final(self) == old(self).received(
                map,
                MapEventKind::Wheel,
                TypedEventView::Wheel(e@),
            ),
    ;

    fn on_movestart(&mut self, map: M, e: DragEvent)
        ensures
            *final(self) == old(self).received(
                map,
                MapEventKind::MoveStart,
                TypedEventView::Drag(e@),
            ),
    ;

    fn on_move(&mut self, map: M, e: MapEvent)
        ensures
            *final(self) == old(self).received(
                map,
                MapEventKind::Move,
                TypedEventView::Movement(e@),
            ),
    ;

    fn on_moveend(&mut self, map: M, e: DragEvent)
        ensures
            *final(self) == old(self).received(
                map,
                MapEventKind::MoveEnd,
                TypedEventView::Drag(e@),
            ),
    ;

    fn on_dragstart(&mut self, map: M, e: MapBaseEvent)
        ensures
            *final(self) == old(self).received(
                map,
                MapEventKind::DragStart,
                TypedEventView::Base(e@),
            ),
    ;

    fn on_drag(&mut self, map: M, e: DragEvent)
        ensures
            *final(self) == old(self).received(
                map,
                MapEventKind::Drag,
                TypedEventView::Drag(e@),
            ),
    ;

    fn on_dragend(&mut self, map: M, e: DragEvent)
        ensures
            *final(self) == old(self).received(
                map,
                MapEventKind::DragEnd,
                TypedEventView::Drag(e@),
            ),
    ;

    fn on_zoomstart(&mut self, map: M, e: MapBaseEvent)
        ensures
            *final(self) == old(self).received(
                map,
                MapEventKind::ZoomStart,
                TypedEventView::Base(e@),
            ),
    ;

    fn on_zoom(&mut self, map: M, e: MapBaseEvent)
        ensures
            *final(self) == old(self).received(
                map,
                MapEventKind::Zoom,
                TypedEventView::Base(e@),
            ),
    ;

    fn on_zoomend(&mut self, map: M, e: MapBaseEvent)
        ensures
            *final(self) == old(self).received(
                map,
                MapEventKind::ZoomEnd,
                TypedEventView::Base(e@),
            ),
    ;

    fn on_rotatestart(&mut self, map: M, e: MapBaseEvent)
        ensures
            *final(self) == old(self).received(
                map,
                MapEventKind::RotateStart,
                TypedEventView::Base(e@),
            ),
    ;

    fn on_rotate(&mut self, map: M, e: MapBaseEvent)
        ensures
            *final(self) == old(self).received(
                map,
                MapEventKind::Rotate,
                TypedEventView::Base(e@),
            ),
    ;

    fn on_rotateend(&mut self, map: M, e: MapBaseEvent)
        ensures
            *final(self) == old(self).received(
                map,
                MapEventKind::RotateEnd,
                TypedEventView::Base(e@),
            ),
    ;

    fn on_pitchstart(&mut self, map: M, e: MapBaseEvent)
        ensures
            *final(self) == old(self).received(
                map,
                MapEventKind::PitchStart,
                TypedEventView::Base(e@),
            ),
    ;

    fn on_pitch(&mut self, map: M, e: MapBaseEvent)
        ensures
            *final(self) == old(self).received(
                map,
                MapEventKind::Pitch,
                TypedEventView::Base(e@),
            ),
    ;

    fn on_pitchend(&mut self, map: M, e: MapBaseEvent)
        ensures
            *final(self) == old(self).received(
                map,
                MapEventKind::PitchEnd,
                TypedEventView::Base(e@),
            ),
    ;

    fn on_boxzoomstart(&mut self, map: M, e: MapBoxZoomEvent)
        ensures
            *final(self) == old(self).received(
                map,
                MapEventKind::BoxZoomStart,
                TypedEventView::BoxZoom(e@),
            ),
    ;

    fn on_boxzoomend(&mut self, map: M, e: MapBoxZoomEvent)
        ensures
            *final(self) == old(self).received(
                map,
                MapEventKind::BoxZoomEnd,
                TypedEventView::BoxZoom(e@),
            ),
    ;

    fn on_boxzoomcancel(&mut self, map: M, e: MapBoxZoomEvent)
        ensures
            *final(self) == old(self).received(
                map,
                MapEventKind::BoxZoomCancel,
                TypedEventView::BoxZoom(e@),
            ),
    ;

    fn on_load(&mut self, map: M, e: MapBaseEvent)
        ensures
            *final(self) == old(self).received(
                map,
                MapEventKind::Load,
                TypedEventView::Base(e@),
            ),
    ;

    fn on_render(&mut self, map: M, e: MapBaseEvent)
        ensures
            *final(self) == old(self).received(
                map,
                MapEventKind::Render,
                TypedEventView::Base(e@),
            ),
    ;

    fn on_idle(&mut self, map: M, e: MapBaseEvent)
        ensures
            *final(self) == old(self).received(
                map,
                MapEventKind::Idle,
                TypedEventView::Base(e@),
            ),
    ;

    fn on_webglcontextlost(&mut self, map: M, e: MapBaseEvent)
        ensures
            *final(self) == old(self).received(
                map,
                MapEventKind::WebGlContextLost,
                TypedEventView::Base(e@),
            ),
    ;

    fn on_webglcontextrestored(&mut self, map: M, e: MapBaseEvent)
        ensures
            *final(self) == old(self).received(
                map,
                MapEventKind::WebGlContextRestored,
                TypedEventView::Base(e@),
            ),
    ;

    fn on_data(&mut self, map: M, e: MapDataEvent)
        ensures
            *final(self) == old(self).received(
                map,
                MapEventKind::Data,
                TypedEventView::Data(e@),
            ),
    ;

    fn on_styledata(&mut self, map: M, e: MapDataEvent)
        ensures
            *final(self) == old(self).received(
                map,
                MapEventKind::StyleData,
                TypedEventView::Data(e@),
            ),
    ;

    fn on_sourcedata(&mut self, map: M, e: MapDataEvent)
        ensures
            *final(self) == old(self).received(
                map,
                MapEventKind::SourceData,
                TypedEventView::Data(e@),
            ),
    ;

    fn on_dataloading(&mut self, map: M, e: MapDataEvent)
        ensures
            *final(self) == old(self).received(
                map,
                MapEventKind::DataLoading,
                TypedEventView::Data(e@),
            ),
    ;

    fn on_styledataloading(&mut self, map: M, e: MapDataEvent)
        ensures
            *final(self) == old(self).received(
                map,
                MapEventKind::StyleDataLoading,
                TypedEventView::Data(e@),
            ),
    ;

    fn on_sourcedataloading(&mut self, map: M, e: MapBaseEvent)
        ensures
            *final(self) == old(self).received(
                map,
                MapEventKind::SourceDataLoading,
                TypedEventView::Base(e@),
            ),
    ;

    fn on_styleimagemissing(&mut self, map: M, e: MapBaseEvent)
        ensures
            *final(self) == old(self).received(
                map,
                MapEventKind::StyleImageMissing,
                TypedEventView::Base(e@),
            ),
    ;

    fn on_error(&mut self, map: M, message: String)
        ensures
            *final(self) == old(self).received(
                map,
                MapEventKind::Error,
                TypedEventView::Message(message@),
            ),
    ;

}

/// Hands `event` to the method of `listener` that receives events of kind
/// `kind`, together with the owner, so that the listener has received the
/// event. An event whose type is not the type that the kind calls for is
/// handed to no method, and the listener stays as it was. Returns whether a
/// method was called.
pub fn deliver<M, L: MapEventListener<M>>(
    listener: &mut L,
    owner: M,
    kind: MapEventKind,
    event: TypedEvent,
) -> (delivered: bool)
    ensures
        delivered == (event@.event_type() == kind.spec_event_type()),
        delivered ==> *final(listener) == old(listener).received(owner, kind, event@),
        !delivered ==> *final(listener) == *old(listener),
{
    match (kind, event) {
        (MapEventKind::Resize, TypedEvent::Base(e)) => {
            listener.on_resize(owner, e);
            true
        },
        (MapEventKind::Remove, TypedEvent::Base(e)) => {
            listener.on_remove(owner, e);
            true
        },
        (MapEventKind::MouseDown, TypedEvent::Mouse(e)) => {
            listener.on_mousedown(owner, e);
            true
        },
        (MapEventKind::MouseUp, TypedEvent::Mouse(e)) => {
            listener.on_mouseup(owner, e);
            true
        },
        (MapEventKind::PreClick, TypedEvent::Mouse(e)) => {
            listener.on_preclick(owner, e);
            true
        },
        (MapEventKind::Click, TypedEvent::Mouse(e)) => {
            listener.on_click(owner, e);
            true
        },
        (MapEventKind::DblClick, TypedEvent::Mouse(e)) => {
            listener.on_dblclick(owner, e);
            true
        },
        (MapEventKind::MouseMove, TypedEvent::Mouse(e)) => {
            listener.on_mousemove(owner, e);
            true
        },
        (MapEventKind::MouseOver, TypedEvent::Mouse(e)) => {
            listener.on_mouseover(owner, e);
            true
        },
        (MapEventKind::MouseEnter, TypedEvent::Mouse(e)) => {
            listener.on_mouseenter(owner, e);
            true
        },
        (MapEventKind::MouseLeave, TypedEvent::Mouse(e)) => {
            listener.on_mouseleave(owner, e);
            true
        },
        (MapEventKind::MouseOut, TypedEvent::Mouse(e)) => {
            listener.on_mouseout(owner, e);
            true
        },
        (MapEventKind::ContextMenu, TypedEvent::Mouse(e)) => {
            listener.on_contextmenu(owner, e);
            true
        },
        (MapEventKind::TouchStart, TypedEvent::Touch(e)) => {
            listener.on_touchstart(owner, e);
            true
        },
        (MapEventKind::TouchEnd, TypedEvent::Touch(e)) => {
            listener.on_touchend(owner, e);
            true
        },
        (MapEventKind::TouchCancel, TypedEvent::Touch(e)) => {
            listener.on_touchcancel(owner, e);
            true
        },
        (MapEventKind::Wheel, TypedEvent::Wheel(e)) => {
            listener.on_wheel(owner, e);
            true
        },
        (MapEventKind::MoveStart, TypedEvent::Drag(e)) => {
            listener.on_movestart(owner, e);
            true
        },
        (MapEventKind::Move, TypedEvent::Movement(e)) => {
            listener.on_move(owner, e);
            true
        },
        (MapEventKind::MoveEnd, TypedEvent::Drag(e)) => {
            listener.on_moveend(owner, e);
            true
        },
        (MapEventKind::DragStart, TypedEvent::Base(e)) => {
            listener.on_dragstart(owner, e);
            true
        },
        (MapEventKind::Drag, TypedEvent::Drag(e)) => {
            listener.on_drag(owner, e);
            true
        },
        (MapEventKind::DragEnd, TypedEvent::Drag(e)) => {
            listener.on_dragend(owner, e);
            true
        },
        (MapEventKind::ZoomStart, TypedEvent::Base(e)) => {
            listener.on_zoomstart(owner, e);
            true
        },
        (MapEventKind::Zoom, TypedEvent::Base(e)) => {
            listener.on_zoom(owner, e);
            true
        },
        (MapEventKind::ZoomEnd, TypedEvent::Base(e)) => {
            listener.on_zoomend(owner, e);
            true
        },
        (MapEventKind::RotateStart, TypedEvent::Base(e)) => {
            listener.on_rotatestart(owner, e);
            true
        },
        (MapEventKind::Rotate, TypedEvent::Base(e)) => {
            listener.on_rotate(owner, e);
            true
        },
        (MapEventKind::RotateEnd, TypedEvent::Base(e)) => {
            listener.on_rotateend(owner, e);
            true
        },
        (MapEventKind::PitchStart, TypedEvent::Base(e)) => {
            listener.on_pitchstart(owner, e);
            true
        },
        (MapEventKind::Pitch, TypedEvent::Base(e)) => {
            listener.on_pitch(owner, e);
            true
        },
        (MapEventKind::PitchEnd, TypedEvent::Base(e)) => {
            listener.on_pitchend(owner, e);
            true
        },
        (MapEventKind::BoxZoomStart, TypedEvent::BoxZoom(e)) => {
            listener.on_boxzoomstart(owner, e);
            true
        },
        (MapEventKind::BoxZoomEnd, TypedEvent::BoxZoom(e)) => {
            listener.on_boxzoomend(owner, e);
            true
        },
        (MapEventKind::BoxZoomCancel, TypedEvent::BoxZoom(e)) => {
            listener.on_boxzoomcancel(owner, e);
            true
        },
        (MapEventKind::Load, TypedEvent::Base(e)) => {
            listener.on_load(owner, e);
            true
        },
        (MapEventKind::Render, TypedEvent::Base(e)) => {
            listener.on_render(owner, e);
            true
        },
        (MapEventKind::Idle, TypedEvent::Base(e)) => {
            listener.on_idle(owner, e);
            true
        },
        (MapEventKind::WebGlContextLost, TypedEvent::Base(e)) => {
            listener.on_webglcontextlost(owner, e);
            true
        },
        (MapEventKind::WebGlContextRestored, TypedEvent::Base(e)) => {
            listener.on_webglcontextrestored(owner, e);
            true
        },
        (MapEventKind::Data, TypedEvent::Data(e)) => {
            listener.on_data(owner, e);
            true
        },
        (MapEventKind::StyleData, TypedEvent::Data(e)) => {
            listener.on_styledata(owner, e);
            true
        },
        (MapEventKind::SourceData, TypedEvent::Data(e)) => {
            listener.on_sourcedata(owner, e);
            true
        },
        (MapEventKind::DataLoading, TypedEvent::Data(e)) => {
            listener.on_dataloading(owner, e);
            true
        },
        (MapEventKind::StyleDataLoading, TypedEvent::Data(e)) => {
            listener.on_styledataloading(owner, e);
            true
        },
        (MapEventKind::SourceDataLoading, TypedEvent::Base(e)) => {
            listener.on_sourcedataloading(owner, e);
            true
        },
        (MapEventKind::StyleImageMissing, TypedEvent::Base(e)) => {
            listener.on_styleimagemissing(owner, e);
            true
        },
        (MapEventKind::Error, TypedEvent::Message(e)) => {
            listener.on_error(owner, e);
            true
        },
        _ => false,
    }
}

} // verus!
