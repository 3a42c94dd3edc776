//! Markers: what they are built from, and the dispatch of their drag events.

use vstd::prelude::*;
use crate::error::{ErrorView, Result};
use crate::event::{DecodeError, DragEvent, MapBaseEvent};
use crate::handle::{spec_refusal, Claim, DispatchError, WeakOwner};
use crate::listener::{
    decode, law_decoded_event_is_of_the_kind, spec_decode, MapEventKind, TypedEvent,
    TypedEventView,
};
use crate::lnglat::LngLat;
use crate::options::{
    encode_u64, integer_fits, integer_wire, optional_u64, read_integer, unsafe_integer, unsigned,
};
use crate::wire::{
    distinct_keys, flatten, law_lookup_of_distinct_keys, lemma_optional_round_trip,
    lemma_placed_keys_are_distinct, lookup, optional, optional_wire, read_optional,
    ObjectBuilder, Slots, ToWire, Value, ValueView,
};

verus! {

/// The kinds of events that a marker emits, in the order in which a listener
/// is subscribed to them.
#[derive(Debug, Clone, Copy, PartialEq, Eq, Hash, Structural)]
pub enum MarkerEventKind {
    DragStart,
    Drag,
    DragEnd,
}

impl MarkerEventKind {
    /// The kind of map event that has the name and the payload of this kind.
    pub open spec fn spec_map_kind(self) -> MapEventKind {
        match self {
            MarkerEventKind::DragStart => MapEventKind::DragStart,
            MarkerEventKind::Drag => MapEventKind::Drag,
            MarkerEventKind::DragEnd => MapEventKind::DragEnd,
        }
    }

    /// The kind of map event that has the name and the payload of this kind.
    pub fn map_kind(&self) -> (res: MapEventKind)
        ensures
            res == self.spec_map_kind(),
    {
        match self {
            MarkerEventKind::DragStart => MapEventKind::DragStart,
            MarkerEventKind::Drag => MapEventKind::Drag,
            MarkerEventKind::DragEnd => MapEventKind::DragEnd,
        }
    }

    /// The name under which the engine emits events of this kind.
    pub fn event_name(&self) -> (res: &'static str)
        ensures
            res@ == self.spec_map_kind().spec_event_name(),
    {
        self.map_kind().event_name()
    }

    /// Every kind, in the order of subscription.
    pub open spec fn spec_all() -> Seq<MarkerEventKind> {
        seq![MarkerEventKind::DragStart, MarkerEventKind::Drag, MarkerEventKind::DragEnd]
    }

    /// Every kind, in the order of subscription.
    pub fn all() -> (res: Vec<MarkerEventKind>)
        ensures
            res@ == Self::spec_all(),
    {
        let mut res: Vec<MarkerEventKind> = Vec::new();
        res.push(MarkerEventKind::DragStart);
        res.push(MarkerEventKind::Drag);
        res.push(MarkerEventKind::DragEnd);
        assert(res@ =~= Self::spec_all());
        res
    }
}

/// What receives the drag events of a marker. `M` is the strong reference to
/// the marker that each method is handed. A listener says in [`received`]
/// what becomes of it when it receives an event, and each method brings that
/// about for the events of its kind.
///
/// [`received`]: MarkerEventListener::received
pub trait MarkerEventListener<M>: Sized {
    /// The listener as it is once it has received `event`, an event of kind
    /// `kind`, together with `owner`. Unless the listener says otherwise it
    /// stays as it is: so it is with a listener that acts only on what it
    /// shares with others.
    open spec fn received(self, owner: M, kind: MarkerEventKind, event: TypedEventView) -> Self {
        self
    }

    fn on_dragstart(&mut self, map: M, e: MapBaseEvent)
        ensures
            *final(self) == old(self).received(
                map,
                MarkerEventKind::DragStart,
                TypedEventView::Base(e@),
            ),
    ;

    fn on_drag(&mut self, map: M, e: DragEvent)
        ensures
            *final(self) == old(self).received(
                map,
                MarkerEventKind::Drag,
                TypedEventView::Drag(e@),
            ),
    ;

    fn on_dragend(&mut self, map: M, e: DragEvent)
        ensures
            *final(self) == old(self).received(
                map,
                MarkerEventKind::DragEnd,
                TypedEventView::Drag(e@),
            ),
    ;
}

/// The listener that ignores every event.
#[derive(Debug, Clone, Copy, PartialEq, Eq, Structural)]
pub struct NoopListener;

impl<M> MarkerEventListener<M> for NoopListener {
    fn on_dragstart(&mut self, map: M, e: MapBaseEvent) {
    }

    fn on_drag(&mut self, map: M, e: DragEvent) {
    }

    fn on_dragend(&mut self, map: M, e: DragEvent) {
    }
}

/// Hands `event` to the method of `listener` that receives events of kind
/// `kind`, together with the owner, so that the listener has received the
/// event. An event whose type is not the type that the kind calls for is
/// handed to no method, and the listener stays as it was. Returns whether a
/// method was called.
pub fn deliver_to_marker<M, L: MarkerEventListener<M>>(
    listener: &mut L,
    owner: M,
    kind: MarkerEventKind,
    event: TypedEvent,
) -> (delivered: bool)
    ensures
        delivered == (event@.event_type() == kind.spec_map_kind().spec_event_type()),
        delivered ==> *final(listener) == old(listener).received(owner, kind, event@),
        !delivered ==> *final(listener) == *old(listener),
{
    match (kind, event) {
        (MarkerEventKind::DragStart, TypedEvent::Base(e)) => {
            listener.on_dragstart(owner, e);
            true
        },
        (MarkerEventKind::Drag, TypedEvent::Drag(e)) => {
            listener.on_drag(owner, e);
            true
        },
        (MarkerEventKind::DragEnd, TypedEvent::Drag(e)) => {
            listener.on_dragend(owner, e);
            true
        },
        _ => false,
    }
}

/// One subscription of a marker with the engine: the events that the engine
/// emits under the name `event` go to the listener method for events of kind
/// `kind`.
#[derive(Debug, Clone, Copy)]
pub struct MarkerSubscription {
    pub kind: MarkerEventKind,
    pub event: &'static str,
}

/// The registration of the listener of one marker. It passes every invocation
/// through the checks of [`spec_refusal`], as the handle of a map listener
/// does.
pub struct MarkerHandle<W, L> {
    owner: W,
    listener: Option<L>,
}

impl<W, L> MarkerHandle<W, L> {
    /// The weak reference to the marker.
    pub closed spec fn spec_owner(&self) -> W {
        self.owner
    }

    /// The listener, unless a dispatch holds it.
    pub closed spec fn spec_listener(&self) -> Option<L> {
        self.listener
    }

    /// Whether a dispatch holds the listener.
    pub open spec fn is_busy(&self) -> bool {
        self.spec_listener() is None
    }

    /// Registers `f` for the marker behind `marker`. The listener is free.
    pub fn new(marker: W, f: L) -> (res: MarkerHandle<W, L>)
        ensures
            res.spec_owner() == marker,
            res.spec_listener() == Some(f),
    {
        MarkerHandle { owner: marker, listener: Some(f) }
    }

    /// The subscriptions that the registration stands for: one for every kind
    /// of event, in the order of subscription, each under the kind's event
    /// name.
    pub fn subscriptions(&self) -> (res: Vec<MarkerSubscription>)
        ensures
            res@.len() == 3,
            forall|i: int|
                0 <= i < 3 ==> (#[trigger] res@[i]).kind == MarkerEventKind::spec_all()[i]
                    && res@[i].event@ == res@[i].kind.spec_map_kind().spec_event_name(),
    {
        let mut res: Vec<MarkerSubscription> = Vec::new();
        res.push(
            MarkerSubscription {
                kind: MarkerEventKind::DragStart,
                event: MarkerEventKind::DragStart.event_name(),
            },
        );
        res.push(
            MarkerSubscription {
                kind: MarkerEventKind::Drag,
                event: MarkerEventKind::Drag.event_name(),
            },
        );
        res.push(
            MarkerSubscription {
                kind: MarkerEventKind::DragEnd,
                event: MarkerEventKind::DragEnd.event_name(),
            },
        );
        res
    }

    /// Opens a dispatch of an event of kind `kind` with payload `payload`,
    /// where `owner` is what the weak reference resolved to. The first failing
    /// check refuses the dispatch and leaves the handle as it was. When no
    /// check fails the listener is taken out of the handle, which is busy
    /// until [`MarkerHandle::finish`] puts the listener back.
    pub fn begin<M>(&mut self, owner: Option<M>, kind: MarkerEventKind, payload: &Value) -> (res:
        std::result::Result<Claim<M, L>, DispatchError>)
        ensures
            match res {
                Ok(claim) => {
                    &&& spec_refusal(
                        owner is Some,
                        spec_decode(payload@, kind.spec_map_kind()),
                        old(self).is_busy(),
                    ) is None
                    &&& owner == Some(claim.owner)
                    &&& old(self).spec_listener() == Some(claim.listener)
                    &&& spec_decode(payload@, kind.spec_map_kind()) == Ok::<
                        TypedEventView,
                        DecodeError,
                    >(claim.event@)
                    &&& final(self).is_busy()
                    &&& final(self).spec_owner() == old(self).spec_owner()
                },
                Err(e) => {
                    &&& spec_refusal(
                        owner is Some,
                        spec_decode(payload@, kind.spec_map_kind()),
                        old(self).is_busy(),
                    ) == Some(e)
                    &&& *final(self) == *old(self)
                },
            },
            owner is None ==> res is Err && res->Err_0 == DispatchError::OwnerDropped,
            old(self).is_busy() ==> res is Err,
    {
        let owner = match owner {
            Some(owner) => owner,
            None => {
                return Err(DispatchError::OwnerDropped);
            },
        };
        let event = match decode(payload, kind.map_kind()) {
            Ok(event) => event,
            Err(e) => {
                return Err(DispatchError::PayloadDecodeFailed(e));
            },
        };
        match self.listener.take() {
            Some(listener) => Ok(Claim { owner, listener, event }),
            None => Err(DispatchError::ListenerReentrancyConflict),
        }
    }

    /// Closes a dispatch: puts the listener back, so that the handle is free.
    pub fn finish(&mut self, listener: L)
        ensures
            final(self).spec_listener() == Some(listener),
            final(self).spec_owner() == old(self).spec_owner(),
    {
        self.listener = Some(listener);
    }
}

impl<W: WeakOwner, L: MarkerEventListener<W::Owner>> MarkerHandle<W, L> {
    /// Runs one invocation for which the weak reference resolved to `owner`:
    /// opens the dispatch, calls the method of the listener that receives
    /// events of kind `kind`, and closes the dispatch. Afterwards the handle
    /// is free and holds the listener as it is once it has received the
    /// decoded event together with the owner. A refused invocation calls
    /// nothing and leaves the handle as it was.
    pub fn dispatch_to(
        &mut self,
        owner: Option<W::Owner>,
        kind: MarkerEventKind,
        payload: &Value,
    ) -> (res: std::result::Result<(), DispatchError>)
        ensures
            match res {
                Ok(()) => {
                    &&& spec_refusal(
                        owner is Some,
                        spec_decode(payload@, kind.spec_map_kind()),
                        old(self).is_busy(),
                    ) is None
                    &&& final(self).spec_listener() == Some(
                        old(self).spec_listener()->Some_0.received(
                            owner->Some_0,
                            kind,
                            spec_decode(payload@, kind.spec_map_kind())->Ok_0,
                        ),
                    )
                    &&& final(self).spec_owner() == old(self).spec_owner()
                },
                Err(e) => {
                    &&& spec_refusal(
                        owner is Some,
                        spec_decode(payload@, kind.spec_map_kind()),
                        old(self).is_busy(),
                    ) == Some(e)
                    &&& *final(self) == *old(self)
                },
            },
            owner is None ==> res == Err::<(), DispatchError>(DispatchError::OwnerDropped),
            old(self).is_busy() ==> res is Err,
    {
        let claim = self.begin(owner, kind, payload)?;
        let Claim { owner, listener, event } = claim;
        let mut listener = listener;
        proof {
            law_decoded_event_is_of_the_kind(payload@, kind.spec_map_kind());
        }
        deliver_to_marker(&mut listener, owner, kind, event);
        self.finish(listener);
        Ok(())
    }

    /// Runs one invocation by the engine: resolves the weak reference, then
    /// goes on as [`MarkerHandle::dispatch_to`] does. The marker may be gone
    /// at any time, so a refusal for want of an owner is always possible; the
    /// other outcomes are tied to the payload and the guard.
    pub fn dispatch(&mut self, kind: MarkerEventKind, payload: &Value) -> (res:
        std::result::Result<(), DispatchError>)
        ensures
            match res {
                Ok(()) => {
                    &&& spec_decode(payload@, kind.spec_map_kind()) is Ok
                    &&& !old(self).is_busy()
                    &&& exists|owner: W::Owner|
                        final(self).spec_listener() == Some(
                            #[trigger] old(self).spec_listener()->Some_0.received(
                                owner,
                                kind,
                                spec_decode(payload@, kind.spec_map_kind())->Ok_0,
                            ),
                        )
                    &&& final(self).spec_owner() == old(self).spec_owner()
                },
                Err(e) => {
                    &&& e is OwnerDropped || spec_refusal(
                        true,
                        spec_decode(payload@, kind.spec_map_kind()),
                        old(self).is_busy(),
                    ) == Some(e)
                    &&& *final(self) == *old(self)
                },
            },
            old(self).is_busy() ==> res is Err,
            spec_decode(payload@, kind.spec_map_kind()) is Err ==> res is Err,
    {
        let owner = self.owner.upgrade();
        self.dispatch_to(owner, kind, payload)
    }
}

/// What a marker is built with.
#[derive(Debug, Clone)]
pub struct MarkerOptions {
    pub anchor: Option<String>,
    pub click_tolerance: Option<u64>,
    pub color: Option<String>,
    pub draggable: Option<bool>,
    pub pitch_alignment: Option<String>,
    pub rotation: Option<u64>,
    pub rotation_alignment: Option<String>,
    pub scale: Option<u64>,
}

impl Default for MarkerOptions {
    /// Every option is unset.
    fn default() -> (res: MarkerOptions)
        ensures
            res.bare(),
    {
        MarkerOptions {
            anchor: None,
            click_tolerance: None,
            color: None,
            draggable: None,
            pitch_alignment: None,
            rotation: None,
            rotation_alignment: None,
            scale: None,
        }
    }
}

impl MarkerOptions {
    /// Whether every option is unset.
    pub open spec fn bare(&self) -> bool {
        &&& self.anchor is None
        &&& self.click_tolerance is None
        &&& self.color is None
        &&& self.draggable is None
        &&& self.pitch_alignment is None
        &&& self.rotation is None
        &&& self.rotation_alignment is None
        &&& self.scale is None
    }

    /// The options with every one unset.
    pub fn new() -> (res: MarkerOptions)
        ensures
            res.bare(),
    {
        MarkerOptions::default()
    }

    /// The properties of the wire form, in order: each option under its wire
    /// name, with its wire form where it is set.
    pub open spec fn slots(&self) -> Slots {
        seq![
            ("anchor"@, optional_wire(self.anchor)),
            ("clickTolerance"@, integer_wire(unsigned(self.click_tolerance))),
            ("color"@, optional_wire(self.color)),
            ("draggable"@, optional_wire(self.draggable)),
            ("pitchAlignment"@, optional_wire(self.pitch_alignment)),
            ("rotation"@, integer_wire(unsigned(self.rotation))),
            ("rotationAlignment"@, optional_wire(self.rotation_alignment)),
            ("scale"@, integer_wire(unsigned(self.scale))),
        ]
    }

    /// The place of the option with the wire name `key`, which the length of
    /// the name and a few of its characters tell.
    spec fn place_of(key: Seq<char>) -> int {
        if key.len() == 6 && key[0] == 'a' {
            0
        } else if key.len() == 14 && key[0] == 'c' {
            1
        } else if key.len() == 5 && key[0] == 'c' {
            2
        } else if key.len() == 9 && key[0] == 'd' {
            3
        } else if key.len() == 14 && key[0] == 'p' {
            4
        } else if key.len() == 8 && key[0] == 'r' {
            5
        } else if key.len() == 17 && key[0] == 'r' {
            6
        } else if key.len() == 5 && key[0] == 's' {
            7
        } else {
            -1
        }
    }

    /// No two options have one wire name. So looking the wire name of a
    /// option up in the wire form finds the wire form of that option where it
    /// is set, and nothing where it is unset.
    pub proof fn law_wire_names_are_distinct(&self)
        ensures
            distinct_keys(self.slots()),
            forall|i: int|
                0 <= i < self.slots().len() ==> lookup(
                    flatten(self.slots()),
                    (#[trigger] self.slots()[i]).0,
                ) == self.slots()[i].1,
    {
        reveal_strlit("anchor");
        reveal_strlit("clickTolerance");
        reveal_strlit("color");
        reveal_strlit("draggable");
        reveal_strlit("pitchAlignment");
        reveal_strlit("rotation");
        reveal_strlit("rotationAlignment");
        reveal_strlit("scale");
        let slots = self.slots();
        assert(MarkerOptions::place_of(slots[0].0) == 0);
        assert(MarkerOptions::place_of(slots[1].0) == 1);
        assert(MarkerOptions::place_of(slots[2].0) == 2);
        assert(MarkerOptions::place_of(slots[3].0) == 3);
        assert(MarkerOptions::place_of(slots[4].0) == 4);
        assert(MarkerOptions::place_of(slots[5].0) == 5);
        assert(MarkerOptions::place_of(slots[6].0) == 6);
        assert(MarkerOptions::place_of(slots[7].0) == 7);
        assert forall|i: int| 0 <= i < slots.len() implies MarkerOptions::place_of(
            (#[trigger] slots[i]).0,
        ) - 0 == i by {
        }
        lemma_placed_keys_are_distinct(slots, |key: Seq<char>| MarkerOptions::place_of(key) - 0);
        assert forall|i: int| 0 <= i < slots.len() implies lookup(
            flatten(slots),
            (#[trigger] slots[i]).0,
        ) == slots[i].1 by {
            law_lookup_of_distinct_keys(slots, i);
        }
    }

    /// What building the options gives: the object of the options that are set, or the
    /// error that names the first option whose integer does not fit.
    pub open spec fn spec_build(&self) -> std::result::Result<ValueView, ErrorView> {
        if !integer_fits(unsigned(self.click_tolerance)) {
            Err(unsafe_integer("clickTolerance"@))
        } else if !integer_fits(unsigned(self.rotation)) {
            Err(unsafe_integer("rotation"@))
        } else if !integer_fits(unsigned(self.scale)) {
            Err(unsafe_integer("scale"@))
        } else {
            Ok(ValueView::Object(flatten(self.slots())))
        }
    }

    /// Whether every option of a wire value can be read: what is there has the
    /// right shape.
    pub open spec fn all_read(value: ValueView) -> bool {
        &&& read_optional::<String>(value.get("anchor"@)) is Some
        &&& read_integer(value.get("clickTolerance"@), false) is Some
        &&& read_optional::<String>(value.get("color"@)) is Some
        &&& read_optional::<bool>(value.get("draggable"@)) is Some
        &&& read_optional::<String>(value.get("pitchAlignment"@)) is Some
        &&& read_integer(value.get("rotation"@), false) is Some
        &&& read_optional::<String>(value.get("rotationAlignment"@)) is Some
        &&& read_integer(value.get("scale"@), false) is Some
    }

    /// The slots that the options of a wire value are read as, in order.
    pub open spec fn read_slots(value: ValueView) -> Slots {
        seq![
            ("anchor"@, read_optional::<String>(value.get("anchor"@))->Some_0),
            ("clickTolerance"@, read_integer(value.get("clickTolerance"@), false)->Some_0),
            ("color"@, read_optional::<String>(value.get("color"@))->Some_0),
            ("draggable"@, read_optional::<bool>(value.get("draggable"@))->Some_0),
            ("pitchAlignment"@, read_optional::<String>(value.get("pitchAlignment"@))->Some_0),
            ("rotation"@, read_integer(value.get("rotation"@), false)->Some_0),
            ("rotationAlignment"@, read_optional::<String>(value.get("rotationAlignment"@))->Some_0),
            ("scale"@, read_integer(value.get("scale"@), false)->Some_0),
        ]
    }

    /// The wire form of the options that a wire value is read as, where it can
    /// be read. The options are read from an object, option by option;
    /// properties of other names are passed over.
    pub open spec fn spec_read(value: ValueView) -> Option<ValueView> {
        if value is Object && Self::all_read(value) {
            Some(ValueView::Object(flatten(Self::read_slots(value))))
        } else {
            None
        }
    }

    /// Reads the options of a marker from the configuration that they were
    /// encoded as. The options that are read have a wire form.
    pub fn from_wire(value: &Value) -> (res: Option<MarkerOptions>)
        ensures
            match res {
                Some(options) => options.spec_build() == Ok::<ValueView, ErrorView>(
                    ValueView::Object(flatten(options.slots())),
                ) && Self::spec_read(value@) == Some(ValueView::Object(flatten(options.slots()))),
                None => Self::spec_read(value@) is None,
            },
    {
        match value {
            Value::Object(_) => {},
            _ => {
                return None;
            },
        }
        let anchor = match optional::<String>(value.get("anchor")) {
            Some(read) => read,
            None => {
                return None;
            },
        };
        let click_tolerance = match optional_u64(value.get("clickTolerance")) {
            Some(read) => read,
            None => {
                return None;
            },
        };
        let color = match optional::<String>(value.get("color")) {
            Some(read) => read,
            None => {
                return None;
            },
        };
        let draggable = match optional::<bool>(value.get("draggable")) {
            Some(read) => read,
            None => {
                return None;
            },
        };
        let pitch_alignment = match optional::<String>(value.get("pitchAlignment")) {
            Some(read) => read,
            None => {
                return None;
            },
        };
        let rotation = match optional_u64(value.get("rotation")) {
            Some(read) => read,
            None => {
                return None;
            },
        };
        let rotation_alignment = match optional::<String>(value.get("rotationAlignment")) {
            Some(read) => read,
            None => {
                return None;
            },
        };
        let scale = match optional_u64(value.get("scale")) {
            Some(read) => read,
            None => {
                return None;
            },
        };
        Some(
            MarkerOptions {
                anchor,
                click_tolerance,
                color,
                draggable,
                pitch_alignment,
                rotation,
                rotation_alignment,
                scale,
            },
        )
    }

    /// Reading the wire form of options that have one succeeds, and what is
    /// read has the wire form of the options.
    pub proof fn law_round_trip(&self)
        requires
            self.spec_build() is Ok,
        ensures
            Self::spec_read(self.spec_build()->Ok_0) == Some(self.spec_build()->Ok_0),
    {
        let value = ValueView::Object(flatten(self.slots()));
        let slots = self.slots();
        self.law_wire_names_are_distinct();
        assert(value.get(slots[0].0) == slots[0].1);
        lemma_optional_round_trip::<String>(self.anchor);
        assert(value.get(slots[1].0) == slots[1].1);
        assert(value.get(slots[2].0) == slots[2].1);
        lemma_optional_round_trip::<String>(self.color);
        assert(value.get(slots[3].0) == slots[3].1);
        lemma_optional_round_trip::<bool>(self.draggable);
        assert(value.get(slots[4].0) == slots[4].1);
        lemma_optional_round_trip::<String>(self.pitch_alignment);
        assert(value.get(slots[5].0) == slots[5].1);
        assert(value.get(slots[6].0) == slots[6].1);
        lemma_optional_round_trip::<String>(self.rotation_alignment);
        assert(value.get(slots[7].0) == slots[7].1);
    }

    /// Encodes the options as the configuration that the engine builds a
    /// marker from. Fails where an integer among the options does not fit the
    /// engine's number type.
    pub fn build(&self) -> (res: Result<Value>)
        ensures
            match res {
                Ok(value) => self.spec_build() == Ok::<ValueView, ErrorView>(value@),
                Err(e) => self.spec_build() == Err::<ValueView, ErrorView>(e@),
            },
    {
        let click_tolerance = encode_u64("clickTolerance", self.click_tolerance)?;
        let rotation = encode_u64("rotation", self.rotation)?;
        let scale = encode_u64("scale", self.scale)?;
        let mut b = ObjectBuilder::new();
        b.optional_wire("anchor", &self.anchor);
        b.optional("clickTolerance", click_tolerance);
        b.optional_wire("color", &self.color);
        b.optional_wire("draggable", &self.draggable);
        b.optional_wire("pitchAlignment", &self.pitch_alignment);
        b.optional("rotation", rotation);
        b.optional_wire("rotationAlignment", &self.rotation_alignment);
        b.optional("scale", scale);
        assert(b@ =~= self.slots());
        Ok(b.finish())
    }
}

/// A marker: a position, the configuration that its engine object is built
/// from, and the registration of its listener.
pub struct Marker<W, L> {
    lnglat: LngLat,
    config: Value,
    handle: MarkerHandle<W, L>,
}

impl<W, L> Marker<W, L> {
    /// The position of the marker.
    pub closed spec fn position(&self) -> LngLat {
        self.lnglat
    }

    /// The configuration that the engine object of the marker is built from.
    pub closed spec fn config(&self) -> ValueView {
        self.config@
    }

    /// The registration of the listener.
    pub closed spec fn spec_handle(&self) -> MarkerHandle<W, L> {
        self.handle
    }

    /// A marker at `lnglat`, built with `options`, whose drag events go to
    /// `f`. `weak_self` is the weak reference to the marker that its listener
    /// is reached through. Fails where the options have no wire form.
    pub fn with_listener(weak_self: W, lnglat: LngLat, options: MarkerOptions, f: L) -> (res:
        Result<Marker<W, L>>)
        ensures
            match res {
                Ok(marker) => {
                    &&& options.spec_build() == Ok::<ValueView, ErrorView>(marker.config())
                    &&& marker.position() == lnglat
                    &&& marker.spec_handle().spec_owner() == weak_self
                    &&& marker.spec_handle().spec_listener() == Some(f)
                },
                Err(e) => options.spec_build() == Err::<ValueView, ErrorView>(e@),
            },
    {
        let config = options.build()?;
        Ok(Marker { lnglat, config, handle: MarkerHandle::new(weak_self, f) })
    }

    /// The position of the marker.
    pub fn get_lnglat(&self) -> (res: LngLat)
        ensures
            res == self.position(),
    {
        self.lnglat
    }

    /// Moves the marker to `pos`.
    pub fn set_lnglat(&mut self, pos: &LngLat)
        ensures
            final(self).position() == *pos,
            final(self).config() == old(self).config(),
            final(self).spec_handle() == old(self).spec_handle(),
    {
        self.lnglat = *pos;
    }

    /// The configuration that the engine object of the marker is built from.
    pub fn configuration(&self) -> (res: &Value)
        ensures
            res@ == self.config(),
    {
        &self.config
    }

    /// The registration of the listener.
    pub fn handle(&self) -> (res: &MarkerHandle<W, L>)
        ensures
            *res == self.spec_handle(),
    {
        &self.handle
    }

    /// Opens a dispatch to the listener of the marker, as
    /// [`MarkerHandle::begin`] does. The position and the configuration stay
    /// as they are.
    pub fn begin_dispatch<M>(&mut self, owner: Option<M>, kind: MarkerEventKind, payload: &Value) -> (res:
        std::result::Result<Claim<M, L>, DispatchError>)
        ensures
            final(self).position() == old(self).position(),
            final(self).config() == old(self).config(),
            match res {
                Ok(claim) => {
                    &&& spec_refusal(
                        owner is Some,
                        spec_decode(payload@, kind.spec_map_kind()),
                        old(self).spec_handle().is_busy(),
                    ) is None
                    &&& owner == Some(claim.owner)
                    &&& old(self).spec_handle().spec_listener() == Some(claim.listener)
                    &&& spec_decode(payload@, kind.spec_map_kind()) == Ok::<
                        TypedEventView,
                        DecodeError,
                    >(claim.event@)
                    &&& final(self).spec_handle().is_busy()
                    &&& final(self).spec_handle().spec_owner() == old(self).spec_handle().spec_owner()
                },
                Err(e) => {
                    &&& spec_refusal(
                        owner is Some,
                        spec_decode(payload@, kind.spec_map_kind()),
                        old(self).spec_handle().is_busy(),
                    ) == Some(e)
                    &&& final(self).spec_handle() == old(self).spec_handle()
                },
            },
    {
        self.handle.begin(owner, kind, payload)
    }

    /// Closes a dispatch to the listener of the marker: puts the listener
    /// back into its handle.
    pub fn finish_dispatch(&mut self, listener: L)
        ensures
            final(self).position() == old(self).position(),
            final(self).config() == old(self).config(),
            final(self).spec_handle().spec_listener() == Some(listener),
            final(self).spec_handle().spec_owner() == old(self).spec_handle().spec_owner(),
    {
        self.handle.finish(listener);
    }
}

impl<W: WeakOwner, L: MarkerEventListener<W::Owner>> Marker<W, L> {
    /// Runs one invocation by the engine for the listener of the marker, as
    /// [`MarkerHandle::dispatch`] does. The position and the configuration
    /// stay as they are.
    pub fn dispatch(&mut self, kind: MarkerEventKind, payload: &Value) -> (res:
        std::result::Result<(), DispatchError>)
        ensures
            final(self).position() == old(self).position(),
            final(self).config() == old(self).config(),
            match res {
                Ok(()) => {
                    &&& spec_decode(payload@, kind.spec_map_kind()) is Ok
                    &&& !old(self).spec_handle().is_busy()
                    &&& exists|owner: W::Owner|
                        final(self).spec_handle().spec_listener() == Some(
                            #[trigger] old(self).spec_handle().spec_listener()->Some_0.received(
                                owner,
                                kind,
                                spec_decode(payload@, kind.spec_map_kind())->Ok_0,
                            ),
                        )
                    &&& final(self).spec_handle().spec_owner() == old(self).spec_handle().spec_owner()
                },
                Err(e) => {
                    &&& e is OwnerDropped || spec_refusal(
                        true,
                        spec_decode(payload@, kind.spec_map_kind()),
                        old(self).spec_handle().is_busy(),
                    ) == Some(e)
                    &&& final(self).spec_handle() == old(self).spec_handle()
                },
            },
    {
        self.handle.dispatch(kind, payload)
    }
}

impl<W> Marker<W, NoopListener> {
    /// A marker at `lnglat`, built with the default options, whose drag
    /// events are ignored. Its configuration is the empty object.
    pub fn new(weak_self: W, lnglat: LngLat) -> (res: Marker<W, NoopListener>)
        ensures
            res.config() == ValueView::Object(Seq::empty()),
            res.position() == lnglat,
            res.spec_handle().spec_owner() == weak_self,
            res.spec_handle().spec_listener() == Some(NoopListener),
    {
        let options = MarkerOptions::default();
        let config = options.build().unwrap();
        proof {
            reveal_with_fuel(flatten, 9);
            assert(flatten(options.slots()) =~= Seq::empty());
        }
        Marker { lnglat, config, handle: MarkerHandle::new(weak_self, NoopListener) }
    }

    /// A marker at `lnglat`, built with `options`, whose drag events are
    /// ignored. Fails where the options have no wire form.
    pub fn with_options(weak_self: W, lnglat: LngLat, options: MarkerOptions) -> (res: Result<
        Marker<W, NoopListener>,
    >)
        ensures
            match res {
                Ok(marker) => {
                    &&& options.spec_build() == Ok::<ValueView, ErrorView>(marker.config())
                    &&& marker.position() == lnglat
                    &&& marker.spec_handle().spec_owner() == weak_self
                    &&& marker.spec_handle().spec_listener() == Some(NoopListener)
                },
                Err(e) => options.spec_build() == Err::<ValueView, ErrorView>(e@),
            },
    {
        Marker::with_listener(weak_self, lnglat, options, NoopListener)
    }
}

} // verus!
