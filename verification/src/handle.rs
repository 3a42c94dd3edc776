//! The registration of one listener, and the dispatch of events to it.
//!
//! A handle holds a weak reference to the object that owns it and the
//! listener, behind a guard that admits one dispatch at a time. Every
//! invocation by the engine is a fresh pass through three checks, and stops at
//! the first that fails: the owner must still live, the payload must decode,
//! and the listener must be free. Only then is the listener called.

use vstd::prelude::*;
use crate::event::DecodeError;
use crate::listener::{
    decode, deliver, law_decoded_event_is_of_the_kind, spec_decode, MapEventKind,
    MapEventListener, TypedEvent, TypedEventView, KIND_COUNT,
};
use crate::wire::{Value, ValueView};

verus! {

/// A reference that does not keep its owner alive.
pub trait WeakOwner {
    /// The strong reference that a listener is handed.
    type Owner;

    /// The owner, unless it is gone. Nothing is promised of the outcome: the
    /// owner may go at any time.
    fn upgrade(&self) -> Option<Self::Owner>;
}

/// Why an invocation did not reach the listener.
#[derive(Debug, Clone, Copy, PartialEq, Eq, Structural)]
pub enum DispatchError {
    /// The owner was gone when the engine called.
    OwnerDropped,
    /// The payload could not be decoded.
    PayloadDecodeFailed(DecodeError),
    /// The listener was in the middle of another dispatch.
    ListenerReentrancyConflict,
}

/// The check that stops an invocation, if one does: the owner is looked for
/// first, then the payload is decoded, then the listener is claimed.
pub open spec fn spec_refusal(
    owner_lives: bool,
    decoded: Result<TypedEventView, DecodeError>,
    busy: bool,
) -> Option<DispatchError> {
    if !owner_lives {
        Some(DispatchError::OwnerDropped)
    } else if decoded is Err {
        Some(DispatchError::PayloadDecodeFailed(decoded->Err_0))
    } else if busy {
        Some(DispatchError::ListenerReentrancyConflict)
    } else {
        None
    }
}

/// Once the owner is gone, every invocation is refused for that reason,
/// whatever the payload and the guard.
pub proof fn law_dropped_owner_refuses(decoded: Result<TypedEventView, DecodeError>, busy: bool)
    ensures
        spec_refusal(false, decoded, busy) == Some(DispatchError::OwnerDropped),
{
}

/// While a dispatch holds the listener, every further invocation is refused:
/// for the conflict itself where the owner lives and the payload decodes, and
/// for the earlier failure otherwise.
pub proof fn law_busy_listener_refuses(
    owner_lives: bool,
    decoded: Result<TypedEventView, DecodeError>,
)
    ensures
        spec_refusal(owner_lives, decoded, true) is Some,
        owner_lives && decoded is Ok ==> spec_refusal(owner_lives, decoded, true) == Some(
            DispatchError::ListenerReentrancyConflict,
        ),
{
}

/// What a dispatch holds while the listener runs: the owner, the listener
/// itself, taken out of its handle, and the decoded event.
pub struct Claim<M, L> {
    pub owner: M,
    pub listener: L,
    pub event: TypedEvent,
}

/// One subscription with the engine: the events that the engine emits under
/// the name `event`, on the layer `layer` or else on the whole map, go to the
/// listener method for events of kind `kind`.
#[derive(Debug, Clone)]
pub struct Subscription {
    pub kind: MapEventKind,
    pub event: &'static str,
    pub layer: Option<String>,
}

/// The registration of one listener with one owner.
pub struct Handle<W, L> {
    owner: W,
    layer: Option<String>,
    listener: Option<L>,
}

impl<W, L> Handle<W, L> {
    /// The weak reference to the owner.
    pub closed spec fn spec_owner(&self) -> W {
        self.owner
    }

    /// The listener, unless a dispatch holds it.
    pub closed spec fn spec_listener(&self) -> Option<L> {
        self.listener
    }

    /// The layer that the registration is restricted to, if it is.
    pub closed spec fn spec_layer(&self) -> Option<Seq<char>> {
        match self.layer {
            Some(layer) => Some(layer@),
            None => None,
        }
    }

    /// Whether a dispatch holds the listener.
    pub open spec fn is_busy(&self) -> bool {
        self.spec_listener() is None
    }

    /// Registers `listener` for the owner behind `weak_owner`, for events on
    /// the whole map. The listener is free.
    pub fn new(weak_owner: W, listener: L) -> (res: Handle<W, L>)
        ensures
            res.spec_owner() == weak_owner,
            res.spec_listener() == Some(listener),
            res.spec_layer() is None,
    {
        Handle { owner: weak_owner, layer: None, listener: Some(listener) }
    }

    /// Registers `listener` for the owner behind `weak_owner`, for events on
    /// the layer `layer_id` alone. The listener is free.
    pub fn for_layer(weak_owner: W, layer_id: &str, listener: L) -> (res: Handle<W, L>)
        ensures
            res.spec_owner() == weak_owner,
            res.spec_listener() == Some(listener),
            res.spec_layer() == Some(layer_id@),
    {
        Handle { owner: weak_owner, layer: Some(layer_id.to_owned()), listener: Some(listener) }
    }

    /// The subscriptions that the registration stands for: one for every kind
    /// of event, in the order of subscription, each under the kind's event
    /// name and restricted to the layer of the registration.
    pub fn subscriptions(&self) -> (res: Vec<Subscription>)
        ensures
            res@.len() == KIND_COUNT,
            forall|i: int|
                0 <= i < KIND_COUNT ==> {
                    &&& (#[trigger] res@[i]).kind == MapEventKind::spec_all()[i]
                    &&& res@[i].event@ == res@[i].kind.spec_event_name()
                    &&& match res@[i].layer {
                        Some(layer) => self.spec_layer() == Some(layer@),
                        None => self.spec_layer() is None,
                    }
                },
    {
        let kinds = MapEventKind::all();
        let mut res: Vec<Subscription> = Vec::new();
        let mut i: usize = 0;
        while i < kinds.len()
            invariant
                i <= kinds.len(),
                kinds@ == MapEventKind::spec_all(),
                kinds@.len() == KIND_COUNT,
                res.len() == i,
                forall|j: int|
                    0 <= j < i ==> {
                        &&& (#[trigger] res@[j]).kind == kinds@[j]
                        &&& res@[j].event@ == res@[j].kind.spec_event_name()
                        &&& match res@[j].layer {
                            Some(layer) => self.spec_layer() == Some(layer@),
                            None => self.spec_layer() is None,
                        }
                    },
            decreases kinds.len() - i,
        {
            let kind = kinds[i];
            let layer = match &self.layer {
                Some(layer) => Some(layer.clone()),
                None => None,
            };
            res.push(Subscription { kind, event: kind.event_name(), layer });
            i += 1;
        }
        res
    }

    /// The weak reference to the owner.
    pub fn owner(&self) -> (res: &W)
        ensures
            *res == self.spec_owner(),
    {
        &self.owner
    }

    /// Whether a dispatch holds the listener.
    pub fn busy(&self) -> (res: bool)
        ensures
            res == self.is_busy(),
    {
        self.listener.is_none()
    }

    /// Opens a dispatch of an event of kind `kind` with payload `payload`,
    /// where `owner` is what the weak reference resolved to. The first failing
    /// check refuses the dispatch and leaves the handle as it was. When no
    /// check fails the listener is taken out of the handle, which is busy
    /// until [`Handle::finish`] puts the listener back.
    pub fn begin<M>(&mut self, owner: Option<M>, kind: MapEventKind, payload: &Value) -> (res:
        Result<Claim<M, L>, DispatchError>)
        ensures
            match res {
                Ok(claim) => {
                    &&& spec_refusal(
                        owner is Some,
                        spec_decode(payload@, kind),
                        old(self).is_busy(),
                    ) is None
                    &&& owner == Some(claim.owner)
                    &&& old(self).spec_listener() == Some(claim.listener)
                    &&& spec_decode(payload@, kind) == Ok::<TypedEventView, DecodeError>(
                        claim.event@,
                    )
                    &&& final(self).is_busy()
                    &&& final(self).spec_owner() == old(self).spec_owner()
                    &&& final(self).spec_layer() == old(self).spec_layer()
                },
                Err(e) => {
                    &&& spec_refusal(
                        owner is Some,
                        spec_decode(payload@, kind),
                        old(self).is_busy(),
                    ) == Some(e)
                    &&& *final(self) == *old(self)
                },
            },
            owner is None ==> res is Err && res->Err_0 == DispatchError::OwnerDropped,
            old(self).is_busy() ==> res is Err,
    {
        let owner = match owner {
            Some(owner) => owner,
            None => {
                return Err(DispatchError::OwnerDropped);
            },
        };
        let event = match decode(payload, kind) {
            Ok(event) => event,
            Err(e) => {
                return Err(DispatchError::PayloadDecodeFailed(e));
            },
        };
        match self.listener.take() {
            Some(listener) => Ok(Claim { owner, listener, event }),
            None => Err(DispatchError::ListenerReentrancyConflict),
        }
    }

    /// Closes a dispatch: puts the listener back, so that the handle is free.
    pub fn finish(&mut self, listener: L)
        ensures
            final(self).spec_listener() == Some(listener),
            final(self).spec_owner() == old(self).spec_owner(),
            final(self).spec_layer() == old(self).spec_layer(),
    {
        self.listener = Some(listener);
    }
}

impl<W: WeakOwner, L: MapEventListener<W::Owner>> Handle<W, L> {
    /// Runs one invocation for which the weak reference resolved to `owner`:
    /// opens the dispatch, calls the method of the listener that receives
    /// events of kind `kind`, and closes the dispatch. Afterwards the handle
    /// is free and holds the listener as it is once it has received the
    /// decoded event together with the owner. A refused invocation calls
    /// nothing and leaves the handle as it was.
    pub fn dispatch_to(
        &mut self,
        owner: Option<W::Owner>,
        kind: MapEventKind,
        payload: &Value,
    ) -> (res: Result<(), DispatchError>)
        ensures
            match res {
                Ok(()) => {
                    &&& spec_refusal(
                        owner is Some,
                        spec_decode(payload@, kind),
                        old(self).is_busy(),
                    ) is None
                    &&& final(self).spec_listener() == Some(
                        old(self).spec_listener()->Some_0.received(
                            owner->Some_0,
                            kind,
                            spec_decode(payload@, kind)->Ok_0,
                        ),
                    )
                    &&& final(self).spec_owner() == old(self).spec_owner()
                    &&& final(self).spec_layer() == old(self).spec_layer()
                },
                Err(e) => {
                    &&& spec_refusal(
                        owner is Some,
                        spec_decode(payload@, kind),
                        old(self).is_busy(),
                    ) == Some(e)
                    &&& *final(self) == *old(self)
                },
            },
            owner is None ==> res == Err::<(), DispatchError>(DispatchError::OwnerDropped),
            old(self).is_busy() ==> res is Err,
    {
        let claim = self.begin(owner, kind, payload)?;
        let Claim { owner, listener, event } = claim;
        let mut listener = listener;
        proof {
            law_decoded_event_is_of_the_kind(payload@, kind);
        }
        deliver(&mut listener, owner, kind, event);
        self.finish(listener);
        Ok(())
    }

    /// Runs one invocation by the engine: resolves the weak reference, then
    /// goes on as [`Handle::dispatch_to`] does. The owner may be gone at any
    /// time, so a refusal for want of an owner is always possible; the other
    /// outcomes are tied to the payload and the guard. On success the
    /// listener has received the decoded event together with the owner that
    /// the weak reference resolved to.
    pub fn dispatch(&mut self, kind: MapEventKind, payload: &Value) -> (res: Result<
        (),
        DispatchError,
    >)
        ensures
            match res {
                Ok(()) => {
                    &&& spec_decode(payload@, kind) is Ok
                    &&& !old(self).is_busy()
                    &&& exists|owner: W::Owner|
                        final(self).spec_listener() == Some(
                            #[trigger] old(self).spec_listener()->Some_0.received(
                                owner,
                                kind,
                                spec_decode(payload@, kind)->Ok_0,
                            ),
                        )
                    &&& final(self).spec_owner() == old(self).spec_owner()
                    &&& final(self).spec_layer() == old(self).spec_layer()
                },
                Err(e) => {
                    &&& e is OwnerDropped || spec_refusal(
                        true,
                        spec_decode(payload@, kind),
                        old(self).is_busy(),
                    ) == Some(e)
                    &&& *final(self) == *old(self)
                },
            },
            old(self).is_busy() ==> res is Err,
            spec_decode(payload@, kind) is Err ==> res is Err,
    {
        let owner = self.owner.upgrade();
        self.dispatch_to(owner, kind, payload)
    }
}

} // verus!
