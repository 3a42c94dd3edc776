//! The map: what is registered with it, and what it was built from.
//!
//! A map owns the configuration that its engine object is built from, the
//! listeners that were registered with it, the markers that were added to it,
//! and the callbacks of image loads that are under way. Listeners and markers
//! are kept under identifiers that the map issues when they are registered.
//! The map keeps the tokens of all identifiers that it has issued, and issues
//! none of them again, also after a registration is gone.
//!
//! A listener is handed a strong reference to the map, so the map keeps a weak
//! reference to itself for the handles it creates. The map is built with that
//! reference, as the shared owner of the map is built around it, so that
//! there is no map without it.

use std::collections::HashMap;
use vstd::prelude::*;
use crate::callback::CallbackStore;
use crate::error::{ErrorView, Result};
use crate::event::DecodeError;
use crate::handle::{spec_refusal, Claim, DispatchError, Handle, WeakOwner};
use crate::id::{CallbackId, Issued, MapListenerId, MarkerId};
use crate::listener::{spec_decode, MapEventKind, MapEventListener, TypedEventView};
use crate::options::MapOptions;
use crate::wire::{Value, ValueView};

verus! {

/// A map. `W` is the weak reference to the map that its handles hold, `L` the
/// type of its listeners, `M` the type of its markers, and `F` the type of the
/// callbacks of its image loads.
pub struct MapboxMap<W, L, M, F> {
    config: Value,
    handles: HashMap<u128, Handle<W, L>>,
    markers: HashMap<u128, M>,
    image_cbs: CallbackStore<F>,
    issued: Issued,
    weak_self: W,
}

/// Why an invocation for a listener of a map did not reach the listener.
#[derive(Debug, Clone, Copy, PartialEq, Eq, Structural)]
pub enum MapDispatchError {
    /// No listener is registered under the identifier.
    NotRegistered,
    /// The handle of the listener refused the invocation.
    Refused(DispatchError),
}

impl<W, L, M, F> MapboxMap<W, L, M, F> {
    /// The configuration that the engine object of the map is built from.
    pub closed spec fn config(&self) -> ValueView {
        self.config@
    }

    /// The handles of the registered listeners, by the token of their
    /// identifier.
    pub closed spec fn handles(&self) -> Map<u128, Handle<W, L>> {
        self.handles@
    }

    /// The markers on the map, by the token of their identifier.
    pub closed spec fn markers(&self) -> Map<u128, M> {
        self.markers@
    }

    /// The callbacks of the image loads that are under way.
    pub closed spec fn image_callbacks(&self) -> CallbackStore<F> {
        self.image_cbs
    }

    /// The weak reference of the map to itself.
    pub closed spec fn weak_self(&self) -> W {
        self.weak_self
    }

    /// The tokens of the identifiers that the map has issued to listeners and
    /// markers.
    pub closed spec fn issued(&self) -> Set<u128> {
        self.issued@
    }

    /// Whether the map is in order: it has issued the identifier of every
    /// listener and of every marker, and its store of callbacks is in order.
    pub closed spec fn wf(&self) -> bool {
        &&& self.handles@.dom().subset_of(self.issued@)
        &&& self.markers@.dom().subset_of(self.issued@)
        &&& self.image_cbs.wf()
    }

    /// Builds a map from `options`, with `weak_self` for the weak reference
    /// of the map to itself: encodes the configuration and starts with
    /// nothing registered and nothing issued. Fails where the options have no
    /// wire form.
    pub fn new(options: MapOptions, weak_self: W) -> (res: Result<MapboxMap<W, L, M, F>>)
        ensures
            match res {
                Ok(map) => {
                    &&& map.wf()
                    &&& options@.build() == Ok::<ValueView, ErrorView>(map.config())
                    &&& map.weak_self() == weak_self
                    &&& map.issued() == Set::<u128>::empty()
                    &&& map.handles() == Map::<u128, Handle<W, L>>::empty()
                    &&& map.markers() == Map::<u128, M>::empty()
                    &&& map.image_callbacks()@ == Map::<u128, F>::empty()
                    &&& map.image_callbacks().issued() == Set::<u128>::empty()
                    &&& !map.image_callbacks().is_borrowed()
                },
                Err(e) => options@.build() == Err::<ValueView, ErrorView>(e@),
            },
    {
        let config = options.build()?;
        Ok(MapboxMap::from_configuration(config, weak_self))
    }

    /// A map for the configuration `config`, which was encoded before, with
    /// `weak_self` for the weak reference of the map to itself. Nothing is
    /// registered and nothing issued.
    pub fn from_configuration(config: Value, weak_self: W) -> (map: MapboxMap<W, L, M, F>)
        ensures
            map.wf(),
            map.config() == config@,
            map.weak_self() == weak_self,
            map.issued() == Set::<u128>::empty(),
            map.handles() == Map::<u128, Handle<W, L>>::empty(),
            map.markers() == Map::<u128, M>::empty(),
            map.image_callbacks()@ == Map::<u128, F>::empty(),
            map.image_callbacks().issued() == Set::<u128>::empty(),
            !map.image_callbacks().is_borrowed(),
    {
        MapboxMap {
            config,
            handles: HashMap::new(),
            markers: HashMap::new(),
            image_cbs: CallbackStore::new(),
            issued: Issued::new(),
            weak_self,
        }
    }

    /// The configuration that the engine object of the map is built from.
    pub fn configuration(&self) -> (res: &Value)
        ensures
            res@ == self.config(),
    {
        &self.config
    }

    /// The weak reference of the map to itself.
    pub fn weak_reference(&self) -> (res: &W)
        ensures
            *res == self.weak_self(),
    {
        &self.weak_self
    }

    /// Puts `marker` on the map, under an identifier that the map never
    /// issued before.
    pub fn add_marker(&mut self, marker: M) -> (id: MarkerId)
        requires
            old(self).wf(),
        ensures
            final(self).wf(),
            !old(self).issued().contains(id.0),
            !old(self).markers().contains_key(id.0),
            final(self).issued() == old(self).issued().insert(id.0),
            final(self).markers() == old(self).markers().insert(id.0, marker),
            final(self).config() == old(self).config(),
            final(self).handles() == old(self).handles(),
            final(self).image_callbacks() == old(self).image_callbacks(),
            final(self).weak_self() == old(self).weak_self(),
    {
        let id = MarkerId(self.issued.issue());
        self.markers.insert(id.0, marker);
        id
    }

    /// Whether a marker is on the map under `id`.
    pub fn has_marker(&self, id: &MarkerId) -> (res: bool)
        ensures
            res == self.markers().contains_key(id.0),
    {
        self.markers.contains_key(&id.0)
    }

    /// The marker that is on the map under `id`, if there is one.
    pub fn marker(&self, id: &MarkerId) -> (res: Option<&M>)
        ensures
            match res {
                Some(marker) => self.markers().contains_key(id.0) && *marker == self.markers()[id.0],
                None => !self.markers().contains_key(id.0),
            },
    {
        self.markers.get(&id.0)
    }

    /// Takes the marker under `id` off the map and hands it back, so that it
    /// can be detached from the engine. A marker must be on the map under
    /// `id`.
    pub fn remove_marker(&mut self, id: &MarkerId) -> (marker: M)
        requires
            old(self).wf(),
            old(self).markers().contains_key(id.0),
        ensures
            final(self).wf(),
            final(self).issued() == old(self).issued(),
            marker == old(self).markers()[id.0],
            final(self).markers() == old(self).markers().remove(id.0),
            final(self).config() == old(self).config(),
            final(self).handles() == old(self).handles(),
            final(self).image_callbacks() == old(self).image_callbacks(),
            final(self).weak_self() == old(self).weak_self(),
    {
        let removed = self.markers.remove(&id.0);
        removed.unwrap()
    }

    /// The number of listeners that are registered.
    pub fn listener_count(&self) -> (res: usize)
        ensures
            res == self.handles().len(),
    {
        self.handles.len()
    }

    /// The number of markers on the map.
    pub fn marker_count(&self) -> (res: usize)
        ensures
            res == self.markers().len(),
    {
        self.markers.len()
    }

    /// Whether a listener is registered under `id`.
    pub fn has_listener(&self, id: &MapListenerId) -> (res: bool)
        ensures
            res == self.handles().contains_key(id.0),
    {
        self.handles.contains_key(&id.0)
    }

    /// The handle of the listener that is registered under `id`, if there is
    /// one.
    pub fn handle(&self, id: &MapListenerId) -> (res: Option<&Handle<W, L>>)
        ensures
            match res {
                Some(handle) => self.handles().contains_key(id.0) && *handle == self.handles()[id.0],
                None => !self.handles().contains_key(id.0),
            },
    {
        self.handles.get(&id.0)
    }

    /// Issues an identifier for the callback of an image load: one that the
    /// store of callbacks never issued before, and under which it retains
    /// nothing.
    pub fn new_callback_id(&mut self) -> (id: CallbackId)
        requires
            old(self).wf(),
        ensures
            final(self).wf(),
            !old(self).image_callbacks().issued().contains(id.0),
            !old(self).image_callbacks()@.contains_key(id.0),
            final(self).image_callbacks().issued() == old(self).image_callbacks().issued().insert(
                id.0,
            ),
            final(self).image_callbacks()@ == old(self).image_callbacks()@,
            final(self).image_callbacks().is_borrowed() == old(self).image_callbacks().is_borrowed(),
            final(self).issued() == old(self).issued(),
            final(self).config() == old(self).config(),
            final(self).handles() == old(self).handles(),
            final(self).markers() == old(self).markers(),
            final(self).weak_self() == old(self).weak_self(),
    {
        self.image_cbs.fresh_id()
    }

    /// Takes the exclusive borrow of the store of callbacks, for as long as
    /// the store is worked on from outside; fails where it is taken. Until
    /// the borrow is given back, no callback is retained or let go.
    pub fn borrow_image_callbacks(&mut self) -> (res: Result<()>)
        requires
            old(self).wf(),
        ensures
            final(self).wf(),
            final(self).issued() == old(self).issued(),
            final(self).config() == old(self).config(),
            final(self).handles() == old(self).handles(),
            final(self).markers() == old(self).markers(),
            final(self).weak_self() == old(self).weak_self(),
            final(self).image_callbacks()@ == old(self).image_callbacks()@,
            final(self).image_callbacks().issued() == old(self).image_callbacks().issued(),
            final(self).image_callbacks().is_borrowed(),
            match res {
                Ok(()) => !old(self).image_callbacks().is_borrowed(),
                Err(e) => old(self).image_callbacks().is_borrowed() && e@
                    == crate::callback::borrow_conflict(),
            },
    {
        self.image_cbs.try_borrow_mut()
    }

    /// Gives the exclusive borrow of the store of callbacks back.
    pub fn return_image_callbacks(&mut self)
        requires
            old(self).wf(),
        ensures
            final(self).wf(),
            final(self).issued() == old(self).issued(),
            final(self).config() == old(self).config(),
            final(self).handles() == old(self).handles(),
            final(self).markers() == old(self).markers(),
            final(self).weak_self() == old(self).weak_self(),
            final(self).image_callbacks()@ == old(self).image_callbacks()@,
            final(self).image_callbacks().issued() == old(self).image_callbacks().issued(),
            !final(self).image_callbacks().is_borrowed(),
    {
        self.image_cbs.release()
    }

    /// Retains `callback` under `id` for an image load that is about to be
    /// asked of the engine. Fails, and retains nothing, while the store of
    /// callbacks is borrowed.
    pub fn retain_image_callback(&mut self, id: CallbackId, callback: F) -> (res: Result<()>)
        requires
            old(self).wf(),
        ensures
            final(self).wf(),
            final(self).issued() == old(self).issued(),
            final(self).config() == old(self).config(),
            final(self).handles() == old(self).handles(),
            final(self).markers() == old(self).markers(),
            final(self).weak_self() == old(self).weak_self(),
            final(self).image_callbacks().is_borrowed() == old(self).image_callbacks().is_borrowed(),
            match res {
                Ok(()) => {
                    &&& !old(self).image_callbacks().is_borrowed()
                    &&& final(self).image_callbacks()@ == old(self).image_callbacks()@.insert(
                        id.0,
                        callback,
                    )
                    &&& final(self).image_callbacks().issued() == old(self).image_callbacks().issued().insert(id.0)
                },
                Err(e) => {
                    &&& old(self).image_callbacks().is_borrowed()
                    &&& e@ == crate::callback::borrow_conflict()
                    &&& final(self).image_callbacks()@ == old(self).image_callbacks()@
                    &&& final(self).image_callbacks().issued() == old(self).image_callbacks().issued()
                },
            },
    {
        self.image_cbs.add(id, callback)
    }

    /// Lets go of the callback under `id`, once the engine has called it.
    /// Succeeds without effect where none is retained. Fails, and lets go of
    /// nothing, while the store of callbacks is borrowed.
    pub fn release_image_callback(&mut self, id: &CallbackId) -> (res: Result<()>)
        requires
            old(self).wf(),
        ensures
            final(self).wf(),
            final(self).image_callbacks().issued() == old(self).image_callbacks().issued(),
            final(self).issued() == old(self).issued(),
            final(self).config() == old(self).config(),
            final(self).handles() == old(self).handles(),
            final(self).markers() == old(self).markers(),
            final(self).weak_self() == old(self).weak_self(),
            final(self).image_callbacks().is_borrowed() == old(self).image_callbacks().is_borrowed(),
            match res {
                Ok(()) => {
                    &&& !old(self).image_callbacks().is_borrowed()
                    &&& final(self).image_callbacks()@ == old(self).image_callbacks()@.remove(
                        id.0,
                    )
                },
                Err(e) => {
                    &&& old(self).image_callbacks().is_borrowed()
                    &&& e@ == crate::callback::borrow_conflict()
                    &&& final(self).image_callbacks()@ == old(self).image_callbacks()@
                },
            },
    {
        self.image_cbs.remove(id)
    }

    /// The callback that is retained under `id`, if there is one.
    pub fn image_callback(&self, id: &CallbackId) -> (res: Option<&F>)
        ensures
            match res {
                Some(cb) => self.image_callbacks()@.contains_key(id.0) && *cb
                    == self.image_callbacks()@[id.0],
                None => !self.image_callbacks()@.contains_key(id.0),
            },
    {
        self.image_cbs.get(id)
    }

    /// Opens a dispatch to the listener under `id`, as [`Handle::begin`] does
    /// for its handle. Where no listener is registered under `id` nothing
    /// changes.
    pub fn begin_dispatch<O>(
        &mut self,
        id: &MapListenerId,
        owner: Option<O>,
        kind: MapEventKind,
        payload: &Value,
    ) -> (res: std::result::Result<Claim<O, L>, MapDispatchError>)
        requires
            old(self).wf(),
        ensures
            final(self).wf(),
            final(self).issued() == old(self).issued(),
            final(self).config() == old(self).config(),
            final(self).markers() == old(self).markers(),
            final(self).image_callbacks() == old(self).image_callbacks(),
            final(self).weak_self() == old(self).weak_self(),
            final(self).handles().dom() == old(self).handles().dom(),
            forall|other: u128|
                other != id.0 && old(self).handles().contains_key(other) ==> final(self).handles()[other] == old(self).handles()[other],
            match res {
                Ok(claim) => {
                    let before = old(self).handles()[id.0];
                    let after = final(self).handles()[id.0];
                    &&& old(self).handles().contains_key(id.0)
                    &&& spec_refusal(owner is Some, spec_decode(payload@, kind), before.is_busy())
                        is None
                    &&& owner == Some(claim.owner)
                    &&& before.spec_listener() == Some(claim.listener)
                    &&& spec_decode(payload@, kind) == Ok::<TypedEventView, DecodeError>(
                        claim.event@,
                    )
                    &&& after.is_busy()
                    &&& after.spec_owner() == before.spec_owner()
                    &&& after.spec_layer() == before.spec_layer()
                },
                Err(MapDispatchError::NotRegistered) => {
                    &&& !old(self).handles().contains_key(id.0)
                    &&& final(self).handles() == old(self).handles()
                },
                Err(MapDispatchError::Refused(e)) => {
                    &&& old(self).handles().contains_key(id.0)
                    &&& spec_refusal(
                        owner is Some,
                        spec_decode(payload@, kind),
                        old(self).handles()[id.0].is_busy(),
                    ) == Some(e)
                    &&& final(self).handles() == old(self).handles()
                },
            },
    {
        let mut handle = match self.handles.remove(&id.0) {
            Some(handle) => handle,
            None => {
                assert(self.handles@ =~= old(self).handles@);
                return Err(MapDispatchError::NotRegistered);
            },
        };
        let res = handle.begin(owner, kind, payload);
        self.handles.insert(id.0, handle);
        match res {
            Ok(claim) => Ok(claim),
            Err(e) => {
                assert(self.handles@ =~= old(self).handles@);
                Err(MapDispatchError::Refused(e))
            },
        }
    }

    /// Closes a dispatch to the listener under `id`: puts the listener back
    /// into its handle. Where the registration was removed in the meantime
    /// the listener is let go.
    pub fn finish_dispatch(&mut self, id: &MapListenerId, listener: L)
        requires
            old(self).wf(),
        ensures
            final(self).wf(),
            final(self).issued() == old(self).issued(),
            final(self).config() == old(self).config(),
            final(self).markers() == old(self).markers(),
            final(self).image_callbacks() == old(self).image_callbacks(),
            final(self).weak_self() == old(self).weak_self(),
            final(self).handles().dom() == old(self).handles().dom(),
            forall|other: u128|
                other != id.0 && old(self).handles().contains_key(other) ==> final(self).handles()[other] == old(self).handles()[other],
            old(self).handles().contains_key(id.0) ==> {
                let before = old(self).handles()[id.0];
                let after = final(self).handles()[id.0];
                &&& after.spec_listener() == Some(listener)
                &&& after.spec_owner() == before.spec_owner()
                &&& after.spec_layer() == before.spec_layer()
            },
    {
        match self.handles.remove(&id.0) {
            Some(handle) => {
                let mut handle = handle;
                handle.finish(listener);
                self.handles.insert(id.0, handle);
                assert(self.handles@.dom() =~= old(self).handles@.dom());
            },
            None => {
                assert(self.handles@ =~= old(self).handles@);
            },
        }
    }
}

impl<W: WeakOwner + Clone, L: MapEventListener<W::Owner>, M, F> MapboxMap<W, L, M, F> {
    /// Registers `f` for the events of the whole map, under an identifier that
    /// the map never issued before. The handle of the listener holds a clone
    /// of the weak reference of the map. The registration always succeeds.
    pub fn on(&mut self, f: L) -> (res: Result<MapListenerId>)
        requires
            old(self).wf(),
        ensures
            final(self).wf(),
            final(self).config() == old(self).config(),
            final(self).markers() == old(self).markers(),
            final(self).image_callbacks() == old(self).image_callbacks(),
            final(self).weak_self() == old(self).weak_self(),
            res is Ok,
            ({
                let id = res->Ok_0;
                let handle = final(self).handles()[id.0];
                &&& !old(self).issued().contains(id.0)
                &&& !old(self).handles().contains_key(id.0)
                &&& final(self).issued() == old(self).issued().insert(id.0)
                &&& final(self).handles() == old(self).handles().insert(id.0, handle)
                &&& handle.spec_listener() == Some(f)
                &&& handle.spec_layer() is None
                &&& cloned(old(self).weak_self(), handle.spec_owner())
            }),
    {
        let weak = self.weak_self.clone();
        let handle = Handle::new(weak, f);
        let id = MapListenerId(self.issued.issue());
        self.handles.insert(id.0, handle);
        Ok(id)
    }

    /// Registers `f` for the events of the layer `layer_id` alone, under an
    /// identifier that the map never issued before. The handle of the
    /// listener holds a clone of the weak reference of the map. The
    /// registration always succeeds.
    pub fn on_layer(&mut self, layer_id: &str, f: L) -> (res: Result<MapListenerId>)
        requires
            old(self).wf(),
        ensures
            final(self).wf(),
            final(self).config() == old(self).config(),
            final(self).markers() == old(self).markers(),
            final(self).image_callbacks() == old(self).image_callbacks(),
            final(self).weak_self() == old(self).weak_self(),
            res is Ok,
            ({
                let id = res->Ok_0;
                let handle = final(self).handles()[id.0];
                &&& !old(self).issued().contains(id.0)
                &&& !old(self).handles().contains_key(id.0)
                &&& final(self).issued() == old(self).issued().insert(id.0)
                &&& final(self).handles() == old(self).handles().insert(id.0, handle)
                &&& handle.spec_listener() == Some(f)
                &&& handle.spec_layer() == Some(layer_id@)
                &&& cloned(old(self).weak_self(), handle.spec_owner())
            }),
    {
        let weak = self.weak_self.clone();
        let handle = Handle::for_layer(weak, layer_id, f);
        let id = MapListenerId(self.issued.issue());
        self.handles.insert(id.0, handle);
        Ok(id)
    }

    /// Runs one invocation by the engine for the listener under `id`, as
    /// [`Handle::dispatch`] does for its handle: resolves the weak reference
    /// of the handle, decodes the payload, claims the listener and calls the
    /// method for events of kind `kind`, so that the listener has received
    /// the decoded event. Every other registration stays as it is. A refused
    /// invocation calls nothing and changes nothing; so does one for an
    /// identifier under which no listener is registered.
    pub fn dispatch(&mut self, id: &MapListenerId, kind: MapEventKind, payload: &Value) -> (res:
        std::result::Result<(), MapDispatchError>)
        requires
            old(self).wf(),
        ensures
            final(self).wf(),
            final(self).issued() == old(self).issued(),
            final(self).config() == old(self).config(),
            final(self).markers() == old(self).markers(),
            final(self).image_callbacks() == old(self).image_callbacks(),
            final(self).weak_self() == old(self).weak_self(),
            final(self).handles().dom() == old(self).handles().dom(),
            forall|other: u128|
                other != id.0 && old(self).handles().contains_key(other) ==> final(self).handles()[other] == old(self).handles()[other],
            match res {
                Ok(()) => {
                    let before = old(self).handles()[id.0];
                    let after = final(self).handles()[id.0];
                    &&& old(self).handles().contains_key(id.0)
                    &&& spec_decode(payload@, kind) is Ok
                    &&& !before.is_busy()
                    &&& exists|owner: W::Owner|
                        after.spec_listener() == Some(
                            #[trigger] before.spec_listener()->Some_0.received(
                                owner,
                                kind,
                                spec_decode(payload@, kind)->Ok_0,
                            ),
                        )
                    &&& after.spec_owner() == before.spec_owner()
                    &&& after.spec_layer() == before.spec_layer()
                },
                Err(MapDispatchError::NotRegistered) => {
                    &&& !old(self).handles().contains_key(id.0)
                    &&& final(self).handles() == old(self).handles()
                },
                Err(MapDispatchError::Refused(e)) => {
                    &&& old(self).handles().contains_key(id.0)
                    &&& e is OwnerDropped || spec_refusal(
                        true,
                        spec_decode(payload@, kind),
                        old(self).handles()[id.0].is_busy(),
                    ) == Some(e)
                    &&& final(self).handles() == old(self).handles()
                },
            },
    {
        let mut handle = match self.handles.remove(&id.0) {
            Some(handle) => handle,
            None => {
                assert(self.handles@ =~= old(self).handles@);
                return Err(MapDispatchError::NotRegistered);
            },
        };
        let res = handle.dispatch(kind, payload);
        self.handles.insert(id.0, handle);
        match res {
            Ok(()) => {
                assert(self.handles@.dom() =~= old(self).handles@.dom());
                Ok(())
            },
            Err(e) => {
                assert(self.handles@ =~= old(self).handles@);
                Err(MapDispatchError::Refused(e))
            },
        }
    }
}

} // verus!
