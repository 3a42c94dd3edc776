//! The store that keeps callbacks alive while the engine may still call them.
//!
//! A callback is handed to the store together with the engine call that may
//! invoke it, and leaves the store when the engine will not call again. The
//! store admits one exclusive borrow at a time: an operation that arrives while
//! the store is borrowed fails with an error and changes nothing.
//!
//! The store issues the identifiers under which it retains, and issues none
//! twice: it keeps the tokens of all that it has issued or retained under.

use std::collections::HashMap;
use vstd::prelude::*;
use vstd::string::StringExecFns;
use crate::error::{Error, ErrorView, Result};
use crate::id::{CallbackId, Issued};

verus! {

/// Store callbacks while the engine may still call them.
pub struct CallbackStore<T> {
    cbs: HashMap<u128, T>,
    issued: Issued,
    borrowed: bool,
}

/// The error of an operation that found the store borrowed.
pub open spec fn borrow_conflict() -> ErrorView {
    ErrorView::Unexpected("Couldn't borrow cbs: already borrowed"@)
}

impl<T> View for CallbackStore<T> {
    type V = Map<u128, T>;

    /// The callbacks that the store retains, by the token of their
    /// identifier.
    closed spec fn view(&self) -> Map<u128, T> {
        self.cbs@
    }
}

impl<T> CallbackStore<T> {
    /// Whether the store is exclusively borrowed.
    pub closed spec fn is_borrowed(&self) -> bool {
        self.borrowed
    }

    /// The tokens of the identifiers that the store has issued or retained
    /// under.
    pub closed spec fn issued(&self) -> Set<u128> {
        self.issued@
    }

    /// Whether the store is in order: it has issued every token that it
    /// retains under.
    pub closed spec fn wf(&self) -> bool {
        self.cbs@.dom().subset_of(self.issued@)
    }

    /// A store that retains nothing, has issued nothing and is not borrowed.
    pub fn new() -> (res: CallbackStore<T>)
        ensures
            res.wf(),
            res@ == Map::<u128, T>::empty(),
            res.issued() == Set::<u128>::empty(),
            !res.is_borrowed(),
    {
        CallbackStore { cbs: HashMap::new(), issued: Issued::new(), borrowed: false }
    }

    /// Issues an identifier that the store never issued before. The store
    /// retains nothing under it.
    pub fn fresh_id(&mut self) -> (id: CallbackId)
        requires
            old(self).wf(),
        ensures
            final(self).wf(),
            !old(self).issued().contains(id.0),
            !old(self)@.contains_key(id.0),
            final(self).issued() == old(self).issued().insert(id.0),
            final(self)@ == old(self)@,
            final(self).is_borrowed() == old(self).is_borrowed(),
    {
        CallbackId(self.issued.issue())
    }

    /// Takes the exclusive borrow, unless it is taken.
    pub fn try_borrow_mut(&mut self) -> (res: Result<()>)
        requires
            old(self).wf(),
        ensures
            final(self).wf(),
            final(self).issued() == old(self).issued(),
            final(self)@ == old(self)@,
            final(self).is_borrowed(),
            match res {
                Ok(()) => !old(self).is_borrowed(),
                Err(e) => old(self).is_borrowed() && e@ == borrow_conflict(),
            },
    {
        if self.borrowed {
            Err(Error::Unexpected(String::from_str("Couldn't borrow cbs: already borrowed")))
        } else {
            self.borrowed = true;
            Ok(())
        }
    }

    /// Gives the exclusive borrow back.
    pub fn release(&mut self)
        requires
            old(self).wf(),
        ensures
            final(self).wf(),
            final(self).issued() == old(self).issued(),
            final(self)@ == old(self)@,
            !final(self).is_borrowed(),
    {
        self.borrowed = false;
    }

    /// Retains `cb` under `id`, in place of what was retained under `id`
    /// before, and counts `id` among the issued identifiers. Fails, and
    /// changes nothing, while the store is borrowed.
    pub fn add(&mut self, id: CallbackId, cb: T) -> (res: Result<()>)
        requires
            old(self).wf(),
        ensures
            final(self).wf(),
            final(self).is_borrowed() == old(self).is_borrowed(),
            match res {
                Ok(()) => {
                    &&& !old(self).is_borrowed()
                    &&& final(self)@ == old(self)@.insert(id.0, cb)
                    &&& final(self).issued() == old(self).issued().insert(id.0)
                },
                Err(e) => {
                    &&& old(self).is_borrowed()
                    &&& e@ == borrow_conflict()
                    &&& final(self)@ == old(self)@
                    &&& final(self).issued() == old(self).issued()
                },
            },
    {
        if self.borrowed {
            Err(Error::Unexpected(String::from_str("Couldn't borrow cbs: already borrowed")))
        } else {
            self.cbs.insert(id.0, cb);
            self.issued.record(id.0);
            Ok(())
        }
    }

    /// Lets go of what is retained under `id`; succeeds without effect where
    /// nothing is. Fails, and lets go of nothing, while the store is borrowed.
    pub fn remove(&mut self, id: &CallbackId) -> (res: Result<()>)
        requires
            old(self).wf(),
        ensures
            final(self).wf(),
            final(self).issued() == old(self).issued(),
            final(self).is_borrowed() == old(self).is_borrowed(),
            match res {
                Ok(()) => !old(self).is_borrowed() && final(self)@ == old(self)@.remove(id.0),
                Err(e) => old(self).is_borrowed() && e@ == borrow_conflict() && final(self)@
                    == old(self)@,
            },
    {
        if self.borrowed {
            Err(Error::Unexpected(String::from_str("Couldn't borrow cbs: already borrowed")))
        } else {
            self.cbs.remove(&id.0);
            Ok(())
        }
    }

    /// The callback retained under `id`, if there is one.
    pub fn get(&self, id: &CallbackId) -> (res: Option<&T>)
        ensures
            match res {
                Some(cb) => self@.contains_key(id.0) && *cb == self@[id.0],
                None => !self@.contains_key(id.0),
            },
    {
        self.cbs.get(&id.0)
    }

    /// The number of callbacks that the store retains.
    pub fn len(&self) -> (res: usize)
        ensures
            res == self@.len(),
    {
        self.cbs.len()
    }
}

} // verus!
