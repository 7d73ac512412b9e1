//! Time-bounded slots for the server side of in-flight WebAuthn ceremonies.
use std::collections::HashMap;
use vstd::prelude::*;

verus! {

broadcast use vstd::std_specs::hash::group_hash_axioms;

/// Seconds a ceremony slot stays usable after it was created.
pub const CEREMONY_TTL_SECS: u64 = 300;

/// A slot created at `created_at` is still usable at `now`.
pub open spec fn is_live(created_at: u64, now: u64) -> bool {
    created_at <= now && now - created_at < CEREMONY_TTL_SECS
}

/// What is left of a store's contents after expired slots are swept at `now`.
pub open spec fn live_part<T>(m: Map<u128, Slot<T>>, now: u64) -> Map<u128, Slot<T>> {
    Map::new(|k: u128| m.contains_key(k) && is_live(m[k].created_at, now), |k: u128| m[k])
}

/// The store holds a usable slot under `key` at `now`.
pub open spec fn holds_live<T>(m: Map<u128, Slot<T>>, key: u128, now: u64) -> bool {
    m.contains_key(key) && is_live(m[key].created_at, now)
}

#[derive(Debug, PartialEq, Eq, Structural)]
pub enum StateError {
    /// No slot under the key, or only an expired one.
    NotFound,
}

/// One ceremony record with its key and creation time (unix seconds).
pub struct Slot<T> {
    pub key: u128,
    pub record: T,
    pub created_at: u64,
}

/// A keyed set of ceremony slots; a key holds at most one slot.
pub struct SlotStore<T> {
    slots: HashMap<u128, Slot<T>>,
}

impl<T> View for SlotStore<T> {
    type V = Map<u128, Slot<T>>;

    closed spec fn view(&self) -> Map<u128, Slot<T>> {
        self.slots@
    }
}

impl<T> SlotStore<T> {
    /// Every slot sits under its own key.
    pub closed spec fn wf(&self) -> bool {
        forall|k: u128| #[trigger] self.slots@.contains_key(k) ==> self.slots@[k].key == k
    }

    pub fn new() -> (r: Self)
        ensures
            r.wf(),
            r@ == Map::<u128, Slot<T>>::empty(),
    {
        SlotStore { slots: HashMap::new() }
    }

    /// Puts `record` under `key`, created at `now`; an earlier slot under `key` is replaced.
    pub fn insert(&mut self, key: u128, record: T, now: u64)
        requires
            old(self).wf(),
        ensures
            final(self).wf(),
            final(self)@ == old(self)@.insert(key, Slot { key, record, created_at: now }),
    {
        let _ = self.slots.insert(key, Slot { key, record, created_at: now });
    }

    /// The record under `key`, if its slot is still usable at `now`.
    pub fn get(&self, key: u128, now: u64) -> (r: Result<&T, StateError>)
        requires
            self.wf(),
        ensures
            match r {
                Ok(t) => holds_live(self@, key, now) && *t == self@[key].record,
                Err(e) => e == StateError::NotFound && !holds_live(self@, key, now),
            },
    {
        match self.slots.get(&key) {
            Some(slot) => {
                if slot.created_at <= now && now - slot.created_at < CEREMONY_TTL_SECS {
                    Ok(&slot.record)
                } else {
                    Err(StateError::NotFound)
                }
            },
            None => Err(StateError::NotFound),
        }
    }

    /// Deletes the slot under `key`, if any.
    pub fn remove(&mut self, key: u128) -> (r: Result<(), StateError>)
        requires
            old(self).wf(),
        ensures
            final(self).wf(),
            final(self)@ == old(self)@.remove(key),
            r is Ok,
    {
        let _ = self.slots.remove(&key);
        Ok(())
    }

    /// Removes the slot under `key` whatever its age, and hands out its record if it
    /// was still usable at `now`.
    pub fn take(&mut self, key: u128, now: u64) -> (r: Result<T, StateError>)
        requires
            old(self).wf(),
        ensures
            final(self).wf(),
            final(self)@ == old(self)@.remove(key),
            match r {
                Ok(t) => holds_live(old(self)@, key, now) && t == old(self)@[key].record,
                Err(e) => e == StateError::NotFound && !holds_live(old(self)@, key, now),
            },
    {
        match self.slots.remove(&key) {
            Some(s) => {
                if s.created_at <= now && now - s.created_at < CEREMONY_TTL_SECS {
                    Ok(s.record)
                } else {
                    Err(StateError::NotFound)
                }
            },
            None => Err(StateError::NotFound),
        }
    }

    /// Sweeps every slot that is no longer usable at `now`.
    pub fn cleanup_expired(&mut self, now: u64)
        requires
            old(self).wf(),
        ensures
            final(self).wf(),
            final(self)@ == live_part(old(self)@, now),
    {
        let ghost m0 = self.slots@;
        let ghost ks = vstd::std_specs::iter::IteratorSpec::remaining(&vstd::std_specs::hash::spec_keys_iter(&self.slots));
        assert(ks.unref().to_set() == m0.dom());
        let mut keys: Vec<u128> = Vec::new();
        for k in it: self.slots.keys()
            invariant
                it.seq() == ks,
                keys@.len() == it.index(),
                forall|j: int| 0 <= j < it.index() ==> keys@[j] == *ks[j],
        {
            keys.push(*k);
        }
        assert(keys@.len() == ks.len());
        assert forall|k: u128| m0.contains_key(k) implies exists|j: int| 0 <= j < keys@.len() && keys@[j] == k by {
            assert(ks.unref().to_set().contains(k));
            let j = choose|j: int| 0 <= j < ks.unref().len() && ks.unref()[j] == k;
            assert(keys@[j] == k);
        }
        let mut i: usize = 0;
        while i < keys.len()
            invariant
                i <= keys.len(),
                forall|k: u128| #[trigger] self.slots@.contains_key(k) ==> self.slots@[k].key == k,
                forall|k: u128| m0.contains_key(k) ==> exists|j: int| 0 <= j < keys@.len() && keys@[j] == k,
                forall|k: u128|
                    #[trigger] self.slots@.contains_key(k) <==> m0.contains_key(k) && (
                    (exists|j: int| 0 <= j < i && keys@[j] == k) ==> is_live(m0[k].created_at, now)),
                forall|k: u128| #[trigger] self.slots@.contains_key(k) ==> self.slots@[k] == m0[k],
            decreases keys.len() - i,
        {
            let k = keys[i];
            match self.slots.remove(&k) {
                Some(s) => {
                    if s.created_at <= now && now - s.created_at < CEREMONY_TTL_SECS {
                        let _ = self.slots.insert(k, s);
                    }
                },
                None => {},
            }
            i = i + 1;
        }
        assert(self.slots@ =~= live_part(m0, now));
    }
}

/// Once a finish has used up the slot under `key`, no later finish finds it.
pub proof fn lemma_slot_single_use<T>(m: Map<u128, Slot<T>>, key: u128, later: u64)
    ensures
        !holds_live(m.remove(key), key, later),
{
}

/// A slot created at `t` is gone for a finish that comes more than five minutes later.
pub proof fn lemma_slot_expires<T>(m: Map<u128, Slot<T>>, key: u128, record: T, t: u64, later: u64)
    requires
        later >= t + CEREMONY_TTL_SECS,
    ensures
        !holds_live(m.insert(key, Slot { key, record, created_at: t }), key, later),
{
}

} // verus!
