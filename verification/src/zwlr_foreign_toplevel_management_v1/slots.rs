//! The slot map that holds the open toplevels, and the calls made on it.
//!
//! Keys leave the library as the 64-bit numbers of `slotmap::KeyData::as_ffi`
//! (the slot's version in the upper half, its index in the lower half) and
//! come back through `slotmap::KeyData::from_ffi`, which makes the version odd.

use vstd::prelude::*;
use slotmap::{DefaultKey, Key, KeyData, SlotMap};

use super::handler::Toplevel;

verus! {

/// The slot index held in a key.
pub open spec fn key_index(key: u64) -> int {
    key as int % 0x1_0000_0000
}

/// The slot version held in a key.
pub open spec fn key_version(key: u64) -> int {
    key as int / 0x1_0000_0000
}

/// The key that `from_ffi` makes of a number: its version made odd.
pub open spec fn canonical_key(key: u64) -> u64 {
    if key_version(key) % 2 == 1 {
        key
    } else {
        (key + 0x1_0000_0000) as u64
    }
}

/// A `slotmap::SlotMap` of toplevels keyed by `slotmap::DefaultKey`.
/// What it holds is the name `toplevel_slots`, and every call on it goes
/// through the wrappers below.
#[verifier::external_body]
pub struct ToplevelSlots {
    map: SlotMap<DefaultKey, Toplevel>,
}

/// The live toplevels of a slot map, by the number of their key.
pub uninterp spec fn toplevel_slots(slots: ToplevelSlots) -> Map<u64, Toplevel>;

/// The version of every slot that a slot map has allocated for values, by
/// slot index: odd while the slot holds a value, even while it is free.
pub uninterp spec fn toplevel_slot_versions(slots: ToplevelSlots) -> Map<int, int>;

impl ToplevelSlots {
    /// `SlotMap::with_key`: a slot map that holds nothing.
    #[verifier::external_body]
    pub(crate) fn with_key() -> (res: Self)
        ensures
            toplevel_slots(res) =~= Map::empty(),
            toplevel_slot_versions(res) =~= Map::empty(),
    {
        ToplevelSlots { map: SlotMap::with_key() }
    }

    /// `SlotMap::insert`: stores the value under a key that no live value has,
    /// with an odd version. The slot is either a free one, whose even version
    /// goes up by one, or a new one, at version 1. It panics only when the map
    /// cannot grow, which happens once `u32::MAX - 1` values are live.
    #[verifier::external_body]
    pub(crate) fn insert(&mut self, value: Toplevel) -> (key: u64)
        requires
            toplevel_slots(*old(self)).len() < u32::MAX - 1,
        ensures
            !toplevel_slots(*old(self)).contains_key(key),
            key_version(key) % 2 == 1,
            toplevel_slots(*final(self)) == toplevel_slots(*old(self)).insert(key, value),
            toplevel_slot_versions(*old(self)).contains_key(key_index(key)) ==> {
                &&& toplevel_slot_versions(*old(self))[key_index(key)] % 2 == 0
                &&& key_version(key) == toplevel_slot_versions(*old(self))[key_index(key)] + 1
            },
            !toplevel_slot_versions(*old(self)).contains_key(key_index(key)) ==> key_version(key) == 1,
            toplevel_slot_versions(*final(self)) == toplevel_slot_versions(*old(self)).insert(
                key_index(key),
                key_version(key),
            ),
    {
        self.map.insert(value).data().as_ffi()
    }

    /// `SlotMap::get` on the key that `from_ffi` makes of the number.
    #[verifier::external_body]
    pub(crate) fn get(&self, key: u64) -> (res: Option<&Toplevel>)
        ensures
            match res {
                Some(v) => toplevel_slots(*self).contains_key(canonical_key(key))
                    && *v == toplevel_slots(*self)[canonical_key(key)],
                None => !toplevel_slots(*self).contains_key(canonical_key(key)),
            },
    {
        self.map.get(DefaultKey::from(KeyData::from_ffi(key)))
    }

    /// `SlotMap::get_mut` on the key that `from_ffi` makes of the number.
    #[verifier::external_body]
    pub(crate) fn get_mut(&mut self, key: u64) -> (res: Option<&mut Toplevel>)
        ensures
            res is Some <==> toplevel_slots(*old(self)).contains_key(canonical_key(key)),
            res is Some ==> *res->0 == toplevel_slots(*old(self))[canonical_key(key)],
            res is Some ==> toplevel_slots(*final(self)) == toplevel_slots(*old(self)).insert(
                canonical_key(key),
                *final(res->0),
            ),
            res is None ==> toplevel_slots(*final(self)) == toplevel_slots(*old(self)),
            toplevel_slot_versions(*final(self)) == toplevel_slot_versions(*old(self)),
    {
        self.map.get_mut(DefaultKey::from(KeyData::from_ffi(key)))
    }

    /// `SlotMap::remove` on the key that `from_ffi` makes of the number. The
    /// freed slot's version goes up by one, wrapping at `u32::MAX`.
    #[verifier::external_body]
    pub(crate) fn remove(&mut self, key: u64) -> (res: Option<Toplevel>)
        ensures
            toplevel_slots(*final(self)) == toplevel_slots(*old(self)).remove(canonical_key(key)),
            match res {
                Some(v) => toplevel_slots(*old(self)).contains_key(canonical_key(key))
                    && v == toplevel_slots(*old(self))[canonical_key(key)],
                None => !toplevel_slots(*old(self)).contains_key(canonical_key(key)),
            },
            toplevel_slot_versions(*final(self)) == if res is Some {
                toplevel_slot_versions(*old(self)).insert(
                    key_index(key),
                    (key_version(canonical_key(key)) + 1) % 0x1_0000_0000,
                )
            } else {
                toplevel_slot_versions(*old(self))
            },
    {
        self.map.remove(DefaultKey::from(KeyData::from_ffi(key)))
    }

    /// `SlotMap::keys`, each key as its number: every live key once, in the
    /// order of the slots.
    #[verifier::external_body]
    pub(crate) fn keys(&self) -> (res: Vec<u64>)
        ensures
            res@.to_set() == toplevel_slots(*self).dom(),
            forall|i: int, j: int|
                0 <= i < j < res@.len() ==> key_index(#[trigger] res@[i]) < key_index(
                    #[trigger] res@[j],
                ),
    {
        let mut res = Vec::new();
        for key in self.map.keys() {
            res.push(key.data().as_ffi());
        }
        res
    }
}

} // verus!
