//! The slot map that the device manager keeps its callback registrations in.

use slotmap::{DefaultKey, SlotMap};
use vstd::prelude::*;

verus! {

/// Callback registrations in a slot map: each live key holds an index into
/// the manager's capabilities.
#[verifier::external_body]
pub struct Slots {
    map: SlotMap<DefaultKey, u64>,
}

#[verifier::external_type_specification]
#[verifier::external_body]
pub struct ExDefaultKey(DefaultKey);

/// The live keys of a slot map and the value under each.
pub uninterp spec fn slot_entries(m: Slots) -> Map<DefaultKey, u64>;

/// The number of slots a slot map has made, vacant or not, its sentinel
/// included.
pub uninterp spec fn slot_count(m: Slots) -> nat;

/// Relies on slotmap's `SlotMap::new`: the map starts empty, with only its
/// sentinel slot.
#[verifier::external_body]
pub(crate) fn slots_new() -> (r: Slots)
    ensures
        slot_entries(r).dom() == Set::<DefaultKey>::empty(),
        slot_entries(r).dom().finite(),
        slot_count(r) == 1,
{
    Slots { map: SlotMap::new() }
}

/// Relies on slotmap's `SlotMap::insert`: the value goes under a key that no
/// live value has, into a vacant slot when there is one (every slot but the
/// sentinel and the live ones is vacant), else into one new slot. It panics
/// only when no slot is vacant and `u32::MAX` slots exist.
#[verifier::external_body]
pub(crate) fn slots_insert(m: &mut Slots, value: u64) -> (r: DefaultKey)
    requires
        slot_count(*old(m)) < u32::MAX,
    ensures
        !slot_entries(*old(m)).contains_key(r),
        slot_entries(*final(m)) == slot_entries(*old(m)).insert(r, value),
        slot_entries(*final(m)).dom().finite() == slot_entries(*old(m)).dom().finite(),
        slot_count(*final(m)) == (if slot_entries(*old(m)).len() + 1 < slot_count(*old(m)) {
            slot_count(*old(m))
        } else {
            slot_count(*old(m)) + 1
        }),
{
    m.map.insert(value)
}

/// Relies on slotmap's `SlotMap::remove`: a live key gives back its value and
/// leaves the map; any other key changes nothing. No slot is added.
#[verifier::external_body]
pub(crate) fn slots_remove(m: &mut Slots, key: DefaultKey) -> (r: Option<u64>)
    ensures
        slot_entries(*old(m)).contains_key(key) ==> r == Some(slot_entries(*old(m))[key])
            && slot_entries(*final(m)) == slot_entries(*old(m)).remove(key),
        !slot_entries(*old(m)).contains_key(key) ==> r is None && slot_entries(*final(m))
            == slot_entries(*old(m)),
        slot_entries(*final(m)).dom().finite() == slot_entries(*old(m)).dom().finite(),
        slot_count(*final(m)) == slot_count(*old(m)),
{
    m.map.remove(key)
}

/// Relies on slotmap's `SlotMap::contains_key`: whether the key is live.
#[verifier::external_body]
pub(crate) fn slots_contains(m: &Slots, key: DefaultKey) -> (r: bool)
    ensures
        r == slot_entries(*m).contains_key(key),
{
    m.map.contains_key(key)
}

} // verus!
