//! The device manager's audio callbacks: each registered callback is a
//! capability handed to the foreign runtime, found again by the handle that
//! registration returned, and released exactly once when it is removed.

use crate::bridge::{Capability, Phase};
use crate::runtime::JUCE;
use crate::slots::{slot_count, slot_entries, slots_contains, slots_insert, slots_new, slots_remove, Slots};
use slotmap::DefaultKey;
use vstd::prelude::*;

verus! {

/// A handle to a registered audio callback.
#[must_use]
#[derive(Clone, Copy, Debug, PartialEq, Eq, Hash)]
pub struct AudioCallbackHandle {
    key: DefaultKey,
}

impl AudioCallbackHandle {
    /// The registration key behind the handle.
    pub closed spec fn key(&self) -> DefaultKey {
        self.key
    }
}

/// The most callbacks that a manager holds registered at once: the slot map
/// makes at most `u32::MAX` slots, one of them its sentinel.
pub const MAX_REGISTRATIONS: usize = 4_294_967_293;

/// Manages the audio callbacks of a device.
pub struct AudioDeviceManager<C> {
    callbacks: Slots,
    entries: Vec<Capability<C>>,
}

impl<C> AudioDeviceManager<C> {
    /// The handles of the callbacks that are registered.
    pub closed spec fn registered(&self) -> Set<DefaultKey> {
        slot_entries(self.callbacks).dom()
    }

    /// The callback registered under a key.
    pub closed spec fn callback(&self, key: DefaultKey) -> C {
        self.entries@[slot_entries(self.callbacks)[key] as int].value()
    }

    /// Where the capability registered under a key is kept.
    pub closed spec fn index_of(&self, key: DefaultKey) -> int {
        slot_entries(self.callbacks)[key] as int
    }

    /// The capability kept at an index: registered while a key leads to it,
    /// dropped once its callback has been removed.
    pub closed spec fn entry(&self, index: int) -> Capability<C> {
        self.entries@[index]
    }

    /// The capability registered under a key.
    pub open spec fn capability(&self, key: DefaultKey) -> Capability<C> {
        self.entry(self.index_of(key))
    }

    /// How many callbacks have been registered over the manager's lifetime.
    pub closed spec fn registrations(&self) -> nat {
        self.entries@.len()
    }

    /// Every key leads to its own registered capability, no method of which
    /// is running; every capability is registered or dropped, and each is
    /// dropped at most once.
    pub closed spec fn wf(&self) -> bool {
        let m = slot_entries(self.callbacks);
        &&& m.dom().finite()
        &&& m.len() + 1 <= slot_count(self.callbacks)
        &&& slot_count(self.callbacks) <= MAX_REGISTRATIONS + 1
        &&& forall|k: DefaultKey| #[trigger]
            m.contains_key(k) ==> {
                &&& m[k] < self.entries@.len()
                &&& self.entries@[m[k] as int].phase() == Phase::Registered
                &&& !self.entries@[m[k] as int].in_call()
            }
        &&& forall|k1: DefaultKey, k2: DefaultKey| #[trigger]
            m.contains_key(k1) && #[trigger] m.contains_key(k2) && m[k1] == m[k2] ==> k1 == k2
        &&& forall|i: int|
            0 <= i < self.entries@.len() ==> {
                &&& #[trigger] self.entries@[i].wf()
                &&& self.entries@[i].phase() == Phase::Registered || self.entries@[i].phase()
                    == Phase::Dropped
            }
    }

    /// A manager with no callbacks, for a live runtime.
    pub fn new(_juce: &JUCE) -> (r: Self)
        ensures
            r.wf(),
            r.registered() == Set::<DefaultKey>::empty(),
            r.registrations() == 0,
    {
        AudioDeviceManager { callbacks: slots_new(), entries: Vec::new() }
    }

    /// Registers an audio callback and hands back its handle.
    pub fn add_audio_callback(&mut self, callback: C) -> (r: AudioCallbackHandle)
        requires
            old(self).wf(),
            old(self).registered().len() < MAX_REGISTRATIONS,
        ensures
            final(self).wf(),
            !old(self).registered().contains(r.key()),
            final(self).registered() == old(self).registered().insert(r.key()),
            final(self).callback(r.key()) == callback,
            final(self).capability(r.key()).phase() == Phase::Registered,
            final(self).capability(r.key()).drops() == 0,
            forall|k: DefaultKey| #[trigger]
                old(self).registered().contains(k) ==> final(self).callback(k) == old(
                    self,
                ).callback(k),
            final(self).registrations() == old(self).registrations() + 1,
    {
        let mut cap = Capability::new(callback);
        let reg = cap.register();
        assert(reg is Ok);
        let index = self.entries.len();
        self.entries.push(cap);
        let key = slots_insert(&mut self.callbacks, index as u64);
        let ghost m = slot_entries(self.callbacks);
        assert forall|k1: DefaultKey, k2: DefaultKey| #[trigger]
            m.contains_key(k1) && #[trigger] m.contains_key(k2) && m[k1] == m[k2] implies k1
            == k2 by {
            if k1 != key && k2 != key {
                assert(slot_entries(old(self).callbacks).contains_key(k1));
                assert(slot_entries(old(self).callbacks).contains_key(k2));
            }
        }
        assert forall|i: int| 0 <= i < self.entries@.len() implies {
            &&& #[trigger] self.entries@[i].wf()
            &&& self.entries@[i].phase() == Phase::Registered || self.entries@[i].phase()
                == Phase::Dropped
        } by {
            if i < index {
                assert(self.entries@[i] == old(self).entries@[i]);
                assert(old(self).entries@[i].wf());
            }
        }
        AudioCallbackHandle { key }
    }

    /// Whether the handle's callback is registered.
    pub fn is_registered(&self, handle: &AudioCallbackHandle) -> (r: bool)
        ensures
            r == self.registered().contains(handle.key()),
    {
        slots_contains(&self.callbacks, handle.key)
    }

    /// Removes an audio callback: takes it back from the foreign runtime and
    /// releases it, so that its drop runs exactly once and no method of it
    /// can run again. A handle that is no longer registered changes nothing.
    pub fn remove_audio_callback(&mut self, handle: AudioCallbackHandle)
        requires
            old(self).wf(),
        ensures
            final(self).wf(),
            final(self).registered() == old(self).registered().remove(handle.key()),
            old(self).registered().contains(handle.key()) ==> {
                &&& old(self).capability(handle.key()).drops() == 0
                &&& final(self).entry(old(self).index_of(handle.key())).phase() == Phase::Dropped
                &&& final(self).entry(old(self).index_of(handle.key())).drops() == 1
            },
            forall|k: DefaultKey| #[trigger]
                final(self).registered().contains(k) ==> final(self).capability(k) == old(
                    self,
                ).capability(k),
            forall|k: DefaultKey| #[trigger]
                final(self).registered().contains(k) ==> final(self).callback(k) == old(
                    self,
                ).callback(k),
            final(self).registrations() == old(self).registrations(),
    {
        let ghost m0 = slot_entries(self.callbacks);
        match slots_remove(&mut self.callbacks, handle.key) {
            Some(index) => {
                assert(m0.contains_key(handle.key));
                let n = self.entries.len();
                assert(index < n);
                let i = index as usize;
                assert(old(self).entries@[i as int].wf());
                proof {
                    crate::bridge::lemma_released_at_most_once(&old(self).entries@[i as int]);
                }
                assert(slot_entries(self.callbacks).len() == m0.len() - 1);
                assert(self.entries@[i as int].phase() == Phase::Registered);
                let d = self.entries[i].deregister();
                assert(d is Ok);
                let ghost mid = self.entries@;
                let rel = self.entries[i].release();
                assert(rel is Ok);
                assert(self.entries@[i as int].drops() == 1);
                assert(self.entries@[i as int].wf());
                assert(self.entries@[i as int].phase() == Phase::Dropped);
                let ghost m = slot_entries(self.callbacks);
                assert forall|k: DefaultKey| #[trigger] m.contains_key(k) implies {
                    &&& m[k] < self.entries@.len()
                    &&& self.entries@[m[k] as int].phase() == Phase::Registered
                    &&& !self.entries@[m[k] as int].in_call()
                } by {
                    assert(m0.contains_key(k));
                    assert(m0.contains_key(handle.key));
                    assert(m0[k] != m0[handle.key]);
                }
                assert forall|i2: int| 0 <= i2 < self.entries@.len() implies {
                    &&& #[trigger] self.entries@[i2].wf()
                    &&& self.entries@[i2].phase() == Phase::Registered
                        || self.entries@[i2].phase() == Phase::Dropped
                } by {
                    if i2 != i as int {
                        assert(self.entries@[i2] == mid[i2]);
                        assert(mid[i2] == old(self).entries@[i2]);
                        assert(old(self).entries@[i2].wf());
                    }
                }
                assert forall|k: DefaultKey| #[trigger]
                    self.registered().contains(k) implies self.callback(k) == old(self).callback(
                    k,
                ) by {
                    assert(m0.contains_key(k));
                    assert(m0[k] != m0[handle.key]);
                }
            },
            None => {
                assert(self.wf());
            },
        }
    }
}

} // verus!
