//! The plugin-format manager: the plugin formats that the host registers
//! with the foreign runtime, each held as a capability and found by index.

use crate::bridge::{Capability, Phase};
use crate::runtime::JUCE;
use vstd::prelude::*;

verus! {

/// The most formats a manager holds: its count is an `i32`.
pub const MAX_FORMATS: usize = 0x7fff_ffff;

/// Holds the registered plugin formats, in the order they were added.
pub struct AudioPluginFormatManager<F> {
    formats: Vec<Capability<F>>,
}

impl<F> AudioPluginFormatManager<F> {
    /// The registered formats, in order.
    pub closed spec fn formats(&self) -> Seq<F> {
        self.formats@.map_values(|c: Capability<F>| c.value())
    }

    /// Each format is a registered capability, and the count fits an `i32`.
    pub closed spec fn wf(&self) -> bool {
        &&& self.formats@.len() <= MAX_FORMATS
        &&& forall|i: int|
            0 <= i < self.formats@.len() ==> #[trigger] self.formats@[i].wf()
                && self.formats@[i].phase() == Phase::Registered && !self.formats@[i].in_call()
    }

    /// A manager with no formats, for a live runtime.
    pub fn new(_juce: &JUCE) -> (r: Self)
        ensures
            r.wf(),
            r.formats() == Seq::<F>::empty(),
    {
        let r = AudioPluginFormatManager { formats: Vec::new() };
        assert(r.formats() =~= Seq::<F>::empty());
        r
    }

    /// Registers a format after the ones already there.
    pub fn add_format(&mut self, format: F)
        requires
            old(self).wf(),
            old(self).formats().len() < MAX_FORMATS,
        ensures
            final(self).wf(),
            final(self).formats() == old(self).formats().push(format),
    {
        let mut cap = Capability::new(format);
        let reg = cap.register();
        assert(reg is Ok);
        self.formats.push(cap);
        assert forall|i: int| 0 <= i < self.formats@.len() implies #[trigger] self.formats@[i].wf()
            && self.formats@[i].phase() == Phase::Registered && !self.formats@[i].in_call() by {
            if i < old(self).formats@.len() {
                assert(self.formats@[i] == old(self).formats@[i]);
                assert(old(self).formats@[i].wf());
            }
        }
        assert(self.formats() =~= old(self).formats().push(format));
        assert(self.wf());
    }

    /// The number of formats.
    pub fn get_num_formats(&self) -> (r: i32)
        requires
            self.wf(),
        ensures
            r as int == self.formats().len(),
    {
        self.formats.len() as i32
    }

    /// Runs `func` once on each format, first to last, each run as one call
    /// into that format; each format then is what `func` returned for it.
    pub fn for_each_format_mut<G: Fn(F) -> F>(&mut self, func: G)
        requires
            old(self).wf(),
            forall|f: F| #[trigger] func.requires((f,)),
        ensures
            final(self).wf(),
            final(self).formats().len() == old(self).formats().len(),
            forall|i: int|
                0 <= i < old(self).formats().len() ==> #[trigger] func.ensures(
                    (old(self).formats()[i],),
                    final(self).formats()[i],
                ),
    {
        let n = self.formats.len();
        let mut i: usize = 0;
        while i < n
            invariant
                self.wf(),
                n == self.formats@.len(),
                n == old(self).formats@.len(),
                i <= n,
                forall|f: F| #[trigger] func.requires((f,)),
                forall|j: int|
                    0 <= j < i ==> #[trigger] func.ensures(
                        (old(self).formats()[j],),
                        self.formats()[j],
                    ),
                forall|j: int| i <= j < n ==> #[trigger] self.formats@[j] == old(self).formats@[j],
            decreases n - i,
        {
            let ghost before = self.formats@;
            let ghost before_values = self.formats();
            assert(before[i as int].wf());
            let step = |f: F| -> (p: (F, ()))
                requires
                    func.requires((f,)),
                ensures
                    func.ensures((f,), p.0),
                { (func(f), ()) };
            let entered = self.formats[i].with_instance(step);
            assert(entered is Ok);
            assert forall|j: int| 0 <= j < self.formats@.len() implies #[trigger] self.formats@[j].wf()
                && self.formats@[j].phase() == Phase::Registered && !self.formats@[j].in_call() by {
                if j != i as int {
                    assert(self.formats@[j] == before[j]);
                    assert(before[j].wf());
                }
            }
            assert forall|j: int| 0 <= j < i + 1 implies #[trigger] func.ensures(
                (old(self).formats()[j],),
                self.formats()[j],
            ) by {
                if j < i {
                    assert(func.ensures((old(self).formats()[j],), before_values[j]));
                    assert(self.formats@[j] == before[j]);
                    assert(self.formats()[j] == before_values[j]);
                } else {
                    assert(before[j] == old(self).formats@[j]);
                    assert(old(self).formats()[j] == before[j].value());
                    assert(self.formats()[j] == self.formats@[j].value());
                }
            }
            i = i + 1;
        }
    }

    /// The format at `index`, or `None` when `index` is negative or not below
    /// the count.
    pub fn get_format_ref(&self, index: i32) -> (r: Option<&F>)
        requires
            self.wf(),
        ensures
            r is Some <==> 0 <= index < self.formats().len(),
            r matches Some(f) ==> *f == self.formats()[index as int],
    {
        if index < 0 || index >= self.get_num_formats() {
            return None;
        }
        let cap = &self.formats[index as usize];
        assert(cap.wf());
        cap.get()
    }
}

} // verus!
