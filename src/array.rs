//! Views over foreign homogeneous arrays: a count that the foreign side keeps
//! as a 32-bit signed integer, bounds-checked access by index, conversion
//! from and to host buffers, and a consuming iterator.

use crate::string::JuceString;
use vstd::prelude::*;

verus! {

/// The most elements a foreign array holds: its count is an `i32`.
pub const MAX_LEN: usize = 0x7fff_ffff;

/// A foreign array of `T`.
pub struct JuceArray<T> {
    items: Vec<T>,
}

/// A foreign array of 32-bit integers.
pub type IntArray = JuceArray<i32>;

/// A foreign array of strings.
pub type StringArray = JuceArray<JuceString>;

/// What converting a host buffer gives: the same elements in the same order,
/// or an empty array when the buffer is too long for a foreign count.
pub open spec fn spec_from_slice<T>(s: Seq<T>) -> Seq<T> {
    if s.len() <= MAX_LEN {
        s
    } else {
        Seq::empty()
    }
}

impl<T> View for JuceArray<T> {
    type V = Seq<T>;

    closed spec fn view(&self) -> Seq<T> {
        self.items@
    }
}

impl<T> JuceArray<T> {
    /// The count fits the foreign count type.
    pub open spec fn wf(&self) -> bool {
        self@.len() <= MAX_LEN
    }

    /// An empty array.
    pub fn new() -> (r: Self)
        ensures
            r@ == Seq::<T>::empty(),
            r.wf(),
    {
        JuceArray { items: Vec::new() }
    }

    /// An array holding the given elements, in order.
    pub fn from_vec(items: Vec<T>) -> (r: Self)
        ensures
            r@ == spec_from_slice(items@),
            r.wf(),
    {
        if items.len() <= MAX_LEN {
            JuceArray { items }
        } else {
            JuceArray::new()
        }
    }

    /// The number of elements, as the foreign side counts them.
    pub fn len(&self) -> (r: i32)
        requires
            self.wf(),
        ensures
            r as int == self@.len(),
    {
        self.items.len() as i32
    }

    /// Whether the array has no elements.
    pub fn is_empty(&self) -> (r: bool)
        requires
            self.wf(),
        ensures
            r == (self@.len() == 0),
    {
        self.len() == 0
    }

    /// The element at `index`, or `None` when `index` is negative or not
    /// below the count.
    pub fn get(&self, index: i32) -> (r: Option<&T>)
        requires
            self.wf(),
        ensures
            r is Some <==> 0 <= index < self@.len(),
            r matches Some(v) ==> *v == self@[index as int],
    {
        if index < 0 || index >= self.len() {
            return None;
        }
        Some(&self.items[index as usize])
    }

    /// All the elements, in order.
    pub fn as_slice(&self) -> (r: &[T])
        ensures
            r@ == self@,
    {
        self.items.as_slice()
    }

    /// Appends an element.
    pub fn add(&mut self, value: T)
        requires
            old(self).wf(),
            old(self)@.len() < MAX_LEN,
        ensures
            final(self).wf(),
            final(self)@ == old(self)@.push(value),
    {
        self.items.push(value);
    }

    /// Consumes the array into an iterator over its elements.
    pub fn into_iter(self) -> (r: JuceArrayIter<T>)
        requires
            self.wf(),
        ensures
            r.remaining() == self@,
    {
        JuceArrayIter { items: self.items }
    }
}

impl<T: Copy> JuceArray<T> {
    /// A foreign array converted from a host buffer of values.
    pub fn from_slice(s: &[T]) -> (r: Self)
        ensures
            r@ == spec_from_slice(s@),
            r.wf(),
    {
        if s.len() > MAX_LEN {
            return JuceArray::new();
        }
        let mut items: Vec<T> = Vec::new();
        let mut i: usize = 0;
        while i < s.len()
            invariant
                i <= s@.len(),
                s@.len() <= MAX_LEN,
                items@ == s@.subrange(0, i as int),
            decreases s@.len() - i,
        {
            items.push(s[i]);
            i = i + 1;
            assert(items@ =~= s@.subrange(0, i as int));
        }
        assert(items@ =~= s@);
        JuceArray { items }
    }

    /// The elements copied back into a host buffer, in order.
    pub fn to_vec(&self) -> (r: Vec<T>)
        ensures
            r@ == self@,
    {
        let mut out: Vec<T> = Vec::new();
        let mut i: usize = 0;
        while i < self.items.len()
            invariant
                i <= self@.len(),
                out@ == self@.subrange(0, i as int),
            decreases self@.len() - i,
        {
            out.push(self.items[i]);
            i = i + 1;
            assert(out@ =~= self@.subrange(0, i as int));
        }
        assert(out@ =~= self@);
        out
    }
}

/// Converting a host buffer into a foreign array and back gives the same
/// elements in the same order, for every buffer that a foreign count can
/// hold: `from_slice` gives an array whose view is `spec_from_slice` of the
/// buffer, and `to_vec` gives back the array's view.
pub proof fn lemma_round_trip<T>(s: Seq<T>)
    requires
        s.len() <= MAX_LEN,
    ensures
        spec_from_slice(s) == s,
        spec_from_slice(s).len() == s.len(),
{
}

/// A consuming iterator over a foreign array.
pub struct JuceArrayIter<T> {
    items: Vec<T>,
}

impl<T> JuceArrayIter<T> {
    /// The elements not yet handed out, in order.
    pub closed spec fn remaining(&self) -> Seq<T> {
        self.items@
    }

    /// Hands out the next element, or `None` once all have been.
    pub fn next(&mut self) -> (r: Option<T>)
        ensures
            old(self).remaining().len() == 0 ==> r is None && final(self).remaining()
                == old(self).remaining(),
            old(self).remaining().len() > 0 ==> r == Some(old(self).remaining()[0])
                && final(self).remaining() == old(self).remaining().drop_first(),
    {
        if self.items.len() == 0 {
            return None;
        }
        let v = self.items.remove(0);
        assert(self.items@ =~= old(self).remaining().drop_first());
        Some(v)
    }
}

} // verus!
