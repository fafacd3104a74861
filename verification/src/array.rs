//! The padding engine: every array slot wraps its element in a cell whose
//! alignment is the element's own std140 alignment rounded up to 16 bytes,
//! and whose size is the element's size rounded up to that slot alignment.
//! An `Array` is an ordered sequence of such slots; the stride between
//! consecutive slots is exactly the slot size.

use vstd::prelude::*;

use crate::align::Align16;
use crate::layout::lemma_round_up;
use crate::layout::round_up_to;
use crate::layout::spec_round_up;
use crate::uniform::Std140;
use crate::uniform::Std140Layout;
use crate::uniform::Uniform;
use crate::uniform::push_zeros;
use crate::uniform::spec_zeros;

verus! {

/// Aligning wrapper: one array slot, holding its element value followed by
/// the zero padding that brings the slot up to the array stride.
#[derive(Clone, Copy, Debug, PartialEq, Eq)]
pub struct Element<T>(pub T);

impl<T: Std140Layout> Std140Layout for Element<T> {
    open spec fn spec_align() -> int {
        spec_round_up(T::spec_align(), 16)
    }

    open spec fn spec_size() -> int {
        spec_round_up(T::spec_size(), spec_round_up(T::spec_align(), 16))
    }

    open spec fn spec_raw(&self) -> Seq<u8> {
        self.0.spec_raw() + spec_zeros(Self::spec_size() - T::spec_size())
    }

    proof fn layout_wf() {
        T::layout_wf();
        lemma_round_up(T::spec_size(), spec_round_up(T::spec_align(), 16));
    }

    proof fn raw_wf(&self) {
        T::layout_wf();
        self.0.raw_wf();
        lemma_round_up(T::spec_size(), spec_round_up(T::spec_align(), 16));
    }

    fn align() -> (r: usize) {
        proof {
            T::layout_wf();
        }
        let a = T::align();
        round_up_to(a, 16)
    }
}

impl<T: Uniform> Uniform for Element<T> {
    type Align = Align16;

    type Std140 = Element<T::Std140>;

    open spec fn spec_std140_raw(&self) -> Seq<u8> {
        self.0.spec_std140_raw() + spec_zeros(
            Element::<T::Std140>::spec_size() - T::Std140::spec_size(),
        )
    }

    fn std140(&self) -> (r: Element<T::Std140>) {
        Element(self.0.std140())
    }
}

impl<T: Std140> Std140 for Element<T> {
    proof fn idempotent(&self) {
        self.0.idempotent();
    }

    fn as_raw(&self) -> (r: Vec<u8>) {
        proof {
            T::layout_wf();
            self.0.raw_wf();
        }
        let mut out = self.0.as_raw();
        let a = T::align();
        let ealign = round_up_to(a, 16);
        let rem = out.len() % ealign;
        let pad: usize = if rem == 0 {
            0
        } else {
            ealign - rem
        };
        push_zeros(&mut out, pad);
        out
    }
}

/// Bytes of a sequence of slots, in order.
pub open spec fn spec_slots_raw<T: Std140Layout>(s: Seq<Element<T>>) -> Seq<u8>
    decreases s.len(),
{
    if s.len() == 0 {
        Seq::empty()
    } else {
        spec_slots_raw(s.drop_last()) + s.last().spec_raw()
    }
}

/// Bytes of the std140 forms of a sequence of slots, in order.
pub open spec fn spec_slots_std140_raw<T: Uniform>(s: Seq<Element<T>>) -> Seq<u8>
    decreases s.len(),
{
    if s.len() == 0 {
        Seq::empty()
    } else {
        spec_slots_std140_raw(s.drop_last()) + s.last().spec_std140_raw()
    }
}

/// A run of slots occupies one stride per slot.
pub proof fn lemma_slots_raw_len<T: Std140Layout>(s: Seq<Element<T>>)
    ensures
        spec_slots_raw(s).len() == s.len() * Element::<T>::spec_size(),
    decreases s.len(),
{
    let sz = Element::<T>::spec_size();
    if s.len() == 0 {
        assert(0 * sz == 0) by (nonlinear_arith);
    } else {
        lemma_slots_raw_len(s.drop_last());
        s.last().raw_wf();
        assert((s.len() - 1) * sz + sz == s.len() * sz) by (nonlinear_arith);
    }
}

/// Slot `i` of a run of slots sits at offset `i` strides: its bytes can be
/// read back from the concatenation at that offset.
pub proof fn lemma_slots_raw_index<T: Std140Layout>(s: Seq<Element<T>>, i: int)
    requires
        0 <= i < s.len(),
    ensures
        spec_slots_raw(s).subrange(
            i * Element::<T>::spec_size(),
            (i + 1) * Element::<T>::spec_size(),
        ) == s[i].spec_raw(),
    decreases s.len(),
{
    let sz = Element::<T>::spec_size();
    Element::<T>::layout_wf();
    lemma_slots_raw_len(s.drop_last());
    s.last().raw_wf();
    if i == s.len() - 1 {
        assert(spec_slots_raw(s).subrange(i * sz, (i + 1) * sz) =~= s[i].spec_raw()) by {
            assert((i + 1) * sz == i * sz + sz) by (nonlinear_arith);
        }
    } else {
        lemma_slots_raw_index(s.drop_last(), i);
        let p = spec_slots_raw(s.drop_last());
        let w = spec_slots_raw(s);
        assert((i + 1) * sz <= (s.len() - 1) * sz) by (nonlinear_arith)
            requires
                i + 1 <= s.len() - 1,
                sz >= 0,
        ;
        assert(i * sz >= 0 && i * sz <= (i + 1) * sz) by (nonlinear_arith)
            requires
                i >= 0,
                sz >= 0,
        ;
        assert(w.subrange(i * sz, (i + 1) * sz) =~= p.subrange(i * sz, (i + 1) * sz)) by {
            assert(w == p + s.last().spec_raw());
            assert forall|j: int| i * sz <= j < (i + 1) * sz implies #[trigger] w[j] == p[j] by {
                assert(j < p.len());
            }
        }
    }
}

/// `s` brought to exactly `size` bytes: truncated if longer, padded with
/// zeros if shorter. On byte images of the right length this is the
/// identity; it makes the byte image of an array total in its slot count.
pub open spec fn spec_fit(s: Seq<u8>, size: int) -> Seq<u8> {
    if s.len() >= size {
        s.take(size)
    } else {
        s + spec_zeros(size - s.len())
    }
}

/// On a byte image of exactly the right length, fitting changes nothing.
pub proof fn lemma_fit_exact(s: Seq<u8>, size: int)
    requires
        s.len() == size,
    ensures
        spec_fit(s, size) == s,
{
    assert(spec_fit(s, size) =~= s);
}

/// Converting slots that are already in std140 form leaves every byte
/// unchanged.
pub proof fn lemma_slots_idempotent<T: Std140>(s: Seq<Element<T>>)
    ensures
        spec_slots_std140_raw(s) == spec_slots_raw(s),
    decreases s.len(),
{
    if s.len() > 0 {
        lemma_slots_idempotent(s.drop_last());
        s.last().idempotent();
    }
}

/// Array of `N` padded slots. The stride between consecutive slots is the
/// element's std140 alignment rounded up to 16, applied to its size; the
/// array's own base alignment is the element's alignment rounded up to 16.
#[derive(Debug, PartialEq, Eq)]
pub struct Array<T, const N: usize> {
    elems: Vec<Element<T>>,
}

impl<T, const N: usize> Array<T, N> {
    /// An array always holds exactly `N` slots.
    #[verifier::type_invariant]
    spec fn inv(self) -> bool {
        self.elems@.len() == N
    }

    /// The backing slots.
    pub closed spec fn slots(&self) -> Seq<Element<T>> {
        self.elems@
    }

    /// The number of slots.
    pub fn len(&self) -> (r: usize)
        ensures
            r == self.slots().len(),
            r == N,
    {
        proof {
            use_type_invariant(self);
        }
        self.elems.len()
    }

    /// Wrap a backing vector of slots.
    pub fn new(elems: Vec<Element<T>>) -> (r: Self)
        requires
            elems@.len() == N,
        ensures
            r.slots() == elems@,
    {
        Array { elems }
    }

    /// Wrap each value in a padded slot, in order.
    pub fn from_values(values: Vec<T>) -> (r: Self) where T: Copy
        requires
            values@.len() == N,
        ensures
            r.slots().len() == N,
            forall|i: int| 0 <= i < N ==> r.slots()[i].0 == values@[i],
    {
        let mut elems: Vec<Element<T>> = Vec::new();
        let mut i: usize = 0;
        while i < values.len()
            invariant
                i <= values@.len(),
                values@.len() == N,
                elems@.len() == i,
                forall|j: int| 0 <= j < i ==> elems@[j].0 == values@[j],
            decreases values@.len() - i,
        {
            elems.push(Element(values[i]));
            i = i + 1;
        }
        Array { elems }
    }

    /// The unwrapped element value in slot `i`.
    pub fn get(&self, i: usize) -> (r: &T)
        requires
            i < N,
        ensures
            *r == self.slots()[i as int].0,
    {
        proof {
            use_type_invariant(self);
        }
        &self.elems[i].0
    }

    /// Replace the element value in slot `i`.
    pub fn set(&mut self, i: usize, value: T)
        requires
            i < N,
        ensures
            final(self).slots() == old(self).slots().update(i as int, Element(value)),
    {
        proof {
            use_type_invariant(&*self);
        }
        self.elems[i] = Element(value);
    }

    /// Borrowing iterator over the unwrapped element values, in order.
    pub fn iter(&self) -> (it: ArrayIter<'_, T, N>)
        ensures
            it.remaining() == self.slots(),
    {
        proof {
            use_type_invariant(self);
        }
        ArrayIter { arr: self, front: 0, back: self.elems.len() }
    }
}

impl<T: Std140Layout, const N: usize> Std140Layout for Array<T, N> {
    open spec fn spec_align() -> int {
        spec_round_up(T::spec_align(), 16)
    }

    open spec fn spec_size() -> int {
        N * Element::<T>::spec_size()
    }

    open spec fn spec_raw(&self) -> Seq<u8> {
        spec_fit(spec_slots_raw(self.slots()), N * Element::<T>::spec_size())
    }

    proof fn layout_wf() {
        T::layout_wf();
        Element::<T>::layout_wf();
        assert(N as int * Element::<T>::spec_size() >= 0) by (nonlinear_arith)
            requires
                Element::<T>::spec_size() >= 0,
        ;
    }

    proof fn raw_wf(&self) {
        Self::layout_wf();
    }

    fn align() -> (r: usize) {
        proof {
            T::layout_wf();
        }
        let a = T::align();
        round_up_to(a, 16)
    }
}

impl<T: Uniform, const N: usize> Uniform for Array<T, N> {
    type Align = Align16;

    type Std140 = Array<T::Std140, N>;

    open spec fn spec_std140_raw(&self) -> Seq<u8> {
        spec_fit(
            spec_slots_std140_raw(self.slots()),
            N * Element::<T::Std140>::spec_size(),
        )
    }

    fn std140(&self) -> (r: Array<T::Std140, N>) {
        proof {
            use_type_invariant(self);
        }
        let mut out: Vec<Element<T::Std140>> = Vec::new();
        let mut i: usize = 0;
        while i < self.elems.len()
            invariant
                i <= self.elems@.len(),
                out@.len() == i,
                spec_slots_raw(out@) == spec_slots_std140_raw(self.elems@.take(i as int)),
            decreases self.elems@.len() - i,
        {
            let e = self.elems[i].std140();
            let ghost prev = out@;
            out.push(e);
            proof {
                assert(out@.drop_last() =~= prev);
                assert(self.elems@.take(i as int + 1).drop_last() =~= self.elems@.take(i as int));
            }
            i = i + 1;
        }
        proof {
            assert(self.elems@.take(self.elems@.len() as int) =~= self.elems@);
        }
        Array { elems: out }
    }
}

impl<T: Std140, const N: usize> Std140 for Array<T, N> {
    proof fn idempotent(&self) {
        lemma_slots_idempotent(self.slots());
    }

    fn as_raw(&self) -> (r: Vec<u8>) {
        proof {
            use_type_invariant(self);
        }
        let mut out: Vec<u8> = Vec::new();
        let mut i: usize = 0;
        while i < self.elems.len()
            invariant
                i <= self.elems@.len(),
                out@ == spec_slots_raw(self.elems@.take(i as int)),
            decreases self.elems@.len() - i,
        {
            let mut bytes = self.elems[i].as_raw();
            out.append(&mut bytes);
            proof {
                assert(self.elems@.take(i as int + 1).drop_last() =~= self.elems@.take(i as int));
            }
            i = i + 1;
        }
        proof {
            assert(self.elems@.take(self.elems@.len() as int) =~= self.elems@);
            lemma_slots_raw_len(self.elems@);
            lemma_fit_exact(spec_slots_raw(self.elems@), N * Element::<T>::spec_size());
        }
        out
    }
}

/// An array type is aligned to its element's alignment rounded up to 16
/// bytes, with a floor of 16, whatever its length.
pub proof fn lemma_array_type_align<T: Std140Layout, const N: usize>()
    ensures
        Array::<T, N>::spec_align() == spec_round_up(T::spec_align(), 16),
        Array::<T, N>::spec_align() >= 16,
{
    T::layout_wf();
}

/// The array types realize the array kinds: an array of `N` scalars has
/// exactly the alignment and size the kind model gives it.
pub proof fn lemma_array_matches_kind<T: crate::scalar::Scalar, const N: usize>()
    ensures
        Array::<T, N>::spec_align() == crate::layout::spec_align_of(
            crate::layout::Kind::Array(
                Box::new(crate::layout::Kind::Scalar(T::spec_kind())),
                N,
            ),
        ),
        Array::<T, N>::spec_size() == crate::layout::spec_size_of(
            crate::layout::Kind::Array(
                Box::new(crate::layout::Kind::Scalar(T::spec_kind())),
                N,
            ),
        ),
{
    T::scalar_wf();
    reveal_with_fuel(crate::layout::spec_align_of, 3);
    reveal_with_fuel(crate::layout::spec_size_of, 3);
}

/// Slot `i` of an array's byte image sits at offset `i` strides: reading
/// the stride's worth of bytes back at that offset recovers the slot's
/// image, element value and padding alike.
pub proof fn lemma_array_slot_recovery<T: Std140Layout, const N: usize>(a: &Array<T, N>, i: int)
    requires
        a.slots().len() == N,
        0 <= i < N,
    ensures
        a.spec_raw().subrange(
            i * Element::<T>::spec_size(),
            (i + 1) * Element::<T>::spec_size(),
        ) == a.slots()[i].spec_raw(),
{
    lemma_slots_raw_len(a.slots());
    lemma_fit_exact(spec_slots_raw(a.slots()), N * Element::<T>::spec_size());
    lemma_slots_raw_index(a.slots(), i);
}

/// Iterator over references to the unwrapped element values of an `Array`,
/// in index order; supports forward and backward traversal and reports its
/// exact remaining length.
pub struct ArrayIter<'a, T, const N: usize> {
    arr: &'a Array<T, N>,
    front: usize,
    back: usize,
}

impl<'a, T, const N: usize> ArrayIter<'a, T, N> {
    /// The traversal never leaves the array's bounds.
    #[verifier::type_invariant]
    spec fn inv(self) -> bool {
        self.front <= self.back <= self.arr.slots().len()
    }

    /// The slots not yet handed out, in order.
    pub closed spec fn remaining(&self) -> Seq<Element<T>> {
        self.arr.slots().subrange(self.front as int, self.back as int)
    }

    /// The number of values the iterator will still hand out.
    pub fn len(&self) -> (r: usize)
        ensures
            r == self.remaining().len(),
    {
        proof {
            use_type_invariant(self);
        }
        self.back - self.front
    }

    /// The next element value from the front, or `None` when exhausted.
    pub fn next(&mut self) -> (r: Option<&'a T>)
        ensures
            old(self).remaining().len() == 0 ==> r is None && final(self).remaining()
                == old(self).remaining(),
            old(self).remaining().len() > 0 ==> (match r {
                Some(v) => *v == old(self).remaining()[0].0 && final(self).remaining() == old(
                    self,
                ).remaining().drop_first(),
                None => false,
            }),
    {
        proof {
            use_type_invariant(&*self);
            use_type_invariant(self.arr);
        }
        if self.front < self.back {
            let arr = self.arr;
            let item = &arr.elems[self.front].0;
            self.front = self.front + 1;
            proof {
                assert(final(self).remaining() =~= old(self).remaining().drop_first());
            }
            Some(item)
        } else {
            None
        }
    }

    /// The next element value from the back, or `None` when exhausted.
    pub fn next_back(&mut self) -> (r: Option<&'a T>)
        ensures
            old(self).remaining().len() == 0 ==> r is None && final(self).remaining()
                == old(self).remaining(),
            old(self).remaining().len() > 0 ==> (match r {
                Some(v) => *v == old(self).remaining().last().0 && final(self).remaining()
                    == old(self).remaining().drop_last(),
                None => false,
            }),
    {
        proof {
            use_type_invariant(&*self);
            use_type_invariant(self.arr);
        }
        if self.front < self.back {
            let arr = self.arr;
            self.back = self.back - 1;
            let item = &arr.elems[self.back].0;
            proof {
                assert(final(self).remaining() =~= old(self).remaining().drop_last());
            }
            Some(item)
        } else {
            None
        }
    }
}

} // verus!
