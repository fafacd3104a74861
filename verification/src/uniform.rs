//! The capabilities every data kind of this crate provides: a known std140
//! layout (`Std140Layout`), conversion into std140 form (`Uniform`), and,
//! for types already in that form, the raw-byte view (`Std140`).

use vstd::prelude::*;

verus! {

/// A run of `n` zero bytes, used for padding.
pub open spec fn spec_zeros(n: int) -> Seq<u8> {
    Seq::new(
        if n >= 0 {
            n as nat
        } else {
            0
        },
        |i: int| 0u8,
    )
}

/// A type with a known std140 layout: base alignment, byte size, and the
/// exact bytes each value occupies on the wire.
pub trait Std140Layout: Sized {
    /// std140 base alignment of this type, in bytes.
    spec fn spec_align() -> int;

    /// Byte size of this type on the wire.
    spec fn spec_size() -> int;

    /// The exact bytes of this value on the wire.
    spec fn spec_raw(&self) -> Seq<u8>;

    /// The alignment is one of the four std140 alignments and the size is
    /// non-negative.
    proof fn layout_wf()
        ensures
            Self::spec_align() == 4 || Self::spec_align() == 8 || Self::spec_align() == 16
                || Self::spec_align() == 32,
            Self::spec_size() >= 0,
    ;

    /// The byte image covers exactly `spec_size` bytes.
    proof fn raw_wf(&self)
        ensures
            self.spec_raw().len() == Self::spec_size(),
    ;

    /// std140 base alignment of this type, in bytes.
    fn align() -> (r: usize)
        ensures
            r == Self::spec_align(),
    ;
}

/// Conversion of host data into its std140 form.
///
/// Every kind that participates in a uniform block names the zero-sized
/// marker of its required alignment, its std140 target type, and the
/// conversion into that target, pinned down by the bytes the target will
/// show: `std140` returns a value whose byte image is exactly
/// `spec_std140_raw` of the source.
pub trait Uniform: Sized {
    /// Zero-sized marker carrying the required alignment of this kind.
    type Align: Copy;

    /// Type holding the same data with the std140 layout.
    type Std140: Std140Layout;

    /// The bytes of the std140 form of this value.
    spec fn spec_std140_raw(&self) -> Seq<u8>;

    /// Convert this value to its std140 form.
    fn std140(&self) -> (r: Self::Std140)
        ensures
            r.spec_raw() == self.spec_std140_raw(),
    ;
}

/// Marker capability of types that are already in std140 form: their own
/// conversion target is themselves, converting them again leaves the bytes
/// unchanged, and their memory image may be taken as raw bytes for upload.
/// Only types whose layout this crate derives implement it, so the byte
/// image is valid std140 by construction.
pub trait Std140: Std140Layout + Uniform<Std140 = Self> {
    /// Converting an already-std140 value once more leaves its bytes
    /// unchanged.
    proof fn idempotent(&self)
        ensures
            self.spec_std140_raw() == self.spec_raw(),
    ;

    /// The bytes of this value, ready to upload: exactly `spec_raw`.
    fn as_raw(&self) -> (r: Vec<u8>)
        ensures
            r@ == self.spec_raw(),
    ;
}

/// Append `count` zero bytes to `out`.
pub fn push_zeros(out: &mut Vec<u8>, count: usize)
    ensures
        final(out)@ == old(out)@ + spec_zeros(count as int),
{
    let mut i: usize = 0;
    while i < count
        invariant
            i <= count,
            out@ == old(out)@ + spec_zeros(i as int),
        decreases count - i,
    {
        out.push(0);
        proof {
            assert(out@ =~= old(out)@ + spec_zeros(i as int + 1));
        }
        i = i + 1;
    }
}

/// Re-running the conversion on an already-std140 value returns a value
/// with identical bytes: the raw view is stable under repeated conversion.
pub proof fn lemma_std140_idempotent<T: Std140>(x: &T)
    ensures
        x.spec_std140_raw() == x.spec_raw(),
{
    x.idempotent();
}

} // verus!
