//! The std140 layout rules: base alignment, byte size and array stride of
//! every data kind, as pure functions.

use vstd::prelude::*;

verus! {

/// The five scalar kinds of a std140 uniform block. `Boolean` is stored as a
/// 32-bit unsigned integer on the wire; `Float` and `Double` denote single-
/// and double-precision floating-point data, carried by this crate as raw
/// bit patterns.
#[derive(Clone, Copy, Debug, PartialEq, Eq, Structural)]
pub enum ScalarKind {
    Boolean,
    Int,
    Uint,
    Float,
    Double,
}

/// Byte size of a scalar: 4 for the 32-bit kinds, 8 for `Double`.
pub open spec fn spec_scalar_size(s: ScalarKind) -> int {
    match s {
        ScalarKind::Double => 8,
        _ => 4,
    }
}

/// std140 base alignment of a scalar, equal to its size.
pub open spec fn spec_scalar_align(s: ScalarKind) -> int {
    match s {
        ScalarKind::Double => 8,
        _ => 4,
    }
}

/// Every scalar kind is aligned exactly to its own size.
pub proof fn lemma_scalar_align_eq_size(s: ScalarKind)
    ensures
        spec_scalar_align(s) == spec_scalar_size(s),
{
}

/// Byte size of a scalar kind.
pub fn scalar_size(s: ScalarKind) -> (r: usize)
    ensures
        r == spec_scalar_size(s),
{
    match s {
        ScalarKind::Double => 8,
        _ => 4,
    }
}

/// std140 base alignment of a scalar kind.
pub fn scalar_align(s: ScalarKind) -> (r: usize)
    ensures
        r == spec_scalar_align(s),
{
    match s {
        ScalarKind::Double => 8,
        _ => 4,
    }
}

/// The least multiple of `align` that is at least `offset`.
pub open spec fn spec_round_up(offset: int, align: int) -> int
    recommends
        align > 0,
{
    if offset % align == 0 {
        offset
    } else {
        offset + align - offset % align
    }
}

/// Rounding up lands on a multiple of `align` within `align - 1` bytes.
pub proof fn lemma_round_up(offset: int, align: int)
    requires
        align > 0,
        offset >= 0,
    ensures
        offset <= spec_round_up(offset, align),
        spec_round_up(offset, align) < offset + align,
        spec_round_up(offset, align) % align == 0,
{
    let r = offset % align;
    vstd::arithmetic::div_mod::lemma_mod_bound(offset, align);
    if r != 0 {
        vstd::arithmetic::div_mod::lemma_fundamental_div_mod(offset, align);
        assert(offset + align - r == align * (offset / align) + align) by {
            assert(offset == align * (offset / align) + r);
        }
        assert((align * (offset / align) + align) % align == 0) by {
            vstd::arithmetic::div_mod::lemma_mod_multiples_basic(offset / align + 1, align);
            assert(align * (offset / align) + align == (offset / align + 1) * align) by (nonlinear_arith);
        }
    }
}

/// The least multiple of `align` that is at least `offset`.
pub fn round_up_to(offset: usize, align: usize) -> (r: usize)
    requires
        align > 0,
        spec_round_up(offset as int, align as int) <= usize::MAX,
    ensures
        r == spec_round_up(offset as int, align as int),
{
    let rem = offset % align;
    if rem == 0 {
        offset
    } else {
        offset + (align - rem)
    }
}

/// Description of a std140 data kind. A matrix of `C` columns and `R` rows
/// is laid out exactly like an array of `C` column vectors of length `R`.
/// `Structure` stands for an aggregate whose base alignment and size have
/// already been settled by the aggregate rules.
#[derive(Debug, PartialEq, Eq)]
pub enum Kind {
    Scalar(ScalarKind),
    Vector(ScalarKind, usize),
    Matrix(ScalarKind, usize, usize),
    Array(Box<Kind>, usize),
    Structure { align: usize, size: usize },
}

/// The kind describes a type the std140 rules know: vector lengths and
/// matrix dimensions are 2, 3 or 4, and an aggregate's alignment is a
/// multiple of 16 that divides its size.
pub open spec fn spec_kind_wf(k: Kind) -> bool
    decreases k,
{
    match k {
        Kind::Scalar(_) => true,
        Kind::Vector(_, n) => 2 <= n <= 4,
        Kind::Matrix(_, c, r) => 2 <= c <= 4 && 2 <= r <= 4,
        Kind::Array(e, _) => spec_kind_wf(*e),
        Kind::Structure { align, size } => (align == 16 || align == 32) && (size as int) % (
        align as int) == 0,
    }
}

/// Base alignment of a vector: twice the scalar size for 2-vectors, four
/// times the scalar size for 3- and 4-vectors. The 3-vector case is the
/// defining std140 asymmetry: it occupies the alignment of the 4-vector.
pub open spec fn spec_vector_align(s: ScalarKind, n: int) -> int {
    if n == 2 {
        2 * spec_scalar_size(s)
    } else {
        4 * spec_scalar_size(s)
    }
}

/// Byte size of a vector: the elements stored contiguously, no padding.
pub open spec fn spec_vector_size(s: ScalarKind, n: int) -> int {
    n * spec_scalar_size(s)
}

/// Stride of an array slot holding a value of the given size and alignment:
/// the slot is aligned to the value's alignment rounded up to 16, and the
/// value's size is rounded up to that slot alignment.
pub open spec fn spec_stride_from(size: int, align: int) -> int {
    spec_round_up(size, spec_round_up(align, 16))
}

/// std140 base alignment of a kind.
pub open spec fn spec_align_of(k: Kind) -> int
    decreases k,
{
    match k {
        Kind::Scalar(s) => spec_scalar_align(s),
        Kind::Vector(s, n) => spec_vector_align(s, n as int),
        Kind::Matrix(s, _, r) => spec_round_up(spec_vector_align(s, r as int), 16),
        Kind::Array(e, _) => spec_round_up(spec_align_of(*e), 16),
        Kind::Structure { align, .. } => align as int,
    }
}

/// Byte size of a kind. An array of `n` slots covers `n` strides of its
/// element kind; a matrix is the array of its column vectors.
pub open spec fn spec_size_of(k: Kind) -> int
    decreases k,
{
    match k {
        Kind::Scalar(s) => spec_scalar_size(s),
        Kind::Vector(s, n) => spec_vector_size(s, n as int),
        Kind::Matrix(s, c, r) => c * spec_stride_from(
            spec_vector_size(s, r as int),
            spec_vector_align(s, r as int),
        ),
        Kind::Array(e, n) => n * spec_stride_from(spec_size_of(*e), spec_align_of(*e)),
        Kind::Structure { size, .. } => size as int,
    }
}

/// Stride between consecutive array slots of this element kind.
pub open spec fn spec_stride_of(k: Kind) -> int {
    spec_stride_from(spec_size_of(k), spec_align_of(k))
}

/// The alignment of every well-formed kind is 4, 8, 16 or 32 bytes.
pub proof fn lemma_align_of_bounds(k: Kind)
    requires
        spec_kind_wf(k),
    ensures
        spec_align_of(k) == 4 || spec_align_of(k) == 8 || spec_align_of(k) == 16
            || spec_align_of(k) == 32,
    decreases k,
{
    match k {
        Kind::Array(e, _) => {
            lemma_align_of_bounds(*e);
        },
        _ => {},
    }
}

/// The two-vector is aligned to twice the scalar size, the 3- and 4-vectors
/// to four times the scalar size; a 3-vector occupies the alignment of the
/// 4-vector of the same scalar, but not its size.
pub proof fn lemma_kind_vector_align(s: ScalarKind)
    ensures
        spec_align_of(Kind::Vector(s, 2)) == 2 * spec_scalar_size(s),
        spec_align_of(Kind::Vector(s, 3)) == 4 * spec_scalar_size(s),
        spec_align_of(Kind::Vector(s, 4)) == 4 * spec_scalar_size(s),
        spec_align_of(Kind::Vector(s, 3)) == spec_align_of(Kind::Vector(s, 4)),
        spec_size_of(Kind::Vector(s, 3)) != spec_size_of(Kind::Vector(s, 4)),
{
}

/// An array is aligned to its element's alignment rounded up to 16, with a
/// floor of 16, whatever its length.
pub proof fn lemma_array_align_rule(e: Kind, n: usize)
    requires
        spec_kind_wf(e),
    ensures
        spec_align_of(Kind::Array(Box::new(e), n)) == spec_round_up(spec_align_of(e), 16),
        spec_align_of(Kind::Array(Box::new(e), n)) >= 16,
{
    lemma_align_of_bounds(e);
}

/// A matrix of `c` columns and `r` rows has exactly the alignment and size
/// of an array of `c` column vectors of length `r`.
pub proof fn lemma_matrix_matches_column_array(s: ScalarKind, c: usize, r: usize)
    ensures
        spec_align_of(Kind::Matrix(s, c, r)) == spec_align_of(
            Kind::Array(Box::new(Kind::Vector(s, r)), c),
        ),
        spec_size_of(Kind::Matrix(s, c, r)) == spec_size_of(
            Kind::Array(Box::new(Kind::Vector(s, r)), c),
        ),
{
    reveal_with_fuel(spec_align_of, 3);
    reveal_with_fuel(spec_size_of, 3);
}

/// The size of every well-formed kind is non-negative.
pub proof fn lemma_size_of_nonneg(k: Kind)
    requires
        spec_kind_wf(k),
    ensures
        spec_size_of(k) >= 0,
    decreases k,
{
    match k {
        Kind::Matrix(s, c, r) => {
            lemma_round_up(spec_vector_size(s, r as int), spec_round_up(
                spec_vector_align(s, r as int),
                16,
            ));
        },
        Kind::Array(e, n) => {
            lemma_size_of_nonneg(*e);
            lemma_align_of_bounds(*e);
            let stride = spec_stride_from(spec_size_of(*e), spec_align_of(*e));
            lemma_round_up(spec_size_of(*e), spec_round_up(spec_align_of(*e), 16));
            assert(stride >= 0);
            assert(n as int * stride >= 0) by (nonlinear_arith)
                requires
                    stride >= 0,
                    n >= 0,
            ;
        },
        _ => {},
    }
}

/// A product of `n` factors of size `stride` stays within `max` exactly when
/// `n` is at most `max / stride`.
proof fn lemma_mul_within(n: int, stride: int, max: int)
    requires
        n >= 0,
        stride > 0,
        max >= 0,
    ensures
        n <= max / stride ==> n * stride <= max,
        n > max / stride ==> n * stride > max,
{
    let q = max / stride;
    vstd::arithmetic::div_mod::lemma_fundamental_div_mod(max, stride);
    vstd::arithmetic::div_mod::lemma_mod_bound(max, stride);
    assert(n <= q ==> n * stride <= q * stride) by (nonlinear_arith)
        requires
            stride > 0,
    ;
    assert(q * stride == max - max % stride);
    assert(n >= q + 1 ==> n * stride >= (q + 1) * stride) by (nonlinear_arith)
        requires
            stride > 0,
    ;
    assert((q + 1) * stride == q * stride + stride) by (nonlinear_arith);
}

/// With at least one slot, the whole array is at least as large as one slot.
proof fn lemma_mul_ge_one(n: int, stride: int)
    requires
        n >= 1,
        stride >= 0,
    ensures
        n * stride >= stride,
{
    assert(n * stride >= stride) by (nonlinear_arith)
        requires
            n >= 1,
            stride >= 0,
    ;
}

/// std140 base alignment of a kind, in bytes.
pub fn align_of_kind(k: &Kind) -> (r: usize)
    requires
        spec_kind_wf(*k),
    ensures
        r == spec_align_of(*k),
    decreases *k,
{
    match k {
        Kind::Scalar(s) => scalar_align(*s),
        Kind::Vector(s, n) => {
            let sz = scalar_size(*s);
            if *n == 2 {
                2 * sz
            } else {
                4 * sz
            }
        },
        Kind::Matrix(s, _, r) => {
            let sz = scalar_size(*s);
            let va = if *r == 2 {
                2 * sz
            } else {
                4 * sz
            };
            round_up_to(va, 16)
        },
        Kind::Array(e, _) => {
            proof {
                lemma_align_of_bounds(**e);
            }
            let a = align_of_kind(e);
            round_up_to(a, 16)
        },
        Kind::Structure { align, .. } => *align,
    }
}

/// Byte size of a kind, or `None` where the size does not fit in `usize`.
pub fn size_of_kind(k: &Kind) -> (r: Option<usize>)
    requires
        spec_kind_wf(*k),
    ensures
        match r {
            Some(v) => v == spec_size_of(*k),
            None => spec_size_of(*k) > usize::MAX,
        },
    decreases *k,
{
    match k {
        Kind::Scalar(s) => Some(scalar_size(*s)),
        Kind::Vector(s, n) => {
            let sz = scalar_size(*s);
            let vsize: usize = if *n == 2 {
                2 * sz
            } else if *n == 3 {
                3 * sz
            } else {
                4 * sz
            };
            Some(vsize)
        },
        Kind::Matrix(s, c, r) => {
            let sz = scalar_size(*s);
            let vsize: usize = if *r == 2 {
                2 * sz
            } else if *r == 3 {
                3 * sz
            } else {
                4 * sz
            };
            let valign = if *r == 2 {
                2 * sz
            } else {
                4 * sz
            };
            let ealign = round_up_to(valign, 16);
            proof {
                lemma_round_up(vsize as int, ealign as int);
            }
            let stride = round_up_to(vsize, ealign);
            assert(stride < vsize + ealign);
            let total: usize = if *c == 2 {
                2 * stride
            } else if *c == 3 {
                3 * stride
            } else {
                4 * stride
            };
            Some(total)
        },
        Kind::Array(e, n) => {
            if *n == 0 {
                return Some(0);
            }
            proof {
                lemma_align_of_bounds(**e);
                lemma_size_of_nonneg(**e);
            }
            let a = align_of_kind(e);
            let ealign = round_up_to(a, 16);
            let esize = size_of_kind(e);
            match esize {
                None => {
                    proof {
                        lemma_round_up(spec_size_of(**e), ealign as int);
                        lemma_mul_ge_one(*n as int, spec_stride_of(**e));
                    }
                    None
                },
                Some(v) => {
                    let rem = v % ealign;
                    let stride: usize;
                    if rem == 0 {
                        stride = v;
                    } else {
                        let pad = ealign - rem;
                        if v > usize::MAX - pad {
                            proof {
                                lemma_mul_ge_one(*n as int, spec_stride_of(**e));
                            }
                            return None;
                        }
                        stride = v + pad;
                    }
                    if stride == 0 {
                        proof {
                            vstd::arithmetic::mul::lemma_mul_basics(*n as int);
                        }
                        Some(0)
                    } else if *n <= usize::MAX / stride {
                        proof {
                            lemma_mul_within(*n as int, stride as int, usize::MAX as int);
                        }
                        Some(*n * stride)
                    } else {
                        proof {
                            lemma_mul_within(*n as int, stride as int, usize::MAX as int);
                        }
                        None
                    }
                },
            }
        },
        Kind::Structure { size, .. } => Some(*size),
    }
}

/// Stride between consecutive slots of an array whose elements have this
/// kind, or `None` where it does not fit in `usize`.
pub fn stride_of_kind(k: &Kind) -> (r: Option<usize>)
    requires
        spec_kind_wf(*k),
    ensures
        match r {
            Some(v) => v == spec_stride_of(*k),
            None => spec_stride_of(*k) > usize::MAX,
        },
{
    proof {
        lemma_align_of_bounds(*k);
        lemma_size_of_nonneg(*k);
    }
    let a = align_of_kind(k);
    let ealign = round_up_to(a, 16);
    match size_of_kind(k) {
        None => {
            proof {
                lemma_round_up(spec_size_of(*k), ealign as int);
            }
            None
        },
        Some(v) => {
            let rem = v % ealign;
            if rem == 0 {
                Some(v)
            } else {
                let pad = ealign - rem;
                if v > usize::MAX - pad {
                    None
                } else {
                    Some(v + pad)
                }
            }
        },
    }
}

} // verus!
