//! The std140 scalar types: boolean, 32-bit signed and unsigned integers,
//! and single- and double-precision floating-point data carried as raw bit
//! patterns. Every scalar is its own std140 form.

use vstd::prelude::*;

use crate::align::Align4;
use crate::align::Align8;
use crate::layout::ScalarKind;
use crate::layout::spec_scalar_align;
use crate::layout::spec_scalar_size;
use crate::uniform::Std140;
use crate::uniform::Std140Layout;
use crate::uniform::Uniform;

verus! {

/// Marker capability of the five scalar kinds. Every scalar is its own
/// std140 form, is aligned exactly to its own size, and is 4 or 8 bytes
/// wide; the two associated markers name the alignment its 2-vector and
/// its 3- and 4-vectors require.
pub trait Scalar: Std140 + Copy {
    /// Alignment marker of the 2-vector of this scalar.
    type Align2: Copy;

    /// Alignment marker of the 3- and 4-vectors of this scalar.
    type Align34: Copy;

    /// The scalar kind this type stores.
    spec fn spec_kind() -> ScalarKind;

    /// A scalar's base alignment equals its byte size, which is 4 or 8,
    /// and both agree with the kind model.
    proof fn scalar_wf()
        ensures
            Self::spec_align() == Self::spec_size(),
            Self::spec_size() == 4 || Self::spec_size() == 8,
            Self::spec_size() == spec_scalar_size(Self::spec_kind()),
            Self::spec_align() == spec_scalar_align(Self::spec_kind()),
    ;
}

/// Every scalar kind is aligned exactly to its own byte size.
pub proof fn lemma_scalar_align_matches_size<T: Scalar>()
    ensures
        T::spec_align() == T::spec_size(),
{
    T::scalar_wf();
}

/// A scalar's byte image determines it: decoding the little-endian bytes
/// of a `boolean`, `float` or `u32` value gives back its stored word, so
/// reading a field's bytes out of an aggregate recovers the value bit for
/// bit.
pub proof fn lemma_u32_raw_recovers(x: u32)
    ensures
        vstd::bytes::spec_u32_from_le_bytes(x.spec_raw()) == x,
{
    vstd::bytes::lemma_auto_spec_u32_to_from_le_bytes();
    assert(vstd::bytes::spec_u32_to_le_bytes(x).len() == 4);
}

/// Decoding the byte image of a `boolean` gives back its stored word.
pub proof fn lemma_boolean_raw_recovers(x: boolean)
    ensures
        vstd::bytes::spec_u32_from_le_bytes(x.spec_raw()) == x.0,
{
    vstd::bytes::lemma_auto_spec_u32_to_from_le_bytes();
    assert(vstd::bytes::spec_u32_to_le_bytes(x.0).len() == 4);
}

/// Decoding the byte image of a `float` gives back its stored bits.
pub proof fn lemma_float_raw_recovers(x: float)
    ensures
        vstd::bytes::spec_u32_from_le_bytes(x.spec_raw()) == x.0,
{
    vstd::bytes::lemma_auto_spec_u32_to_from_le_bytes();
    assert(vstd::bytes::spec_u32_to_le_bytes(x.0).len() == 4);
}

/// Decoding the byte image of a `double` gives back its stored bits.
pub proof fn lemma_double_raw_recovers(x: double)
    ensures
        vstd::bytes::spec_u64_from_le_bytes(x.spec_raw()) == x.0,
{
    vstd::bytes::lemma_auto_spec_u64_to_from_le_bytes();
    assert(vstd::bytes::spec_u64_to_le_bytes(x.0).len() == 8);
}

/// Decoding the byte image of an `i32` gives back its bit pattern.
pub proof fn lemma_i32_raw_recovers(x: i32)
    ensures
        vstd::bytes::spec_u32_from_le_bytes(x.spec_raw()) == x as u32,
{
    vstd::bytes::lemma_auto_spec_u32_to_from_le_bytes();
    assert(vstd::bytes::spec_u32_to_le_bytes(x as u32).len() == 4);
}

/// Boolean value, stored as a 32-bit unsigned integer on the wire:
/// `false` is 0, `true` is 1, and any nonzero stored value reads as `true`.
#[derive(Clone, Copy, Debug, PartialEq, Eq, Structural)]
pub struct boolean(pub u32);

impl boolean {
    /// Create `boolean` from `bool`.
    pub fn new(value: bool) -> (r: Self)
        ensures
            r.0 == (if value {
                1u32
            } else {
                0u32
            }),
    {
        if value {
            boolean(1)
        } else {
            boolean(0)
        }
    }

    /// The truth value: any nonzero stored representation reads as true.
    pub fn as_bool(&self) -> (r: bool)
        ensures
            r == (self.0 != 0),
    {
        self.0 != 0
    }
}

impl Uniform for boolean {
    type Align = Align4;

    type Std140 = boolean;

    open spec fn spec_std140_raw(&self) -> Seq<u8> {
        self.spec_raw()
    }

    fn std140(&self) -> (r: boolean)
        ensures
            r == *self,
    {
        *self
    }
}

impl Std140Layout for boolean {
    open spec fn spec_align() -> int {
        4
    }

    open spec fn spec_size() -> int {
        4
    }

    open spec fn spec_raw(&self) -> Seq<u8> {
        vstd::bytes::spec_u32_to_le_bytes(self.0)
    }

    proof fn layout_wf() {
    }

    proof fn raw_wf(&self) {
        vstd::bytes::lemma_auto_spec_u32_to_from_le_bytes();
    }

    fn align() -> (r: usize) {
        4
    }

}

impl Scalar for boolean {
    type Align2 = crate::align::Align8;

    type Align34 = crate::align::Align16;

    open spec fn spec_kind() -> ScalarKind {
        ScalarKind::Boolean
    }

    proof fn scalar_wf() {
    }
}

impl Std140 for boolean {
    proof fn idempotent(&self) {
    }

    fn as_raw(&self) -> (r: Vec<u8>) {
        vstd::bytes::u32_to_le_bytes(self.0)
    }
}

/// Single-precision floating-point value, carried as its raw bit pattern.
#[derive(Clone, Copy, Debug, PartialEq, Eq, Structural)]
pub struct float(pub u32);

impl Uniform for float {
    type Align = Align4;

    type Std140 = float;

    open spec fn spec_std140_raw(&self) -> Seq<u8> {
        self.spec_raw()
    }

    fn std140(&self) -> (r: float)
        ensures
            r == *self,
    {
        *self
    }
}

impl Std140Layout for float {
    open spec fn spec_align() -> int {
        4
    }

    open spec fn spec_size() -> int {
        4
    }

    open spec fn spec_raw(&self) -> Seq<u8> {
        vstd::bytes::spec_u32_to_le_bytes(self.0)
    }

    proof fn layout_wf() {
    }

    proof fn raw_wf(&self) {
        vstd::bytes::lemma_auto_spec_u32_to_from_le_bytes();
    }

    fn align() -> (r: usize) {
        4
    }
}

impl Scalar for float {
    type Align2 = crate::align::Align8;

    type Align34 = crate::align::Align16;

    open spec fn spec_kind() -> ScalarKind {
        ScalarKind::Float
    }

    proof fn scalar_wf() {
    }
}

impl Std140 for float {
    proof fn idempotent(&self) {
    }

    fn as_raw(&self) -> (r: Vec<u8>) {
        vstd::bytes::u32_to_le_bytes(self.0)
    }
}

/// Double-precision floating-point value, carried as its raw bit pattern.
#[derive(Clone, Copy, Debug, PartialEq, Eq, Structural)]
pub struct double(pub u64);

impl Uniform for double {
    type Align = Align8;

    type Std140 = double;

    open spec fn spec_std140_raw(&self) -> Seq<u8> {
        self.spec_raw()
    }

    fn std140(&self) -> (r: double)
        ensures
            r == *self,
    {
        *self
    }
}

impl Std140Layout for double {
    open spec fn spec_align() -> int {
        8
    }

    open spec fn spec_size() -> int {
        8
    }

    open spec fn spec_raw(&self) -> Seq<u8> {
        vstd::bytes::spec_u64_to_le_bytes(self.0)
    }

    proof fn layout_wf() {
    }

    proof fn raw_wf(&self) {
        vstd::bytes::lemma_auto_spec_u64_to_from_le_bytes();
    }

    fn align() -> (r: usize) {
        8
    }

}

impl Scalar for double {
    type Align2 = crate::align::Align16;

    type Align34 = crate::align::Align32;

    open spec fn spec_kind() -> ScalarKind {
        ScalarKind::Double
    }

    proof fn scalar_wf() {
    }
}

impl Std140 for double {
    proof fn idempotent(&self) {
    }

    fn as_raw(&self) -> (r: Vec<u8>) {
        vstd::bytes::u64_to_le_bytes(self.0)
    }
}

impl Uniform for i32 {
    type Align = Align4;

    type Std140 = i32;

    open spec fn spec_std140_raw(&self) -> Seq<u8> {
        self.spec_raw()
    }

    fn std140(&self) -> (r: i32)
        ensures
            r == *self,
    {
        *self
    }
}

impl Std140Layout for i32 {
    open spec fn spec_align() -> int {
        4
    }

    open spec fn spec_size() -> int {
        4
    }

    open spec fn spec_raw(&self) -> Seq<u8> {
        vstd::bytes::spec_u32_to_le_bytes(*self as u32)
    }

    proof fn layout_wf() {
    }

    proof fn raw_wf(&self) {
        vstd::bytes::lemma_auto_spec_u32_to_from_le_bytes();
    }

    fn align() -> (r: usize) {
        4
    }

}

impl Scalar for i32 {
    type Align2 = crate::align::Align8;

    type Align34 = crate::align::Align16;

    open spec fn spec_kind() -> ScalarKind {
        ScalarKind::Int
    }

    proof fn scalar_wf() {
    }
}

impl Std140 for i32 {
    proof fn idempotent(&self) {
    }

    fn as_raw(&self) -> (r: Vec<u8>) {
        vstd::bytes::u32_to_le_bytes(*self as u32)
    }
}

impl Uniform for u32 {
    type Align = Align4;

    type Std140 = u32;

    open spec fn spec_std140_raw(&self) -> Seq<u8> {
        self.spec_raw()
    }

    fn std140(&self) -> (r: u32)
        ensures
            r == *self,
    {
        *self
    }
}

impl Std140Layout for u32 {
    open spec fn spec_align() -> int {
        4
    }

    open spec fn spec_size() -> int {
        4
    }

    open spec fn spec_raw(&self) -> Seq<u8> {
        vstd::bytes::spec_u32_to_le_bytes(*self)
    }

    proof fn layout_wf() {
    }

    proof fn raw_wf(&self) {
        vstd::bytes::lemma_auto_spec_u32_to_from_le_bytes();
    }

    fn align() -> (r: usize) {
        4
    }

}

impl Scalar for u32 {
    type Align2 = crate::align::Align8;

    type Align34 = crate::align::Align16;

    open spec fn spec_kind() -> ScalarKind {
        ScalarKind::Uint
    }

    proof fn scalar_wf() {
    }
}

impl Std140 for u32 {
    proof fn idempotent(&self) {
    }

    fn as_raw(&self) -> (r: Vec<u8>) {
        vstd::bytes::u32_to_le_bytes(*self)
    }
}

} // verus!
