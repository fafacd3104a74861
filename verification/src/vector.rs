//! Fixed-length homogeneous vectors of 2, 3 or 4 scalars, with the std140
//! alignment rule: a 2-vector aligns to twice the scalar size, a 3- or
//! 4-vector to four times the scalar size. A vector's bytes are its
//! elements stored contiguously in order, with no internal padding.

use vstd::prelude::*;

use crate::scalar::Scalar;
use crate::scalar::boolean;
use crate::scalar::double;
use crate::scalar::float;
use crate::uniform::Std140;
use crate::uniform::Std140Layout;
use crate::uniform::Uniform;

verus! {

/// Vector of 2 scalar values.
#[derive(Clone, Copy, Debug, PartialEq, Eq)]
pub struct Vector2<T>(pub [T; 2]);

/// Vector of 3 scalar values.
#[derive(Clone, Copy, Debug, PartialEq, Eq)]
pub struct Vector3<T>(pub [T; 3]);

/// Vector of 4 scalar values.
#[derive(Clone, Copy, Debug, PartialEq, Eq)]
pub struct Vector4<T>(pub [T; 4]);

impl<T: Scalar> Std140Layout for Vector2<T> {
    open spec fn spec_align() -> int {
        2 * T::spec_size()
    }

    open spec fn spec_size() -> int {
        2 * T::spec_size()
    }

    open spec fn spec_raw(&self) -> Seq<u8> {
        self.0[0].spec_raw() + self.0[1].spec_raw()
    }

    proof fn layout_wf() {
        T::scalar_wf();
    }

    proof fn raw_wf(&self) {
        T::scalar_wf();
        self.0[0].raw_wf();
        self.0[1].raw_wf();
    }

    fn align() -> (r: usize) {
        proof {
            T::scalar_wf();
        }
        2 * T::align()
    }
}

impl<T: Scalar> Uniform for Vector2<T> {
    type Align = T::Align2;

    type Std140 = Vector2<T>;

    open spec fn spec_std140_raw(&self) -> Seq<u8> {
        self.spec_raw()
    }

    fn std140(&self) -> (r: Vector2<T>)
        ensures
            r == *self,
    {
        *self
    }
}

impl<T: Scalar> Std140 for Vector2<T> {
    proof fn idempotent(&self) {
    }

    fn as_raw(&self) -> (r: Vec<u8>) {
        let mut out = self.0[0].as_raw();
        let mut tail = self.0[1].as_raw();
        out.append(&mut tail);
        out
    }
}

impl<T: Scalar> Std140Layout for Vector3<T> {
    open spec fn spec_align() -> int {
        4 * T::spec_size()
    }

    open spec fn spec_size() -> int {
        3 * T::spec_size()
    }

    open spec fn spec_raw(&self) -> Seq<u8> {
        self.0[0].spec_raw() + self.0[1].spec_raw() + self.0[2].spec_raw()
    }

    proof fn layout_wf() {
        T::scalar_wf();
    }

    proof fn raw_wf(&self) {
        T::scalar_wf();
        self.0[0].raw_wf();
        self.0[1].raw_wf();
        self.0[2].raw_wf();
    }

    fn align() -> (r: usize) {
        proof {
            T::scalar_wf();
        }
        4 * T::align()
    }
}

impl<T: Scalar> Uniform for Vector3<T> {
    type Align = T::Align34;

    type Std140 = Vector3<T>;

    open spec fn spec_std140_raw(&self) -> Seq<u8> {
        self.spec_raw()
    }

    fn std140(&self) -> (r: Vector3<T>)
        ensures
            r == *self,
    {
        *self
    }
}

impl<T: Scalar> Std140 for Vector3<T> {
    proof fn idempotent(&self) {
    }

    fn as_raw(&self) -> (r: Vec<u8>) {
        let mut out = self.0[0].as_raw();
        let mut mid = self.0[1].as_raw();
        let mut tail = self.0[2].as_raw();
        out.append(&mut mid);
        out.append(&mut tail);
        out
    }
}

impl<T: Scalar> Std140Layout for Vector4<T> {
    open spec fn spec_align() -> int {
        4 * T::spec_size()
    }

    open spec fn spec_size() -> int {
        4 * T::spec_size()
    }

    open spec fn spec_raw(&self) -> Seq<u8> {
        self.0[0].spec_raw() + self.0[1].spec_raw() + self.0[2].spec_raw() + self.0[3].spec_raw()
    }

    proof fn layout_wf() {
        T::scalar_wf();
    }

    proof fn raw_wf(&self) {
        T::scalar_wf();
        self.0[0].raw_wf();
        self.0[1].raw_wf();
        self.0[2].raw_wf();
        self.0[3].raw_wf();
    }

    fn align() -> (r: usize) {
        proof {
            T::scalar_wf();
        }
        4 * T::align()
    }
}

impl<T: Scalar> Uniform for Vector4<T> {
    type Align = T::Align34;

    type Std140 = Vector4<T>;

    open spec fn spec_std140_raw(&self) -> Seq<u8> {
        self.spec_raw()
    }

    fn std140(&self) -> (r: Vector4<T>)
        ensures
            r == *self,
    {
        *self
    }
}

impl<T: Scalar> Std140 for Vector4<T> {
    proof fn idempotent(&self) {
    }

    fn as_raw(&self) -> (r: Vec<u8>) {
        let mut out = self.0[0].as_raw();
        let mut second = self.0[1].as_raw();
        let mut third = self.0[2].as_raw();
        let mut tail = self.0[3].as_raw();
        out.append(&mut second);
        out.append(&mut third);
        out.append(&mut tail);
        out
    }
}

/// The defining std140 vector rule, for every scalar kind: a 2-vector
/// aligns to twice the scalar size, 3- and 4-vectors to four times the
/// scalar size, and a 3-vector occupies the alignment of the 4-vector but
/// not its size.
pub proof fn lemma_vector_align_rule<T: Scalar>()
    ensures
        Vector2::<T>::spec_align() == 2 * T::spec_size(),
        Vector3::<T>::spec_align() == 4 * T::spec_size(),
        Vector4::<T>::spec_align() == 4 * T::spec_size(),
        Vector3::<T>::spec_align() == Vector4::<T>::spec_align(),
        Vector3::<T>::spec_size() != Vector4::<T>::spec_size(),
{
    T::scalar_wf();
}

/// A 2-vector's elements sit back to back in its byte image: each is read
/// back from its own scalar-sized span.
pub proof fn lemma_vector2_elements<T: Scalar>(v: &Vector2<T>)
    ensures
        v.spec_raw().subrange(0, T::spec_size()) == v.0[0].spec_raw(),
        v.spec_raw().subrange(T::spec_size(), 2 * T::spec_size()) == v.0[1].spec_raw(),
{
    T::scalar_wf();
    v.0[0].raw_wf();
    v.0[1].raw_wf();
    assert(v.spec_raw().subrange(0, T::spec_size()) =~= v.0[0].spec_raw());
    assert(v.spec_raw().subrange(T::spec_size(), 2 * T::spec_size()) =~= v.0[1].spec_raw());
}

/// A 3-vector's elements sit back to back in its byte image.
pub proof fn lemma_vector3_elements<T: Scalar>(v: &Vector3<T>)
    ensures
        v.spec_raw().subrange(0, T::spec_size()) == v.0[0].spec_raw(),
        v.spec_raw().subrange(T::spec_size(), 2 * T::spec_size()) == v.0[1].spec_raw(),
        v.spec_raw().subrange(2 * T::spec_size(), 3 * T::spec_size()) == v.0[2].spec_raw(),
{
    T::scalar_wf();
    v.0[0].raw_wf();
    v.0[1].raw_wf();
    v.0[2].raw_wf();
    assert(v.spec_raw().subrange(0, T::spec_size()) =~= v.0[0].spec_raw());
    assert(v.spec_raw().subrange(T::spec_size(), 2 * T::spec_size()) =~= v.0[1].spec_raw());
    assert(v.spec_raw().subrange(2 * T::spec_size(), 3 * T::spec_size()) =~= v.0[2].spec_raw());
}

/// A 4-vector's elements sit back to back in its byte image.
pub proof fn lemma_vector4_elements<T: Scalar>(v: &Vector4<T>)
    ensures
        v.spec_raw().subrange(0, T::spec_size()) == v.0[0].spec_raw(),
        v.spec_raw().subrange(T::spec_size(), 2 * T::spec_size()) == v.0[1].spec_raw(),
        v.spec_raw().subrange(2 * T::spec_size(), 3 * T::spec_size()) == v.0[2].spec_raw(),
        v.spec_raw().subrange(3 * T::spec_size(), 4 * T::spec_size()) == v.0[3].spec_raw(),
{
    T::scalar_wf();
    v.0[0].raw_wf();
    v.0[1].raw_wf();
    v.0[2].raw_wf();
    v.0[3].raw_wf();
    assert(v.spec_raw().subrange(0, T::spec_size()) =~= v.0[0].spec_raw());
    assert(v.spec_raw().subrange(T::spec_size(), 2 * T::spec_size()) =~= v.0[1].spec_raw());
    assert(v.spec_raw().subrange(2 * T::spec_size(), 3 * T::spec_size()) =~= v.0[2].spec_raw());
    assert(v.spec_raw().subrange(3 * T::spec_size(), 4 * T::spec_size()) =~= v.0[3].spec_raw());
}

/// The vector types realize the vector kinds: for every scalar, the
/// type-level alignment and size agree with the kind model.
pub proof fn lemma_vector_matches_kind<T: Scalar>()
    ensures
        Vector2::<T>::spec_align() == crate::layout::spec_align_of(
            crate::layout::Kind::Vector(T::spec_kind(), 2),
        ),
        Vector3::<T>::spec_align() == crate::layout::spec_align_of(
            crate::layout::Kind::Vector(T::spec_kind(), 3),
        ),
        Vector4::<T>::spec_align() == crate::layout::spec_align_of(
            crate::layout::Kind::Vector(T::spec_kind(), 4),
        ),
        Vector2::<T>::spec_size() == crate::layout::spec_size_of(
            crate::layout::Kind::Vector(T::spec_kind(), 2),
        ),
        Vector3::<T>::spec_size() == crate::layout::spec_size_of(
            crate::layout::Kind::Vector(T::spec_kind(), 3),
        ),
        Vector4::<T>::spec_size() == crate::layout::spec_size_of(
            crate::layout::Kind::Vector(T::spec_kind(), 4),
        ),
{
    T::scalar_wf();
}

/// Vector of 2 `boolean` values.
pub type bvec2 = Vector2<boolean>;

/// Vector of 3 `boolean` values.
pub type bvec3 = Vector3<boolean>;

/// Vector of 4 `boolean` values.
pub type bvec4 = Vector4<boolean>;

/// Vector of 2 signed integer values.
pub type ivec2 = Vector2<i32>;

/// Vector of 3 signed integer values.
pub type ivec3 = Vector3<i32>;

/// Vector of 4 signed integer values.
pub type ivec4 = Vector4<i32>;

/// Vector of 2 unsigned integer values.
pub type uvec2 = Vector2<u32>;

/// Vector of 3 unsigned integer values.
pub type uvec3 = Vector3<u32>;

/// Vector of 4 unsigned integer values.
pub type uvec4 = Vector4<u32>;

/// Vector of 2 single-precision values.
pub type vec2 = Vector2<float>;

/// Vector of 3 single-precision values.
pub type vec3 = Vector3<float>;

/// Vector of 4 single-precision values.
pub type vec4 = Vector4<float>;

/// Vector of 2 double-precision values.
pub type dvec2 = Vector2<double>;

/// Vector of 3 double-precision values.
pub type dvec3 = Vector3<double>;

/// Vector of 4 double-precision values.
pub type dvec4 = Vector4<double>;

} // verus!
