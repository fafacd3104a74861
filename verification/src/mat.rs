//! Matrix types. A matrix of `C` columns and `R` rows is exactly an
//! `Array` of `C` column vectors of length `R`: alignment, stride and
//! conversion all come from the array rules, and storage is column-major.

use vstd::prelude::*;

use crate::array::Array;
use crate::array::Element;
use crate::layout::Kind;
use crate::layout::spec_align_of;
use crate::layout::spec_size_of;
use crate::scalar::Scalar;
use crate::uniform::Std140Layout;
use crate::vector::Vector2;
use crate::vector::Vector3;
use crate::vector::Vector4;
use crate::vector::bvec2;
use crate::vector::bvec3;
use crate::vector::bvec4;
use crate::vector::dvec2;
use crate::vector::dvec3;
use crate::vector::dvec4;
use crate::vector::ivec2;
use crate::vector::ivec3;
use crate::vector::ivec4;
use crate::vector::uvec2;
use crate::vector::uvec3;
use crate::vector::uvec4;
use crate::vector::vec2;
use crate::vector::vec3;
use crate::vector::vec4;

verus! {

/// The matrix types realize the matrix kinds: an array of `C` column
/// vectors of length `R` has exactly the alignment and size the kind
/// model gives a `C` x `R` matrix, for every scalar.
pub proof fn lemma_matrix_matches_kind<T: Scalar, const C: usize>()
    ensures
        Array::<Vector2<T>, C>::spec_align() == spec_align_of(Kind::Matrix(T::spec_kind(), C, 2)),
        Array::<Vector3<T>, C>::spec_align() == spec_align_of(Kind::Matrix(T::spec_kind(), C, 3)),
        Array::<Vector4<T>, C>::spec_align() == spec_align_of(Kind::Matrix(T::spec_kind(), C, 4)),
        Array::<Vector2<T>, C>::spec_size() == spec_size_of(Kind::Matrix(T::spec_kind(), C, 2)),
        Array::<Vector3<T>, C>::spec_size() == spec_size_of(Kind::Matrix(T::spec_kind(), C, 3)),
        Array::<Vector4<T>, C>::spec_size() == spec_size_of(Kind::Matrix(T::spec_kind(), C, 4)),
{
    T::scalar_wf();
}

/// Matrix of 2 x 2 boolean values.
pub type bmat2x2 = Array<bvec2, 2>;

/// Matrix of 2 x 3 boolean values.
pub type bmat2x3 = Array<bvec3, 2>;

/// Matrix of 2 x 4 boolean values.
pub type bmat2x4 = Array<bvec4, 2>;

/// Matrix of 3 x 2 boolean values.
pub type bmat3x2 = Array<bvec2, 3>;

/// Matrix of 3 x 3 boolean values.
pub type bmat3x3 = Array<bvec3, 3>;

/// Matrix of 3 x 4 boolean values.
pub type bmat3x4 = Array<bvec4, 3>;

/// Matrix of 4 x 2 boolean values.
pub type bmat4x2 = Array<bvec2, 4>;

/// Matrix of 4 x 3 boolean values.
pub type bmat4x3 = Array<bvec3, 4>;

/// Matrix of 4 x 4 boolean values.
pub type bmat4x4 = Array<bvec4, 4>;

/// Matrix of 2 x 2 boolean values.
pub type bmat2 = bmat2x2;

/// Matrix of 3 x 3 boolean values.
pub type bmat3 = bmat3x3;

/// Matrix of 4 x 4 boolean values.
pub type bmat4 = bmat4x4;

/// Matrix of 2 x 2 signed integer values.
pub type imat2x2 = Array<ivec2, 2>;

/// Matrix of 2 x 3 signed integer values.
pub type imat2x3 = Array<ivec3, 2>;

/// Matrix of 2 x 4 signed integer values.
pub type imat2x4 = Array<ivec4, 2>;

/// Matrix of 3 x 2 signed integer values.
pub type imat3x2 = Array<ivec2, 3>;

/// Matrix of 3 x 3 signed integer values.
pub type imat3x3 = Array<ivec3, 3>;

/// Matrix of 3 x 4 signed integer values.
pub type imat3x4 = Array<ivec4, 3>;

/// Matrix of 4 x 2 signed integer values.
pub type imat4x2 = Array<ivec2, 4>;

/// Matrix of 4 x 3 signed integer values.
pub type imat4x3 = Array<ivec3, 4>;

/// Matrix of 4 x 4 signed integer values.
pub type imat4x4 = Array<ivec4, 4>;

/// Matrix of 2 x 2 signed integer values.
pub type imat2 = imat2x2;

/// Matrix of 3 x 3 signed integer values.
pub type imat3 = imat3x3;

/// Matrix of 4 x 4 signed integer values.
pub type imat4 = imat4x4;

/// Matrix of 2 x 2 unsigned integer values.
pub type umat2x2 = Array<uvec2, 2>;

/// Matrix of 2 x 3 unsigned integer values.
pub type umat2x3 = Array<uvec3, 2>;

/// Matrix of 2 x 4 unsigned integer values.
pub type umat2x4 = Array<uvec4, 2>;

/// Matrix of 3 x 2 unsigned integer values.
pub type umat3x2 = Array<uvec2, 3>;

/// Matrix of 3 x 3 unsigned integer values.
pub type umat3x3 = Array<uvec3, 3>;

/// Matrix of 3 x 4 unsigned integer values.
pub type umat3x4 = Array<uvec4, 3>;

/// Matrix of 4 x 2 unsigned integer values.
pub type umat4x2 = Array<uvec2, 4>;

/// Matrix of 4 x 3 unsigned integer values.
pub type umat4x3 = Array<uvec3, 4>;

/// Matrix of 4 x 4 unsigned integer values.
pub type umat4x4 = Array<uvec4, 4>;

/// Matrix of 2 x 2 unsigned integer values.
pub type umat2 = umat2x2;

/// Matrix of 3 x 3 unsigned integer values.
pub type umat3 = umat3x3;

/// Matrix of 4 x 4 unsigned integer values.
pub type umat4 = umat4x4;

/// Matrix of 2 x 2 single-precision floating-point values.
pub type mat2x2 = Array<vec2, 2>;

/// Matrix of 2 x 3 single-precision floating-point values.
pub type mat2x3 = Array<vec3, 2>;

/// Matrix of 2 x 4 single-precision floating-point values.
pub type mat2x4 = Array<vec4, 2>;

/// Matrix of 3 x 2 single-precision floating-point values.
pub type mat3x2 = Array<vec2, 3>;

/// Matrix of 3 x 3 single-precision floating-point values.
pub type mat3x3 = Array<vec3, 3>;

/// Matrix of 3 x 4 single-precision floating-point values.
pub type mat3x4 = Array<vec4, 3>;

/// Matrix of 4 x 2 single-precision floating-point values.
pub type mat4x2 = Array<vec2, 4>;

/// Matrix of 4 x 3 single-precision floating-point values.
pub type mat4x3 = Array<vec3, 4>;

/// Matrix of 4 x 4 single-precision floating-point values.
pub type mat4x4 = Array<vec4, 4>;

/// Matrix of 2 x 2 single-precision floating-point values.
pub type mat2 = mat2x2;

/// Matrix of 3 x 3 single-precision floating-point values.
pub type mat3 = mat3x3;

/// Matrix of 4 x 4 single-precision floating-point values.
pub type mat4 = mat4x4;

/// Matrix of 2 x 2 double-precision floating-point values.
pub type dmat2x2 = Array<dvec2, 2>;

/// Matrix of 2 x 3 double-precision floating-point values.
pub type dmat2x3 = Array<dvec3, 2>;

/// Matrix of 2 x 4 double-precision floating-point values.
pub type dmat2x4 = Array<dvec4, 2>;

/// Matrix of 3 x 2 double-precision floating-point values.
pub type dmat3x2 = Array<dvec2, 3>;

/// Matrix of 3 x 3 double-precision floating-point values.
pub type dmat3x3 = Array<dvec3, 3>;

/// Matrix of 3 x 4 double-precision floating-point values.
pub type dmat3x4 = Array<dvec4, 3>;

/// Matrix of 4 x 2 double-precision floating-point values.
pub type dmat4x2 = Array<dvec2, 4>;

/// Matrix of 4 x 3 double-precision floating-point values.
pub type dmat4x3 = Array<dvec3, 4>;

/// Matrix of 4 x 4 double-precision floating-point values.
pub type dmat4x4 = Array<dvec4, 4>;

/// Matrix of 2 x 2 double-precision floating-point values.
pub type dmat2 = dmat2x2;

/// Matrix of 3 x 3 double-precision floating-point values.
pub type dmat3 = dmat3x3;

/// Matrix of 4 x 4 double-precision floating-point values.
pub type dmat4 = dmat4x4;

} // verus!
