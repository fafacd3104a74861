//! Data types and layout rules for building uniform-block data that matches
//! GLSL's `layout(std140)` binary format.
//!
//! The crate computes, for every scalar, vector, matrix, array and aggregate
//! kind, the base alignment, byte size and array stride that the std140 rules
//! prescribe, and materializes values of those kinds as their exact byte
//! image, ready to upload into a uniform buffer.
//!
//! Single- and double-precision floating-point data is carried as its raw bit
//! pattern (`u32` / `u64`); producing or interpreting the bits is the
//! caller's concern, so the crate itself never performs floating-point
//! arithmetic.
#![allow(non_camel_case_types)]

pub mod aggregate;
pub mod align;
pub mod array;
pub mod layout;
pub mod mat;
pub mod scalar;
pub mod uniform;
pub mod vector;

pub use aggregate::field_offsets;
pub use aggregate::read_field;
pub use aggregate::struct_align;
pub use aggregate::struct_raw;
pub use aggregate::struct_size;
pub use align::Align16;
pub use align::Align32;
pub use align::Align4;
pub use align::Align8;
pub use array::Array;
pub use array::ArrayIter;
pub use array::Element;
pub use layout::Kind;
pub use layout::ScalarKind;
pub use layout::align_of_kind;
pub use layout::round_up_to;
pub use layout::size_of_kind;
pub use layout::stride_of_kind;
pub use scalar::Scalar;
pub use scalar::boolean;
pub use scalar::double;
pub use scalar::float;
pub use uniform::Std140;
pub use uniform::Std140Layout;
pub use uniform::Uniform;
pub use vector::Vector2;
pub use vector::Vector3;
pub use vector::Vector4;
pub use vector::bvec2;
pub use vector::bvec3;
pub use vector::bvec4;
pub use vector::ivec2;
pub use vector::ivec3;
pub use vector::ivec4;
pub use vector::uvec2;
pub use vector::uvec3;
pub use vector::uvec4;
pub use vector::vec2;
pub use vector::vec3;
pub use vector::vec4;
pub use vector::dvec2;
pub use vector::dvec3;
pub use vector::dvec4;
pub use mat::bmat2x2;
pub use mat::bmat2x3;
pub use mat::bmat2x4;
pub use mat::bmat3x2;
pub use mat::bmat3x3;
pub use mat::bmat3x4;
pub use mat::bmat4x2;
pub use mat::bmat4x3;
pub use mat::bmat4x4;
pub use mat::bmat2;
pub use mat::bmat3;
pub use mat::bmat4;
pub use mat::imat2x2;
pub use mat::imat2x3;
pub use mat::imat2x4;
pub use mat::imat3x2;
pub use mat::imat3x3;
pub use mat::imat3x4;
pub use mat::imat4x2;
pub use mat::imat4x3;
pub use mat::imat4x4;
pub use mat::imat2;
pub use mat::imat3;
pub use mat::imat4;
pub use mat::umat2x2;
pub use mat::umat2x3;
pub use mat::umat2x4;
pub use mat::umat3x2;
pub use mat::umat3x3;
pub use mat::umat3x4;
pub use mat::umat4x2;
pub use mat::umat4x3;
pub use mat::umat4x4;
pub use mat::umat2;
pub use mat::umat3;
pub use mat::umat4;
pub use mat::mat2x2;
pub use mat::mat2x3;
pub use mat::mat2x4;
pub use mat::mat3x2;
pub use mat::mat3x3;
pub use mat::mat3x4;
pub use mat::mat4x2;
pub use mat::mat4x3;
pub use mat::mat4x4;
pub use mat::mat2;
pub use mat::mat3;
pub use mat::mat4;
pub use mat::dmat2x2;
pub use mat::dmat2x3;
pub use mat::dmat2x4;
pub use mat::dmat3x2;
pub use mat::dmat3x3;
pub use mat::dmat3x4;
pub use mat::dmat4x2;
pub use mat::dmat4x3;
pub use mat::dmat4x4;
pub use mat::dmat2;
pub use mat::dmat3;
pub use mat::dmat4;
