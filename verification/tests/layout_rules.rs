use glsl_layout::Array;
use glsl_layout::Kind;
use glsl_layout::ScalarKind;
use glsl_layout::Std140;
use glsl_layout::Std140Layout;
use glsl_layout::align_of_kind;
use glsl_layout::boolean;
use glsl_layout::bvec2;
use glsl_layout::bvec3;
use glsl_layout::bvec4;
use glsl_layout::double;
use glsl_layout::dvec2;
use glsl_layout::dvec3;
use glsl_layout::dvec4;
use glsl_layout::float;
use glsl_layout::ivec2;
use glsl_layout::ivec3;
use glsl_layout::ivec4;
use glsl_layout::round_up_to;
use glsl_layout::size_of_kind;
use glsl_layout::stride_of_kind;
use glsl_layout::uvec2;
use glsl_layout::uvec3;
use glsl_layout::uvec4;
use glsl_layout::vec2;
use glsl_layout::vec3;
use glsl_layout::vec4;
use glsl_layout::Vector4;
use glsl_layout::Vector2;

fn b(v: bool) -> boolean {
    boolean::new(v)
}

fn f(v: f32) -> float {
    float(v.to_bits())
}

fn d(v: f64) -> double {
    double(v.to_bits())
}

#[test]
fn rule1() {
    assert_eq!(boolean::align(), b(false).as_raw().len());
    assert_eq!(<i32 as Std140Layout>::align(), 0i32.as_raw().len());
    assert_eq!(<u32 as Std140Layout>::align(), 0u32.as_raw().len());
    assert_eq!(float::align(), f(0.0).as_raw().len());
    assert_eq!(double::align(), d(0.0).as_raw().len());
}

#[test]
fn rule2() {
    assert_eq!(bvec2::align(), Vector2([b(true); 2]).as_raw().len());
    assert_eq!(ivec2::align(), Vector2([1i32; 2]).as_raw().len());
    assert_eq!(uvec2::align(), Vector2([1u32; 2]).as_raw().len());
    assert_eq!(vec2::align(), Vector2([f(1.0); 2]).as_raw().len());
    assert_eq!(dvec2::align(), Vector2([d(1.0); 2]).as_raw().len());

    assert_eq!(bvec4::align(), Vector4([b(true); 4]).as_raw().len());
    assert_eq!(ivec4::align(), Vector4([1i32; 4]).as_raw().len());
    assert_eq!(uvec4::align(), Vector4([1u32; 4]).as_raw().len());
    assert_eq!(vec4::align(), Vector4([f(1.0); 4]).as_raw().len());
    assert_eq!(dvec4::align(), Vector4([d(1.0); 4]).as_raw().len());
}

#[test]
fn rule3() {
    assert_eq!(bvec3::align(), Vector4([b(true); 4]).as_raw().len());
    assert_eq!(ivec3::align(), Vector4([1i32; 4]).as_raw().len());
    assert_eq!(uvec3::align(), Vector4([1u32; 4]).as_raw().len());
    assert_eq!(vec3::align(), Vector4([f(1.0); 4]).as_raw().len());
    assert_eq!(dvec3::align(), Vector4([d(1.0); 4]).as_raw().len());
}

#[test]
fn rule4() {
    let vec4_size = Vector4([f(0.0); 4]).as_raw().len();
    let dvec4_size = Vector4([d(0.0); 4]).as_raw().len();
    assert_eq!(<Array<boolean, 3> as Std140Layout>::align(), vec4_size);
    assert_eq!(<Array<i32, 1> as Std140Layout>::align(), vec4_size);
    assert_eq!(<Array<float, 7> as Std140Layout>::align(), vec4_size);
    assert_eq!(<Array<dvec4, 2> as Std140Layout>::align(), dvec4_size);
}

#[test]
fn rule5() {
    let vec4_size = Vector4([f(0.0); 4]).as_raw().len();
    let dvec2_size = Vector2([d(0.0); 2]).as_raw().len();
    let dvec4_size = Vector4([d(0.0); 4]).as_raw().len();
    assert_eq!(<glsl_layout::bmat3 as Std140Layout>::align(), vec4_size);
    assert_eq!(<glsl_layout::imat2 as Std140Layout>::align(), vec4_size);
    assert_eq!(<glsl_layout::mat4 as Std140Layout>::align(), vec4_size);
    assert_eq!(<glsl_layout::dmat3x2 as Std140Layout>::align(), dvec2_size);
    assert_eq!(<glsl_layout::dmat2x3 as Std140Layout>::align(), dvec4_size);
}

#[test]
fn kind_scalars_align_to_their_size() {
    let kinds = [
        ScalarKind::Boolean,
        ScalarKind::Int,
        ScalarKind::Uint,
        ScalarKind::Float,
        ScalarKind::Double,
    ];
    for s in kinds {
        let k = Kind::Scalar(s);
        assert_eq!(align_of_kind(&k), size_of_kind(&k).unwrap());
    }
}

#[test]
fn kind_vector_rule() {
    let k2 = Kind::Vector(ScalarKind::Double, 2);
    let k3 = Kind::Vector(ScalarKind::Double, 3);
    let k4 = Kind::Vector(ScalarKind::Double, 4);
    assert_eq!(align_of_kind(&k2), 16);
    assert_eq!(align_of_kind(&k3), 32);
    assert_eq!(align_of_kind(&k4), 32);
    assert_eq!(size_of_kind(&k3).unwrap(), 24);
    assert_eq!(size_of_kind(&k4).unwrap(), 32);
}

#[test]
fn kind_array_rule() {
    let bools3 = Kind::Array(Box::new(Kind::Scalar(ScalarKind::Boolean)), 3);
    assert_eq!(align_of_kind(&bools3), 16);
    assert_eq!(size_of_kind(&bools3).unwrap(), 48);
    assert_eq!(stride_of_kind(&Kind::Scalar(ScalarKind::Boolean)).unwrap(), 16);

    let one_int = Kind::Array(Box::new(Kind::Scalar(ScalarKind::Int)), 1);
    assert_eq!(align_of_kind(&one_int), 16);

    let two_dvec4 = Kind::Array(Box::new(Kind::Vector(ScalarKind::Double, 4)), 2);
    assert_eq!(align_of_kind(&two_dvec4), 32);
    assert_eq!(size_of_kind(&two_dvec4).unwrap(), 64);
}

#[test]
fn kind_matrix_rule() {
    let m33b = Kind::Matrix(ScalarKind::Boolean, 3, 3);
    let m22i = Kind::Matrix(ScalarKind::Int, 2, 2);
    let m44f = Kind::Matrix(ScalarKind::Float, 4, 4);
    assert_eq!(align_of_kind(&m33b), 16);
    assert_eq!(align_of_kind(&m22i), 16);
    assert_eq!(align_of_kind(&m44f), 16);
    assert_eq!(size_of_kind(&m44f).unwrap(), 64);

    let m32d = Kind::Matrix(ScalarKind::Double, 3, 2);
    assert_eq!(align_of_kind(&m32d), 16);
    let m23d = Kind::Matrix(ScalarKind::Double, 2, 3);
    assert_eq!(align_of_kind(&m23d), 32);

    let as_array = Kind::Array(Box::new(Kind::Vector(ScalarKind::Double, 3)), 2);
    assert_eq!(align_of_kind(&m23d), align_of_kind(&as_array));
    assert_eq!(size_of_kind(&m23d).unwrap(), size_of_kind(&as_array).unwrap());
}

#[test]
fn kind_array_of_arrays_stride() {
    let inner = Kind::Array(Box::new(Kind::Scalar(ScalarKind::Int)), 2);
    assert_eq!(size_of_kind(&inner).unwrap(), 32);
    assert_eq!(stride_of_kind(&inner).unwrap(), 32);
    let outer = Kind::Array(Box::new(inner), 3);
    assert_eq!(align_of_kind(&outer), 16);
    assert_eq!(size_of_kind(&outer).unwrap(), 96);
}

#[test]
fn kind_structure_leaf() {
    let s = Kind::Structure { align: 16, size: 48 };
    assert_eq!(align_of_kind(&s), 16);
    assert_eq!(size_of_kind(&s).unwrap(), 48);
    let arr = Kind::Array(Box::new(s), 2);
    assert_eq!(stride_of_kind(&Kind::Structure { align: 16, size: 48 }).unwrap(), 48);
    assert_eq!(size_of_kind(&arr).unwrap(), 96);
}

#[test]
fn round_up_values() {
    assert_eq!(round_up_to(0, 16), 0);
    assert_eq!(round_up_to(1, 16), 16);
    assert_eq!(round_up_to(16, 16), 16);
    assert_eq!(round_up_to(24, 32), 32);
    assert_eq!(round_up_to(33, 32), 64);
}
