use glsl_layout::Array;
use glsl_layout::Element;
use glsl_layout::Std140;
use glsl_layout::Std140Layout;
use glsl_layout::Uniform;
use glsl_layout::aggregate::field_offsets;
use glsl_layout::aggregate::read_field;
use glsl_layout::aggregate::struct_align;
use glsl_layout::aggregate::struct_raw;
use glsl_layout::aggregate::struct_size;
use glsl_layout::dmat4x3;
use glsl_layout::double;
use glsl_layout::dvec3;
use glsl_layout::dvec4;
use glsl_layout::float;
use glsl_layout::vec2;
use glsl_layout::vec3;
use glsl_layout::vec4;
use glsl_layout::Vector4;
use glsl_layout::Vector3;
use glsl_layout::Vector2;

fn f(v: f32) -> float {
    float(v.to_bits())
}

fn d(v: f64) -> double {
    double(v.to_bits())
}

fn zero_dvec3() -> dvec3 {
    Vector3([d(0.0); 3])
}

fn zero_dmat4x3() -> dmat4x3 {
    Array::new(vec![
        Element(zero_dvec3()),
        Element(zero_dvec3()),
        Element(zero_dvec3()),
        Element(zero_dvec3()),
    ])
}

#[test]
fn test_struct() {
    let vec4_size = Vector4([f(0.0); 4]).as_raw().len();
    let dvec4_size = Vector4([d(0.0); 4]).as_raw().len();

    let foo_aligns = vec![<i32 as Std140Layout>::align()];
    assert_eq!(struct_align(&foo_aligns), vec4_size);

    let bar_aligns = vec![dvec3::align()];
    assert_eq!(struct_align(&bar_aligns), dvec4_size);
}

#[test]
fn test_derive() {
    let a = Array::<u32, 3>::from_values(vec![0, 0, 0]).std140();
    let b = Vector2([f(0.0); 2]);
    let c = zero_dmat4x3().std140();

    let fields = vec![a.as_raw(), b.as_raw(), c.as_raw()];
    let aligns = vec![
        <Array<u32, 3> as Std140Layout>::align(),
        vec2::align(),
        dmat4x3::align(),
    ];
    let raw = struct_raw(&fields, &aligns);
    let sizes: Vec<usize> = fields.iter().map(|fl| fl.len()).collect();
    assert_eq!(raw.len(), struct_size(&aligns, &sizes));
}

#[test]
fn lib_test_array() {
    let a = Array::<u32, 3>::from_values(vec![0, 0, 0]).std140();
    let b = Vector2([f(0.0); 2]);
    let mut mats: Vec<Element<dmat4x3>> = Vec::new();
    for _ in 0..32 {
        mats.push(Element(zero_dmat4x3()));
    }
    let c = Array::<dmat4x3, 32>::new(mats).std140();

    let fields = vec![a.as_raw(), b.as_raw(), c.as_raw()];
    let aligns = vec![
        <Array<u32, 3> as Std140Layout>::align(),
        vec2::align(),
        <Array<dmat4x3, 32> as Std140Layout>::align(),
    ];
    let sizes: Vec<usize> = fields.iter().map(|fl| fl.len()).collect();
    let offsets = field_offsets(&aligns, &sizes);
    let raw = struct_raw(&fields, &aligns);
    assert_eq!(raw.len(), struct_size(&aligns, &sizes));
    assert_eq!(offsets.len(), 3);
}

#[test]
fn aggregate_offsets_follow_field_alignment() {
    // struct { x: signed-32, y: 3-component float vector, z: float }
    let aligns = vec![4, 16, 4];
    let sizes = vec![4, 12, 4];
    let offsets = field_offsets(&aligns, &sizes);
    assert_eq!(offsets, vec![0, 16, 28]);
    assert_eq!(struct_align(&aligns), 16);
    assert_eq!(struct_size(&aligns, &sizes), 32);
}

#[test]
fn aggregate_round_trip_recovers_every_field() {
    let x: i32 = 2;
    let y = Vector3([f(1.0), f(2.0), f(3.0)]);
    let z = f(4.5);

    let fields = vec![x.as_raw(), y.as_raw(), z.as_raw()];
    let aligns = vec![<i32 as Std140Layout>::align(), vec3::align(), float::align()];
    let sizes: Vec<usize> = fields.iter().map(|fl| fl.len()).collect();
    let offsets = field_offsets(&aligns, &sizes);
    let raw = struct_raw(&fields, &aligns);

    for i in 0..fields.len() {
        let back = read_field(&raw, offsets[i], sizes[i]);
        assert_eq!(back, fields[i], "field {} must read back bit for bit", i);
    }
}

#[test]
fn aggregate_of_one_double_vector() {
    let y = zero_dvec3();
    let fields = vec![y.as_raw()];
    let aligns = vec![dvec3::align()];
    let sizes: Vec<usize> = fields.iter().map(|fl| fl.len()).collect();
    assert_eq!(struct_align(&aligns), 32);
    assert_eq!(struct_size(&aligns, &sizes), 32);
    let raw = struct_raw(&fields, &aligns);
    assert_eq!(raw.len(), 32);
    let offsets = field_offsets(&aligns, &sizes);
    assert_eq!(read_field(&raw, offsets[0], sizes[0]), fields[0]);
}

#[test]
fn aggregate_bytes_are_exact() {
    // struct { x: signed-32, y: 2-component unsigned vector }
    let x: i32 = 7;
    let y = Vector2([9u32, 10u32]);
    let fields = vec![x.as_raw(), y.as_raw()];
    let aligns = vec![4, 8];
    let raw = struct_raw(&fields, &aligns);
    assert_eq!(
        raw,
        vec![7, 0, 0, 0, 0, 0, 0, 0, 9, 0, 0, 0, 10, 0, 0, 0],
    );
}

#[test]
fn empty_aggregate_is_sixteen_aligned() {
    let aligns: Vec<usize> = Vec::new();
    let sizes: Vec<usize> = Vec::new();
    assert_eq!(struct_align(&aligns), 16);
    assert_eq!(struct_size(&aligns, &sizes), 0);
}
