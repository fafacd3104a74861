use glsl_layout::Array;
use glsl_layout::Element;
use glsl_layout::Std140;
use glsl_layout::Uniform;
use glsl_layout::float;
use glsl_layout::mat4;
use glsl_layout::vec2;
use glsl_layout::vec3;
use glsl_layout::vec4;
use glsl_layout::Vector4;
use glsl_layout::Vector3;
use glsl_layout::Vector2;

fn f(v: f32) -> float {
    float(v.to_bits())
}

fn zero_vec2() -> vec2 {
    Vector2([f(0.0); 2])
}

fn zero_vec3() -> vec3 {
    Vector3([f(0.0); 3])
}

fn zero_vec4() -> vec4 {
    Vector4([f(0.0); 4])
}

fn zero_mat4() -> mat4 {
    Array::new(vec![
        Element(zero_vec4()),
        Element(zero_vec4()),
        Element(zero_vec4()),
        Element(zero_vec4()),
    ])
}

#[test]
fn array_test_array() {
    let _ = Array::<vec2, 2>::from_values(vec![zero_vec2(), zero_vec2()]).std140();

    let _ = Array::<vec3, 18>::from_values(vec![zero_vec3(); 18]).std140();

    let mut mats: Vec<Element<mat4>> = Vec::new();
    for _ in 0..18 {
        mats.push(Element(zero_mat4()));
    }
    let _ = Array::<mat4, 18>::new(mats).std140();
}

#[test]
fn array_pads_each_slot_to_the_stride() {
    let a = Array::<i32, 2>::from_values(vec![7, 9]);
    let raw = a.as_raw();
    assert_eq!(raw.len(), 32);
    assert_eq!(&raw[0..4], &[7, 0, 0, 0]);
    assert_eq!(&raw[4..16], &[0; 12]);
    assert_eq!(&raw[16..20], &[9, 0, 0, 0]);
    assert_eq!(&raw[20..32], &[0; 12]);
}

#[test]
fn array_of_vec4_needs_no_physical_padding() {
    let a = Array::<vec4, 2>::from_values(vec![
        Vector4([f(1.0), f(2.0), f(3.0), f(4.0)]),
        Vector4([f(5.0), f(6.0), f(7.0), f(8.0)]),
    ]);
    let raw = a.as_raw();
    assert_eq!(raw.len(), 32);
    let mut expected = Vec::new();
    for v in [1.0f32, 2.0, 3.0, 4.0, 5.0, 6.0, 7.0, 8.0] {
        expected.extend_from_slice(&v.to_le_bytes());
    }
    assert_eq!(raw, expected);
}

#[test]
fn matrix_is_an_array_of_columns() {
    let m: glsl_layout::mat2 = Array::new(vec![
        Element(Vector2([f(1.0), f(2.0)])),
        Element(Vector2([f(3.0), f(4.0)])),
    ]);
    let raw = m.as_raw();
    assert_eq!(raw.len(), 32);
    assert_eq!(&raw[0..4], &1.0f32.to_le_bytes());
    assert_eq!(&raw[4..8], &2.0f32.to_le_bytes());
    assert_eq!(&raw[8..16], &[0; 8]);
    assert_eq!(&raw[16..20], &3.0f32.to_le_bytes());
    assert_eq!(&raw[20..24], &4.0f32.to_le_bytes());
    assert_eq!(&raw[24..32], &[0; 8]);
}

#[test]
fn array_conversion_is_stable_on_bytes() {
    let a = Array::<i32, 3>::from_values(vec![1, -1, 5]);
    assert_eq!(a.std140().as_raw(), a.as_raw());
    let again = a.std140().std140();
    assert_eq!(again.as_raw(), a.as_raw());
}

#[test]
fn array_iter_walks_both_ways() {
    let a = Array::<i32, 3>::from_values(vec![10, 20, 30]);
    let mut it = a.iter();
    assert_eq!(it.len(), 3);
    assert_eq!(it.next(), Some(&10));
    assert_eq!(it.next_back(), Some(&30));
    assert_eq!(it.len(), 1);
    assert_eq!(it.next(), Some(&20));
    assert_eq!(it.next(), None);
    assert_eq!(it.next_back(), None);
    assert_eq!(it.len(), 0);
}

#[test]
fn array_get_and_set() {
    let mut a = Array::<i32, 3>::from_values(vec![1, 2, 3]);
    assert_eq!(*a.get(1), 2);
    a.set(1, 9);
    assert_eq!(*a.get(1), 9);
    let raw = a.as_raw();
    assert_eq!(&raw[16..20], &[9, 0, 0, 0]);
}

#[test]
fn array_len_reports_slot_count() {
    let a = Array::<i32, 4>::from_values(vec![0, 1, 2, 3]);
    assert_eq!(a.len(), 4);
}
