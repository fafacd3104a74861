use glsl_layout::Std140;
use glsl_layout::Uniform;
use glsl_layout::boolean;
use glsl_layout::double;
use glsl_layout::float;
use glsl_layout::Vector3;
use glsl_layout::Vector2;

#[test]
fn boolean_bytes() {
    assert_eq!(boolean::new(true).as_raw(), vec![1, 0, 0, 0]);
    assert_eq!(boolean::new(false).as_raw(), vec![0, 0, 0, 0]);
    assert!(boolean(5).as_bool());
    assert!(!boolean(0).as_bool());
    assert!(boolean::new(true).as_bool());
    assert!(!boolean::new(false).as_bool());
}

#[test]
fn int_bytes() {
    assert_eq!((-1i32).as_raw(), vec![255, 255, 255, 255]);
    assert_eq!(2i32.as_raw(), vec![2, 0, 0, 0]);
    assert_eq!(0x0102_0304u32.as_raw(), vec![4, 3, 2, 1]);
}

#[test]
fn float_bytes() {
    let one = float(1.0f32.to_bits());
    assert_eq!(one.as_raw(), 1.0f32.to_le_bytes().to_vec());
    let two = double(2.5f64.to_bits());
    assert_eq!(two.as_raw(), 2.5f64.to_le_bytes().to_vec());
}

#[test]
fn vector_bytes_are_contiguous() {
    let v = Vector3([1, 2, 3]);
    assert_eq!(
        v.as_raw(),
        vec![1, 0, 0, 0, 2, 0, 0, 0, 3, 0, 0, 0],
    );
    let u = Vector2([0xAABB_CCDDu32, 1]);
    assert_eq!(u.as_raw(), vec![0xDD, 0xCC, 0xBB, 0xAA, 1, 0, 0, 0]);
}

#[test]
fn vector_conversion_is_identity_on_bytes() {
    let v = Vector3([float(1.5f32.to_bits()), float(0.0f32.to_bits()), float(3.25f32.to_bits())]);
    assert_eq!(v.std140().as_raw(), v.as_raw());

    let w = Vector2([double(1.5f64.to_bits()), double(0.25f64.to_bits())]);
    assert_eq!(w.std140().as_raw(), w.as_raw());
}
