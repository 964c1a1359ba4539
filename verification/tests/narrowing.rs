use linear::{Vector2i, Vector3i, Vector4i};

#[test]
fn vec4i_narrows_to_vec3i() {
    let v = Vector3i::from(Vector4i::new(1, 2, 3, 4));
    assert_eq!(v, Vector3i::new(1, 2, 3));
}

#[test]
fn vec4i_narrows_to_vec2i() {
    let v = Vector2i::from(Vector4i::new(1, 2, 3, 4));
    assert_eq!(v, Vector2i::new(1, 2));
}

#[test]
fn vec3i_narrows_to_vec2i() {
    let v: Vector2i = Vector3i::new(-7, 8, -9).into();
    assert_eq!(v, Vector2i::new(-7, 8));
}

#[test]
fn narrowing_in_two_steps_is_narrowing_in_one() {
    let v = Vector4i::new(i64::MIN, i64::MAX, 5, 6);
    assert_eq!(Vector2i::from(Vector3i::from(v)), Vector2i::from(v));
}

#[test]
fn narrowing_goes_through_addition() {
    let a = Vector4i::new(1, 2, 3, 4);
    let b = Vector4i::new(50, 60, 70, 80);
    assert_eq!(Vector3i::from(a + b), Vector3i::from(a) + Vector3i::from(b));
    assert_eq!(Vector2i::from(a * b), Vector2i::from(a) * Vector2i::from(b));
}
