use linear::Vector3i;

#[test]
fn vec3i_new_holds_components() {
    let v = Vector3i::new(3, -4, 5);
    assert_eq!(v.x, 3);
    assert_eq!(v.y, -4);
    assert_eq!(v.z, 5);
}

#[test]
fn vec3i_eq() {
    assert_eq!(Vector3i { x: 2, y: 3, z: 4 }, Vector3i { x: 2, y: 3, z: 4 });
    assert_ne!(Vector3i { x: 9, y: 3, z: 4 }, Vector3i { x: 2, y: 3, z: 4 });
    assert_ne!(Vector3i { x: 2, y: 9, z: 4 }, Vector3i { x: 2, y: 3, z: 4 });
    assert_ne!(Vector3i { x: 2, y: 3, z: 9 }, Vector3i { x: 2, y: 3, z: 4 });
    assert!(!(Vector3i::new(1, 2, 3) != Vector3i::new(1, 2, 3)));
    assert!(Vector3i::new(1, 2, 3) != Vector3i::new(3, 2, 1));
}

#[test]
fn vec3i_dot() {
    let a = Vector3i::new(1, 2, 3);
    let b = Vector3i::new(4, -5, 6);
    assert_eq!(a.dot(&b), 12);
    assert_eq!(b.dot(&a), 12);
    assert_eq!(a.dot(&a), 14);
    assert_eq!(Vector3i::new(1, 0, 0).dot(&Vector3i::new(0, 1, 0)), 0);
}

#[test]
fn vec3i_add_sub() {
    let a = Vector3i::new(1, 2, 3);
    let b = Vector3i::new(10, -20, 30);

    let mut v = a + b;
    assert_eq!(v, Vector3i::new(11, -18, 33));
    assert_eq!(b + a, v);

    v += a;
    assert_eq!(v, Vector3i::new(12, -16, 36));

    v -= b;
    assert_eq!(v, Vector3i::new(2, 4, 6));

    assert_eq!(a - b, Vector3i::new(-9, 22, -27));
    assert_eq!(a - b, a + (-b));
}

#[test]
fn vec3i_mul() {
    let a = Vector3i::new(1, 2, 3);
    let b = Vector3i::new(4, -5, 6);

    let mut v = a * b;
    assert_eq!(v, Vector3i::new(4, -10, 18));
    assert_eq!(b * a, v);

    v *= a;
    assert_eq!(v, Vector3i::new(4, -20, 54));

    v *= -2;
    assert_eq!(v, Vector3i::new(-8, 40, -108));

    assert_eq!(a * 4, Vector3i::new(4, 8, 12));
    assert_eq!(4 * a, Vector3i::new(4, 8, 12));
    assert_eq!((a + b) * 3, a * 3 + b * 3);
}

#[test]
fn vec3i_div() {
    let a = Vector3i::new(100, -100, 7);
    let b = Vector3i::new(3, 3, -2);

    let mut v = a / b;
    assert_eq!(v, Vector3i::new(33, -33, -3));

    v /= Vector3i::new(2, 2, 2);
    assert_eq!(v, Vector3i::new(16, -16, -1));

    assert_eq!(a / 7, Vector3i::new(14, -14, 1));
    assert_eq!(a / -7, Vector3i::new(-14, 14, -1));
    assert_eq!(12 / b, Vector3i::new(4, 4, -6));
    assert_eq!(-13 / b, Vector3i::new(-4, -4, 6));
    assert_eq!((a * 5) / 5, a);
}

#[test]
fn vec3i_neg() {
    assert_eq!(-Vector3i::new(1, -2, 0), Vector3i::new(-1, 2, 0));
    assert_eq!(-(-Vector3i::new(5, 6, 7)), Vector3i::new(5, 6, 7));
    assert_eq!(-Vector3i::new(i64::MAX, 0, i64::MIN + 1), Vector3i::new(i64::MIN + 1, 0, i64::MAX));
}
