use linear::Vector4i;

#[test]
fn vec4i_new_holds_components() {
    let v = Vector4i::new(3, -4, 5, -6);
    assert_eq!(v.x, 3);
    assert_eq!(v.y, -4);
    assert_eq!(v.z, 5);
    assert_eq!(v.w, -6);
}

#[test]
fn vec4i_eq() {
    let v = Vector4i { x: 2, y: 3, z: 4, w: 5 };
    assert_eq!(v, Vector4i { x: 2, y: 3, z: 4, w: 5 });
    assert_ne!(v, Vector4i { x: 0, y: 3, z: 4, w: 5 });
    assert_ne!(v, Vector4i { x: 2, y: 0, z: 4, w: 5 });
    assert_ne!(v, Vector4i { x: 2, y: 3, z: 0, w: 5 });
    assert_ne!(v, Vector4i { x: 2, y: 3, z: 4, w: 0 });
    assert!(!(v != Vector4i::new(2, 3, 4, 5)));
}

#[test]
fn vec4i_dot() {
    let a = Vector4i::new(1, 2, 3, 4);
    let b = Vector4i::new(5, -6, 7, -8);
    assert_eq!(a.dot(&b), -18);
    assert_eq!(b.dot(&a), -18);
    assert_eq!(a.dot(&a), 30);
    assert_eq!(Vector4i::new(0, 0, 0, 0).dot(&b), 0);
}

#[test]
fn vec4i_add_sub() {
    let a = Vector4i::new(1, 2, 3, 4);
    let b = Vector4i::new(10, -20, 30, -40);

    let mut v = a + b;
    assert_eq!(v, Vector4i::new(11, -18, 33, -36));
    assert_eq!(b + a, v);

    v += a;
    assert_eq!(v, Vector4i::new(12, -16, 36, -32));

    v -= b;
    assert_eq!(v, Vector4i::new(2, 4, 6, 8));

    assert_eq!(a - b, Vector4i::new(-9, 22, -27, 44));
    assert_eq!(a - a, Vector4i::new(0, 0, 0, 0));
}

#[test]
fn vec4i_mul() {
    let a = Vector4i::new(1, 2, 3, 4);
    let b = Vector4i::new(5, -6, 7, -8);

    let mut v = a * b;
    assert_eq!(v, Vector4i::new(5, -12, 21, -32));
    assert_eq!(b * a, v);

    v *= a;
    assert_eq!(v, Vector4i::new(5, -24, 63, -128));

    v *= 2;
    assert_eq!(v, Vector4i::new(10, -48, 126, -256));

    assert_eq!(a * -3, Vector4i::new(-3, -6, -9, -12));
    assert_eq!(-3 * a, Vector4i::new(-3, -6, -9, -12));
    assert_eq!((a + b) * 3, a * 3 + b * 3);
}

#[test]
fn vec4i_div() {
    let a = Vector4i::new(100, -100, 7, -7);
    let b = Vector4i::new(3, 3, -2, -2);

    let mut v = a / b;
    assert_eq!(v, Vector4i::new(33, -33, -3, 3));

    v /= Vector4i::new(2, 2, 2, 2);
    assert_eq!(v, Vector4i::new(16, -16, -1, 1));

    assert_eq!(a / 7, Vector4i::new(14, -14, 1, -1));
    assert_eq!(12 / b, Vector4i::new(4, 4, -6, -6));
    assert_eq!((a * -5) / -5, a);
}

#[test]
fn vec4i_neg() {
    assert_eq!(-Vector4i::new(1, -2, 0, 9), Vector4i::new(-1, 2, 0, -9));
    assert_eq!(-(-Vector4i::new(5, 6, 7, 8)), Vector4i::new(5, 6, 7, 8));
}

#[test]
fn vec4i_from_array() {
    let v = Vector4i::from([1, -2, 3, -4]);
    assert_eq!(v, Vector4i::new(1, -2, 3, -4));

    let w: Vector4i = [9, 8, 7, 6].into();
    assert_eq!(w.x, 9);
    assert_eq!(w.y, 8);
    assert_eq!(w.z, 7);
    assert_eq!(w.w, 6);
}

#[test]
fn vec4i_into_array() {
    let array: [i64; 4] = Vector4i::new(1, -2, 3, -4).into();
    assert_eq!(array, [1, -2, 3, -4]);
    assert_eq!(<[i64; 4]>::from(Vector4i::from([i64::MIN, 0, 1, i64::MAX])), [i64::MIN, 0, 1, i64::MAX]);
}
