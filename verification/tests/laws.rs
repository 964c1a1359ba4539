use linear::{Vector2i, Vector3i, Vector4i};

#[test]
fn addition_commutes() {
    let a = Vector2i::new(17, -4);
    let b = Vector2i::new(-30, 9);
    assert_eq!(a + b, b + a);
    assert_eq!(a + b, Vector2i::new(-13, 5));

    let c = Vector4i::new(1, 2, 3, 4);
    let d = Vector4i::new(-8, 7, -6, 5);
    assert_eq!(c + d, d + c);
}

#[test]
fn addition_associates() {
    let a = Vector3i::new(1, 2, 3);
    let b = Vector3i::new(40, 50, 60);
    let c = Vector3i::new(-700, -800, -900);
    assert_eq!((a + b) + c, a + (b + c));
    assert_eq!((a + b) + c, Vector3i::new(-659, -748, -837));
}

#[test]
fn subtraction_adds_the_negation() {
    let a = Vector2i::new(5, -6);
    let b = Vector2i::new(-7, 8);
    assert_eq!(a - b, a + (-b));
    assert_eq!(a - b, Vector2i::new(12, -14));
}

#[test]
fn scalar_product_takes_either_order() {
    let v = Vector2i::new(6, -7);
    assert_eq!(5 * v, v * 5);
    assert_eq!(5 * v, Vector2i::new(30, -35));

    let w = Vector4i::new(1, -1, 2, -2);
    assert_eq!(-9 * w, w * -9);
}

#[test]
fn scalar_product_distributes_over_addition() {
    let a = Vector2i::new(3, -4);
    let b = Vector2i::new(10, 11);
    assert_eq!((a + b) * 6, a * 6 + b * 6);
    assert_eq!((a + b) * 6, Vector2i::new(78, 42));
    assert_eq!(a * (2 + 5), a * 2 + a * 5);
}

#[test]
fn scaling_twice_scales_by_the_product() {
    let a = Vector3i::new(3, -4, 5);
    assert_eq!((a * 6) * -7, a * -42);
    assert_eq!(a * 1, a);
    assert_eq!(a * -1, -a);
}

#[test]
fn scalar_is_the_repeated_vector() {
    let a = Vector3i::new(30, -41, 52);
    assert_eq!(a * 4, a * Vector3i::new(4, 4, 4));
    assert_eq!(a / 4, a / Vector3i::new(4, 4, 4));
    assert_eq!(100 / a, Vector3i::new(100, 100, 100) / a);
}

#[test]
fn division_undoes_multiplication() {
    let a = Vector4i::new(3, -4, 0, 123456789);
    assert_eq!((a * 1000) / 1000, a);
    assert_eq!((a * -3) / -3, a);
}

#[test]
fn dot_product_is_symmetric_and_linear() {
    let a = Vector3i::new(1, -2, 3);
    let b = Vector3i::new(-4, 5, 6);
    let c = Vector3i::new(7, 8, -9);
    assert_eq!(a.dot(&b), b.dot(&a));
    assert_eq!((a + b).dot(&c), a.dot(&c) + b.dot(&c));
    assert_eq!((a * 5).dot(&c), 5 * a.dot(&c));
    assert_eq!(a.dot(&c), -36);
}

#[test]
fn dot_product_with_itself_is_not_negative() {
    assert_eq!(Vector2i::new(-3, -4).dot(&Vector2i::new(-3, -4)), 25);
    assert_eq!(Vector2i::new(0, 0).dot(&Vector2i::new(0, 0)), 0);
    assert!(Vector4i::new(-1, 0, 0, 0).dot(&Vector4i::new(-1, 0, 0, 0)) > 0);
}

#[test]
fn quotient_and_remainder_rebuild_the_dividend() {
    let pairs: [(i64, i64); 6] = [(7, 2), (-7, 2), (7, -2), (-7, -2), (0, 5), (6, -3)];
    for (a, b) in pairs {
        let q = (Vector2i::new(a, a) / b).x;
        let r = a - b * q;
        assert_eq!(a, b * q + r);
        assert!(r.abs() < b.abs());
        assert!(r == 0 || (r < 0) == (a < 0));
    }
}
