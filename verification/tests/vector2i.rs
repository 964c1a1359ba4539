use linear::Vector2i;

#[test]
fn vec2i_new_holds_components() {
    let v = Vector2i::new(3, -4);
    assert_eq!(v.x, 3);
    assert_eq!(v.y, -4);
}

#[test]
fn vec2i_eq() {
    assert_eq!(Vector2i { x: 2, y: 3 }, Vector2i { x: 2, y: 3 });
    assert_ne!(Vector2i { x: 1, y: 2 }, Vector2i { x: 1, y: 3 });
    assert_ne!(Vector2i { x: 5, y: 2 }, Vector2i { x: 1, y: 2 });
    assert!(Vector2i::new(1, 2) == Vector2i::new(1, 2));
    assert!(Vector2i::new(1, 2) != Vector2i::new(2, 1));
    assert!(!(Vector2i::new(1, 2) != Vector2i::new(1, 2)));
}

#[test]
fn vec2i_dot() {
    let a = Vector2i::new(1, 2);
    let b = Vector2i::new(3, 4);
    assert_eq!(a.dot(&b), 11);
    assert_eq!(b.dot(&a), 11);
    assert_eq!(a.dot(&Vector2i::new(-2, 1)), 0);
    assert_eq!(Vector2i::new(-3, 5).dot(&Vector2i::new(-3, 5)), 34);
}

#[test]
fn vec2i_add() {
    let a = Vector2i::new(1, 2);
    let b = Vector2i::new(3, 4);

    let mut sum = a + b;
    assert!(sum.x == a.x + b.x && sum.y == a.y + b.y);
    assert_eq!(sum, Vector2i::new(4, 6));

    sum += a;
    assert!(sum.x == a.x + a.x + b.x && sum.y == a.y + a.y + b.y);

    sum += b;
    assert!(sum.x == a.x + a.x + b.x + b.x && sum.y == a.y + a.y + b.y + b.y);
    assert_eq!(sum, Vector2i::new(8, 12));
}

#[test]
fn vec2i_sub() {
    let a = Vector2i::new(1, 2);
    let b = Vector2i::new(3, 5);

    let mut diff = a - b;
    assert!(diff.x == a.x - b.x && diff.y == a.y - b.y);
    assert_eq!(diff, Vector2i::new(-2, -3));

    diff -= a;
    assert!(diff.x == a.x - a.x - b.x && diff.y == a.y - a.y - b.y);

    diff -= b;
    assert!(diff.x == a.x - a.x - b.x - b.x && diff.y == a.y - a.y - b.y - b.y);
    assert_eq!(diff, Vector2i::new(-6, -10));
}

#[test]
fn vec2i_mul() {
    let a = Vector2i::new(1, 2);
    let b = Vector2i::new(3, 5);

    let mut prod = a * b;
    assert!(prod.x == a.x * b.x && prod.y == a.y * b.y);
    assert_eq!(prod, Vector2i::new(3, 10));

    prod *= a;
    assert!(prod.x == a.x * a.x * b.x && prod.y == a.y * a.y * b.y);

    prod *= b;
    assert!(prod.x == a.x * a.x * b.x * b.x && prod.y == a.y * a.y * b.y * b.y);
    assert_eq!(prod, Vector2i::new(9, 100));

    assert_eq!(a * 4, Vector2i::new(4, 8));
    assert_eq!(a * 3, 3 * a);
    assert_eq!(-2 * b, Vector2i::new(-6, -10));

    let mut scaled = b;
    scaled *= 7;
    assert_eq!(scaled, Vector2i::new(21, 35));
}

#[test]
fn vec2i_div() {
    let a = Vector2i::new(100, 81);
    let b = Vector2i::new(3, 4);

    let mut quot = a / b;
    assert!(quot.x == a.x / b.x && quot.y == a.y / b.y);
    assert_eq!(quot, Vector2i::new(33, 20));

    quot /= b;
    assert_eq!(quot, Vector2i::new(11, 5));

    assert_eq!(a / 10, Vector2i::new(10, 8));
    assert_eq!(100 / b, Vector2i::new(33, 25));
}

#[test]
fn vec2i_div_rounds_toward_zero() {
    assert_eq!(Vector2i::new(-7, 7) / 2, Vector2i::new(-3, 3));
    assert_eq!(Vector2i::new(-7, 7) / -2, Vector2i::new(3, -3));
    assert_eq!(Vector2i::new(-7, 7) / Vector2i::new(2, -2), Vector2i::new(-3, -3));
    assert_eq!(-7 / Vector2i::new(2, -2), Vector2i::new(-3, 3));
    assert_eq!(Vector2i::new(1, -1) / 2, Vector2i::new(0, 0));

    let mut v = Vector2i::new(-9, 9);
    v /= Vector2i::new(4, -4);
    assert_eq!(v, Vector2i::new(-2, -2));
}

#[test]
fn vec2i_neg() {
    assert_eq!(-Vector2i::new(1, -2), Vector2i::new(-1, 2));
    assert_eq!(-Vector2i::new(0, 0), Vector2i::new(0, 0));
    assert_eq!(-(-Vector2i::new(5, 6)), Vector2i::new(5, 6));
}

#[test]
fn vec2i_extremes() {
    let top = Vector2i::new(i64::MAX, i64::MIN);
    assert_eq!(top + Vector2i::new(0, 0), top);
    assert_eq!(Vector2i::new(i64::MAX - 1, i64::MIN + 1) + Vector2i::new(1, -1), top);
    assert_eq!(top / 1, top);
    assert_eq!(Vector2i::new(i64::MAX, i64::MIN + 1) / -1, Vector2i::new(i64::MIN + 1, i64::MAX));
    assert_eq!(-Vector2i::new(i64::MAX, i64::MIN + 1), Vector2i::new(i64::MIN + 1, i64::MAX));
    assert_eq!(Vector2i::new(i64::MIN, i64::MIN) / 2, Vector2i::new(i64::MIN / 2, i64::MIN / 2));
}
