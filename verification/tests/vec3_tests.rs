use sphere_cast::vec3::Vec3;

#[test]
fn zero_vector() {
    let v = Vec3::new();
    assert_eq!(v, Vec3 { x: 0, y: 0, z: 0 });
}

#[test]
fn componentwise_operations() {
    let a = Vec3::from(1, -2, 3);
    let b = Vec3::from(10, 20, -30);
    assert_eq!(a.add(&b), Vec3 { x: 11, y: 18, z: -27 });
    assert_eq!(a.sub(&b), Vec3 { x: -9, y: -22, z: 33 });
    assert_eq!(a.sc_mul(-4), Vec3 { x: -4, y: 8, z: -12 });
    assert_eq!(a.dot(&b), 1 * 10 + (-2) * 20 + 3 * (-30));
}

#[test]
fn addition_commutes() {
    let a = Vec3::from(7, -5, 11);
    let b = Vec3::from(-2, 9, 4);
    assert_eq!(a.add(&b), b.add(&a));
}

#[test]
fn dot_product_commutes() {
    let a = Vec3::from(7, -5, 11);
    let b = Vec3::from(-2, 9, 4);
    assert_eq!(a.dot(&b), b.dot(&a));
}

#[test]
fn scaling_squares_the_squared_length() {
    let a = Vec3::from(3, -4, 12);
    let s: i64 = 5;
    let scaled = a.sc_mul(s);
    assert_eq!(scaled.dot(&scaled), s * s * a.dot(&a));
}
