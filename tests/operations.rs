use vector3d::{pad, parenthesized, Alignment, Vector3d};

#[test]
fn new_sets_components() {
    let v = Vector3d::new(1, -2, 3);
    assert_eq!(v.x, 1);
    assert_eq!(v.y, -2);
    assert_eq!(v.z, 3);
}

#[test]
fn default_is_zero() {
    let v: Vector3d<i64> = Vector3d::default();
    assert_eq!(v, Vector3d::new(0, 0, 0));
}

#[test]
fn add_sub_neg_componentwise() {
    let a = Vector3d::new(1i64, 2, 3);
    let b = Vector3d::new(10i64, 20, 30);
    assert_eq!(a + b, Vector3d::new(11, 22, 33));
    assert_eq!(b - a, Vector3d::new(9, 18, 27));
    assert_eq!(-a, Vector3d::new(-1, -2, -3));
}

#[test]
fn add_is_associative_and_commutative() {
    let a = Vector3d::new(1i64, -7, 3);
    let b = Vector3d::new(4i64, 5, -6);
    let c = Vector3d::new(-2i64, 9, 8);
    assert_eq!((a + b) + c, a + (b + c));
    assert_eq!(a + b, b + a);
    assert_eq!(a + (-a), Vector3d::default());
}

#[test]
fn sub_self_is_zero() {
    let a = Vector3d::new(5i64, -3, 12);
    assert_eq!(a - a, Vector3d::default());
}

#[test]
fn scalar_mul_and_div() {
    let a = Vector3d::new(2i64, 4, 6);
    assert_eq!(a * 3i64, Vector3d::new(6, 12, 18));
    assert_eq!(a / 2i64, Vector3d::new(1, 2, 3));
    let f = Vector3d::new(1.0f64, 2.0, 3.0);
    assert_eq!(f * 0.5f64, Vector3d::new(0.5, 1.0, 1.5));
}

#[test]
fn dot_product() {
    let a = Vector3d::new(1i64, 2, 3);
    let b = Vector3d::new(4i64, 5, 6);
    assert_eq!(a.dot(b), 32);
}

#[test]
fn dot_is_bilinear() {
    let a = Vector3d::new(1i64, 2, 3);
    let b = Vector3d::new(-4i64, 0, 7);
    let c = Vector3d::new(2i64, 5, -1);
    assert_eq!((a + b).dot(c), a.dot(c) + b.dot(c));
}

#[test]
fn cross_product() {
    let a = Vector3d::new(1i64, 2, 3);
    let b = Vector3d::new(4i64, 5, 6);
    assert_eq!(a.cross(b), Vector3d::new(-3, 6, -3));
    let ex = Vector3d::new(1i64, 0, 0);
    let ey = Vector3d::new(0i64, 1, 0);
    assert_eq!(ex.cross(ey), Vector3d::new(0, 0, 1));
}

#[test]
fn cross_with_self_is_zero() {
    let a = Vector3d::new(3i64, -8, 5);
    assert_eq!(a.cross(a), Vector3d::default());
}

#[test]
fn norm2_is_self_dot() {
    let a = Vector3d::new(1i64, -2, 3);
    assert_eq!(a.norm2(), 14);
    assert_eq!(a.norm2(), a.dot(a));
}

#[test]
fn sum_empty_one_two() {
    let empty: Vec<Vector3d<i64>> = Vec::new();
    assert_eq!(Vector3d::sum(&empty), Vector3d::default());
    assert_eq!(Vector3d::sum_owned(empty), Vector3d::new(0, 0, 0));
    let v1 = Vector3d::new(1i64, 2, 3);
    let v2 = Vector3d::new(10i64, 20, 30);
    assert_eq!(Vector3d::sum(&[v1]), v1);
    assert_eq!(Vector3d::sum(&[v1, v2]), v1 + v2);
    assert_eq!(Vector3d::sum_owned(vec![v1, v2, v1]), Vector3d::new(12, 24, 36));
}

#[test]
fn index_reads_axes() {
    let v = Vector3d::new(7, 8, 9);
    assert_eq!(v[0], v.x);
    assert_eq!(v[1], v.y);
    assert_eq!(v[2], v.z);
}

#[test]
fn index_mut_writes_one_axis() {
    let mut v = Vector3d::new(7, 8, 9);
    *v.index_mut(1) = 42;
    assert_eq!(v[1], 42);
    assert_eq!(v[0], 7);
    assert_eq!(v[2], 9);
}

#[test]
fn pad_places_text() {
    assert_eq!(pad("ab", 5, Alignment::Left), "ab   ");
    assert_eq!(pad("ab", 5, Alignment::Right), "   ab");
    assert_eq!(pad("ab", 5, Alignment::Center), " ab  ");
    assert_eq!(pad("abcdef", 3, Alignment::Right), "abcdef");
    assert_eq!(pad("", 0, Alignment::Center), "");
}

#[test]
fn parenthesized_joins_parts() {
    assert_eq!(parenthesized("1", "-2", "3.5"), "(1, -2, 3.5)");
}

#[test]
fn render_defaults_to_left() {
    let parts = Vector3d::new("1".to_string(), "2".to_string(), "3".to_string());
    assert_eq!(parts.render(Some(12), None), "(1, 2, 3)   ");
    assert_eq!(parts.render(Some(4), Some(Alignment::Right)), "(1, 2, 3)");
}
