use renderer::bounds::{Bounds3, New};
use renderer::normal::Normal3;
use renderer::point::Point3;
use renderer::vector::Vector3;

#[test]
fn test() {
    let a = Vector3 { x: 10, y: 20, z: 35 };
    let b = Vector3 { x: 10, y: 25, z: 30 };
    let c = Vector3 { x: 10, y: 20, z: 30 };
    let d = a.add(b);
    assert_eq!(Vector3 { x: 20, y: 45, z: 65 }, d);
    let e = c.mul(3);
    assert_eq!(Vector3 { x: 30, y: 60, z: 90 }, e);
    let f = e.cross(d);
    assert_eq!(Vector3 { x: -150, y: -150, z: 150 }, f);
    assert_eq!(-150, f.index(0));
    assert_eq!(-150, f.index(1));
    assert_eq!(150, f.index(2));
    assert_eq!(150, f.index(3));
    assert!(Vector3 { x: 1, y: 2, z: 3 } == Vector3 { x: 1, y: 2, z: 3 });
    assert!(Vector3 { x: 1, y: 3, z: 3 } != Vector3 { x: 1, y: 2, z: 3 });

    let p1 = Point3 { x: 1, y: 2, z: 3 };
    let p2 = Point3 { x: 10, y: -10, z: 5 };

    let b2 = Bounds3::new(&p1);
    let b3 = Bounds3::new((&p1, &p2));
    assert_eq!(b2.p_min, b2.p_max);
    assert_eq!(b3.p_min, p1);
    assert_eq!(b3.p_max, p2);
}

#[test]
fn vector_test_add_assign() {
    println!("hello");
}

#[test]
fn point_test_add_assign() {
    println!("hello");
}

#[test]
fn normal_test_add_assign() {
    println!("hello");
}

#[test]
fn cross_is_anticommutative() {
    let a = Vector3 { x: 3, y: -5, z: 7 };
    let b = Vector3 { x: 2, y: 11, z: -4 };
    let ab = a.cross(b);
    let ba = b.cross(a);
    assert_eq!(ab, ba.mul(-1));
}

#[test]
fn cross_with_self_is_zero() {
    let a = Vector3 { x: 9, y: -12, z: 2 };
    assert_eq!(a.cross(a), Vector3 { x: 0, y: 0, z: 0 });
}

#[test]
fn cross_exact_value() {
    let a = Vector3 { x: 1, y: 0, z: 0 };
    let b = Vector3 { x: 0, y: 1, z: 0 };
    assert_eq!(a.cross(b), Vector3 { x: 0, y: 0, z: 1 });
}

#[test]
fn dot_distributes_over_add() {
    let a = Vector3 { x: 4, y: -2, z: 9 };
    let b = Vector3 { x: 1, y: 7, z: -3 };
    let c = Vector3 { x: -6, y: 5, z: 8 };
    assert_eq!(a.dot(b.add(c)), a.dot(b) + a.dot(c));
}

#[test]
fn dot_exact_value() {
    let a = Vector3 { x: 1, y: 2, z: 3 };
    let b = Vector3 { x: 4, y: -5, z: 6 };
    assert_eq!(a.dot(b), 4 - 10 + 18);
}

#[test]
fn length_squared_is_self_dot() {
    let a = Vector3 { x: 3, y: 4, z: 12 };
    assert_eq!(a.length_squared(), 169);
    let n = Normal3 { x: 2, y: -3, z: 6 };
    assert_eq!(n.length_squared(), 49);
}

#[test]
fn vector_assign_ops() {
    let mut v = Vector3 { x: 1, y: 2, z: 3 };
    v.add_assign(Vector3 { x: 10, y: 20, z: 30 });
    assert_eq!(v, Vector3 { x: 11, y: 22, z: 33 });
    v.sub_assign(Vector3 { x: 1, y: 2, z: 3 });
    assert_eq!(v, Vector3 { x: 10, y: 20, z: 30 });
    v.mul_assign(-2);
    assert_eq!(v, Vector3 { x: -20, y: -40, z: -60 });
    v.div_assign(7);
    assert_eq!(v, Vector3 { x: -2, y: -5, z: -8 });
}

#[test]
fn division_truncates_toward_zero() {
    let v = Vector3 { x: -7, y: 7, z: -9 };
    assert_eq!(v.div(2), Vector3 { x: -3, y: 3, z: -4 });
    let v = Vector3 { x: 8, y: -8, z: 5 };
    assert_eq!(v.div(-3), Vector3 { x: -2, y: 2, z: -1 });
}

#[test]
fn componentwise_product() {
    let a = Vector3 { x: 2, y: -3, z: 4 };
    let b = Vector3 { x: 5, y: 6, z: -7 };
    assert_eq!(a.mul_vec(b), Vector3 { x: 10, y: -18, z: -28 });
}

#[test]
fn vector_min_max() {
    let a = Vector3 { x: 1, y: 9, z: -4 };
    let b = Vector3 { x: 3, y: -2, z: -4 };
    assert_eq!(a.min(b), Vector3 { x: 1, y: -2, z: -4 });
    assert_eq!(a.max(b), Vector3 { x: 3, y: 9, z: -4 });
}

#[test]
fn point_arithmetic() {
    let p = Point3 { x: 5, y: -1, z: 2 };
    let q = Point3 { x: 1, y: 1, z: 1 };
    assert_eq!(p.sub(q), Vector3 { x: 4, y: -2, z: 1 });
    let v = Vector3 { x: 10, y: 10, z: 10 };
    assert_eq!(p.add_vector(v), Point3 { x: 15, y: 9, z: 12 });
    assert_eq!(p.sub_vector(v), Point3 { x: -5, y: -11, z: -8 });
    assert_eq!(p.add(q), Point3 { x: 6, y: 0, z: 3 });
    assert_eq!(p.mul(3), Point3 { x: 15, y: -3, z: 6 });
    assert_eq!(p.div(2), Point3 { x: 2, y: 0, z: 1 });
}

#[test]
fn point_assign_ops() {
    let mut p = Point3 { x: 1, y: 2, z: 3 };
    p.add_assign(Point3 { x: 1, y: 1, z: 1 });
    assert_eq!(p, Point3 { x: 2, y: 3, z: 4 });
    p.sub_assign(Vector3 { x: 2, y: 3, z: 4 });
    assert_eq!(p, Point3 { x: 0, y: 0, z: 0 });
    let mut q = Point3 { x: 4, y: -6, z: 8 };
    q.mul_assign(2);
    assert_eq!(q, Point3 { x: 8, y: -12, z: 16 });
    q.div_assign(4);
    assert_eq!(q, Point3 { x: 2, y: -3, z: 4 });
}

#[test]
fn normal_arithmetic() {
    let m = Normal3 { x: 1, y: -2, z: 3 };
    let n = Normal3 { x: 4, y: 5, z: -6 };
    assert_eq!(m.add(n), Normal3 { x: 5, y: 3, z: -3 });
    assert_eq!(m.sub(n), Normal3 { x: -3, y: -7, z: 9 });
    assert_eq!(m.mul(-2), Normal3 { x: -2, y: 4, z: -6 });
    assert_eq!(n.div(2), Normal3 { x: 2, y: 2, z: -3 });
    let mut a = m;
    a.add_assign(n);
    assert_eq!(a, Normal3 { x: 5, y: 3, z: -3 });
    a.sub_assign(n);
    assert_eq!(a, m);
    a.mul_assign(10);
    assert_eq!(a, Normal3 { x: 10, y: -20, z: 30 });
    a.div_assign(-10);
    assert_eq!(a, Normal3 { x: -1, y: 2, z: -3 });
}

#[test]
fn normal_dot_vector() {
    let n = Normal3 { x: 0, y: 1, z: 0 };
    let up = Vector3 { x: 0, y: 1, z: 0 };
    let down = Vector3 { x: 0, y: -1, z: 0 };
    assert_eq!(n.dot(up), 1);
    assert_eq!(n.dot(down), -1);
}

#[test]
fn index_aliases_z_beyond_two() {
    let v = Vector3 { x: 1, y: 2, z: 3 };
    assert_eq!(v.index(2), 3);
    assert_eq!(v.index(9), 3);
    let p = Point3 { x: 4, y: 5, z: 6 };
    assert_eq!(p.index(2), 6);
    assert_eq!(p.index(100), 6);
    let n = Normal3 { x: 7, y: 8, z: 9 };
    assert_eq!(n.index(2), 9);
    assert_eq!(n.index(3), 9);
}

#[test]
fn normal_vector_round_trip() {
    let n = Normal3 { x: -17, y: 0, z: 9_223_372_036_854_775_807 };
    let v = Vector3::from(n);
    assert_eq!(v, Vector3 { x: -17, y: 0, z: 9_223_372_036_854_775_807 });
    let back = Normal3::from(v);
    assert_eq!(back, n);
}

#[test]
fn point_to_vector_conversion() {
    let p = Point3 { x: 3, y: -4, z: 5 };
    assert_eq!(Vector3::from(p), Vector3 { x: 3, y: -4, z: 5 });
}
