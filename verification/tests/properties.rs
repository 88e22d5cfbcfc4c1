use spatial3d::Matrix3D;
use spatial3d::Vector3D;

fn b(x: f32) -> u32 {
    x.to_bits()
}

fn f(bits: u32) -> f32 {
    f32::from_bits(bits)
}

#[test]
fn add_then_sub_restores() {
    let v = Vector3D::new(b(1.0), b(2.0), b(3.0));
    let w = Vector3D::new(b(4.0), b(5.0), b(6.0));
    assert_eq!(v.add_vector(w).sub_vector(w), v);
}

#[test]
fn mul_then_div_restores() {
    let v = Vector3D::new(b(1.0), b(2.0), b(3.0));
    let s = b(2.0);
    assert_eq!(v.mul_scalar(s).div_scalar(s), v);
}

#[test]
fn negate_twice_restores() {
    let v = Vector3D::new(b(1.5), b(-2.25), b(0.0));
    assert_eq!(v.negated().negated(), v);
}

#[test]
fn add_scalar_zero_is_identity() {
    let v = Vector3D::new(b(1.0), b(2.0), b(3.0));
    assert_eq!(v.add_scalar(b(0.0)), v);
}

#[test]
fn magnitude_non_negative() {
    let vs = [
        Vector3D::new(b(-1.0), b(-2.0), b(-3.0)),
        Vector3D::new(b(0.0), b(0.0), b(0.0)),
        Vector3D::new(b(7.5), b(-0.25), b(100.0)),
    ];
    for v in vs {
        assert!(f(v.magnitude()) >= 0.0);
    }
}

#[test]
fn magnitude_of_one_two_three() {
    let v = Vector3D::new(b(1.0), b(2.0), b(3.0));
    assert_eq!(v.magnitude(), b(14.0f32.sqrt()));
}

#[test]
fn normalize_magnitude_is_almost_one() {
    let v = Vector3D::new(b(3.0), b(-4.0), b(12.0));
    let n = v.normalize();
    assert!((f(n.magnitude()) - 1.0).abs() < 1e-6);
}

#[test]
fn normalize_zero_vector_is_non_finite() {
    let v = Vector3D::new(b(0.0), b(0.0), b(0.0));
    let n = v.normalize();
    assert!(!f(n.x).is_finite());
    assert!(!f(n.y).is_finite());
    assert!(!f(n.z).is_finite());
}

#[test]
fn vector_indices_accepted_exactly_below_three() {
    let mut v = Vector3D::new(b(1.0), b(2.0), b(3.0));
    assert!(v.get(2).is_some());
    assert!(v.get(3).is_none());
    assert!(v.get_mut(2).is_some());
    assert!(v.get_mut(3).is_none());
}

#[test]
fn matrix_indices_accepted_exactly_below_three() {
    let mut m = Matrix3D::new(
        b(1.0),
        b(2.0),
        b(3.0),
        b(4.0),
        b(5.0),
        b(6.0),
        b(7.0),
        b(8.0),
        b(9.0),
    );
    assert!(m.get(2, 2).is_some());
    assert!(m.get(3, 2).is_none());
    assert!(m.get(2, 3).is_none());
    assert!(m.get_mut(2, 2).is_some());
    assert!(m.get_mut(3, 2).is_none());
    assert!(m.get_mut(2, 3).is_none());
}

#[test]
fn transpose_is_involution() {
    let m = Matrix3D::new(
        b(1.0),
        b(2.0),
        b(3.0),
        b(4.0),
        b(5.0),
        b(6.0),
        b(7.0),
        b(8.0),
        b(9.0),
    );
    assert_eq!(m.transpose().transpose(), m);
    let t = m.transpose();
    assert_eq!(t.get(0, 1), m.get(1, 0));
    assert_eq!(t.get(2, 0), m.get(0, 2));
}

#[test]
fn transpose_mut_chains() {
    let mut m = Matrix3D::new(
        b(1.0),
        b(2.0),
        b(3.0),
        b(4.0),
        b(5.0),
        b(6.0),
        b(7.0),
        b(8.0),
        b(9.0),
    );
    let r = m.transpose_mut();
    assert_eq!(r.get(0, 1), Some(b(4.0)));
    assert_eq!(m.get(1, 0), Some(b(2.0)));
}

#[test]
fn try_from_rows_round_trips() {
    let r0 = Vector3D::new(b(1.0), b(2.0), b(3.0));
    let r1 = Vector3D::new(b(4.0), b(5.0), b(6.0));
    let r2 = Vector3D::new(b(7.0), b(8.0), b(9.0));
    let rows = vec![r0, r1, r2];
    let m = Matrix3D::try_from_rows(rows.clone()).unwrap();
    for i in 0..3 {
        for j in 0..3 {
            assert_eq!(m.get(i, j), rows[i].get(j));
        }
    }
}

#[test]
fn try_from_rows_rejects_wrong_length() {
    let row = Vector3D::new(b(1.0), b(2.0), b(3.0));
    let short: Vec<Vector3D> = vec![row, row];
    let long: Vec<Vector3D> = vec![row, row, row, row];
    let none: Vec<Vector3D> = vec![];
    assert_eq!(
        Matrix3D::try_from_rows(short),
        Err("Expected a sequence of exactly 3 rows")
    );
    assert!(Matrix3D::try_from_rows(long).is_err());
    assert!(Matrix3D::try_from_rows(none).is_err());
}

#[test]
fn matrix_add_is_associative_elementwise() {
    let m1 = Matrix3D::new(
        b(1.0),
        b(2.0),
        b(3.0),
        b(4.0),
        b(5.0),
        b(6.0),
        b(7.0),
        b(8.0),
        b(9.0),
    );
    let m2 = m1.mul_scalar(b(2.0));
    let m3 = m1.mul_scalar(b(4.0));
    let left = m1.add_matrix(m2).add_matrix(m3);
    let right = m1.add_matrix(m2.add_matrix(m3));
    assert_eq!(left, right);
    for i in 0..3 {
        for j in 0..3 {
            let e1 = f(m1.get(i, j).unwrap());
            let sum = f(left.get(i, j).unwrap());
            assert_eq!(sum, e1 * 7.0);
        }
    }
}

#[test]
fn matrix_scalar_one_is_identity() {
    let m = Matrix3D::new(
        b(1.0),
        b(2.0),
        b(3.0),
        b(4.0),
        b(5.0),
        b(6.0),
        b(7.0),
        b(8.0),
        b(9.0),
    );
    assert_eq!(m.mul_scalar(b(1.0)), m);
    assert_eq!(m.div_scalar(b(1.0)), m);
}

#[test]
fn matrix_add_then_sub_restores() {
    let m = Matrix3D::new(
        b(1.0),
        b(2.0),
        b(3.0),
        b(4.0),
        b(5.0),
        b(6.0),
        b(7.0),
        b(8.0),
        b(9.0),
    );
    let n = m.mul_scalar(b(0.5));
    assert_eq!(m.add_matrix(n).sub_matrix(n), m);
}

#[test]
fn column_view_mutation_is_observable() {
    let mut m = Matrix3D::new(
        b(1.0),
        b(2.0),
        b(3.0),
        b(4.0),
        b(5.0),
        b(6.0),
        b(7.0),
        b(8.0),
        b(9.0),
    );
    if let Some(col) = m.get_mut_vector(1) {
        col.x = b(42.0);
        col.z = b(-6.5);
    }
    assert_eq!(m.get(0, 1), Some(b(42.0)));
    assert_eq!(m.get(2, 1), Some(b(-6.5)));
    assert_eq!(m.get(1, 1), Some(b(5.0)));
    assert_eq!(m.get(0, 0), Some(b(1.0)));
}

#[test]
fn eq_components_follows_ieee_rules() {
    let nan = b(f32::NAN);
    let v_nan = Vector3D::new(nan, b(1.0), b(2.0));
    assert!(!v_nan.eq_components(&v_nan));
    let pos_zero = Vector3D::new(b(0.0), b(1.0), b(2.0));
    let neg_zero = Vector3D::new(b(-0.0), b(1.0), b(2.0));
    assert!(pos_zero.eq_components(&neg_zero));
    assert_ne!(pos_zero, neg_zero);
    let v = Vector3D::new(b(1.0), b(2.0), b(3.0));
    let w = Vector3D::new(b(1.0), b(2.0), b(4.0));
    assert!(v.eq_components(&v));
    assert!(!v.eq_components(&w));
}

#[test]
fn matrix_eq_components_follows_ieee_rules() {
    let m = Matrix3D::new(
        b(0.0),
        b(2.0),
        b(3.0),
        b(4.0),
        b(5.0),
        b(6.0),
        b(7.0),
        b(8.0),
        b(9.0),
    );
    let n = Matrix3D::new(
        b(-0.0),
        b(2.0),
        b(3.0),
        b(4.0),
        b(5.0),
        b(6.0),
        b(7.0),
        b(8.0),
        b(9.0),
    );
    assert!(m.eq_components(&n));
    assert_ne!(m, n);
    let with_nan = Matrix3D::new(
        b(f32::NAN),
        b(2.0),
        b(3.0),
        b(4.0),
        b(5.0),
        b(6.0),
        b(7.0),
        b(8.0),
        b(9.0),
    );
    assert!(!with_nan.eq_components(&with_nan));
}

#[test]
fn subtraction_matches_hardware() {
    let v = Vector3D::new(b(1.0), b(10.5), b(-3.25));
    let w = Vector3D::new(b(0.75), b(2.5), b(1.25));
    let d = v.sub_vector(w);
    assert_eq!(d.x, b(1.0 - 0.75));
    assert_eq!(d.y, b(10.5 - 2.5));
    assert_eq!(d.z, b(-3.25 - 1.25));
}

#[test]
fn division_uses_reciprocal_multiply() {
    let v = Vector3D::new(b(1.0), b(2.0), b(3.0));
    let s = 10.0f32;
    let inv = 1.0f32 / s;
    let q = v.div_scalar(b(s));
    assert_eq!(q.x, b(1.0 * inv));
    assert_eq!(q.y, b(2.0 * inv));
    assert_eq!(q.z, b(3.0 * inv));
}
