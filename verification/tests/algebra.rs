use ega::{
    zero, Add, Bivector, Dot, Dual, Empty, GeometricProduct, GradeSelect, HodgeDual,
    IdealNormSquared, Join, Meet, Multivector, Neg, Nil, NormSquared, Pseudoscalar,
    Reverse, Scalar, ScalarProduct, Sub, Trivector, Vector, Zero, COMPONENT_LIMIT,
};

const L: i64 = COMPONENT_LIMIT;

fn multivector_a() -> Multivector {
    Multivector {
        e0: 2,
        e1: 3,
        e2: 5,
        e3: 7,
        s: 11,
        e23: 13,
        e31: 17,
        e12: 19,
        e01: 23,
        e02: 29,
        e03: 31,
        e0123: 37,
        e123: 41,
        e032: 43,
        e013: 47,
        e021: 53,
    }
}

fn vector_a() -> Vector {
    Vector { e0: 151, e1: 157, e2: 163, e3: 167 }
}

fn vector_b() -> Vector {
    Vector { e0: 173, e1: 179, e2: 181, e3: 191 }
}

fn bivector_a() -> Bivector {
    Bivector { e23: 223, e31: 227, e12: 229, e01: 233, e02: 239, e03: 241 }
}

fn trivector_a() -> Trivector {
    Trivector { e123: 317, e032: 331, e013: 337, e021: 347 }
}

fn scalar_a() -> Scalar {
    Scalar { s: 137 }
}

#[test]
fn meet_of_orthogonal_planes_is_z_axis_line() {
    let u = Vector { e0: 0, e1: 1, e2: 0, e3: 0 };
    let v = Vector { e0: 0, e1: 0, e2: 1, e3: 0 };
    let expected = Bivector { e23: 0, e31: 0, e12: 1, e01: 0, e02: 0, e03: 0 };
    assert_eq!(u.meet(v), expected);
}

#[test]
fn meet_anticommutes_on_vectors() {
    let forward = vector_a().meet(vector_b());
    let backward = vector_b().meet(vector_a());
    assert_eq!(forward, backward.neg());
    assert_eq!(forward, Bivector { e23: 906, e31: -94, e12: -760, e01: -132, e02: -868, e03: -50 });
}

#[test]
fn reverse_twice_returns_the_value() {
    assert_eq!(multivector_a().reverse().reverse(), multivector_a());
    assert_eq!(bivector_a().reverse().reverse(), bivector_a());
    assert_eq!(trivector_a().reverse().reverse(), trivector_a());
}

#[test]
fn dual_twice_flips_odd_grades_only() {
    let twice = multivector_a().dual().dual();
    let expected = Multivector {
        e0: -2, e1: -3, e2: -5, e3: -7,
        s: 11, e23: 13, e31: 17, e12: 19,
        e01: 23, e02: 29, e03: 31, e0123: 37,
        e123: -41, e032: -43, e013: -47, e021: -53,
    };
    assert_eq!(twice, expected);
    assert_eq!(multivector_a().poincare_dual().poincare_dual(), multivector_a());
}

#[test]
fn hodge_undual_inverts_hodge_dual() {
    assert_eq!(vector_a().hodge_dual().hodge_undual(), vector_a());
    assert_eq!(multivector_a().hodge_dual().hodge_undual(), multivector_a());
}

#[test]
fn norm_squared_is_scalar_part_of_value_times_reverse() {
    let direct = multivector_a().norm_squared();
    let via_product = multivector_a()
        .geometric_product(multivector_a().reverse())
        .grade_0();
    assert_eq!(direct, via_product);
    assert_eq!(direct, Scalar { s: 2704 });
    let via_scalar_product =
        multivector_a().scalar_product(multivector_a().reverse());
    assert_eq!(direct, via_scalar_product);
}

#[test]
fn ideal_norm_squared_sums_null_components() {
    assert_eq!(vector_a().ideal_norm_squared(), Pseudoscalar { e0123: 22801 });
    assert_eq!(bivector_a().ideal_norm_squared(), Pseudoscalar { e0123: 169491 });
    assert_eq!(multivector_a().ideal_norm_squared(), Pseudoscalar { e0123: 10571 });
    assert_eq!(scalar_a().ideal_norm_squared(), Pseudoscalar { e0123: 0 });
}

#[test]
fn grade_select_is_idempotent() {
    let once = multivector_a().grade_2();
    assert_eq!(once.grade_2(), once);
    let scalar_part = multivector_a().grade_0();
    assert_eq!(scalar_part.grade_0(), scalar_part);
    assert_eq!(once.grade_3(), Trivector { e123: 0, e032: 0, e013: 0, e021: 0 });
}

#[test]
fn absent_is_identity_under_add_and_sub() {
    assert_eq!(multivector_a().add(Empty), multivector_a());
    assert_eq!(vector_a().add(Empty), vector_a());
    assert_eq!(Empty.add(bivector_a()), bivector_a());
    assert_eq!(trivector_a().sub(Empty), trivector_a());
    assert_eq!(Empty.sub(scalar_a()), scalar_a());
    assert_eq!(Empty.add(Empty), Empty);
}

#[test]
fn absent_absorbs_products() {
    assert_eq!(multivector_a().meet(Empty), Empty);
    assert_eq!(Empty.meet(vector_a()), Empty);
    assert_eq!(bivector_a().join(Empty), Empty);
    assert_eq!(scalar_a().geometric_product(Empty), Empty);
    assert_eq!(Empty.dot(trivector_a()), Empty);
}

#[test]
fn add_and_sub_are_componentwise() {
    assert_eq!(vector_a().add(vector_b()), Vector { e0: 324, e1: 336, e2: 344, e3: 358 });
    assert_eq!(vector_a().sub(vector_b()), Vector { e0: -22, e1: -22, e2: -18, e3: -24 });
    let widened = scalar_a().add(bivector_a());
    let expected = Multivector {
        e0: 0,
        e1: 0,
        e2: 0,
        e3: 0,
        s: 137,
        e23: 223,
        e31: 227,
        e12: 229,
        e01: 233,
        e02: 239,
        e03: 241,
        e0123: 0,
        e123: 0,
        e032: 0,
        e013: 0,
        e021: 0,
    };
    assert_eq!(widened, expected);
}

#[test]
fn zero_values_have_no_components() {
    let m: Multivector = zero();
    assert_eq!(m, Multivector {
        e0: 0, e1: 0, e2: 0, e3: 0, s: 0, e23: 0, e31: 0, e12: 0,
        e01: 0, e02: 0, e03: 0, e0123: 0, e123: 0, e032: 0, e013: 0, e021: 0,
    });
    assert_eq!(Vector::zero(), Vector { e0: 0, e1: 0, e2: 0, e3: 0 });
    assert_eq!(Scalar::nil(), Scalar { s: 0 });
    assert_eq!(m.norm_squared(), Scalar { s: 0 });
}

#[test]
fn products_are_exact_at_the_component_limit() {
    let every = Multivector {
        e0: L, e1: L, e2: L, e3: L, s: L, e23: L, e31: L, e12: L,
        e01: L, e02: L, e03: L, e0123: L, e123: L, e032: L, e013: L, e021: L,
    };
    let alternating = Multivector {
        e0: -L, e1: L, e2: -L, e3: L, s: L, e23: -L, e31: L, e12: -L,
        e01: L, e02: -L, e03: L, e0123: -L, e123: L, e032: -L, e013: L, e021: -L,
    };
    let product = every.geometric_product(alternating);
    let expected = Multivector {
        e0: -4 * L * L,
        e1: 2 * L * L,
        e2: -2 * L * L,
        e3: 2 * L * L,
        s: 2 * L * L,
        e23: 6 * L * L,
        e31: 2 * L * L,
        e12: -2 * L * L,
        e01: 12 * L * L,
        e02: 0 * L * L,
        e03: 4 * L * L,
        e0123: 0 * L * L,
        e123: 2 * L * L,
        e032: 4 * L * L,
        e013: 0 * L * L,
        e021: -4 * L * L,
    };
    assert_eq!(product, expected);
}

#[test]
fn widening_into_multivector_keeps_components() {
    let widened = Multivector::from(vector_a());
    let expected = Multivector {
        e0: 151, e1: 157, e2: 163, e3: 167, s: 0, e23: 0, e31: 0, e12: 0,
        e01: 0, e02: 0, e03: 0, e0123: 0, e123: 0, e032: 0, e013: 0, e021: 0,
    };
    assert_eq!(widened, expected);
    assert_eq!(Multivector::from(scalar_a()).grade_0(), scalar_a());
    assert_eq!(Multivector::from(bivector_a()).grade_2(), bivector_a());
}

#[test]
fn grade_parts_partition_a_multivector() {
    let m = multivector_a();
    let rebuilt = Multivector::from(m.grade_0())
        .add(m.grade_1())
        .add(m.grade_2())
        .add(m.grade_3())
        .add(m.grade_4());
    assert_eq!(rebuilt, m);
}
