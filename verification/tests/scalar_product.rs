use ega::{Bivector, GeometricProduct, GradeSelect, Multivector, Pseudoscalar, Scalar, ScalarProduct, Trivector, Vector};

fn bivector_a() -> Bivector {
    Bivector {
        e23: 223,
        e31: 227,
        e12: 229,
        e01: 233,
        e02: 239,
        e03: 241,
    }
}

fn bivector_b() -> Bivector {
    Bivector {
        e23: 251,
        e31: 257,
        e12: 263,
        e01: 269,
        e02: 271,
        e03: 277,
    }
}

fn multivector_a() -> Multivector {
    Multivector {
        e0: 2,
        e1: 3,
        e2: 5,
        e3: 7,
        s: 11,
        e23: 13,
        e31: 17,
        e12: 19,
        e01: 23,
        e02: 29,
        e03: 31,
        e0123: 37,
        e123: 41,
        e032: 43,
        e013: 47,
        e021: 53,
    }
}

fn multivector_b() -> Multivector {
    Multivector {
        e0: 59,
        e1: 61,
        e2: 67,
        e3: 71,
        s: 73,
        e23: 79,
        e31: 83,
        e12: 89,
        e01: 97,
        e02: 101,
        e03: 103,
        e0123: 107,
        e123: 109,
        e032: 113,
        e013: 127,
        e021: 131,
    }
}

fn pseudoscalar_a() -> Pseudoscalar {
    Pseudoscalar {
        e0123: 397,
    }
}

fn pseudoscalar_b() -> Pseudoscalar {
    Pseudoscalar {
        e0123: 401,
    }
}

fn scalar_a() -> Scalar {
    Scalar {
        s: 137,
    }
}

fn scalar_b() -> Scalar {
    Scalar {
        s: 139,
    }
}

fn trivector_a() -> Trivector {
    Trivector {
        e123: 317,
        e032: 331,
        e013: 337,
        e021: 347,
    }
}

fn trivector_b() -> Trivector {
    Trivector {
        e123: 349,
        e032: 353,
        e013: 359,
        e021: 367,
    }
}

fn vector_a() -> Vector {
    Vector {
        e0: 151,
        e1: 157,
        e2: 163,
        e3: 167,
    }
}

fn vector_b() -> Vector {
    Vector {
        e0: 173,
        e1: 179,
        e2: 181,
        e3: 191,
    }
}

#[test]
fn scalar_product_multivector_1() {
    let result = multivector_a().scalar_product(multivector_b());
    let expected = multivector_a().geometric_product(multivector_b()).grade_0();
    assert_eq!(result, expected);
}

#[test]
fn scalar_product_scalar_1() {
    let result = multivector_a().scalar_product(scalar_a());
    let expected = multivector_a().geometric_product(scalar_a()).grade_0();
    assert_eq!(result, expected);
}

#[test]
fn scalar_product_vector_1() {
    let result = multivector_a().scalar_product(vector_a());
    let expected = multivector_a().geometric_product(vector_a()).grade_0();
    assert_eq!(result, expected);
}

#[test]
fn scalar_product_bivector_1() {
    let result = multivector_a().scalar_product(bivector_a());
    let expected = multivector_a().geometric_product(bivector_a()).grade_0();
    assert_eq!(result, expected);
}

#[test]
fn scalar_product_trivector_1() {
    let result = multivector_a().scalar_product(trivector_a());
    let expected = multivector_a().geometric_product(trivector_a()).grade_0();
    assert_eq!(result, expected);
}

#[test]
fn scalar_product_pseudoscalar_1() {
    let result = multivector_a().scalar_product(pseudoscalar_a());
    let expected = multivector_a().geometric_product(pseudoscalar_a()).grade_0();
    assert_eq!(result, expected);
}

#[test]
fn scalar_scalar_product_multivector_1() {
    let result = scalar_a().scalar_product(multivector_a());
    let expected = scalar_a().geometric_product(multivector_a()).grade_0();
    assert_eq!(result, expected);
}

#[test]
fn scalar_scalar_product_scalar_1() {
    let result = scalar_a().scalar_product(scalar_b());
    let expected = scalar_a().geometric_product(scalar_b()).grade_0();
    assert_eq!(result, expected);
}

#[test]
fn scalar_scalar_product_vector_1() {
    let result = scalar_a().scalar_product(vector_a());
    let expected = scalar_a().geometric_product(vector_a()).grade_0();
    assert_eq!(result, expected);
}

#[test]
fn scalar_scalar_product_bivector_1() {
    let result = scalar_a().scalar_product(bivector_a());
    let expected = scalar_a().geometric_product(bivector_a()).grade_0();
    assert_eq!(result, expected);
}

#[test]
fn scalar_scalar_product_trivector_1() {
    let result = scalar_a().scalar_product(trivector_a());
    let expected = scalar_a().geometric_product(trivector_a()).grade_0();
    assert_eq!(result, expected);
}

#[test]
fn scalar_scalar_product_pseudoscalar_1() {
    let result = scalar_a().scalar_product(pseudoscalar_a());
    let expected = scalar_a().geometric_product(pseudoscalar_a()).grade_0();
    assert_eq!(result, expected);
}

#[test]
fn vector_scalar_product_multivector_1() {
    let result = vector_a().scalar_product(multivector_a());
    let expected = vector_a().geometric_product(multivector_a()).grade_0();
    assert_eq!(result, expected);
}

#[test]
fn vector_scalar_product_scalar_1() {
    let result = vector_a().scalar_product(scalar_a());
    let expected = vector_a().geometric_product(scalar_a()).grade_0();
    assert_eq!(result, expected);
}

#[test]
fn vector_scalar_product_vector_1() {
    let result = vector_a().scalar_product(vector_b());
    let expected = vector_a().geometric_product(vector_b()).grade_0();
    assert_eq!(result, expected);
}

#[test]
fn vector_scalar_product_bivector_1() {
    let result = vector_a().scalar_product(bivector_a());
    let expected = vector_a().geometric_product(bivector_a()).grade_0();
    assert_eq!(result, expected);
}

#[test]
fn vector_scalar_product_trivector_1() {
    let result = vector_a().scalar_product(trivector_a());
    let expected = vector_a().geometric_product(trivector_a()).grade_0();
    assert_eq!(result, expected);
}

#[test]
fn vector_scalar_product_pseudoscalar_1() {
    let result = vector_a().scalar_product(pseudoscalar_a());
    let expected = vector_a().geometric_product(pseudoscalar_a()).grade_0();
    assert_eq!(result, expected);
}

#[test]
fn bivector_scalar_product_multivector_1() {
    let result = bivector_a().scalar_product(multivector_a());
    let expected = bivector_a().geometric_product(multivector_a()).grade_0();
    assert_eq!(result, expected);
}

#[test]
fn bivector_scalar_product_scalar_1() {
    let result = bivector_a().scalar_product(scalar_a());
    let expected = bivector_a().geometric_product(scalar_a()).grade_0();
    assert_eq!(result, expected);
}

#[test]
fn bivector_scalar_product_vector_1() {
    let result = bivector_a().scalar_product(vector_a());
    let expected = bivector_a().geometric_product(vector_a()).grade_0();
    assert_eq!(result, expected);
}

#[test]
fn bivector_scalar_product_bivector_1() {
    let result = bivector_a().scalar_product(bivector_b());
    let expected = bivector_a().geometric_product(bivector_b()).grade_0();
    assert_eq!(result, expected);
}

#[test]
fn bivector_scalar_product_trivector_1() {
    let result = bivector_a().scalar_product(trivector_a());
    let expected = bivector_a().geometric_product(trivector_a()).grade_0();
    assert_eq!(result, expected);
}

#[test]
fn bivector_scalar_product_pseudoscalar_1() {
    let result = bivector_a().scalar_product(pseudoscalar_a());
    let expected = bivector_a().geometric_product(pseudoscalar_a()).grade_0();
    assert_eq!(result, expected);
}

#[test]
fn trivector_scalar_product_multivector_1() {
    let result = trivector_a().scalar_product(multivector_a());
    let expected = trivector_a().geometric_product(multivector_a()).grade_0();
    assert_eq!(result, expected);
}

#[test]
fn trivector_scalar_product_scalar_1() {
    let result = trivector_a().scalar_product(scalar_a());
    let expected = trivector_a().geometric_product(scalar_a()).grade_0();
    assert_eq!(result, expected);
}

#[test]
fn trivector_scalar_product_vector_1() {
    let result = trivector_a().scalar_product(vector_a());
    let expected = trivector_a().geometric_product(vector_a()).grade_0();
    assert_eq!(result, expected);
}

#[test]
fn trivector_scalar_product_bivector_1() {
    let result = trivector_a().scalar_product(bivector_a());
    let expected = trivector_a().geometric_product(bivector_a()).grade_0();
    assert_eq!(result, expected);
}

#[test]
fn trivector_scalar_product_trivector_1() {
    let result = trivector_a().scalar_product(trivector_b());
    let expected = trivector_a().geometric_product(trivector_b()).grade_0();
    assert_eq!(result, expected);
}

#[test]
fn trivector_scalar_product_pseudoscalar_1() {
    let result = trivector_a().scalar_product(pseudoscalar_a());
    let expected = trivector_a().geometric_product(pseudoscalar_a()).grade_0();
    assert_eq!(result, expected);
}

#[test]
fn pseudoscalar_scalar_product_multivector_1() {
    let result = pseudoscalar_a().scalar_product(multivector_a());
    let expected = pseudoscalar_a().geometric_product(multivector_a()).grade_0();
    assert_eq!(result, expected);
}

#[test]
fn pseudoscalar_scalar_product_scalar_1() {
    let result = pseudoscalar_a().scalar_product(scalar_a());
    let expected = pseudoscalar_a().geometric_product(scalar_a()).grade_0();
    assert_eq!(result, expected);
}

#[test]
fn pseudoscalar_scalar_product_vector_1() {
    let result = pseudoscalar_a().scalar_product(vector_a());
    let expected = pseudoscalar_a().geometric_product(vector_a()).grade_0();
    assert_eq!(result, expected);
}

#[test]
fn pseudoscalar_scalar_product_bivector_1() {
    let result = pseudoscalar_a().scalar_product(bivector_a());
    let expected = pseudoscalar_a().geometric_product(bivector_a()).grade_0();
    assert_eq!(result, expected);
}

#[test]
fn pseudoscalar_scalar_product_trivector_1() {
    let result = pseudoscalar_a().scalar_product(trivector_a());
    let expected = pseudoscalar_a().geometric_product(trivector_a()).grade_0();
    assert_eq!(result, expected);
}

#[test]
fn pseudoscalar_scalar_product_pseudoscalar_1() {
    let result = pseudoscalar_a().scalar_product(pseudoscalar_b());
    let expected = pseudoscalar_a().geometric_product(pseudoscalar_b()).grade_0();
    assert_eq!(result, expected);
}
