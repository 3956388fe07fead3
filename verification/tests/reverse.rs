use ega::{Bivector, Multivector, Pseudoscalar, Reverse, Scalar, Trivector, Vector};

fn bivector_a() -> Bivector {
    Bivector {
        e23: 223,
        e31: 227,
        e12: 229,
        e01: 233,
        e02: 239,
        e03: 241,
    }
}

fn multivector_a() -> Multivector {
    Multivector {
        e0: 2,
        e1: 3,
        e2: 5,
        e3: 7,
        s: 11,
        e23: 13,
        e31: 17,
        e12: 19,
        e01: 23,
        e02: 29,
        e03: 31,
        e0123: 37,
        e123: 41,
        e032: 43,
        e013: 47,
        e021: 53,
    }
}

fn pseudoscalar_a() -> Pseudoscalar {
    Pseudoscalar {
        e0123: 397,
    }
}

fn scalar_a() -> Scalar {
    Scalar {
        s: 137,
    }
}

fn trivector_a() -> Trivector {
    Trivector {
        e123: 317,
        e032: 331,
        e013: 337,
        e021: 347,
    }
}

fn vector_a() -> Vector {
    Vector {
        e0: 151,
        e1: 157,
        e2: 163,
        e3: 167,
    }
}

#[test]
fn reverse_multivector() {
    let result = multivector_a().reverse();
    let expected = Multivector {
    s: 11, e0: 2, e1: 3, e2: 5, e3: 7,
    e01: -23, e02: -29, e03: -31, e12: -19, e31: -17, e23: -13,
    e021: -53, e013: -47, e032: -43, e123: -41,
    e0123: 37,
    };
    assert_eq!(result, expected);
}

#[test]
fn reverse_scalar() {
    let result = scalar_a().reverse();
    let expected = Scalar { s: 137 };
    assert_eq!(result, expected);
}

#[test]
fn reverse_vector() {
    let result = vector_a().reverse();
    let expected = Vector { e0: 151, e1: 157, e2: 163, e3: 167 };
    assert_eq!(result, expected);
}

#[test]
fn reverse_bivector() {
    let result = bivector_a().reverse();
    let expected = Bivector {
    e01: -233, e02: -239, e03: -241,
    e12: -229, e31: -227, e23: -223,
    };
    assert_eq!(result, expected);
}

#[test]
fn reverse_trivector() {
    let result = trivector_a().reverse();
    let expected = Trivector { e021: -347, e013: -337, e032: -331, e123: -317};
    assert_eq!(result, expected);
}

#[test]
fn reverse_pseudoscalar() {
    let result = pseudoscalar_a().reverse();
    let expected = Pseudoscalar { e0123: 397 };
    assert_eq!(result, expected);
}
