use ega::{Bivector, HodgeDual, Multivector, Pseudoscalar, Scalar, Trivector, Vector};

fn bivector_a() -> Bivector {
    Bivector {
        e23: 223,
        e31: 227,
        e12: 229,
        e01: 233,
        e02: 239,
        e03: 241,
    }
}

fn multivector_a() -> Multivector {
    Multivector {
        e0: 2,
        e1: 3,
        e2: 5,
        e3: 7,
        s: 11,
        e23: 13,
        e31: 17,
        e12: 19,
        e01: 23,
        e02: 29,
        e03: 31,
        e0123: 37,
        e123: 41,
        e032: 43,
        e013: 47,
        e021: 53,
    }
}

fn pseudoscalar_a() -> Pseudoscalar {
    Pseudoscalar {
        e0123: 397,
    }
}

fn scalar_a() -> Scalar {
    Scalar {
        s: 137,
    }
}

fn trivector_a() -> Trivector {
    Trivector {
        e123: 317,
        e032: 331,
        e013: 337,
        e021: 347,
    }
}

fn vector_a() -> Vector {
    Vector {
        e0: 151,
        e1: 157,
        e2: 163,
        e3: 167,
    }
}

#[test]
fn multivector() {
    let result = multivector_a().hodge_dual();
    let expected = Multivector {
        e0: -41,   e1: -43,   e2: -47,    e3: -53,
         s:  37,  e23:  23,  e31:  29,   e12:  31,
       e01:  13,  e02:  17,  e03:  19, e0123:  11,
      e123:   2, e032:   3, e013:   5,  e021:   7,
    };
    assert_eq!(result, expected);
}

#[test]
fn scalar() {
    let result = scalar_a().hodge_dual();
    let expected = Pseudoscalar { e0123: 137 };
    assert_eq!(result, expected);
}

#[test]
fn vector() {
    let result = vector_a().hodge_dual();
    let expected = Trivector { e123: 151, e032: 157, e013: 163, e021: 167 };
    assert_eq!(result, expected);
}

#[test]
fn bivector() {
    let result = bivector_a().hodge_dual();
    let expected = Bivector {
      e23: 233, e31: 239, e12: 241,
      e01: 223, e02: 227, e03: 229,
    };
    assert_eq!(result, expected);
}

#[test]
fn trivector() {
    let result = trivector_a().hodge_dual();
    let expected = Vector { e0: -317, e1: -331, e2: -337, e3: -347 };
    assert_eq!(result, expected);
}

#[test]
fn pseudoscalar() {
    let result = pseudoscalar_a().hodge_dual();
    let expected = Scalar { s: 397 };
    assert_eq!(result, expected);
}

#[test]
fn hodge_undual_multivector() {
    let result = multivector_a().hodge_undual();
    let expected = Multivector {
        e0:  41,   e1:  43,   e2:  47,    e3:  53,
         s:  37,  e23:  23,  e31:  29,   e12:  31,
       e01:  13,  e02:  17,  e03:  19, e0123:  11,
      e123:  -2, e032:  -3, e013:  -5,  e021:  -7,
    };
    assert_eq!(result, expected);
}

#[test]
fn hodge_undual_scalar() {
    let result = scalar_a().hodge_undual();
    let expected = Pseudoscalar { e0123: 137 };
    assert_eq!(result, expected);
}

#[test]
fn hodge_undual_vector() {
    let result = vector_a().hodge_undual();
    let expected = Trivector {
      e123: -151, e032: -157, e013: -163, e021: -167
    };
    assert_eq!(result, expected);
}

#[test]
fn hodge_undual_bivector() {
    let result = bivector_a().hodge_undual();
    let expected = Bivector {
      e23: 233, e31: 239, e12: 241,
      e01: 223, e02: 227, e03: 229,
    };
    assert_eq!(result, expected);
}

#[test]
fn hodge_undual_trivector() {
    let result = trivector_a().hodge_undual();
    let expected = Vector { e0: 317, e1: 331, e2: 337, e3: 347 };
    assert_eq!(result, expected);
}

#[test]
fn hodge_undual_pseudoscalar() {
    let result = pseudoscalar_a().hodge_undual();
    let expected = Scalar { s: 397 };
    assert_eq!(result, expected);
}
