use ega::{Bivector, Empty, Join, Multivector, Pseudoscalar, Scalar, Trivector, Vector, Zero, zero};

fn bivector_a() -> Bivector {
    Bivector {
        e23: 223,
        e31: 227,
        e12: 229,
        e01: 233,
        e02: 239,
        e03: 241,
    }
}

fn bivector_c() -> Bivector {
    Bivector {
        e23: -281,
        e31: -283,
        e12: -293,
        e01: -307,
        e02: -311,
        e03: -313,
    }
}

fn multivector_a() -> Multivector {
    Multivector {
        e0: 2,
        e1: 3,
        e2: 5,
        e3: 7,
        s: 11,
        e23: 13,
        e31: 17,
        e12: 19,
        e01: 23,
        e02: 29,
        e03: 31,
        e0123: 37,
        e123: 41,
        e032: 43,
        e013: 47,
        e021: 53,
    }
}

fn multivector_b() -> Multivector {
    Multivector {
        e0: 59,
        e1: 61,
        e2: 67,
        e3: 71,
        s: 73,
        e23: 79,
        e31: 83,
        e12: 89,
        e01: 97,
        e02: 101,
        e03: 103,
        e0123: 107,
        e123: 109,
        e032: 113,
        e013: 127,
        e021: 131,
    }
}

fn multivector_c() -> Multivector {
    Multivector {
        e0: -59,
        e1: 61,
        e2: -67,
        e3: 71,
        s: -73,
        e23: 79,
        e31: -83,
        e12: 89,
        e01: -97,
        e02: 101,
        e03: -103,
        e0123: 107,
        e123: -109,
        e032: 113,
        e013: -127,
        e021: 131,
    }
}

fn multivector_d() -> Multivector {
    Multivector {
        e0: -59,
        e1: -61,
        e2: -67,
        e3: -71,
        s: -73,
        e23: -79,
        e31: -83,
        e12: -89,
        e01: -97,
        e02: -101,
        e03: -103,
        e0123: -107,
        e123: -109,
        e032: -113,
        e013: -127,
        e021: -131,
    }
}

fn pseudoscalar_a() -> Pseudoscalar {
    Pseudoscalar {
        e0123: 397,
    }
}

fn pseudoscalar_c() -> Pseudoscalar {
    Pseudoscalar {
        e0123: -409,
    }
}

fn scalar_a() -> Scalar {
    Scalar {
        s: 137,
    }
}

fn scalar_b() -> Scalar {
    Scalar {
        s: 139,
    }
}

fn scalar_c() -> Scalar {
    Scalar {
        s: -149,
    }
}

fn trivector_a() -> Trivector {
    Trivector {
        e123: 317,
        e032: 331,
        e013: 337,
        e021: 347,
    }
}

fn trivector_c() -> Trivector {
    Trivector {
        e123: -373,
        e032: -379,
        e013: -383,
        e021: -389,
    }
}

fn vector_a() -> Vector {
    Vector {
        e0: 151,
        e1: 157,
        e2: 163,
        e3: 167,
    }
}

fn vector_b() -> Vector {
    Vector {
        e0: 173,
        e1: 179,
        e2: 181,
        e3: 191,
    }
}

fn vector_c() -> Vector {
    Vector {
        e0: -193,
        e1: -197,
        e2: -199,
        e3: -211,
    }
}

#[test]
fn join_multivector_1() {
    let result = multivector_a().join(multivector_b());
    let expected = Multivector {
        e0: -22323,   e1:  9092,   e2: 10400,    e3: 10852,
         s:  25641,  e23:  4368,  e31:  4806,   e12:  5732,
       e01:   6624,  e02:  6484,  e03:  6978, e0123:  3959,
      e123:   8420, e032:  8782, e013:  9728,  e021: 10518,
    };
    assert_eq!(result, expected);
}

#[test]
fn join_multivector_2() {
    let result = multivector_a().join(multivector_c());
    let expected = Multivector {
        e0:    -63,   e1: -7848,   e2:  -880,    e3:  -516,
         s:   -441,  e23: -5006,  e31: -1168,   e12: -5822,
       e01: -14016,  e02:  6484,  e03: 10278, e0123:  3959,
      e123:    354, e032:  8782, e013:   330,  e021: 10518,
    };
    assert_eq!(result, expected);
}

#[test]
fn join_multivector_3() {
    let result = multivector_a().join(multivector_d());
    let expected = Multivector {
        e0:  22323,   e1: -9092,   e2: -10400,    e3: -10852,
         s: -25641,  e23: -4368,  e31:  -4806,   e12:  -5732,
       e01:  -6624,  e02: -6484,  e03:  -6978, e0123:  -3959,
      e123:  -8420, e032: -8782, e013:  -9728,  e021: -10518,
    };
    assert_eq!(result, expected);
}

#[test]
fn multivector_join_scalar_1() {
    let result = multivector_a().join(scalar_a());
    let expected = Scalar { s: 5069 };
    assert_eq!(result, expected);
}

#[test]
fn join_scalar_2() {
    let result = multivector_a().join(scalar_c());
    let expected = Scalar { s: -5513 };
    assert_eq!(result, expected);
}

#[test]
fn multivector_join_vector_1() {
    let result = multivector_a().join(vector_a());
    let expected = Multivector {
      s: 29454,
      e0: 5587, e1: 5809, e2: 6031, e3: 6179,
      ..zero()
    };
    assert_eq!(result, expected);
}

#[test]
fn join_vector_2() {
    let result = multivector_a().join(vector_c());
    let expected = Multivector {
      s: -36920,
      e0: -7141, e1: -7289, e2: -7363, e3: -7807,
      ..zero()
    };
    assert_eq!(result, expected);
}

#[test]
fn multivector_join_bivector_1() {
    let result = multivector_a().join(bivector_a());
    let expected = Multivector {
      s: 30482,
      e0: -34025, e1: 10821, e2: 7827, e3: 10601,
      e01: 8621, e02: 8843, e03: 8917,
      e12: 8473, e31: 8399, e23: 8251,
      ..Multivector::zero()
    };
    assert_eq!(result, expected);
}

#[test]
fn join_bivector_2() {
    let result = multivector_a().join(bivector_c());
    let expected = Multivector {
      s: -38978,
      e0: 44407, e1: -13815, e2: -10457, e3: -13871,
      e01: -11359, e02: -11507, e03: -11581,
      e12: -10841, e31: -10471, e23: -10397,
      ..Multivector::zero()
    };
    assert_eq!(result, expected);
}

#[test]
fn join_join_trivector_1() {
    let result = multivector_a().join(trivector_a());
    let expected = Multivector {
      s: -5741,
      e0: -28143, e1: 6787, e2: 10971, e3: 8581,
      e01: 1552, e02: -2622, e03: 1066,
      e12: 2574, e31:  1082, e23:   60,
      e021: 12839, e013: 12469, e032: 12247, e123: 11729,
      ..Multivector::zero()
    };
    assert_eq!(result, expected);
}

#[test]
fn join_trivector_2() {
    let result = multivector_a().join(trivector_c());
    let expected = Multivector {
      s: 6521,
      e0: 31883, e1: -7915, e2: -12961, e3: -10099,
      e01: -2016, e02:  3360, e03: -1344,
      e12: -3820, e31: -1828, e23:  -500,
      e021: -14393, e013: -14171, e032: -14023, e123: -13801,
      ..Multivector::zero()
    };
    assert_eq!(result, expected);
}

#[test]
fn join_pseudoscalar_1() {
    let result = multivector_a().join(pseudoscalar_a());
    let expected = Multivector {
      s: 4367,
      e0: 794, e1: 1191, e2: 1985, e3: 2779,
      e01: 9131, e02: 11513, e03: 12307,
      e12: 7543, e31:  6749, e23: 5161,
      e021: 21041, e013: 18659, e032: 17071, e123: 16277,
      e0123: 14689,
    };
    assert_eq!(result, expected);
}

#[test]
fn join_pseudoscalar_2() {
    let result = multivector_a().join(pseudoscalar_c());
    let expected = Multivector {
      s: -4499,
      e0: -818, e1: -1227, e2: -2045, e3: -2863,
      e01: -9407, e02: -11861, e03: -12679,
      e12: -7771, e31:  -6953, e23: -5317,
      e021: -21677, e013: -19223, e032: -17587, e123: -16769,
      e0123: -15133,
    };
    assert_eq!(result, expected);
}

#[test]
fn scalar_join_multivector_1() {
    let result = scalar_a().join(multivector_a());
    let expected = Scalar { s: 5069 };
    assert_eq!(result, expected);
}

#[test]
fn join_scalar_1() {
    let result = scalar_a().join(scalar_b());
    let expected = Empty;
    assert_eq!(result, expected);
}

#[test]
fn join_vector_1() {
    let result = scalar_a().join(vector_a());
    let expected = Empty;
    assert_eq!(result, expected);
}

#[test]
fn join_bivector_1() {
    let result = scalar_a().join(bivector_a());
    let expected = Empty;
    assert_eq!(result, expected);
}

#[test]
fn join_trivector_1() {
    let result = scalar_a().join(trivector_a());
    let expected = Empty;
    assert_eq!(result, expected);
}

#[test]
fn scalar_join_pseudoscalar_1() {
    let result = scalar_a().join(pseudoscalar_a());
    let expected = Scalar { s: 54389 };
    assert_eq!(result, expected);
}

#[test]
fn vector_join_multivector_1() {
    let result = vector_a().join(multivector_a());
    let expected = Multivector {
      s: -29454,
      e0: 5587, e1: 5809, e2: 6031, e3: 6179,
      ..zero()
    };
    assert_eq!(result, expected);
}

#[test]
fn join_join_scalar_1() {
    let result = vector_a().join(scalar_a());
    let expected = Empty;
    assert_eq!(result, expected);
}

#[test]
fn join_join_vector_1() {
    let result = vector_a().join(vector_b());
    let expected = Empty;
    assert_eq!(result, expected);
}

#[test]
fn join_join_bivector_1() {
    let result = vector_a().join(bivector_a());
    let expected = Empty;
    assert_eq!(result, expected);
}

#[test]
fn vector_join_trivector_1() {
    let result = vector_a().join(trivector_a());
    let expected = Scalar { s: -212714 };
    assert_eq!(result, expected);
}

#[test]
fn vector_join_pseudoscalar_1() {
    let result = vector_a().join(pseudoscalar_a());
    let expected = Vector {
      e0: 59947, e1: 62329, e2: 64711, e3: 66299,
    };
    assert_eq!(result, expected);
}

#[test]
fn bivector_join_multivector_1() {
    let result = bivector_a().join(multivector_a());
    let expected = Multivector {
      s: 30482,
      e0: -34025, e1: 10821, e2: 7827, e3: 10601,
      e01: 8621, e02: 8843, e03: 8917, e12: 8473, e31: 8399, e23: 8251,
      ..zero()
    };
    assert_eq!(result, expected);
}

#[test]
fn bivector_join_scalar_1() {
    let result = bivector_a().join(scalar_a());
    let expected = Empty;
    assert_eq!(result, expected);
}

#[test]
fn bivector_join_vector_1() {
    let result = bivector_a().join(vector_a());
    let expected = Empty;
    assert_eq!(result, expected);
}

#[test]
fn bivector_join_bivector_1() {
    let result = bivector_a().join(bivector_c());
    let expected = Scalar { s: -414458 };
    assert_eq!(result, expected);
}

#[test]
fn bivector_join_trivector_1() {
    let result = bivector_a().join(trivector_a());
    let expected = Vector {
      e0: -241293, e1: 75457, e2: 74181, e3: 76411,
    };
    assert_eq!(result, expected);
}

#[test]
fn bivector_join_pseudoscalar_1() {
    let result = bivector_a().join(pseudoscalar_a());
    let expected = Bivector {
      e01: 92501, e02: 94883, e03: 95677,
      e12: 90913, e31: 90119, e23: 88531,
    };
    assert_eq!(result, expected);
}

#[test]
fn trivector_join_multivector_1() {
    let result = trivector_a().join(multivector_a());
    let expected = Multivector {
      s: 5741,
      e0: -28143, e1: 6787, e2: 10971, e3: 8581,
      e01: -1552, e02: 2622, e03: -1066,
      e12: -2574, e31: -1082, e23: -60,
      e021: 12839, e013: 12469, e032: 12247, e123: 11729,
      ..zero()
    };
    assert_eq!(result, expected);
}

#[test]
fn trivector_join_scalar_1() {
    let result = trivector_a().join(scalar_a());
    let expected = Empty;
    assert_eq!(result, expected);
}

#[test]
fn trivector_join_vector_1() {
    let result = trivector_a().join(vector_a());
    let expected = Scalar { s: 212714 };
    assert_eq!(result, expected);
}

#[test]
fn trivector_join_bivector_1() {
    let result = trivector_a().join(bivector_a());
    let expected = Vector {
      e0: -241293, e1: 75457, e2: 74181, e3: 76411,
    };
    assert_eq!(result, expected);
}

#[test]
fn trivector_join_trivector_1() {
    let result = trivector_a().join(trivector_c());
    let expected = Bivector {
      e01: -1808, e02: 2754, e03: -950,
      e12: -6118, e31: -4290, e23: -3320,
    };
    assert_eq!(result, expected);
}

#[test]
fn trivector_join_pseudoscalar_1() {
    let result = trivector_a().join(pseudoscalar_a());
    let expected = Trivector {
      e021: 137759, e013: 133789, e032: 131407, e123: 125849,
    };
    assert_eq!(result, expected);
}

#[test]
fn pseudoscalar_join_multivector_1() {
    let result = pseudoscalar_a().join(multivector_a());
    let expected = Multivector {
      s: 4367,
      e0: 794, e1: 1191, e2: 1985, e3: 2779,
      e01: 9131, e02: 11513, e03: 12307,
      e12: 7543, e31: 6749, e23: 5161,
      e021: 21041, e013: 18659, e032: 17071, e123: 16277,
      e0123: 14689,
      ..zero()
    };
    assert_eq!(result, expected);
}

#[test]
fn pseudoscalar_join_scalar_1() {
    let result = pseudoscalar_a().join(scalar_a());
    let expected = Scalar { s: 54389 };
    assert_eq!(result, expected);
}

#[test]
fn pseudoscalar_join_vector_1() {
    let result = pseudoscalar_a().join(vector_a());
    let expected = Vector {
      e0: 59947, e1: 62329, e2: 64711, e3: 66299,
    };
    assert_eq!(result, expected);
}

#[test]
fn pseudoscalar_join_vector_2() {
    let result = pseudoscalar_a().join(bivector_a());
    let expected = Bivector {
      e01: 92501, e02: 94883, e03: 95677,
      e12: 90913, e31: 90119, e23: 88531,
    };
    assert_eq!(result, expected);
}

#[test]
fn join_vector_3() {
    let result = pseudoscalar_a().join(trivector_a());
    let expected = Trivector {
      e021: 137759, e013: 133789, e032: 131407, e123: 125849,
    };
    assert_eq!(result, expected);
}

#[test]
fn pseudoscalar_join_bivector_1() {
    let result = pseudoscalar_a().join(pseudoscalar_c());
    let expected = Pseudoscalar { e0123: -162373 };
    assert_eq!(result, expected);
}
