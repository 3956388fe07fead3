use ega::{Bivector, Empty, GeometricProduct, Multivector, Pseudoscalar, Scalar, Trivector, Vector, Zero, zero};

fn bivector_a() -> Bivector {
    Bivector {
        e23: 223,
        e31: 227,
        e12: 229,
        e01: 233,
        e02: 239,
        e03: 241,
    }
}

fn bivector_b() -> Bivector {
    Bivector {
        e23: 251,
        e31: 257,
        e12: 263,
        e01: 269,
        e02: 271,
        e03: 277,
    }
}

fn bivector_c() -> Bivector {
    Bivector {
        e23: -281,
        e31: -283,
        e12: -293,
        e01: -307,
        e02: -311,
        e03: -313,
    }
}

fn multivector_a() -> Multivector {
    Multivector {
        e0: 2,
        e1: 3,
        e2: 5,
        e3: 7,
        s: 11,
        e23: 13,
        e31: 17,
        e12: 19,
        e01: 23,
        e02: 29,
        e03: 31,
        e0123: 37,
        e123: 41,
        e032: 43,
        e013: 47,
        e021: 53,
    }
}

fn multivector_b() -> Multivector {
    Multivector {
        e0: 59,
        e1: 61,
        e2: 67,
        e3: 71,
        s: 73,
        e23: 79,
        e31: 83,
        e12: 89,
        e01: 97,
        e02: 101,
        e03: 103,
        e0123: 107,
        e123: 109,
        e032: 113,
        e013: 127,
        e021: 131,
    }
}

fn multivector_c() -> Multivector {
    Multivector {
        e0: -59,
        e1: 61,
        e2: -67,
        e3: 71,
        s: -73,
        e23: 79,
        e31: -83,
        e12: 89,
        e01: -97,
        e02: 101,
        e03: -103,
        e0123: 107,
        e123: -109,
        e032: 113,
        e013: -127,
        e021: 131,
    }
}

fn multivector_d() -> Multivector {
    Multivector {
        e0: -59,
        e1: -61,
        e2: -67,
        e3: -71,
        s: -73,
        e23: -79,
        e31: -83,
        e12: -89,
        e01: -97,
        e02: -101,
        e03: -103,
        e0123: -107,
        e123: -109,
        e032: -113,
        e013: -127,
        e021: -131,
    }
}

fn pseudoscalar_a() -> Pseudoscalar {
    Pseudoscalar {
        e0123: 397,
    }
}

fn pseudoscalar_b() -> Pseudoscalar {
    Pseudoscalar {
        e0123: 401,
    }
}

fn pseudoscalar_c() -> Pseudoscalar {
    Pseudoscalar {
        e0123: -409,
    }
}

fn scalar_a() -> Scalar {
    Scalar {
        s: 137,
    }
}

fn scalar_b() -> Scalar {
    Scalar {
        s: 139,
    }
}

fn scalar_c() -> Scalar {
    Scalar {
        s: -149,
    }
}

fn trivector_a() -> Trivector {
    Trivector {
        e123: 317,
        e032: 331,
        e013: 337,
        e021: 347,
    }
}

fn trivector_b() -> Trivector {
    Trivector {
        e123: 349,
        e032: 353,
        e013: 359,
        e021: 367,
    }
}

fn trivector_c() -> Trivector {
    Trivector {
        e123: -373,
        e032: -379,
        e013: -383,
        e021: -389,
    }
}

fn vector_a() -> Vector {
    Vector {
        e0: 151,
        e1: 157,
        e2: 163,
        e3: 167,
    }
}

fn vector_b() -> Vector {
    Vector {
        e0: 173,
        e1: 179,
        e2: 181,
        e3: 191,
    }
}

fn vector_c() -> Vector {
    Vector {
        e0: -193,
        e1: -197,
        e2: -199,
        e3: -211,
    }
}

#[test]
fn mul_multivector_1() {
    let result = multivector_a().geometric_product(multivector_b());
    let expected = Multivector {
        e0: 23311,   e1: -3564,   e2: -4676,    e3: -4116,
         s: -6780,  e23:  4596,  e31:  5316,   e12:  6200,
       e01: -1389,  e02: -3031,  e03:  -879, e0123:  5951,
      e123:  8748, e032:  3219, e013:  2003,  e021:  3437,
    };
    assert_eq!(result, expected);
}

#[test]
fn mul_multivector_2() {
    let result = multivector_a().geometric_product(multivector_c());
    let expected = Multivector {
      s: 2704,
      e0: 15805, e1: -4876, e2: 3632, e3: 1244,
      e01: -12221, e02: 375, e03: -22879,
      e12: 3656, e31: -5576, e23: -172,
      e021: 10745, e013: 5225, e032: -23273, e123: -2744,
      e0123: -1271,
    };
    assert_eq!(result, expected);
}

#[test]
fn mul_multivector_3() {
    let result = multivector_a().geometric_product(multivector_d());
    let expected = Multivector {
      s: 6780,
      e0: -23311, e1: 3564, e2: 4676, e3: 4116,
      e01: 1389, e02: 3031, e03: 879,
      e12: -6200, e31: -5316, e23: -4596,
      e021: -3437, e013: -2003, e032: -3219, e123: -8748,
      e0123: -5951,
    };
    assert_eq!(result, expected);
}

#[test]
fn mul_scalar_1() {
    let result = multivector_a().geometric_product(scalar_a());
    let expected = Multivector {
      s: 1507,
      e0: 274, e1: 411, e2: 685, e3: 959,
      e01: 3151, e02: 3973, e03: 4247,
      e12: 2603, e31: 2329, e23: 1781,
      e021: 7261, e013: 6439, e032: 5891, e123: 5617,
      e0123: 5069,
    };
    assert_eq!(result, expected);
}

#[test]
fn mul_scalar_2() {
    let result = multivector_a().geometric_product(scalar_c());
    let expected = Multivector {
      s: -1639,
      e0: -298, e1: -447, e2: -745, e3: -1043,
      e01: -3427, e02: -4321, e03: -4619,
      e12: -2831, e31: -2533, e23: -1937,
      e021: -7897, e013: -7003, e032: -6407, e123: -6109,
      e0123: -5513,
    };
    assert_eq!(result, expected);
}

#[test]
fn mul_vector_1() {
    let result = multivector_a().geometric_product(vector_a());
    let expected = Multivector {
      s: 2455,
      e0: 15176, e1: 1985, e2: 981, e3: 2387,
      e01: -929, e02: 711, e03: -1093,
      e12: 6551, e31: 7281, e23: 6131,
      e021: -8244, e013: -9624, e032: -7562, e123: 7985,
      e0123: -29454,
    };
    assert_eq!(result, expected);
}

#[test]
fn mul_vector_2() {
    let result = multivector_a().geometric_product(vector_c());
    let expected = Multivector {
      s: -3063,
      e0: -18966, e1: -2361, e2: -1189, e3: -3083,
      e01: 815, e02: -801, e03: 1631,
      e12: -8263, e31: -8905, e23: -7739,
      e021: 10338, e013: 11898, e032: 9748, e123: -9953,
      e0123: 36920,
    };
    assert_eq!(result, expected);
}

#[test]
fn mul_bivector_1() {
    let result = multivector_a().geometric_product(bivector_a());
    let expected = Multivector {
      s: -11109,
      e0: 28814, e1: -8699, e2: -10181, e3: -8955,
      e01: -4848, e02: -8710, e03: -3722,
      e12: 3359, e31: 1237, e23: 2873,
      e021: 9695, e013: 8281, e032: 9907, e123: 3407,
      e0123: 30482,
    };
    assert_eq!(result, expected);
}

#[test]
fn mul_bivector_2() {
    let result = multivector_a().geometric_product(bivector_c());
    let expected = Multivector {
      s: 14031,
      e0: -36246, e1: 11005, e2: 12691, e3: 11457,
      e01: 6156, e02: 10786, e03: 4582,
      e12: -4321, e31: -1583, e23: -3487,
      e021: -12683, e013: -11101, e032: -12641, e123: -4309,
      e0123: -38978,
    };
    assert_eq!(result, expected);
}

#[test]
fn mul_trivector_1() {
    let result = multivector_a().geometric_product(trivector_a());
    let expected = Multivector {
      s: -12997,
      e0: 4896, e1: -4121, e2: -5389, e3: -6023,
      e01: 684, e02: -194, e03: 3218,
      e12: 2219, e31: 1585, e23: 951,
      e021: -4764, e013: -7264, e032: -3146, e123: 3487,
      e0123: 5741,
    };
    assert_eq!(result, expected);
}

#[test]
fn mul_trivector_2() {
    let result = multivector_a().geometric_product(trivector_c());
    let expected = Multivector {
      s: 15293,
      e0: -5028, e1: 4849, e2: 6341, e3: 7087,
      e01: -1236, e02: -342, e03: -4566,
      e12: -2611, e31: -1865, e23: -1119,
      e021: 5820, e013: 8748, e032: 3746, e123: -4103,
      e0123: -6521,
    };
    assert_eq!(result, expected);
}

#[test]
fn geometric_product_mul_pseudoscalar_1() {
    let result = multivector_a().geometric_product(pseudoscalar_a());
    let expected = Multivector {
      e0: 16277,
      e01: -5161, e02: -6749, e03: -7543,
      e021: 2779, e013: 1985, e032: 1191,
      e0123: 4367,
      ..zero()
    };
    assert_eq!(result, expected);
}

#[test]
fn mul_pseudoscalar_2() {
    let result = multivector_a().geometric_product(pseudoscalar_c());
    let expected = Multivector {
      e0: -16769,
      e01: 5317, e02: 6953, e03: 7771,
      e021: -2863, e013: -2045, e032: -1227,
      e0123: -4499,
      ..zero()
    };
    assert_eq!(result, expected);
}

#[test]
fn scalar_mul_multivector_1() {
    let result = scalar_a().geometric_product(multivector_a());
    let expected = Multivector {
      s: 1507,
      e0: 274, e1: 411, e2: 685, e3: 959,
      e01: 3151, e02: 3973, e03: 4247,
      e12: 2603, e31: 2329, e23: 1781,
      e021: 7261, e013: 6439, e032: 5891, e123: 5617,
      e0123: 5069,
    };
    assert_eq!(result, expected);
}

#[test]
fn scalar_mul_scalar_1() {
    let result = scalar_a().geometric_product(scalar_b());
    let expected = Scalar { s: 19043 };
    assert_eq!(result, expected);
}

#[test]
fn scalar_mul_vector_1() {
    let result = scalar_a().geometric_product(vector_a());
    let expected = Vector {
      e0: 20687, e1: 21509, e2: 22331, e3: 22879,
    };
    assert_eq!(result, expected);
}

#[test]
fn scalar_mul_bivector_1() {
    let result = scalar_a().geometric_product(bivector_a());
    let expected = Bivector {
      e01: 31921, e02: 32743, e03: 33017,
      e12: 31373, e31: 31099, e23: 30551,
    };
    assert_eq!(result, expected);
}

#[test]
fn scalar_mul_trivector_1() {
    let result = scalar_a().geometric_product(trivector_a());
    let expected = Trivector {
      e021: 47539, e013: 46169, e032: 45347, e123: 43429,
    };
    assert_eq!(result, expected);
}

#[test]
fn scalar_mul_pseudoscalar_1() {
    let result = scalar_a().geometric_product(pseudoscalar_a());
    let expected = Pseudoscalar { e0123: 54389 };
    assert_eq!(result, expected);
}

#[test]
fn vector_mul_multivector_1() {
    let result = vector_a().geometric_product(multivector_a());
    let expected = Multivector {
      s: 2455,
      e0: -11854, e1: 1469, e2: 2605, e3: 1287,
      e01: -651, e02: 1569, e03: 353,
      e12: 7143, e31: 6085, e23: 6743,
      e021: 4114, e013: 2438, e032: 4056, e123: 7985,
      e0123: 29454,
    };
    assert_eq!(result, expected);
}

#[test]
fn vector_mul_scalar_1() {
    let result = vector_a().geometric_product(scalar_a());
    let expected = Vector {
      e0: 20687, e1: 21509, e2: 22331, e3: 22879,
    };
    assert_eq!(result, expected);
}

#[test]
fn vector_mul_vector_1() {
    let result = vector_a().geometric_product(vector_b());
    let expected = Multivector {
      s: 89503,
      e01: -132, e02: -868, e03: -50,
      e12: -760, e31: -94, e23: 906,
      ..zero()
    };
    assert_eq!(result, expected);
}

#[test]
fn vector_mul_bivector_1() {
    let result = vector_a().geometric_product(bivector_a());
    let expected = Multivector {
      e0: -115785, e1: 582, e2: -1288, e3: 710,
      e021: -35035, e013: -33203, e032: -34303, e123: 110255,
      ..zero()
    };
    assert_eq!(result, expected);
}

#[test]
fn vector_mul_trivector_1() {
    let result = vector_a().geometric_product(trivector_a());
    let expected = Multivector {
      e01: -282, e02: -798, e03: 1044,
      e12: 52939, e31: 51671, e23: 49769,
      e0123: 212714,
      ..zero()
    };
    assert_eq!(result, expected);
}

#[test]
fn vector_mul_pseudoscalar_1() {
    let result = vector_a().geometric_product(pseudoscalar_a());
    let expected = Trivector {
      e021: 66299, e013: 64711, e032: 62329,
      ..zero()
    };
    assert_eq!(result, expected);
}

#[test]
fn bivector_mul_multivector_1() {
    let result = bivector_a().geometric_product(multivector_a());
    let expected = Multivector {
      s: -11109,
      e0: 35976, e1: -9587, e2: -8433, e3: -9823,
      e01: -6528, e02: -2830, e03: -7922,
      e12: 1679, e31: 3757, e23: 2033,
      e021: -11507, e013: -7373, e032: -11735, e123: 3407,
      e0123: 30482,
    };
    assert_eq!(result, expected);
}

#[test]
fn bivector_mul_scalar_1() {
    let result = bivector_a().geometric_product(scalar_a());
    let expected = Bivector {
      e01: 31921, e02: 32743,e03: 33017,
      e12: 31373, e31: 31099, e23: 30551,
      ..zero()
    };
    assert_eq!(result, expected);
}

#[test]
fn bivector_mul_vector_1() {
    let result = bivector_a().geometric_product(vector_a());
    let expected = Multivector {
      e0: 115785, e1: -582, e2: 1288, e3: -710,
      e021: -35035, e013: -33203, e032: -34303,
      e123: 110255,
      ..zero()
    };
    assert_eq!(result, expected);
}

#[test]
fn bivector_mul_bivector_1() {
    let result = bivector_a().geometric_product(bivector_b());
    let expected = Multivector {
      s: -174539,
      e01: -1740, e02: 958, e03: 738,
      e12: -334, e31: 1170, e23: -848,
      e0123: 368226,
      ..zero()
    };
    assert_eq!(result, expected);
}

#[test]
fn bivector_mul_trivector_1() {
    let result = bivector_a().geometric_product(trivector_a());
    let expected = Multivector {
      e0: 229775, e1: -70691, e2: -71959, e3: -72593,
      e021: -76411, e013: -74181, e032: -75457,
      ..zero()
    };
    assert_eq!(result, expected);
}

#[test]
fn bivector_mul_pseudoscalar_1() {
    let result = bivector_a().geometric_product(pseudoscalar_a());
    let expected = Bivector {
      e01: -88531, e02: -90119, e03: -90913,
      ..zero()
    };
    assert_eq!(result, expected);
}

#[test]
fn trivector_mul_multivector_1() {
    let result = trivector_a().geometric_product(multivector_a());
    let expected = Multivector {
      s: -12997,
      e0: 28354, e1: -4121, e2: -5389, e3: -6023,
      e01: 564, e02: -2358, e03: -1930,
      e12: 2219, e31: 1585, e23: 951,
      e021: 12398, e013: 14678, e032: 10428, e123: 3487,
      e0123: -5741,
    };
    assert_eq!(result, expected);
}

#[test]
fn trivector_mul_scalar_1() {
    let result = trivector_a().geometric_product(scalar_a());
    let expected = Trivector {
      e021: 47539, e013: 46169, e032: 45347, e123: 43429,
    };
    assert_eq!(result, expected);
}

#[test]
fn trivector_mul_vector_1() {
    let result = trivector_a().geometric_product(vector_a());
    let expected = Multivector {
      e01: -282, e02: -798, e03: 1044,
      e12: 52939, e31: 51671, e23: 49769,
      e0123: -212714,
      ..zero()
    };
    assert_eq!(result, expected);
}

#[test]
fn trivector_mul_bivector_1() {
    let result = trivector_a().geometric_product(bivector_a());
    let expected = Multivector {
      e0: 229775, e1: -70691, e2: -71959, e3: -72593,
      e021: 76411, e013: 74181, e032: 75457,
      ..zero()
    };
    assert_eq!(result, expected);
}

#[test]
fn trivector_mul_trivector_1() {
    let result = trivector_a().geometric_product(trivector_b());
    let expected = Multivector {
      s: -110633,
      e01: 3618, e02: 3810, e03: 4764,
      ..zero()
    };
    assert_eq!(result, expected);
}

#[test]
fn trivector_mul_pseudoscalar_1() {
    let result = trivector_a().geometric_product(pseudoscalar_a());
    let expected = Vector {
      e0: 125849,
      ..zero()
    };
    assert_eq!(result, expected);
}

#[test]
fn pseudoscalar_mul_multivector_1() {
    let result = pseudoscalar_a().geometric_product(multivector_a());
    let expected = Multivector {
      e0: -16277,
      e01: -5161, e02: -6749, e03: -7543,
      e021: -2779, e013: -1985, e032: -1191,
      e0123: 4367,
      ..zero()
    };
    assert_eq!(result, expected);
}

#[test]
fn pseudoscalar_mul_scalar_1() {
    let result = pseudoscalar_a().geometric_product(scalar_a());
    let expected = Pseudoscalar { e0123: 54389 };
    assert_eq!(result, expected);
}

#[test]
fn pseudoscalar_mul_vector_1() {
    let result = pseudoscalar_a().geometric_product(vector_a());
    let expected = Trivector {
      e021: -66299, e013: -64711, e032: -62329,
      ..zero()
    };
    assert_eq!(result, expected);
}

#[test]
fn pseudoscalar_mul_bivector_1() {
    let result = pseudoscalar_a().geometric_product(bivector_a());
    let expected = Bivector {
      e01: -88531, e02: -90119, e03: -90913,
      ..zero()
    };
    assert_eq!(result, expected);
}

#[test]
fn pseudoscalar_mul_trivector_1() {
    let result = pseudoscalar_a().geometric_product(trivector_a());
    let expected = Vector {
      e0: -125849,
      ..zero()
    };
    assert_eq!(result, expected);
}

#[test]
fn mul_pseudoscalar_1() {
    let result = pseudoscalar_a().geometric_product(pseudoscalar_b());
    let expected = Empty;
    assert_eq!(result, expected);
}
