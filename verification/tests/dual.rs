use ega::{Dual, Multivector};

fn multivector_a() -> Multivector {
    Multivector {
        e0: 2,
        e1: 3,
        e2: 5,
        e3: 7,
        s: 11,
        e23: 13,
        e31: 17,
        e12: 19,
        e01: 23,
        e02: 29,
        e03: 31,
        e0123: 37,
        e123: 41,
        e032: 43,
        e013: 47,
        e021: 53,
    }
}

#[test]
fn multivector_dual() {
    let result = multivector_a().dual();
    let expected = Multivector {
      e0: -41,   e1: -43,   e2: -47,    e3: -53,
       s:  37,  e23:  23,  e31:  29,   e12:  31,
     e01:  13,  e02:  17,  e03:  19, e0123:  11,
    e123:   2, e032:   3, e013:   5,  e021:   7,
    };
    assert_eq!(result, expected);
}
