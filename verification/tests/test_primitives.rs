use easy_hash::{float_bits_ehash, type_salt, EasyHash, EasyHashTypeSalt};

/// A 32-bit float as a hashable value: its bit pattern under the salt of `f32`.
#[derive(Clone, Copy)]
struct F32(f32);

impl EasyHashTypeSalt for F32 {
    fn name() -> String {
        String::from("f32")
    }
}

impl EasyHash for F32 {
    fn type_salt() -> u32 {
        type_salt::<Self>()
    }

    fn ehash(&self) -> u64 {
        float_bits_ehash(self.0.to_bits())
    }
}

#[test]
fn test_primitives_test_salted_uints() {
    for x in [0u8, 1, 107] {
        assert_ne!(x.ehash(), x as u64);
    }
}

#[test]
fn test_primitives_test_u32_problem_cases() {
    for ab in [(0u32, 1u32), (0, u32::MAX), (1, u32::MAX), (1, u32::MIN)] {
        assert_ne!((ab.0).ehash(), (ab.1).ehash());
    }
}

#[test]
fn test_primitives_test_i32_problem_cases() {
    for ab in [
        (0i32, 1i32),
        (1, -1),
        (0, -1),
        (0, i32::MAX),
        (0, i32::MIN),
        (1, i32::MAX),
        (1, i32::MIN),
        (-1, i32::MAX),
        (-1, i32::MIN),
    ] {
        assert_ne!((ab.0).ehash(), (ab.1).ehash());
    }
}

const SPECIAL: [f32; 10] = [
    0.0,
    -0.0,
    1.0,
    -1.0,
    f32::INFINITY,
    f32::NEG_INFINITY,
    f32::NAN,
    f32::MIN,
    f32::MAX,
    f32::MIN_POSITIVE,
];

#[test]
fn test_primitives_test_f32_special_values() {
    for x in SPECIAL {
        // Test that the hash is consistent for the same value
        assert_eq!(F32(x).ehash(), F32(x).ehash());

        // Test that the hash is different from the value itself
        if !x.is_nan() {
            // NaN doesn't equal itself
            assert_ne!(F32(x).ehash(), x as u64);
        }

        for special_val in SPECIAL {
            // Test that the hash is different from special values
            if x != special_val && !x.is_nan() {
                assert_ne!(F32(x).ehash(), F32(special_val).ehash());
            }
        }

        // Test that the hash of x is different from -x (except for 0.0 and -0.0)
        if x != 0.0 && x != -0.0 && !x.is_nan() {
            assert_ne!(F32(x).ehash(), F32(-x).ehash());
        }
    }
}

fn differ<A: EasyHash, B: EasyHash>(a: A, b: B) {
    assert_ne!(a.ehash(), b.ehash());
}

#[test]
fn test_primitives_test_zero_values_different_types() {
    differ(0i32, 0u64);
    differ(0i32, 0usize);
    differ(0i32, false);
    differ(0i32, ());
    differ(0u64, 0usize);
    differ(0u64, false);
    differ(0u64, ());
    differ(0usize, false);
    differ(0usize, ());
    differ(false, ());
}

