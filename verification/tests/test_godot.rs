use easy_hash::{raw_ehash, salt_of_name};
use fletcher::Fletcher64;

const VECTOR2: &str = "godot_core::builtin::vectors::vector2::Vector2";
const VECTOR3: &str = "godot_core::builtin::vectors::vector3::Vector3";
const VECTOR2I: &str = "godot_core::builtin::vectors::vector2i::Vector2i";
const VECTOR3I: &str = "godot_core::builtin::vectors::vector3i::Vector3i";

#[test]
fn test_vector2_hash_matches_manual() {
    let (x, y): (f32, f32) = (1.25, -2.5);
    let mut checksum = Fletcher64::new();
    checksum.update(&[salt_of_name(VECTOR2), x.to_bits(), y.to_bits()]);

    assert_eq!(raw_ehash(salt_of_name(VECTOR2), &[x.to_bits(), y.to_bits()]), checksum.value());
}

#[test]
fn test_vector3_hash_matches_manual() {
    let (x, y, z): (f32, f32, f32) = (1.25, -2.5, 3.75);
    let mut checksum = Fletcher64::new();
    checksum.update(&[salt_of_name(VECTOR3), x.to_bits(), y.to_bits(), z.to_bits()]);

    assert_eq!(
        raw_ehash(salt_of_name(VECTOR3), &[x.to_bits(), y.to_bits(), z.to_bits()]),
        checksum.value()
    );
}

#[test]
fn test_vector2i_hash_matches_manual() {
    let (x, y): (i32, i32) = (7, -11);
    let mut checksum = Fletcher64::new();
    checksum.update(&[salt_of_name(VECTOR2I), x as u32, y as u32]);

    assert_eq!(raw_ehash(salt_of_name(VECTOR2I), &[x as u32, y as u32]), checksum.value());
}

#[test]
fn test_vector3i_hash_matches_manual() {
    let (x, y, z): (i32, i32, i32) = (7, -11, 42);
    let mut checksum = Fletcher64::new();
    checksum.update(&[salt_of_name(VECTOR3I), x as u32, y as u32, z as u32]);

    assert_eq!(
        raw_ehash(salt_of_name(VECTOR3I), &[x as u32, y as u32, z as u32]),
        checksum.value()
    );
}
