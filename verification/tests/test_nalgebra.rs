use easy_hash::{raw_ehash, salt_of_name};
use rapier2d::na::{Isometry2, Point2, UnitVector2, Vector2, Vector3};

fn vector2(v: &Vector2<f32>) -> u64 {
    raw_ehash(salt_of_name("nalgebra::Vector2<f32>"), &[v.x.to_bits(), v.y.to_bits()])
}

fn vector3(v: &Vector3<f32>) -> u64 {
    raw_ehash(
        salt_of_name("nalgebra::Vector3<f32>"),
        &[v.x.to_bits(), v.y.to_bits(), v.z.to_bits()],
    )
}

fn unit_vector2(v: &UnitVector2<f32>) -> u64 {
    raw_ehash(salt_of_name("nalgebra::UnitVector2<f32>"), &[v.x.to_bits(), v.y.to_bits()])
}

fn point2(p: &Point2<f32>) -> u64 {
    raw_ehash(salt_of_name("nalgebra::Point2<f32>"), &[p.x.to_bits(), p.y.to_bits()])
}

fn isometry2(i: &Isometry2<f32>) -> u64 {
    raw_ehash(
        salt_of_name("nalgebra::Isometry2<f32>"),
        &[
            i.translation.x.to_bits(),
            i.translation.y.to_bits(),
            i.rotation.re.to_bits(),
            i.rotation.im.to_bits(),
        ],
    )
}

#[test]
fn test_vector2_hash() {
    let a = Vector2::new(1.0f32, 2.0);
    let b = Vector2::new(1.0f32, 2.0);
    let c = Vector2::new(2.0f32, 3.0);
    assert_eq!(vector2(&a), vector2(&b));
    assert_ne!(vector2(&a), vector2(&c));
}

#[test]
fn test_vector3_hash() {
    let a = Vector3::new(1.0f32, 2.0, 3.0);
    let b = Vector3::new(1.0f32, 2.0, 3.0);
    let c = Vector3::new(3.0f32, 2.0, 1.0);
    assert_eq!(vector3(&a), vector3(&b));
    assert_ne!(vector3(&a), vector3(&c));
}

#[test]
fn test_unit_vector2_hash() {
    let a = UnitVector2::new_normalize(Vector2::new(1.0, 0.0));
    let b = UnitVector2::new_normalize(Vector2::new(1.0, 0.0));
    let c = UnitVector2::new_normalize(Vector2::new(0.0, 1.0));
    assert_eq!(unit_vector2(&a), unit_vector2(&b));
    assert_ne!(unit_vector2(&a), unit_vector2(&c));
}

#[test]
fn test_point2_hash() {
    let a: Point2<f32> = Point2::new(1.0, 2.0);
    let b: Point2<f32> = Point2::new(1.0, 2.0);
    let c: Point2<f32> = Point2::new(2.0, 3.0);
    assert_eq!(point2(&a), point2(&b));
    assert_ne!(point2(&a), point2(&c));
}

#[test]
fn test_isometry2_hash() {
    let a: Isometry2<f32> = Isometry2::new(Vector2::new(1.0, 2.0), 0.0);
    let b: Isometry2<f32> = Isometry2::new(Vector2::new(1.0, 2.0), 0.0);
    let c: Isometry2<f32> = Isometry2::new(Vector2::new(2.0, 3.0), 0.0);
    let d: Isometry2<f32> = Isometry2::new(Vector2::new(1.0, 2.0), std::f32::consts::PI / 4.0);

    assert_eq!(isometry2(&a), isometry2(&b));
    assert_ne!(isometry2(&a), isometry2(&c));
    assert_ne!(isometry2(&a), isometry2(&d));
}
