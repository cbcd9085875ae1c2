use easy_hash::{
    double_bits_ehash, float_bits_ehash, hash_sum, type_salt, Data, EasyHash, EasyHashTypeSalt,
    Field, Fields,
};

/// A 32-bit float as a hashable value: its bit pattern under the salt of `f32`.
#[derive(Clone, Copy)]
struct F32(f32);

impl EasyHashTypeSalt for F32 {
    fn name() -> String {
        String::from("f32")
    }
}

impl EasyHash for F32 {
    fn type_salt() -> u32 {
        type_salt::<Self>()
    }

    fn ehash(&self) -> u64 {
        float_bits_ehash(self.0.to_bits())
    }
}

/// A 64-bit float as a hashable value: its bit pattern under the salt of `f64`.
#[derive(Clone, Copy)]
struct F64(f64);

impl EasyHashTypeSalt for F64 {
    fn name() -> String {
        String::from("f64")
    }
}

impl EasyHash for F64 {
    fn type_salt() -> u32 {
        type_salt::<Self>()
    }

    fn ehash(&self) -> u64 {
        double_bits_ehash(self.0.to_bits())
    }
}

struct TestUnitStructA;

impl EasyHashTypeSalt for TestUnitStructA {
    fn name() -> String {
        String::from("test_structs::TestUnitStructA")
    }
}

impl EasyHash for TestUnitStructA {
    fn type_salt() -> u32 {
        type_salt::<Self>()
    }

    fn ehash(&self) -> u64 {
        hash_sum(Self::type_salt(), &Data::Struct(Fields::Unit))
    }
}

struct TestUnitStructB;

impl EasyHashTypeSalt for TestUnitStructB {
    fn name() -> String {
        String::from("test_structs::TestUnitStructB")
    }
}

impl EasyHash for TestUnitStructB {
    fn type_salt() -> u32 {
        type_salt::<Self>()
    }

    fn ehash(&self) -> u64 {
        hash_sum(Self::type_salt(), &Data::Struct(Fields::Unit))
    }
}

struct TestStruct {
    a: f32,
    b: f32,
    c: u8,
    d: u8,
}

impl EasyHashTypeSalt for TestStruct {
    fn name() -> String {
        String::from("test_structs::TestStruct")
    }
}

impl EasyHash for TestStruct {
    fn type_salt() -> u32 {
        type_salt::<Self>()
    }

    fn ehash(&self) -> u64 {
        hash_sum(Self::type_salt(), &Data::Struct(Fields::Named(vec![Field::of(&F32(self.a)), Field::of(&F32(self.b)), Field::of(&self.c), Field::of(&self.d)])))
    }
}

struct TestTupStruct(f32, f32, u8, u8);

impl EasyHashTypeSalt for TestTupStruct {
    fn name() -> String {
        String::from("test_structs::TestTupStruct")
    }
}

impl EasyHash for TestTupStruct {
    fn type_salt() -> u32 {
        type_salt::<Self>()
    }

    fn ehash(&self) -> u64 {
        hash_sum(Self::type_salt(), &Data::Struct(Fields::Unnamed(vec![Field::of(&F32(self.0)), Field::of(&F32(self.1)), Field::of(&self.2), Field::of(&self.3)])))
    }
}

struct TestStructTwo {
    a: f32,
    b: f32,
    c: u8,
    d: u8,
}

impl EasyHashTypeSalt for TestStructTwo {
    fn name() -> String {
        String::from("test_structs::TestStructTwo")
    }
}

impl EasyHash for TestStructTwo {
    fn type_salt() -> u32 {
        type_salt::<Self>()
    }

    fn ehash(&self) -> u64 {
        hash_sum(Self::type_salt(), &Data::Struct(Fields::Named(vec![Field::of(&F32(self.a)), Field::of(&F32(self.b)), Field::of(&self.c), Field::of(&self.d)])))
    }
}

#[allow(dead_code)]
struct TestStructIgnore {
    a: u8,
    b: f32,
    c: f32,
    x: u8,
}

impl EasyHashTypeSalt for TestStructIgnore {
    fn name() -> String {
        String::from("test_structs::TestStructIgnore")
    }
}

impl EasyHash for TestStructIgnore {
    fn type_salt() -> u32 {
        type_salt::<Self>()
    }

    fn ehash(&self) -> u64 {
        hash_sum(Self::type_salt(), &Data::Struct(Fields::Named(vec![Field::of(&self.a), Field::of(&F32(self.b)), Field::excluded(), Field::of(&self.x)])))
    }
}

#[test]
fn test_structs_test_unit_structs() {
    let a_1 = TestUnitStructA;
    let a_2 = TestUnitStructA;
    let b_1 = TestUnitStructB;

    assert_eq!(a_1.ehash(), a_2.ehash());
    assert_ne!(a_1.ehash(), b_1.ehash());
}

fn test_struct(a: f32, b: f32, c: u8, d: u8) -> TestStruct {
    TestStruct { a, b, c, d }
}

fn test_struct_two(a: f32, b: f32, c: u8, d: u8) -> TestStructTwo {
    TestStructTwo { a, b, c, d }
}

#[test]
fn test_structs_test_structs_permute_floats_fields() {
    let (a, bbb, c, d) = (0.0, -0.1, 0, 1);
    let aa = test_struct(a, bbb, c, d);
    let bb = test_struct(bbb, a, c, d);
    assert_ne!(aa.ehash(), bb.ehash());
}

#[test]
fn test_structs_test_structs_permute_int_fields() {
    let (a, b, ccc, d) = (0.0, -0.1, 0, 1);
    let aa = test_struct(a, b, ccc, d);
    let bb = test_struct(a, b, d, ccc);
    assert_ne!(aa.ehash(), bb.ehash());
}

#[test]
fn test_structs_test_structs_not_equal_to_tup_with_same_data() {
    let (a, b, c, d): (f32, f32, u8, u8) = (0.0, -0.1, 0, 1);
    let aa = test_struct(a, b, c, d);
    let bb = (F32(a), F32(b), c, d);
    assert_ne!(aa.ehash(), bb.ehash());
}

#[test]
fn test_structs_test_tup_structs_permute_floats_fields() {
    let a = TestTupStruct(-1.0, 1.0, 0, 0);
    let b = TestTupStruct(1.0, -1.0, 0, 0);
    assert_ne!(a.ehash(), b.ehash());
}

#[test]
fn test_structs_test_tup_structs_permute_int_fields() {
    let a = TestTupStruct(0.0, -0.1, 0, 1);
    let b = TestTupStruct(0.0, -0.1, 1, 0);
    assert_ne!(a.ehash(), b.ehash());
}

#[test]
fn test_structs_test_different_types_with_same_data_not_equal() {
    let (a, b, c, d) = (0.0, -0.1, 0, 1);
    let aa = test_struct(a, b, c, d);
    let bb = test_struct_two(a, b, c, d);
    assert_ne!(aa.ehash(), bb.ehash());
}

#[test]
fn test_structs_test_tup_of_struct() {
    let (a, b, c, d) = (0.0, -0.1, 0, 1);
    let aa = test_struct(a, b, c, d);
    let bb = test_struct_two(a, b, c, d);
    assert_eq!((&aa, &bb).ehash(), (&aa, &bb).ehash());
}

#[test]
fn test_structs_test_tup_of_struct_ne_when_reordered() {
    let (a, b, c, d) = (0.0, -0.1, 0, 1);
    let aa = test_struct(a, b, c, d);
    let bb = test_struct_two(a, b, c, d);
    assert_ne!((&bb, &aa).ehash(), (&aa, &bb).ehash());
}

#[test]
fn test_structs_test_vec_of_struct_ne_when_reordered() {
    let (a, b, c, d) = (0.0, -0.1, 0, 1);
    let aa = test_struct(a, b, c, d);
    let bb = test_struct(a, b, c, d + 1);
    let v1 = vec![&bb, &aa];
    let v2 = vec![&aa, &bb];
    assert_ne!(v1.ehash(), v2.ehash());
}

#[test]
fn test_structs_test_tup_of_tupstruct_and_tup_ne_tup_when_reordered() {
    let a = TestTupStruct(0.0, -0.1, 0, 1);
    let xxx = (F64(0.0), F64(-0.1), 0, 1);

    assert_ne!((&xxx, &a).ehash(), (&a, &xxx).ehash());
}

#[test]
fn test_structs_test_struct_with_ignored_field() {
    let a = TestStructIgnore {
        a: 0,
        b: 1.2,
        c: 3.4,
        x: 4,
    };
    let b = TestStructIgnore {
        a: 0,
        b: 1.2,
        c: 9803.4,
        x: 4,
    };
    // should be equal if only ignored fields are different
    assert_eq!(a.ehash(), b.ehash());
}

