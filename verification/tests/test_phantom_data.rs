use easy_hash::{hash_sum, type_salt, Data, EasyHash, EasyHashTypeSalt, Field, Fields};
use std::marker::PhantomData;

// Test basic PhantomData hashing
#[test]
fn test_phantom_data_hash() {
    let p1: PhantomData<u32> = PhantomData;
    let p2: PhantomData<u32> = PhantomData;
    assert_eq!(p1.ehash(), p2.ehash());
}

// Test that different PhantomData types have different hashes
#[test]
fn test_phantom_data_different_types() {
    let p1: PhantomData<u32> = PhantomData;
    let p2: PhantomData<u64> = PhantomData;
    assert_ne!(p1.ehash(), p2.ehash());
}

// Test struct with PhantomData field
struct WithPhantomData<T> {
    value: u32,
    _phantom: PhantomData<T>,
}

impl<T> WithPhantomData<T> {
    fn new(value: u32) -> Self {
        Self {
            value,
            _phantom: PhantomData,
        }
    }
}

impl<T: EasyHashTypeSalt> EasyHashTypeSalt for WithPhantomData<T> {
    fn name() -> String {
        String::from("test_phantom_data::WithPhantomData<") + &T::name() + ">"
    }
}

impl<T: EasyHashTypeSalt> EasyHash for WithPhantomData<T> {
    fn type_salt() -> u32 {
        type_salt::<Self>()
    }

    fn ehash(&self) -> u64 {
        hash_sum(Self::type_salt(), &Data::Struct(Fields::Named(vec![Field::of(&self.value), Field::of(&self._phantom)])))
    }
}

#[test]
fn test_struct_with_phantom_data_same_type() {
    let s1 = WithPhantomData::<u32>::new(10);
    let s2 = WithPhantomData::<u32>::new(10);
    assert_eq!(s1.ehash(), s2.ehash());
}

#[test]
fn test_struct_with_phantom_data_different_values() {
    let s1 = WithPhantomData::<u32>::new(10);
    let s2 = WithPhantomData::<u32>::new(20);
    assert_ne!(s1.ehash(), s2.ehash());
}

#[test]
fn test_struct_with_phantom_data_different_phantom_types() {
    let s1 = WithPhantomData::<u32>::new(10);
    let s2 = WithPhantomData::<u64>::new(10);
    // Different phantom types should result in different hashes
    assert_ne!(s1.ehash(), s2.ehash());
}

// Test struct with only PhantomData
struct OnlyPhantomData<T> {
    _phantom: PhantomData<T>,
}

impl<T: EasyHashTypeSalt> EasyHashTypeSalt for OnlyPhantomData<T> {
    fn name() -> String {
        String::from("test_phantom_data::OnlyPhantomData<") + &T::name() + ">"
    }
}

impl<T: EasyHashTypeSalt> EasyHash for OnlyPhantomData<T> {
    fn type_salt() -> u32 {
        type_salt::<Self>()
    }

    fn ehash(&self) -> u64 {
        hash_sum(Self::type_salt(), &Data::Struct(Fields::Named(vec![Field::of(&self._phantom)])))
    }
}

#[test]
fn test_struct_only_phantom_data_same_type() {
    let s1 = OnlyPhantomData::<u32> {
        _phantom: PhantomData,
    };
    let s2 = OnlyPhantomData::<u32> {
        _phantom: PhantomData,
    };
    assert_eq!(s1.ehash(), s2.ehash());
}

#[test]
fn test_struct_only_phantom_data_different_types() {
    let s1 = OnlyPhantomData::<u32> {
        _phantom: PhantomData,
    };
    let s2 = OnlyPhantomData::<u64> {
        _phantom: PhantomData,
    };
    assert_ne!(s1.ehash(), s2.ehash());
}

// Test struct with multiple PhantomData fields
struct MultiplePhantomData<T, U> {
    value: i32,
    _phantom1: PhantomData<T>,
    _phantom2: PhantomData<U>,
}

impl<T: EasyHashTypeSalt, U: EasyHashTypeSalt> EasyHashTypeSalt for MultiplePhantomData<T, U> {
    fn name() -> String {
        String::from("test_phantom_data::MultiplePhantomData<") + &T::name() + ", " + &U::name() + ">"
    }
}

impl<T: EasyHashTypeSalt, U: EasyHashTypeSalt> EasyHash for MultiplePhantomData<T, U> {
    fn type_salt() -> u32 {
        type_salt::<Self>()
    }

    fn ehash(&self) -> u64 {
        hash_sum(Self::type_salt(), &Data::Struct(Fields::Named(vec![Field::of(&self.value), Field::of(&self._phantom1), Field::of(&self._phantom2)])))
    }
}

#[test]
fn test_multiple_phantom_data_same_types() {
    let s1 = MultiplePhantomData::<u32, u64> {
        value: 42,
        _phantom1: PhantomData,
        _phantom2: PhantomData,
    };
    let s2 = MultiplePhantomData::<u32, u64> {
        value: 42,
        _phantom1: PhantomData,
        _phantom2: PhantomData,
    };
    assert_eq!(s1.ehash(), s2.ehash());
}

#[test]
fn test_multiple_phantom_data_different_first_type() {
    let s1 = MultiplePhantomData::<u32, u64> {
        value: 42,
        _phantom1: PhantomData,
        _phantom2: PhantomData,
    };
    let s2 = MultiplePhantomData::<i32, u64> {
        value: 42,
        _phantom1: PhantomData,
        _phantom2: PhantomData,
    };
    assert_ne!(s1.ehash(), s2.ehash());
}

#[test]
fn test_multiple_phantom_data_different_second_type() {
    let s1 = MultiplePhantomData::<u32, u64> {
        value: 42,
        _phantom1: PhantomData,
        _phantom2: PhantomData,
    };
    let s2 = MultiplePhantomData::<u32, i64> {
        value: 42,
        _phantom1: PhantomData,
        _phantom2: PhantomData,
    };
    assert_ne!(s1.ehash(), s2.ehash());
}

// Test tuple struct with PhantomData
struct TupleWithPhantomData<T>(u32, PhantomData<T>);

impl<T: EasyHashTypeSalt> EasyHashTypeSalt for TupleWithPhantomData<T> {
    fn name() -> String {
        String::from("test_phantom_data::TupleWithPhantomData<") + &T::name() + ">"
    }
}

impl<T: EasyHashTypeSalt> EasyHash for TupleWithPhantomData<T> {
    fn type_salt() -> u32 {
        type_salt::<Self>()
    }

    fn ehash(&self) -> u64 {
        hash_sum(Self::type_salt(), &Data::Struct(Fields::Unnamed(vec![Field::of(&self.0), Field::of(&self.1)])))
    }
}

#[test]
fn test_tuple_struct_with_phantom_data() {
    let s1 = TupleWithPhantomData::<u32>(10, PhantomData);
    let s2 = TupleWithPhantomData::<u32>(10, PhantomData);
    assert_eq!(s1.ehash(), s2.ehash());
}

#[test]
fn test_tuple_struct_with_phantom_data_different_types() {
    let s1 = TupleWithPhantomData::<u32>(10, PhantomData);
    let s2 = TupleWithPhantomData::<u64>(10, PhantomData);
    assert_ne!(s1.ehash(), s2.ehash());
}

// Test enum with PhantomData
#[allow(dead_code)]
enum EnumWithPhantomData<T> {
    Variant1(u32, PhantomData<T>),
    Variant2 {
        value: u32,
        _phantom: PhantomData<T>,
    },
}

impl<T: EasyHashTypeSalt> EasyHashTypeSalt for EnumWithPhantomData<T> {
    fn name() -> String {
        String::from("test_phantom_data::EnumWithPhantomData<") + &T::name() + ">"
    }
}

impl<T: EasyHashTypeSalt> EasyHash for EnumWithPhantomData<T> {
    fn type_salt() -> u32 {
        type_salt::<Self>()
    }

    fn ehash(&self) -> u64 {
        let data = match self {
            EnumWithPhantomData::Variant1(f0, f1) => {
                Data::Enum(0, Fields::Unnamed(vec![Field::of(f0), Field::of(f1)]))
            }
            EnumWithPhantomData::Variant2 { value, _phantom } => {
                Data::Enum(1, Fields::Named(vec![Field::of(value), Field::of(_phantom)]))
            }
        };
        hash_sum(Self::type_salt(), &data)
    }
}

#[test]
fn test_enum_with_phantom_data_same_variant() {
    let e1 = EnumWithPhantomData::<u32>::Variant1(10, PhantomData);
    let e2 = EnumWithPhantomData::<u32>::Variant1(10, PhantomData);
    assert_eq!(e1.ehash(), e2.ehash());
}

#[test]
fn test_enum_with_phantom_data_different_types() {
    let e1 = EnumWithPhantomData::<u32>::Variant1(10, PhantomData);
    let e2 = EnumWithPhantomData::<u64>::Variant1(10, PhantomData);
    assert_ne!(e1.ehash(), e2.ehash());
}

#[test]
fn test_enum_with_phantom_data_named_variant() {
    let e1 = EnumWithPhantomData::<u32>::Variant2 {
        value: 20,
        _phantom: PhantomData,
    };
    let e2 = EnumWithPhantomData::<u32>::Variant2 {
        value: 20,
        _phantom: PhantomData,
    };
    assert_eq!(e1.ehash(), e2.ehash());
}

// Test nested PhantomData
struct NestedPhantomData<T> {
    _phantom: PhantomData<PhantomData<T>>,
}

impl<T: EasyHashTypeSalt> EasyHashTypeSalt for NestedPhantomData<T> {
    fn name() -> String {
        String::from("test_phantom_data::NestedPhantomData<") + &T::name() + ">"
    }
}

impl<T: EasyHashTypeSalt> EasyHash for NestedPhantomData<T> {
    fn type_salt() -> u32 {
        type_salt::<Self>()
    }

    fn ehash(&self) -> u64 {
        hash_sum(Self::type_salt(), &Data::Struct(Fields::Named(vec![Field::of(&self._phantom)])))
    }
}

#[test]
fn test_nested_phantom_data() {
    let s1 = NestedPhantomData::<u32> {
        _phantom: PhantomData,
    };
    let s2 = NestedPhantomData::<u32> {
        _phantom: PhantomData,
    };
    assert_eq!(s1.ehash(), s2.ehash());
}

#[test]
fn test_nested_phantom_data_different_types() {
    let s1 = NestedPhantomData::<u32> {
        _phantom: PhantomData,
    };
    let s2 = NestedPhantomData::<u64> {
        _phantom: PhantomData,
    };
    assert_ne!(s1.ehash(), s2.ehash());
}

// Test PhantomData with complex types
#[allow(dead_code)]
struct ComplexType {
    x: u32,
    y: u32,
}

impl EasyHashTypeSalt for ComplexType {
    fn name() -> String {
        String::from("test_phantom_data::ComplexType")
    }
}

impl EasyHash for ComplexType {
    fn type_salt() -> u32 {
        type_salt::<Self>()
    }

    fn ehash(&self) -> u64 {
        hash_sum(Self::type_salt(), &Data::Struct(Fields::Named(vec![Field::of(&self.x), Field::of(&self.y)])))
    }
}

struct WithComplexPhantomData<T> {
    value: u32,
    _phantom: PhantomData<T>,
}

impl<T: EasyHashTypeSalt> EasyHashTypeSalt for WithComplexPhantomData<T> {
    fn name() -> String {
        String::from("test_phantom_data::WithComplexPhantomData<") + &T::name() + ">"
    }
}

impl<T: EasyHashTypeSalt> EasyHash for WithComplexPhantomData<T> {
    fn type_salt() -> u32 {
        type_salt::<Self>()
    }

    fn ehash(&self) -> u64 {
        hash_sum(Self::type_salt(), &Data::Struct(Fields::Named(vec![Field::of(&self.value), Field::of(&self._phantom)])))
    }
}

#[test]
fn test_phantom_data_with_custom_type() {
    let s1 = WithComplexPhantomData::<ComplexType> {
        value: 10,
        _phantom: PhantomData,
    };
    let s2 = WithComplexPhantomData::<ComplexType> {
        value: 10,
        _phantom: PhantomData,
    };
    assert_eq!(s1.ehash(), s2.ehash());
}

#[test]
fn test_phantom_data_with_vec_type() {
    let s1 = WithComplexPhantomData::<Vec<u32>> {
        value: 10,
        _phantom: PhantomData,
    };
    let s2 = WithComplexPhantomData::<Vec<u32>> {
        value: 10,
        _phantom: PhantomData,
    };
    assert_eq!(s1.ehash(), s2.ehash());
}

#[test]
fn test_phantom_data_different_vec_element_types() {
    let s1 = WithComplexPhantomData::<Vec<u32>> {
        value: 10,
        _phantom: PhantomData,
    };
    let s2 = WithComplexPhantomData::<Vec<u64>> {
        value: 10,
        _phantom: PhantomData,
    };
    assert_ne!(s1.ehash(), s2.ehash());
}

#[test]
fn phantom_data_hashes_as_its_salt_alone() {
    let p: PhantomData<u32> = PhantomData;
    let salt = type_salt::<PhantomData<u32>>();
    assert_eq!(salt, const_fnv1a_hash::fnv1a_hash_str_32("core::marker::PhantomData<u32>"));
    assert_eq!(p.ehash(), fletcher::calc_fletcher64(&[salt]));
}
