use easy_hash::{split_u64, type_salt, EasyHash, EasyHash2, EasyHashTypeSalt, ToU32Slices};
use fletcher::{calc_fletcher64, Fletcher64};

const VALUES: [u64; 8] =
    [0, 1, 2, 0xffff_ffff, 0x1_0000_0000, u64::MAX - 1, u64::MAX, 0x1234_5678_9abc_def0];

fn halves(values: &[u64]) -> Vec<u32> {
    values.iter().flat_map(|value| split_u64(value.ehash())).collect()
}

#[test]
fn prop_reference_hash_matches_value() {
    for value in VALUES {
        assert_eq!(value.ehash(), EasyHash::ehash(&&value));
    }
}

#[test]
fn prop_option_some_hash_matches_manual() {
    for value in VALUES {
        let parts = split_u64(value.ehash());
        let mut checksum = Fletcher64::new();
        checksum.update(&[type_salt::<u64>(), parts[0], parts[1]]);
        assert_eq!(EasyHash::ehash(&Some(value)), checksum.value());
    }
}

#[test]
fn prop_vec_hash_matches_manual() {
    for len in 0..=VALUES.len() {
        let values = VALUES[..len].to_vec();
        let mut checksum = Fletcher64::new();
        checksum.update(&[type_salt::<Vec<u64>>()]);
        checksum.update(&halves(&values));
        assert_eq!(EasyHash::ehash(&values), checksum.value());
    }
}

#[test]
fn prop_tuple_hash_matches_manual() {
    for left in VALUES {
        for right in [0u32, 1, u32::MAX, 0xdead_beef] {
            let mut checksum = Fletcher64::new();
            checksum.update(&[type_salt::<(u64, u32)>()]);
            let l = split_u64(left.ehash());
            let r = split_u64(right.ehash());
            checksum.update(&[l[0], l[1], r[0], r[1]]);
            assert_eq!(EasyHash::ehash(&(left, right)), checksum.value());
        }
    }
}

#[test]
fn tuple_of_zero_and_one() {
    let salt = type_salt::<(u64, u32)>();
    assert_eq!(salt, const_fnv1a_hash::fnv1a_hash_str_32("(u64, u32)"));
    let first = split_u64(0u64.ehash());
    let second = split_u64(1u32.ehash());
    let mut checksum = Fletcher64::new();
    checksum.update(&[salt]);
    checksum.update(&first);
    checksum.update(&second);
    assert_eq!(EasyHash::ehash(&(0u64, 1u32)), checksum.value());
}

#[test]
fn tuples_of_every_arity() {
    let d = split_u64(7u8.ehash());
    let mut words = vec![type_salt::<(u8,)>()];
    words.extend_from_slice(&d);
    assert_eq!(EasyHash::ehash(&(7u8,)), calc_fletcher64(&words));
    let wide = (7u8, 7u8, 7u8, 7u8, 7u8, 7u8, 7u8, 7u8, 7u8, 7u8, 7u8, 7u8, 7u8, 7u8, 7u8);
    let mut words = vec![const_fnv1a_hash::fnv1a_hash_str_32(
        "(u8, u8, u8, u8, u8, u8, u8, u8, u8, u8, u8, u8, u8, u8, u8)",
    )];
    for _ in 0..15 {
        words.extend_from_slice(&d);
    }
    assert_eq!(EasyHash::ehash(&wide), calc_fletcher64(&words));
}

#[test]
fn vec_order_matters() {
    let (x, y) = (3u32, 4u32);
    assert_ne!(EasyHash::ehash(&vec![x, y]), EasyHash::ehash(&vec![y, x]));
    assert_ne!(EasyHash::ehash(&vec![x]), EasyHash::ehash(&vec![x, x]));
}

#[test]
fn text_is_fed_front_to_back_with_a_padded_last_word() {
    let salt = type_salt::<String>();
    assert_eq!(salt, const_fnv1a_hash::fnv1a_hash_str_32("alloc::string::String"));
    assert_eq!(String::from("").ehash(), calc_fletcher64(&[salt]));
    assert_eq!(String::from("abcd").ehash(), calc_fletcher64(&[salt, 0x6463_6261]));
    assert_eq!(String::from("abcde").ehash(), calc_fletcher64(&[salt, 0x6463_6261, 0x65]));
    let salt = const_fnv1a_hash::fnv1a_hash_str_32("&str");
    assert_eq!("hello world".ehash(), calc_fletcher64(&[salt, 0x6c6c_6568, 0x6f77_206f, 0x0064_6c72]));
    assert_eq!("é".ehash(), calc_fletcher64(&[salt, 0xa9c3]));
}

struct Pair(Vec<u32>);

impl EasyHashTypeSalt for Pair {
    fn name() -> String {
        String::from("test_property_based::Pair")
    }
}

impl ToU32Slices for Pair {
    fn to_u32_stream(&self) -> Vec<&[u32]> {
        vec![&self.0[..1], &self.0[1..]]
    }
}

#[test]
fn stream_hash_is_the_salt_and_the_words() {
    let words = vec![5u32, 6, 7];
    let salt = type_salt::<Vec<u32>>();
    assert_eq!(EasyHash2::ehash(&words), calc_fletcher64(&[salt, 5, 6, 7]));
    let pair = (vec![1u32, 2], vec![3u32]);
    let salt = type_salt::<(Vec<u32>, Vec<u32>)>();
    assert_eq!(EasyHash2::ehash(&pair), calc_fletcher64(&[salt, 1, 2, 3]));
    let local = Pair(vec![9, 8, 7]);
    assert_eq!(local.0.len(), 3);
    assert_eq!(
        EasyHash2::ehash(&local),
        calc_fletcher64(&[type_salt::<Pair>(), 9, 8, 7])
    );
    assert_eq!(<Pair as EasyHashTypeSalt>::type_salt_2(), type_salt::<Pair>());
}
