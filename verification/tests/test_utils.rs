use easy_hash::{join_u32s, split_i64, split_u64, u64_to_u32_slice};

#[test]
fn test_u64_to_u32_slice() {
    let arr: [u64; 2] = [0x1122_3344_5566_7788, 0xaabb_ccdd_eeff_0011];
    let slice = u64_to_u32_slice(&arr);
    assert_eq!(slice.len(), 4);
    assert_eq!(slice[0], 0x5566_7788);
    assert_eq!(slice[1], 0x1122_3344);
    assert_eq!(slice[2], 0xeeff_0011);
    assert_eq!(slice[3], 0xaabb_ccdd);
}

#[test]
fn split_u64_gives_low_then_high() {
    assert_eq!(split_u64(0), [0, 0]);
    assert_eq!(split_u64(1), [1, 0]);
    assert_eq!(split_u64(u32::MAX as u64), [u32::MAX, 0]);
    assert_eq!(split_u64(u64::MAX), [u32::MAX, u32::MAX]);
    assert_eq!(split_u64(u64::MAX - 1), [u32::MAX - 1, u32::MAX]);
    assert_eq!(split_u64(0x1234_5678_9abc_def0), [0x9abc_def0, 0x1234_5678]);
}

#[test]
fn split_i64_gives_the_halves_of_the_pattern() {
    assert_eq!(split_i64(0), [0, 0]);
    assert_eq!(split_i64(1), [1, 0]);
    assert_eq!(split_i64(-1), [u32::MAX, u32::MAX]);
    assert_eq!(split_i64(u32::MAX as i64), [u32::MAX, 0]);
    assert_eq!(split_i64(i64::MAX), [u32::MAX, 0x7fff_ffff]);
    assert_eq!(split_i64(i64::MIN), [0, 0x8000_0000]);
    assert_eq!(split_i64(i64::MIN + 1), [1, 0x8000_0000]);
    assert_eq!(split_i64(0x1234_5678_9abc_def0), [0x9abc_def0, 0x1234_5678]);
}

#[test]
fn join_u32s_puts_the_first_word_high() {
    assert_eq!(join_u32s(0, 0), 0);
    assert_eq!(join_u32s(0, 1), 1);
    assert_eq!(join_u32s(1, 0), 1 << 32);
    assert_eq!(join_u32s(0x1234_5678, 0x9abc_def0), 0x1234_5678_9abc_def0);
    assert_eq!(join_u32s(u32::MAX, u32::MAX), u64::MAX);
}

#[test]
fn join_of_the_halves_high_first_is_the_value() {
    for value in [0u64, 1, u32::MAX as u64, u64::MAX, u64::MAX - 1, 0x1234_5678_9abc_def0] {
        let parts = split_u64(value);
        assert_eq!(join_u32s(parts[1], parts[0]), value);
    }
    for value in [0i64, 1, -1, i64::MAX, i64::MIN, i64::MAX - 1, i64::MIN + 1] {
        let parts = split_i64(value);
        assert_eq!(join_u32s(parts[1], parts[0]) as i64, value);
    }
}

#[test]
fn known_digests_and_salts() {
    let data = [0xA0F15604u32, 0x82856B93, 0xC4395038, 0xF3CAC9CB, 0x39B7C44B, 0xEB0F23DA];
    assert_eq!(easy_hash::checksum_of(&data), 0x9D0768B50041C3C3);
    assert_eq!(easy_hash::checksum_of(&[]), 0);
    assert_eq!(easy_hash::checksum_of(&[1, 2]), 0x0000_0004_0000_0003);
    assert_eq!(easy_hash::salt_of_name("foobar"), 0xbf9cf968);
    assert_eq!(easy_hash::salt_of_name(""), 0x811c9dc5);
    assert_eq!(easy_hash::type_salt::<u8>(), easy_hash::salt_of_name("u8"));
}
