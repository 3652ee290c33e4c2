use artemis::text::{chars_of, decimal_exceeds, parse_i32, parse_u32, parse_u64, string_of};

#[test]
fn decimal_fields_read_as_the_standard_library_reads_them() {
    for text in [
        "0", "7", "42", "007", "4294967295", "4294967296", "99999999999999999999", "+5", "-5", "+",
        "-", "", " 1", "1 ", "1a", "a", "1.0", "٣", "2147483647", "2147483648", "-2147483648",
        "-2147483649", "+-1", "--1", "0000000000000000000000012",
    ] {
        assert_eq!(parse_u32(text), text.parse::<u32>().ok(), "{:?}", text);
        assert_eq!(parse_i32(text), text.parse::<i32>().ok(), "{:?}", text);
        assert_eq!(parse_u64(text), text.parse::<u64>().ok(), "{:?}", text);
    }
}

#[test]
fn fields_with_the_hexadecimal_prefix_read_in_base_sixteen() {
    assert_eq!(parse_u32("0x1F"), Some(31));
    assert_eq!(parse_u32("0xff"), Some(255));
    assert_eq!(parse_u32("0xFFFFFFFF"), Some(4294967295));
    assert_eq!(parse_u32("0x100000000"), None);
    assert_eq!(parse_u32("0x"), None);
    assert_eq!(parse_u32("0xg"), None);
    assert_eq!(parse_u32("0X1F"), None);
    assert_eq!(parse_u32("0x+1F"), Some(31));
    assert_eq!(parse_u32("0x-1F"), None);
    assert_eq!(parse_i32("0x-1F"), Some(-31));
    assert_eq!(parse_i32("0x7fffffff"), Some(2147483647));
    assert_eq!(parse_i32("0x80000000"), None);
    assert_eq!(parse_i32("0x-80000000"), Some(-2147483648));
    assert_eq!(parse_i32("-0x1F"), None);
}

#[test]
fn sixty_four_bit_lengths_read_up_to_the_greatest() {
    assert_eq!(parse_u64("18446744073709551615"), Some(u64::MAX));
    assert_eq!(parse_u64("18446744073709551616"), None);
    assert_eq!(parse_u64("0x10"), None);
    assert_eq!(parse_u64("-0"), None);
    assert_eq!(parse_u64("+0"), Some(0));
}

#[test]
fn a_threshold_is_exceeded_only_by_a_greater_decimal_number() {
    assert!(!decimal_exceeds("211", 211));
    assert!(decimal_exceeds("212", 211));
    assert!(decimal_exceeds("+212", 211));
    assert!(!decimal_exceeds("-212", 211));
    assert!(!decimal_exceeds("", 211));
    assert!(!decimal_exceeds("abc", 211));
    assert!(!decimal_exceeds("212abc", 211));
    assert!(!decimal_exceeds("0x100", 211));
    assert!(decimal_exceeds("99999999999999999999999999999999999999999999", 211));
    assert!(decimal_exceeds("4294967296", 4294967295));
    assert!(!decimal_exceeds("4294967295", 4294967295));
}

#[test]
fn text_goes_to_characters_and_back() {
    let text = "AM|1|é|\r\n";
    let chars = chars_of(text);
    assert_eq!(chars, vec!['A', 'M', '|', '1', '|', 'é', '|', '\r', '\n']);
    assert_eq!(string_of(&chars), text);
    assert_eq!(string_of(&Vec::new()), "");
}
