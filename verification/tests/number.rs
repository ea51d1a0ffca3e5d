use multimeter_engine::util::decimal::{format_i64, format_u64};
use multimeter_engine::util::number::{parse_i128, parse_i32};

#[test]
fn parses_like_std() {
    for text in ["0", "42", "-42", "+7", "007", "-0", "", "-", "+", "1 2", " 1", "12x", "2147483647", "2147483648", "-2147483648", "-2147483649"] {
        assert_eq!(parse_i32(text), text.parse::<i32>().ok(), "{text}");
        assert_eq!(parse_i128(text), text.parse::<i128>().ok(), "{text}");
    }
}

#[test]
fn parses_the_i128_range_edges() {
    assert_eq!(parse_i128("170141183460469231731687303715884105727"), Some(i128::MAX));
    assert_eq!(parse_i128("-170141183460469231731687303715884105728"), Some(i128::MIN));
    assert_eq!(parse_i128("170141183460469231731687303715884105728"), None);
    assert_eq!(parse_i128("-170141183460469231731687303715884105729"), None);
    assert_eq!(parse_i128("99999999999999999999999999999999999999999x"), None);
}

#[test]
fn formatted_numbers_read_back() {
    for v in [0i64, 7, -7, 1234567890, i64::MAX, i64::MIN] {
        assert_eq!(parse_i128(&format_i64(v)), Some(v as i128));
    }
    assert_eq!(parse_i128(&format_u64(u64::MAX)), Some(u64::MAX as i128));
}
