use ntexstudy::error::ServiceError;
use ntexstudy::handlers::extract::{
    decimal_text, employee_id, parse_i32, parse_u32, required_field, required_in_query, text_of,
};

#[test]
fn signed_numbers_are_read_in_base_ten() {
    assert_eq!(parse_i32(b"0"), Some(0));
    assert_eq!(parse_i32(b"7"), Some(7));
    assert_eq!(parse_i32(b"+7"), Some(7));
    assert_eq!(parse_i32(b"-7"), Some(-7));
    assert_eq!(parse_i32(b"-0"), Some(0));
    assert_eq!(parse_i32(b"007"), Some(7));
    assert_eq!(parse_i32(b"1234567890"), Some(1234567890));
    assert_eq!(parse_i32(b"2147483647"), Some(i32::MAX));
    assert_eq!(parse_i32(b"-2147483648"), Some(i32::MIN));
    assert_eq!(parse_i32(b"0000000000002147483647"), Some(i32::MAX));
}

#[test]
fn signed_numbers_out_of_range_are_refused() {
    assert_eq!(parse_i32(b"2147483648"), None);
    assert_eq!(parse_i32(b"-2147483649"), None);
    assert_eq!(parse_i32(b"+2147483648"), None);
    assert_eq!(parse_i32(b"99999999999999999999999999999999"), None);
    assert_eq!(parse_i32(b"-99999999999999999999999999999999"), None);
}

#[test]
fn malformed_numbers_are_refused() {
    assert_eq!(parse_i32(b""), None);
    assert_eq!(parse_i32(b"+"), None);
    assert_eq!(parse_i32(b"-"), None);
    assert_eq!(parse_i32(b"+-1"), None);
    assert_eq!(parse_i32(b"--1"), None);
    assert_eq!(parse_i32(b"1-"), None);
    assert_eq!(parse_i32(b" 1"), None);
    assert_eq!(parse_i32(b"1 "), None);
    assert_eq!(parse_i32(b"12a"), None);
    assert_eq!(parse_i32(b"a12"), None);
    assert_eq!(parse_i32(b"1.0"), None);
    assert_eq!(parse_i32(b"1_000"), None);
    assert_eq!(parse_i32(b"0x10"), None);
    assert_eq!(parse_i32(b"/"), None);
    assert_eq!(parse_i32(b":"), None);
    assert_eq!(parse_i32(b"99999999999999999999999999999999x"), None);
}

#[test]
fn signed_parsing_agrees_with_the_standard_library() {
    let samples: Vec<&str> = vec![
        "0", "-0", "+0", "1", "-1", "+1", "10", "2147483647", "2147483648", "-2147483648",
        "-2147483649", "", "+", "-", "abc", "1a", " 1", "٣", "00", "+-3", "4294967296",
    ];
    for sample in samples {
        assert_eq!(parse_i32(sample.as_bytes()), sample.parse::<i32>().ok(), "{}", sample);
        assert_eq!(parse_u32(sample.as_bytes()), sample.parse::<u32>().ok(), "{}", sample);
    }
}

#[test]
fn unsigned_numbers_take_no_minus() {
    assert_eq!(parse_u32(b"0"), Some(0));
    assert_eq!(parse_u32(b"+42"), Some(42));
    assert_eq!(parse_u32(b"4294967295"), Some(u32::MAX));
    assert_eq!(parse_u32(b"4294967296"), None);
    assert_eq!(parse_u32(b"-1"), None);
    assert_eq!(parse_u32(b"-0"), None);
    assert_eq!(parse_u32(b""), None);
    assert_eq!(parse_u32(b"+"), None);
    assert_eq!(parse_u32(b"4 2"), None);
}

#[test]
fn a_path_id_is_an_i32_or_a_validation_failure() {
    assert_eq!(employee_id(b"17"), Ok(17));
    assert_eq!(employee_id(b"-3"), Ok(-3));
    assert_eq!(
        employee_id(b"seventeen"),
        Err(ServiceError::Validation("the id in the path is not a 32-bit integer".to_string()))
    );
    assert_eq!(
        employee_id(b""),
        Err(ServiceError::Validation("the id in the path is not a 32-bit integer".to_string()))
    );
    assert_eq!(employee_id(b"3000000000").unwrap_err().status(), 400);
}

#[test]
fn numbers_are_written_in_base_ten() {
    assert_eq!(decimal_text(0), "0");
    assert_eq!(decimal_text(7), "7");
    assert_eq!(decimal_text(9), "9");
    assert_eq!(decimal_text(10), "10");
    assert_eq!(decimal_text(42), "42");
    assert_eq!(decimal_text(1000), "1000");
    assert_eq!(decimal_text(1234567890), "1234567890");
    assert_eq!(decimal_text(u32::MAX), "4294967295");
}

#[test]
fn writing_and_reading_a_number_agree() {
    let samples: Vec<u32> = vec![0, 1, 9, 10, 11, 99, 100, 101, 65535, 65536, 4294967294, u32::MAX];
    for sample in samples {
        assert_eq!(decimal_text(sample), sample.to_string());
        assert_eq!(parse_u32(decimal_text(sample).as_bytes()), Some(sample));
    }
}

#[test]
fn bytes_become_text_where_they_are_utf8() {
    assert_eq!(text_of(b"bob"), Some("bob".to_string()));
    assert_eq!(text_of(b""), Some(String::new()));
    assert_eq!(text_of("zoë".as_bytes()), Some("zoë".to_string()));
    assert_eq!(text_of("日本".as_bytes()), Some("日本".to_string()));
    assert_eq!(text_of(&[0xff, 0xfe]), None);
    assert_eq!(text_of(&[b'a', 0x80]), None);
    assert_eq!(text_of(&[0xc3]), None);
    assert_eq!(text_of(&[0xed, 0xa0, 0x80]), None);
}

fn refused(text: &str) -> Result<String, ServiceError> {
    Err(ServiceError::Validation(text.to_string()))
}

#[test]
fn a_required_field_is_there_once() {
    let fields = vec![
        ("page".to_string(), "2".to_string()),
        ("name".to_string(), "ann".to_string()),
        ("sort".to_string(), "asc".to_string()),
        ("sort".to_string(), "desc".to_string()),
    ];
    assert_eq!(required_field(&fields, "name"), Ok("ann".to_string()));
    assert_eq!(required_field(&fields, "page"), Ok("2".to_string()));
    assert_eq!(required_field(&fields, "sort"), refused("duplicate field `sort`"));
    assert_eq!(required_field(&fields, "Name"), refused("missing field `Name`"));
    assert_eq!(required_field(&fields, "nam"), refused("missing field `nam`"));
    assert_eq!(required_field(&vec![], "name"), refused("missing field `name`"));
    assert_eq!(required_field(&fields, "sort").unwrap_err().status(), 400);
}

#[test]
fn a_query_string_is_decoded_before_the_field_is_looked_up() {
    assert_eq!(required_in_query("name=ann", "name"), Ok("ann".to_string()));
    assert_eq!(required_in_query("page=2&name=ann&x=", "name"), Ok("ann".to_string()));
    assert_eq!(required_in_query("name=", "name"), Ok(String::new()));
    assert_eq!(required_in_query("name", "name"), Ok(String::new()));
    assert_eq!(required_in_query("name=a+b", "name"), Ok("a b".to_string()));
    assert_eq!(required_in_query("name=a%20b", "name"), Ok("a b".to_string()));
    assert_eq!(required_in_query("name=zo%C3%AB", "name"), Ok("zoë".to_string()));
    assert_eq!(required_in_query("n%61me=ann", "name"), Ok("ann".to_string()));
    assert_eq!(required_in_query("name=a%26b&x=1", "name"), Ok("a&b".to_string()));
    assert_eq!(required_in_query("", "name"), refused("missing field `name`"));
    assert_eq!(required_in_query("nick=ann", "name"), refused("missing field `name`"));
    assert_eq!(required_in_query("name=a&name=b", "name"), refused("duplicate field `name`"));
}
