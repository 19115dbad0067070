use miniaturs::api::requests::{ImageResizePathParam, ResizeParamError};
use miniaturs::infra::image_caching::ImageResize;
use miniaturs::text::{
    chars_of, contains_chars, push_decimal, push_signed_decimal, read_i32, read_u32, same_text,
    starts_with, string_of, NumberError,
};
use std::num::IntErrorKind;

fn param(width: i32, height: i32) -> ImageResizePathParam {
    ImageResizePathParam {
        target_width: width,
        target_height: height,
    }
}

#[test]
fn size_segments_are_read() {
    for (text, width, height) in [
        ("100x80", 100, 80),
        ("-100x-300", -100, -300),
        ("0x0", 0, 0),
        ("+5x-0", 5, 0),
        ("007x08", 7, 8),
        ("2147483647x-2147483648", i32::MAX, i32::MIN),
    ] {
        assert_eq!(Ok(param(width, height)), ImageResizePathParam::from_str(text));
    }
}

#[test]
fn size_segments_that_cannot_be_read() {
    for (text, error) in [
        ("", ResizeParamError::Shape),
        ("100", ResizeParamError::Shape),
        ("1x2x3", ResizeParamError::Shape),
        ("xx", ResizeParamError::Shape),
        ("100X80", ResizeParamError::Shape),
        ("x", ResizeParamError::Number(NumberError::Empty)),
        ("x5", ResizeParamError::Number(NumberError::Empty)),
        ("5x", ResizeParamError::Number(NumberError::Empty)),
        ("ax5", ResizeParamError::Number(NumberError::InvalidDigit)),
        ("5xb", ResizeParamError::Number(NumberError::InvalidDigit)),
        (" 5x5", ResizeParamError::Number(NumberError::InvalidDigit)),
        ("5 x5", ResizeParamError::Number(NumberError::InvalidDigit)),
        ("-x5", ResizeParamError::Number(NumberError::InvalidDigit)),
        ("5x+", ResizeParamError::Number(NumberError::InvalidDigit)),
        ("--5x5", ResizeParamError::Number(NumberError::InvalidDigit)),
        ("5.0x5", ResizeParamError::Number(NumberError::InvalidDigit)),
        ("٣x5", ResizeParamError::Number(NumberError::InvalidDigit)),
        ("2147483648x5", ResizeParamError::Number(NumberError::PosOverflow)),
        ("5x-2147483649", ResizeParamError::Number(NumberError::NegOverflow)),
        ("99999999999999999999x5", ResizeParamError::Number(NumberError::PosOverflow)),
        // The width is looked at before the height.
        ("ax99999999999", ResizeParamError::Number(NumberError::InvalidDigit)),
        ("99999999999xa", ResizeParamError::Number(NumberError::PosOverflow)),
    ] {
        assert_eq!(Err(error), ImageResizePathParam::from_str(text));
    }
}

#[test]
fn size_segments_are_written_and_read_back() {
    for (width, height) in [
        (100, 80),
        (-100, -300),
        (0, 0),
        (i32::MAX, i32::MIN),
        (i32::MIN, i32::MAX),
        (-1, 10),
    ] {
        let written = param(width, height).to_segment();
        assert_eq!(format!("{width}x{height}"), written);
        assert_eq!(Ok(param(width, height)), ImageResizePathParam::from_str(&written));
    }
}

#[test]
fn a_size_segment_is_a_target_size() {
    let resize: ImageResize = param(-3, 4).into();
    assert_eq!(
        ImageResize {
            target_width: -3,
            target_height: 4
        },
        resize
    );
}

#[test]
fn errors_of_size_segments_describe_themselves() {
    assert_eq!(
        "A string with two numbers and an x in between",
        ResizeParamError::Shape.message()
    );
    assert_eq!(
        "invalid digit found in string",
        ResizeParamError::Number(NumberError::InvalidDigit).message()
    );
}

fn kind_of(error: NumberError) -> IntErrorKind {
    match error {
        NumberError::Empty => IntErrorKind::Empty,
        NumberError::InvalidDigit => IntErrorKind::InvalidDigit,
        NumberError::PosOverflow => IntErrorKind::PosOverflow,
        NumberError::NegOverflow => IntErrorKind::NegOverflow,
    }
}

const NUMERALS: [&str; 36] = [
    "", "0", "-0", "+0", "00", "1", "-1", "+1", "+", "-", "+-1", "-+1", "++1", "1-", "1+", " 1",
    "1 ", "a", "1a", "a1", "0x10", "1_000", "2147483647", "2147483648", "-2147483648",
    "-2147483649", "4294967295", "4294967296", "+4294967295", "-4294967295",
    "000000000000000000000004294967295", "99999999999999999999999999",
    "-99999999999999999999999999", "99999999999999999999999999a", "a99999999999999999999999999",
    "１２",
];

#[test]
fn signed_numbers_are_read_as_the_standard_library_reads_them() {
    for text in NUMERALS {
        let ours = read_i32(&chars_of(text));
        match text.parse::<i32>() {
            Ok(value) => assert_eq!(Ok(value), ours),
            Err(error) => {
                let ours = ours.unwrap_err();
                assert_eq!(*error.kind(), kind_of(ours));
                assert_eq!(error.to_string(), ours.message());
            }
        }
    }
}

#[test]
fn unsigned_numbers_are_read_as_the_standard_library_reads_them() {
    for text in NUMERALS {
        let ours = read_u32(&chars_of(text));
        match text.parse::<u32>() {
            Ok(value) => assert_eq!(Ok(value), ours),
            Err(error) => {
                let ours = ours.unwrap_err();
                assert_eq!(*error.kind(), kind_of(ours));
                assert_eq!(error.to_string(), ours.message());
            }
        }
    }
}

#[test]
fn decimal_numerals() {
    for value in [0u64, 1, 9, 10, 11, 99, 100, 12345, 4294967295, 4294967296, u64::MAX] {
        let mut out = vec!['n', '='];
        push_decimal(&mut out, value);
        assert_eq!(format!("n={value}"), string_of(&out));
    }
    for value in [0i32, 1, -1, 10, -10, i32::MAX, i32::MIN] {
        let mut out = Vec::new();
        push_signed_decimal(&mut out, value);
        assert_eq!(value.to_string(), string_of(&out));
    }
}

#[test]
fn text_helpers() {
    assert_eq!(vec!['a', 'é', '☃'], chars_of("aé☃"));
    assert_eq!("aé☃", string_of(&['a', 'é', '☃']));
    assert!(same_text("", ""));
    assert!(same_text("abc", "abc"));
    assert!(!same_text("abc", "abd"));
    assert!(!same_text("abc", "ab"));
    assert!(starts_with(&chars_of("abc"), &chars_of("")));
    assert!(starts_with(&chars_of("abc"), &chars_of("ab")));
    assert!(!starts_with(&chars_of("ab"), &chars_of("abc")));
    assert!(!starts_with(&chars_of("abc"), &chars_of("b")));
    assert!(contains_chars(&chars_of("abc"), &chars_of("")));
    assert!(contains_chars(&chars_of("abc"), &chars_of("bc")));
    assert!(contains_chars(&chars_of("abc"), &chars_of("abc")));
    assert!(!contains_chars(&chars_of("abc"), &chars_of("ac")));
    assert!(!contains_chars(&chars_of("abc"), &chars_of("abcd")));
}
