use stream_cave::text::{decimal, nth_field, parse_u16, parse_u32, NumberError};

#[test]
fn decimal_writes_base_ten() {
    assert_eq!(decimal(0), "0");
    assert_eq!(decimal(7), "7");
    assert_eq!(decimal(10), "10");
    assert_eq!(decimal(1080), "1080");
    assert_eq!(decimal(641_972_806), "641972806");
    assert_eq!(decimal(u64::MAX), u64::MAX.to_string());
}

#[test]
fn parse_u16_reads_as_the_standard_library_does() {
    let samples = [
        "", "+", "-", "0", "7", "007", "+7", "-7", "65535", "65536", "99999", "99999x", "6553x",
        "x", "1 ", " 1", "++1", "+-1", "1+", "480", "1080", "0000000000000065535", "655350",
        "12a45", "٣", "1_000", "+0", "-0", "4294967295", "18446744073709551616",
    ];
    for text in samples {
        let expected = text.parse::<u16>().map_err(|error| match error.kind() {
            std::num::IntErrorKind::Empty => NumberError::Empty,
            std::num::IntErrorKind::InvalidDigit => NumberError::InvalidDigit,
            std::num::IntErrorKind::PosOverflow => NumberError::TooLarge,
            other => panic!("unexpected kind {other:?}"),
        });
        assert_eq!(parse_u16(text), expected, "for {text:?}");
    }
}

#[test]
fn parse_u32_reads_as_the_standard_library_does() {
    let samples = [
        "", "+", "0", "641972806", "4294967295", "4294967296", "42949672950", "+30423375",
        "-1", "30423375 ", "3042x3375", "99999999999x",
    ];
    for text in samples {
        let expected = text.parse::<u32>().map_err(|error| match error.kind() {
            std::num::IntErrorKind::Empty => NumberError::Empty,
            std::num::IntErrorKind::InvalidDigit => NumberError::InvalidDigit,
            std::num::IntErrorKind::PosOverflow => NumberError::TooLarge,
            other => panic!("unexpected kind {other:?}"),
        });
        assert_eq!(parse_u32(text), expected, "for {text:?}");
    }
}

#[test]
fn nth_field_cuts_as_split_does() {
    let samples = ["", ",", "a", "a,b", "a,b,c", ",b", "a,", "normal,480", "é,ü,ß", ",,"];
    for text in samples {
        let parts: Vec<&str> = text.split(',').collect();
        for index in 0..5 {
            let expected = parts.get(index).map(|part| part.to_string());
            assert_eq!(nth_field(text, ',', index), expected, "field {index} of {text:?}");
        }
    }
}

#[test]
fn split_cuts_as_the_standard_library_does() {
    let samples = ["", "&", "a=1", "a=1&b=2", "&a=1&", "a&&b", "é=ü&ß", "&&&"];
    for text in samples {
        let expected: Vec<String> = text.split('&').map(|part| part.to_string()).collect();
        assert_eq!(stream_cave::text::split(text, '&'), expected, "for {text:?}");
    }
}

#[test]
fn split_once_cuts_at_the_first_separator() {
    let samples = ["", "=", "a", "a=", "=b", "a=b", "a=b=c", "é=ü", "a==b"];
    for text in samples {
        let expected =
            text.split_once('=').map(|(head, tail)| (head.to_string(), tail.to_string()));
        assert_eq!(stream_cave::text::split_once(text, '='), expected, "for {text:?}");
    }
}

#[test]
fn every_kind_of_number_error_can_be_had() {
    assert_eq!(stream_cave::text::parse_decimal("", 10), Err(NumberError::Empty));
    assert_eq!(stream_cave::text::parse_decimal("1x", 10), Err(NumberError::InvalidDigit));
    assert_eq!(stream_cave::text::parse_decimal("11", 10), Err(NumberError::TooLarge));
    assert_eq!(stream_cave::text::parse_decimal("10", 10), Ok(10));
    assert_eq!(stream_cave::text::parse_decimal("0", 0), Ok(0));
    assert_eq!(stream_cave::text::parse_decimal("1", 0), Err(NumberError::TooLarge));
}
