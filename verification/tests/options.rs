use tuimodplayer::options::{
    parse_sample_rate, usize_range_parse, Options, RangeParseError, DEFAULT_SAMPLE_RATE,
    MAX_SAMPLE_RATE, MIN_SAMPLE_RATE,
};

#[test]
fn sample_rate_constants() {
    assert_eq!(DEFAULT_SAMPLE_RATE, 48000);
    assert_eq!(MIN_SAMPLE_RATE, 8000);
    assert_eq!(MAX_SAMPLE_RATE, 192000);
}

#[test]
fn parses_plain_and_signed_numbers() {
    assert_eq!(usize_range_parse("48000", 8000, 192000), Ok(48000));
    assert_eq!(usize_range_parse("+48000", 8000, 192000), Ok(48000));
    assert_eq!(usize_range_parse("8000", 8000, 192000), Ok(8000));
    assert_eq!(usize_range_parse("192000", 8000, 192000), Ok(192000));
}

#[test]
fn rejects_out_of_range_numbers() {
    assert_eq!(
        usize_range_parse("7999", 8000, 192000),
        Err(RangeParseError::TooLow)
    );
    assert_eq!(
        usize_range_parse("192001", 8000, 192000),
        Err(RangeParseError::TooHigh)
    );
    assert_eq!(
        usize_range_parse("999999999999999999999999999", 8000, 192000),
        Err(RangeParseError::TooHigh)
    );
}

#[test]
fn rejects_malformed_numbers() {
    assert_eq!(usize_range_parse("", 0, 10), Err(RangeParseError::Invalid));
    assert_eq!(usize_range_parse("+", 0, 10), Err(RangeParseError::Invalid));
    assert_eq!(usize_range_parse("12a", 0, 100), Err(RangeParseError::Invalid));
    assert_eq!(usize_range_parse("-5", 0, 100), Err(RangeParseError::Invalid));
    assert_eq!(usize_range_parse(" 5", 0, 100), Err(RangeParseError::Invalid));
    assert_eq!(
        usize_range_parse("999999999999999999999999999x", 0, 100),
        Err(RangeParseError::Invalid)
    );
}

#[test]
fn sample_rate_messages() {
    assert_eq!(parse_sample_rate("48000"), Ok(48000));
    assert_eq!(
        parse_sample_rate("abc"),
        Err("Expected integer within 8000-192000".to_owned())
    );
    assert_eq!(
        parse_sample_rate("7999"),
        Err("Out of range.  Supported sample rate range: 8000-192000".to_owned())
    );
    assert_eq!(
        parse_sample_rate("200000"),
        Err("Out of range.  Supported sample rate range: 8000-192000".to_owned())
    );
}

#[test]
fn default_options() {
    let o = Options::default();
    assert!(o.paths.is_empty());
    assert_eq!(o.sample_rate, 48000);
    assert!(!o.shuffle);
    assert!(!o.deep_archive_search);
}
