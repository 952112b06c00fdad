use disktest::parse::{parsebytes, ParseBytesError};

#[test]
fn parsebytes_plain_numbers() {
    assert_eq!(parsebytes("0"), Ok(0));
    assert_eq!(parsebytes("42"), Ok(42));
    assert_eq!(parsebytes("18446744073709551615"), Ok(u64::MAX));
}

#[test]
fn parsebytes_suffixes() {
    assert_eq!(parsebytes("1k"), Ok(1024));
    assert_eq!(parsebytes("10M"), Ok(10 * 1024 * 1024));
    assert_eq!(parsebytes("3G"), Ok(3 * 1024 * 1024 * 1024));
    assert_eq!(parsebytes("2T"), Ok(2 * 1024 * 1024 * 1024 * 1024));
    assert_eq!(parsebytes("16777215T"), Ok(16777215 * (1u64 << 40)));
}

#[test]
fn parsebytes_invalid() {
    assert_eq!(parsebytes(""), Err(ParseBytesError::Invalid));
    assert_eq!(parsebytes("k"), Err(ParseBytesError::Invalid));
    assert_eq!(parsebytes("12x"), Err(ParseBytesError::Invalid));
    assert_eq!(parsebytes("1 k"), Err(ParseBytesError::Invalid));
    assert_eq!(parsebytes("-5"), Err(ParseBytesError::Invalid));
    assert_eq!(parsebytes("99999999999999999999999a"), Err(ParseBytesError::Invalid));
}

#[test]
fn parsebytes_out_of_range() {
    assert_eq!(parsebytes("18446744073709551616"), Err(ParseBytesError::OutOfRange));
    assert_eq!(parsebytes("16777216T"), Err(ParseBytesError::OutOfRange));
    assert_eq!(parsebytes("99999999999999999999999k"), Err(ParseBytesError::OutOfRange));
}
