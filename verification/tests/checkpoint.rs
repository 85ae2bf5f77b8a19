use declarative_download::checkpoint::{format_checkpoint, parse_checkpoint};
use declarative_download::error::DownloadError;

#[test]
fn parse_reads_decimal_numbers() {
    assert_eq!(parse_checkpoint("0"), Ok(0));
    assert_eq!(parse_checkpoint("7"), Ok(7));
    assert_eq!(parse_checkpoint("123"), Ok(123));
    assert_eq!(parse_checkpoint("2928778"), Ok(2928778));
    assert_eq!(parse_checkpoint("007"), Ok(7));
    assert_eq!(parse_checkpoint("18446744073709551615"), Ok(u64::MAX));
    assert_eq!(parse_checkpoint("00018446744073709551615"), Ok(u64::MAX));
}

#[test]
fn parse_takes_a_leading_plus() {
    assert_eq!(parse_checkpoint("+5"), Ok(5));
    assert_eq!(parse_checkpoint("+0"), Ok(0));
}

#[test]
fn parse_rejects_what_is_no_number() {
    for text in ["", "+", "abc", "12a", "a12", " 12", "12 ", "12\n", "-1", "-0", "++1", "1+", "1.0", "0x10", "1_000", "\u{ff11}\u{ff12}", "1\u{e9}"] {
        assert_eq!(parse_checkpoint(text), Err(DownloadError::CheckpointCorrupt), "{:?}", text);
    }
}

#[test]
fn parse_rejects_numbers_beyond_64_bits() {
    assert_eq!(parse_checkpoint("18446744073709551616"), Err(DownloadError::CheckpointCorrupt));
    assert_eq!(parse_checkpoint("18446744073709551620"), Err(DownloadError::CheckpointCorrupt));
    assert_eq!(parse_checkpoint("99999999999999999999"), Err(DownloadError::CheckpointCorrupt));
    assert_eq!(parse_checkpoint("100000000000000000000"), Err(DownloadError::CheckpointCorrupt));
}

#[test]
fn parse_agrees_with_the_standard_parser() {
    for text in ["0", "42", "+42", "", "+", "-", "4 2", "18446744073709551615", "18446744073709551616", "0000", "9"] {
        let expected = text.parse::<u64>().map_err(|_| DownloadError::CheckpointCorrupt);
        assert_eq!(parse_checkpoint(text), expected, "{:?}", text);
    }
}

#[test]
fn format_writes_the_shortest_decimal() {
    assert_eq!(format_checkpoint(0), "0");
    assert_eq!(format_checkpoint(7), "7");
    assert_eq!(format_checkpoint(10), "10");
    assert_eq!(format_checkpoint(109), "109");
    assert_eq!(format_checkpoint(2928778), "2928778");
    assert_eq!(format_checkpoint(u64::MAX), "18446744073709551615");
}

#[test]
fn format_then_parse_gives_the_number_back() {
    for n in [0u64, 1, 9, 10, 11, 99, 100, 12345, 57886032, 1 << 32, u64::MAX - 1, u64::MAX] {
        assert_eq!(parse_checkpoint(&format_checkpoint(n)), Ok(n));
        assert_eq!(format_checkpoint(n), n.to_string());
    }
}
