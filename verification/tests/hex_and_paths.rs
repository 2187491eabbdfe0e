use module_audit::hexstr::{from_hex_string, to_hex_string};
use module_audit::paths::{add_signed_to_filename, to_outfile};
use module_audit::types::HexError;

#[test]
fn test_to_hex_string() {
    assert_eq!(to_hex_string(&vec![0xde, 0xad, 0xbe, 0xef]), "0xdeadbeef");
    assert_eq!(to_hex_string(&vec![]), "0x");
    assert_eq!(to_hex_string(&vec![0x00, 0x0f, 0xa0]), "0x000fa0");
}

#[test]
fn test_from_hex_string() {
    assert_eq!(
        from_hex_string("0xdeadbeef"),
        Ok(vec![0xde, 0xad, 0xbe, 0xef])
    );
    // the prefix is optional and letter case does not matter
    assert_eq!(from_hex_string("DEADBEEF"), Ok(vec![0xde, 0xad, 0xbe, 0xef]));
    assert_eq!(from_hex_string("0x"), Ok(vec![]));
    assert_eq!(from_hex_string(""), Ok(vec![]));
}

#[test]
fn test_from_hex_string_errors() {
    assert_eq!(from_hex_string("0x123"), Err(HexError::OddLength));
    assert_eq!(from_hex_string("0xzz"), Err(HexError::InvalidDigit));
    assert_eq!(from_hex_string("12g4"), Err(HexError::InvalidDigit));
}

#[test]
fn test_hex_round_trip() {
    let bytes = vec![0x00, 0x11, 0xab, 0xff, 0x7f];
    let hex = to_hex_string(&bytes);
    assert_eq!(from_hex_string(hex.as_str()), Ok(bytes));
}

#[test]
fn test_to_outfile_names() {
    assert_eq!(to_outfile("report.json"), "report.signed.json");
    assert_eq!(to_outfile("dir/report.json"), "dir/report.signed.json");
    assert_eq!(to_outfile("report"), "report.signed");
    assert_eq!(to_outfile(".hidden"), ".hidden.signed");
    assert_eq!(to_outfile("archive.tar.gz"), "archive.tar.signed.gz");
    assert_eq!(to_outfile("a.b/file"), "a.b/file.signed");
    // trailing separators are ignored, as the platform path API does
    assert_eq!(to_outfile("tmp/bin/"), "tmp/bin.signed");
    assert_eq!(to_outfile("dir//"), "dir.signed");
}

#[test]
fn test_add_signed_to_filename_names() {
    // with a non-empty extension the re-set extension undoes the marker
    assert_eq!(add_signed_to_filename("report.json"), "report.json");
    assert_eq!(add_signed_to_filename("report"), "report.signed");
    assert_eq!(add_signed_to_filename(".hidden"), ".hidden.signed");
    assert_eq!(add_signed_to_filename("dir/"), "dir.signed");
}
