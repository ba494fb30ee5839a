use monkesto::known_errors::{decode_error_text, encode_error_bytes, error_location};

#[test]
fn error_bytes_travel_as_url_safe_base64() {
    let bytes = vec![0xfb, 0xff, 0x00, 0x10];
    let text = encode_error_bytes(&bytes);
    assert_eq!(text, "-_8AEA==");
    assert_eq!(decode_error_text(&text), Some(bytes));
}

#[test]
fn encoded_errors_decode_to_their_bytes() {
    for bytes in [vec![], vec![1u8], vec![1, 2], vec![1, 2, 3], (0u8..=255).collect::<Vec<_>>()] {
        assert_eq!(decode_error_text(&encode_error_bytes(&bytes)), Some(bytes));
    }
}

#[test]
fn text_that_is_not_base64_carries_no_error() {
    assert_eq!(decode_error_text("%%%"), None);
    assert_eq!(decode_error_text("+/8="), None);
}

#[test]
fn the_error_goes_in_the_query() {
    assert_eq!(error_location("/journal", "AAE="), "/journal?err=AAE=");
}
