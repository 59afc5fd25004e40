use whatlang_ffi::validate_utf8;

fn agrees_with_std(bytes: &[u8]) {
    assert_eq!(
        validate_utf8(bytes),
        std::str::from_utf8(bytes).is_ok(),
        "disagreement on {:?}",
        bytes
    );
}

#[test]
fn empty_and_ascii_are_valid() {
    agrees_with_std(b"");
    agrees_with_std(b"hello, world");
    agrees_with_std(&[0x00, 0x7F, 0x20]);
    assert!(validate_utf8(b"plain ascii"));
}

#[test]
fn well_formed_multibyte_sequences_are_valid() {
    agrees_with_std("héllo".as_bytes());
    agrees_with_std("€100".as_bytes());
    agrees_with_std("日本語のテキスト".as_bytes());
    agrees_with_std("😀 emoji".as_bytes());
    // Boundary cases of each sequence length.
    agrees_with_std(&[0xC2, 0x80]); // U+0080, smallest two-byte
    agrees_with_std(&[0xDF, 0xBF]); // U+07FF, largest two-byte
    agrees_with_std(&[0xE0, 0xA0, 0x80]); // U+0800, smallest three-byte
    agrees_with_std(&[0xED, 0x9F, 0xBF]); // U+D7FF, just below surrogates
    agrees_with_std(&[0xEE, 0x80, 0x80]); // U+E000, just above surrogates
    agrees_with_std(&[0xEF, 0xBF, 0xBF]); // U+FFFF, largest three-byte
    agrees_with_std(&[0xF0, 0x90, 0x80, 0x80]); // U+10000, smallest four-byte
    agrees_with_std(&[0xF4, 0x8F, 0xBF, 0xBF]); // U+10FFFF, largest code point
}

#[test]
fn overlong_encodings_are_invalid() {
    agrees_with_std(&[0xC0, 0x80]); // overlong U+0000
    agrees_with_std(&[0xC1, 0xBF]); // overlong U+007F
    agrees_with_std(&[0xE0, 0x9F, 0xBF]); // overlong two-byte range
    agrees_with_std(&[0xF0, 0x8F, 0xBF, 0xBF]); // overlong three-byte range
    assert!(!validate_utf8(&[0xC0, 0x80]));
}

#[test]
fn surrogates_and_out_of_range_are_invalid() {
    agrees_with_std(&[0xED, 0xA0, 0x80]); // U+D800, low surrogate bound
    agrees_with_std(&[0xED, 0xBF, 0xBF]); // U+DFFF, high surrogate bound
    agrees_with_std(&[0xF4, 0x90, 0x80, 0x80]); // just above U+10FFFF
    agrees_with_std(&[0xF5, 0x80, 0x80, 0x80]); // head byte out of range
    agrees_with_std(&[0xFE]);
    agrees_with_std(&[0xFF]);
}

#[test]
fn truncated_and_stray_sequences_are_invalid() {
    agrees_with_std(&[0xC2]); // missing continuation
    agrees_with_std(&[0xE2, 0x82]); // three-byte cut short
    agrees_with_std(&[0xF0, 0x9F, 0x98]); // four-byte cut short
    agrees_with_std(&[0x80]); // stray continuation byte
    agrees_with_std(&[0x61, 0xBF, 0x62]); // continuation in the middle
    agrees_with_std(&[0xE0, 0xA0, 0x61]); // letter where a continuation is owed
    agrees_with_std(&[0xF1, 0x80, 0xC0, 0x80]); // bad third byte
}

#[test]
fn every_two_byte_prefix_agrees_with_std() {
    // Exhaustive over all one- and two-byte inputs.
    for b0 in 0..=255u8 {
        agrees_with_std(&[b0]);
        for b1 in 0..=255u8 {
            agrees_with_std(&[b0, b1]);
        }
    }
}
