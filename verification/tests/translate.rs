use led_sequencer::mode::{recognized_token, translate, Mode};

#[test]
fn recognized_tokens_map_to_their_modes() {
    assert_eq!(translate(b"cycle"), Some(Mode::Cycle));
    assert_eq!(translate(b"red"), Some(Mode::Red));
    assert_eq!(translate(b"yellow"), Some(Mode::Yellow));
    assert_eq!(translate(b"green"), Some(Mode::Green));
    assert_eq!(translate(b"blue"), Some(Mode::Blue));
    assert_eq!(translate(b"purple"), Some(Mode::Purple));
}

#[test]
fn unrecognized_words_fall_back_to_cycle() {
    assert_eq!(translate(b"fuchsia"), Some(Mode::Cycle));
    assert_eq!(translate(b""), Some(Mode::Cycle));
    assert_eq!(translate(b"RED"), Some(Mode::Cycle));
    assert_eq!(translate(b"Cycle"), Some(Mode::Cycle));
    assert_eq!(translate(b"redd"), Some(Mode::Cycle));
    assert_eq!(translate(b"re"), Some(Mode::Cycle));
    assert_eq!(translate(b" red"), Some(Mode::Cycle));
}

#[test]
fn well_formed_multibyte_text_falls_back_to_cycle() {
    // "r\u{f6}d" in UTF-8
    assert_eq!(translate(&[0x72, 0xc3, 0xb6, 0x64]), Some(Mode::Cycle));
    // "\u{65e5}\u{672c}" in UTF-8
    assert_eq!(
        translate(&[0xe6, 0x97, 0xa5, 0xe6, 0x9c, 0xac]),
        Some(Mode::Cycle)
    );
    // "\u{1f6a6}" in UTF-8
    assert_eq!(translate(&[0xf0, 0x9f, 0x9a, 0xa6]), Some(Mode::Cycle));
}

#[test]
fn malformed_bytes_yield_no_mode_at_all() {
    // a lone continuation byte
    assert_eq!(translate(&[0x80]), None);
    // a truncated two-byte form
    assert_eq!(translate(&[0xc2]), None);
    // an overlong encoding of '/'
    assert_eq!(translate(&[0xc0, 0xaf]), None);
    // an overlong three-byte form
    assert_eq!(translate(&[0xe0, 0x80, 0x80]), None);
    // a surrogate
    assert_eq!(translate(&[0xed, 0xa0, 0x80]), None);
    // past U+10FFFF
    assert_eq!(translate(&[0xf4, 0x90, 0x80, 0x80]), None);
    assert_eq!(translate(&[0xf5, 0x80, 0x80, 0x80]), None);
    // a good token with a bad tail
    assert_eq!(translate(&[0x72, 0x65, 0x64, 0xff]), None);
}

#[test]
fn decoding_agrees_with_std_on_short_inputs() {
    let boundary: [u8; 24] = [
        0x00, 0x7f, 0x80, 0x8f, 0x90, 0x9f, 0xa0, 0xbf, 0xc0, 0xc1, 0xc2, 0xdf, 0xe0, 0xe1, 0xec,
        0xed, 0xee, 0xef, 0xf0, 0xf1, 0xf3, 0xf4, 0xf5, 0xff,
    ];
    for a in 0..=255u8 {
        assert_eq!(
            translate(&[a]).is_some(),
            std::str::from_utf8(&[a]).is_ok(),
            "one byte: {a:#x}"
        );
        for b in 0..=255u8 {
            assert_eq!(
                translate(&[a, b]).is_some(),
                std::str::from_utf8(&[a, b]).is_ok(),
                "two bytes: {a:#x} {b:#x}"
            );
        }
    }
    for &a in &boundary {
        for &b in &boundary {
            for &c in &boundary {
                assert_eq!(
                    translate(&[a, b, c]).is_some(),
                    std::str::from_utf8(&[a, b, c]).is_ok(),
                    "three bytes: {a:#x} {b:#x} {c:#x}"
                );
                for &d in &boundary {
                    assert_eq!(
                        translate(&[a, b, c, d]).is_some(),
                        std::str::from_utf8(&[a, b, c, d]).is_ok(),
                        "four bytes: {a:#x} {b:#x} {c:#x} {d:#x}"
                    );
                }
            }
        }
    }
}

#[test]
fn recognized_token_tells_tokens_from_fallbacks() {
    assert!(recognized_token(b"cycle"));
    assert!(recognized_token(b"red"));
    assert!(recognized_token(b"yellow"));
    assert!(recognized_token(b"green"));
    assert!(recognized_token(b"blue"));
    assert!(recognized_token(b"purple"));
    assert!(!recognized_token(b"fuchsia"));
    assert!(!recognized_token(b""));
    assert!(!recognized_token(b"RED"));
}
