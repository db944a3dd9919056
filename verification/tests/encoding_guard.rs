use remote_mirror::encoding::{
    build_iconv_fix_command, check_file_encoding, decode_wsl_output, looks_like_utf16_le,
};
use remote_mirror::errors::CoreError;

#[test]
fn plain_text_passes() {
    assert!(check_file_encoding("hello world\n{ \"key\": 1 }", "cfg.json").is_ok());
    assert!(check_file_encoding("", "cfg.json").is_ok());
}

#[test]
fn replacement_character_names_the_fix() {
    let r = check_file_encoding("abc\u{FFFD}def", "cfg.json");
    let expected = "File cfg.json is not UTF-8 encoded (possibly GBK/GB2312); convert it and retry.\nFix: iconv -f GBK -t UTF-8 \"cfg.json\" -o \"cfg.json.tmp\" && mv \"cfg.json.tmp\" \"cfg.json\"";
    assert_eq!(r, Err(CoreError::Encoding(expected.to_string())));
}

#[test]
fn binary_content_rejected() {
    let junk: String = std::iter::repeat('\u{1}').take(30).collect();
    let r = check_file_encoding(&junk, "blob.bin");
    match r {
        Err(CoreError::Encoding(m)) => {
            assert!(m.contains("binary or corrupted"));
        },
        other => panic!("expected an encoding error, got {:?}", other),
    }
}

#[test]
fn mostly_text_with_few_controls_passes() {
    // one suspect character in a 20-character sample stays under ten percent
    let s = "aaaaaaaaaaaaaaaaaaa\u{1}";
    assert!(check_file_encoding(s, "cfg").is_ok());
}

#[test]
fn exactly_ten_percent_suspect_is_still_valid() {
    // invalid only when MORE than ten percent of the sample is suspect:
    // one suspect character in ten is accepted
    let s = "aaaaaaaaa\u{1}";
    assert_eq!(s.chars().count(), 10);
    assert!(check_file_encoding(s, "cfg").is_ok());
}

#[test]
fn just_over_ten_percent_suspect_is_rejected() {
    // one suspect character in nine is over the ten-percent bound
    let s = "aaaaaaaa\u{1}";
    assert_eq!(s.chars().count(), 9);
    match check_file_encoding(s, "cfg") {
        Err(CoreError::Encoding(m)) => assert!(m.contains("binary or corrupted")),
        other => panic!("expected an encoding error, got {:?}", other),
    }
}

#[test]
fn iconv_fix_command_text() {
    assert_eq!(
        build_iconv_fix_command("/etc/f"),
        "iconv -f GBK -t UTF-8 \"/etc/f\" -o \"/etc/f.tmp\" && mv \"/etc/f.tmp\" \"/etc/f\""
    );
}

#[test]
fn utf16_detection() {
    assert!(looks_like_utf16_le(&[0xFF, 0xFE, 0x41, 0x00]));
    assert!(looks_like_utf16_le(b"U\0b\0u\0n\0t\0u\0"));
    assert!(!looks_like_utf16_le(b"Ubuntu"));
    assert!(!looks_like_utf16_le(b"U"));
}

#[test]
fn decode_utf8_output() {
    assert_eq!(decode_wsl_output(b"hello\n"), "hello\n");
}

#[test]
fn decode_utf16_output() {
    let bytes: Vec<u8> = "Ubuntu".chars().flat_map(|c| vec![c as u8, 0u8]).collect();
    assert_eq!(decode_wsl_output(&bytes), "Ubuntu");
}

#[test]
fn decode_strips_nul_characters() {
    assert_eq!(decode_wsl_output(b"a\0b"), "ab");
}
