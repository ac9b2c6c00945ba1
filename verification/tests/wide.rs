use effie::w;

#[test]
fn ascii_is_one_unit_per_char() {
    assert_eq!(w("Hi"), vec![0x48, 0x69, 0]);
    assert_eq!(w("\r\n"), vec![13, 10, 0]);
}

#[test]
fn empty_string_is_just_nul() {
    assert_eq!(w(""), vec![0]);
}

#[test]
fn bmp_chars_are_single_units() {
    assert_eq!(w("é€"), vec![0xe9, 0x20ac, 0]);
}

#[test]
fn astral_chars_are_surrogate_pairs() {
    assert_eq!(w("😀"), vec![0xD83D, 0xDE00, 0]);
    assert_eq!(w("\u{10FFFF}"), vec![0xDBFF, 0xDFFF, 0]);
    assert_eq!(w("\u{10000}"), vec![0xD800, 0xDC00, 0]);
}

#[test]
fn matches_std_utf16() {
    let s = "\\efi\\boot\\vmlinuz – ünïcödé 𝄞 done";
    let expected: Vec<u16> = s.encode_utf16().chain(Some(0)).collect();
    assert_eq!(w(s), expected);
}

#[test]
fn only_terminator_is_nul() {
    let units = w("no nul here 😀");
    assert_eq!(*units.last().unwrap(), 0);
    assert!(units[..units.len() - 1].iter().all(|u| *u != 0));
}
