use hdf5_core::types::{
    append_scalar, FixedAscii, FixedUnicode, Step, VarLenArray, VarLenAscii, VarLenUnicode,
};

#[test]
fn a_null_character_is_skipped() {
    let mut text = String::from("ab");
    assert_eq!(append_scalar(&mut text, '\0', 10), Step::Skipped);
    assert_eq!(text, "ab");
    let mut text = String::new();
    assert_eq!(append_scalar(&mut text, '\0', 0), Step::Skipped);
    assert_eq!(text, "");
}

#[test]
fn a_character_that_fits_is_appended() {
    let mut text = String::from("ab");
    assert_eq!(append_scalar(&mut text, 'c', 3), Step::Appended);
    assert_eq!(text, "abc");
}

#[test]
fn a_character_that_does_not_fit_ends_the_text() {
    let mut text = String::from("abc");
    assert_eq!(append_scalar(&mut text, 'd', 3), Step::Full);
    assert_eq!(text, "abc");
    let mut text = String::new();
    assert_eq!(append_scalar(&mut text, 'd', 0), Step::Full);
    assert_eq!(text, "");
}

#[test]
fn the_budget_counts_bytes_not_characters() {
    let mut text = String::from("a");
    assert_eq!(append_scalar(&mut text, '\u{e9}', 2), Step::Full);
    assert_eq!(text, "a");
    assert_eq!(append_scalar(&mut text, '\u{e9}', 3), Step::Appended);
    assert_eq!(text, "a\u{e9}");
    assert_eq!(text.len(), 3);
    assert_eq!(append_scalar(&mut text, '\u{20ac}', 5), Step::Full);
    assert_eq!(append_scalar(&mut text, '\u{20ac}', 6), Step::Appended);
    assert_eq!(text.len(), 6);
    assert_eq!(append_scalar(&mut text, '\u{1f600}', 9), Step::Full);
    assert_eq!(append_scalar(&mut text, '\u{1f600}', 10), Step::Appended);
    assert_eq!(text, "a\u{e9}\u{20ac}\u{1f600}");
    assert_eq!(text.len(), 10);
}

#[test]
fn a_text_beyond_its_budget_takes_nothing() {
    let mut text = String::from("abcdef");
    assert_eq!(append_scalar(&mut text, 'g', 3), Step::Full);
    assert_eq!(text, "abcdef");
}

#[test]
fn fixed_ascii_takes_what_fits() {
    assert_eq!(FixedAscii::<3>::capacity(), 3);
    let text = FixedAscii::<3>::from_ascii(vec![104, 105]).unwrap();
    assert_eq!(text.as_bytes(), &[104u8, 105][..]);
    assert_eq!(text.len(), 2);
    let full = FixedAscii::<3>::from_ascii(vec![0, 127, 1]).unwrap();
    assert_eq!(full.len(), 3);
    let empty = FixedAscii::<0>::from_ascii(vec![]).unwrap();
    assert_eq!(empty.len(), 0);
}

#[test]
fn fixed_ascii_refuses_what_is_too_long() {
    assert_eq!(FixedAscii::<3>::from_ascii(vec![1, 2, 3, 4]), None);
    assert_eq!(FixedAscii::<0>::from_ascii(vec![1]), None);
}

#[test]
fn fixed_ascii_refuses_eight_bit_values() {
    assert_eq!(FixedAscii::<3>::from_ascii(vec![128]), None);
    assert_eq!(FixedAscii::<3>::from_ascii(vec![1, 2, 255]), None);
}

#[test]
fn fixed_ascii_unchecked_keeps_the_bytes() {
    let text = FixedAscii::<4>::from_ascii_unchecked(vec![1, 2, 3]);
    assert_eq!(text.as_bytes(), &[1u8, 2, 3][..]);
    assert_eq!(text.clone(), text);
}

#[test]
fn fixed_unicode_counts_bytes() {
    assert_eq!(FixedUnicode::<11>::capacity(), 11);
    let text = FixedUnicode::<3>::from_string(String::from("a\u{e9}")).unwrap();
    assert_eq!(text.as_str(), "a\u{e9}");
    assert_eq!(FixedUnicode::<3>::from_string(String::from("\u{e9}\u{e9}")), None);
    assert_eq!(FixedUnicode::<3>::from_string(String::from("abcd")), None);
    let kept = FixedUnicode::<4>::from_string_unchecked(String::from("\u{1f600}"));
    assert_eq!(kept.as_str(), "\u{1f600}");
    assert_eq!(kept.clone(), kept);
}

#[test]
fn varlen_ascii_takes_any_length() {
    let bytes: Vec<u8> = (0..100).collect();
    let text = VarLenAscii::from_ascii(bytes.clone()).unwrap();
    assert_eq!(text.len(), 100);
    assert_eq!(text.as_bytes(), &bytes[..]);
    assert_eq!(VarLenAscii::from_ascii(vec![1, 200]), None);
    let kept = VarLenAscii::from_ascii_unchecked(vec![9, 8]);
    assert_eq!(kept.as_bytes(), &[9u8, 8][..]);
    assert_eq!(kept.clone(), kept);
}

#[test]
fn varlen_unicode_keeps_the_text() {
    let text = VarLenUnicode::from_string(String::from("gr\u{fc}n"));
    assert_eq!(text.as_str(), "gr\u{fc}n");
}

#[test]
fn varlen_array_keeps_the_items() {
    let array = VarLenArray::from_vec(vec![3u16, 1, 2]);
    assert_eq!(array.len(), 3);
    assert_eq!(array.as_slice(), &[3u16, 1, 2][..]);
    let empty = VarLenArray::<u16>::from_vec(vec![]);
    assert_eq!(empty.len(), 0);
}
