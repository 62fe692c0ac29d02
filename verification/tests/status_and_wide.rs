use comdrive::hresult::{checked, succeeded, OsError, ResultCarrier};
use comdrive::wide::{WideCString, WideStringError};

#[test]
fn succeeded_is_non_negative() {
    assert!(succeeded(0));
    assert!(succeeded(1));
    assert!(succeeded(i32::MAX));
    assert!(!succeeded(-1));
    assert!(!succeeded(i32::MIN));
}

#[test]
fn checked_keeps_the_code() {
    assert_eq!(checked(0), Ok(()));
    assert_eq!(checked(7), Ok(()));
    assert_eq!(checked(-5), Err(OsError { code: -5 }));
    // E_FAIL
    let e_fail = 0x80004005u32 as i32;
    assert_eq!(checked(e_fail), Err(OsError { code: e_fail }));
}

#[test]
fn to_result_carries_the_value() {
    assert_eq!(0i32.to_result(42u64), Ok(42u64));
    assert_eq!((-3i32).to_result(42u64), Err(OsError { code: -3 }));
}

#[test]
fn to_result_with_runs_only_on_success() {
    assert_eq!(1i32.to_result_with(|| 9u8), Ok(9u8));
    assert_eq!((-9i32).to_result_with(|| 9u8), Err(OsError { code: -9 }));
}

#[test]
fn wide_encodes_ascii_with_terminator() {
    let w = WideCString::from_str("ab").unwrap();
    assert_eq!(w.as_units().as_slice(), &[0x61u16, 0x62, 0]);
    assert_eq!(w.len(), 2);
    assert_eq!(w.len_u32(), 2);
}

#[test]
fn wide_encodes_supplementary_as_surrogate_pair() {
    let w = WideCString::from_str("A\u{1F600}").unwrap();
    assert_eq!(w.as_units().as_slice(), &[0x41u16, 0xd83d, 0xde00, 0]);
    assert_eq!(w.len(), 3);
}

#[test]
fn wide_empty_string_is_one_nul() {
    let w = WideCString::from_str("").unwrap();
    assert_eq!(w.as_units().as_slice(), &[0u16]);
    assert_eq!(w.len(), 0);
}

#[test]
fn wide_refuses_interior_nul() {
    assert_eq!(WideCString::from_str("a\0b"), Err(WideStringError::InteriorNul));
}

#[test]
fn wide_accepts_trailing_nul() {
    let w = WideCString::from_str("ab\0").unwrap();
    assert_eq!(w.as_units().as_slice(), &[0x61u16, 0x62, 0]);
}

#[test]
fn wide_encodes_japanese_text() {
    let w = WideCString::from_str("\u{3042}").unwrap();
    assert_eq!(w.as_units().as_slice(), &[0x3042u16, 0]);
}
