use win32_result::{Error, HRESULT, WIN32_ERROR};

#[test]
fn zero_is_ok_and_not_err() {
    assert!(WIN32_ERROR(0).is_ok());
    assert!(!WIN32_ERROR(0).is_err());
}

#[test]
fn nonzero_is_err_and_not_ok() {
    assert!(!WIN32_ERROR(5).is_ok());
    assert!(WIN32_ERROR(5).is_err());
    assert!(WIN32_ERROR(u32::MAX).is_err());
}

#[test]
fn to_hresult_keeps_zero() {
    assert_eq!(WIN32_ERROR(0).to_hresult(), HRESULT(0));
}

#[test]
fn to_hresult_keeps_nonpositive_bit_patterns() {
    let negative: u32 = 0x8000_0005;
    assert_eq!(WIN32_ERROR(negative).to_hresult(), HRESULT(negative as i32));
    let boundary: u32 = 0x8000_0000;
    assert_eq!(WIN32_ERROR(boundary).to_hresult(), HRESULT(boundary as i32));
}

#[test]
fn to_hresult_tags_positive_codes() {
    let h = WIN32_ERROR(5).to_hresult();
    assert_eq!(h, HRESULT(0x8007_0005u32 as i32));
    let bits: u32 = h.0 as u32;
    assert_ne!(bits & 0x8000_0000, 0);
    assert_eq!((bits >> 16) & 0x7FF, 7);
    assert_eq!(bits & 0xFFFF, 5);
}

#[test]
fn to_hresult_keeps_only_low_sixteen_bits() {
    let wide: u32 = 0x0001_0005;
    assert_eq!(WIN32_ERROR(wide).to_hresult(), HRESULT(0x8007_0005u32 as i32));
    let top: u32 = 0x7FFF_FFFF;
    assert_eq!(WIN32_ERROR(top).to_hresult(), HRESULT(0x8007_FFFFu32 as i32));
}

#[test]
fn round_trip_recovers_positive_codes() {
    let e = Error::from(WIN32_ERROR(5));
    assert_eq!(WIN32_ERROR::from_error(&e), Some(WIN32_ERROR(5)));
}

#[test]
fn round_trip_recovers_only_low_sixteen_bits() {
    let e = Error::from(WIN32_ERROR(0x0001_0005));
    assert_eq!(WIN32_ERROR::from_error(&e), Some(WIN32_ERROR(5)));
}

#[test]
fn round_trip_loses_zero() {
    let e = Error::from(WIN32_ERROR(0));
    assert_eq!(WIN32_ERROR::from_error(&e), None);
}

#[test]
fn from_error_rejects_foreign_facility() {
    let foreign = Error::from_hresult(HRESULT(0x8004_0005u32 as i32));
    assert_eq!(WIN32_ERROR::from_error(&foreign), None);
    let success = Error::from_hresult(HRESULT(5));
    assert_eq!(WIN32_ERROR::from_error(&success), None);
}

#[test]
fn from_error_accepts_facility_seven() {
    let tagged = Error::from_hresult(HRESULT(0x8007_0203u32 as i32));
    assert_eq!(WIN32_ERROR::from_error(&tagged), Some(WIN32_ERROR(0x0203)));
}

#[test]
fn ok_succeeds_only_on_zero() {
    assert_eq!(WIN32_ERROR(0).ok(), Ok(()));
    let r = WIN32_ERROR(5).ok();
    match r {
        Ok(()) => panic!("a nonzero code must not convert to a success"),
        Err(e) => assert_eq!(e.code(), HRESULT(0x8007_0005u32 as i32)),
    }
}

#[test]
fn hresult_ok_follows_severity() {
    assert_eq!(HRESULT(0).ok(), Ok(()));
    assert_eq!(HRESULT(1).ok(), Ok(()));
    let r = HRESULT(0x8007_0005u32 as i32).ok();
    match r {
        Ok(()) => panic!("a negative code must not convert to a success"),
        Err(e) => assert_eq!(e.code(), HRESULT(0x8007_0005u32 as i32)),
    }
}

#[test]
fn from_impls_match_to_hresult() {
    assert_eq!(HRESULT::from(WIN32_ERROR(5)), HRESULT(0x8007_0005u32 as i32));
    assert_eq!(HRESULT::from(WIN32_ERROR(0)), HRESULT(0));
    assert_eq!(
        Error::from(WIN32_ERROR(5)).code(),
        HRESULT(0x8007_0005u32 as i32)
    );
}

#[test]
fn error_carries_its_code() {
    let e = Error::from_hresult(HRESULT(42));
    assert_eq!(e.code(), HRESULT(42));
}

#[test]
fn default_is_success() {
    assert_eq!(WIN32_ERROR::default(), WIN32_ERROR(0));
    assert!(WIN32_ERROR::default().is_ok());
}

#[test]
fn ordering_and_equality_are_bitwise() {
    assert!(WIN32_ERROR(1) < WIN32_ERROR(2));
    assert!(WIN32_ERROR(2) == WIN32_ERROR(2));
    assert!(WIN32_ERROR(0) < WIN32_ERROR(0x8000_0000));
}
