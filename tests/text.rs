use opencv::c_string::{cstring_new_nofail, CString};
use opencv::{Error, OpenCVType, OpenCVTypeArg, OpenCVTypeExternContainer};

#[test]
fn strict_text_round_trip_ascii() {
    let s = String::from("abc");
    let c = s.clone().opencv_into_extern_container().unwrap();
    assert_eq!(c.as_bytes(), b"abc");
    let back = String::opencv_from_extern(c.as_bytes());
    assert_eq!(back, s);
}

#[test]
fn strict_text_round_trip_non_ascii() {
    let s = String::from("h\u{e9}llo \u{2713} \u{1f600}");
    let c = s.clone().opencv_into_extern_container().unwrap();
    assert_eq!(c.as_bytes(), s.as_bytes());
    let back = String::opencv_from_extern(c.as_bytes());
    assert_eq!(back, s);
}

#[test]
fn strict_text_round_trip_empty() {
    let c = String::new().opencv_into_extern_container().unwrap();
    assert_eq!(c.as_bytes_with_nul(), &[0u8][..]);
    assert_eq!(String::opencv_from_extern(c.as_bytes()), "");
}

#[test]
fn strict_str_round_trip() {
    let c = "line descriptor".opencv_into_extern_container().unwrap();
    assert_eq!(String::opencv_from_extern(c.as_bytes()), "line descriptor");
}

#[test]
fn strict_text_refuses_nul() {
    let r = String::from("ab\0cd").opencv_into_extern_container();
    assert_eq!(r.err(), Some(Error::InteriorNul { position: 2 }));
}

#[test]
fn strict_str_refuses_nul_after_multibyte() {
    let r = "\u{e9}\0x".opencv_into_extern_container();
    assert_eq!(r.err(), Some(Error::InteriorNul { position: 2 }));
}

#[test]
fn strict_str_refuses_leading_nul() {
    let r = "\0".opencv_into_extern_container();
    assert_eq!(r.err(), Some(Error::InteriorNul { position: 0 }));
}

#[test]
fn lossy_text_truncates_at_first_nul() {
    let c = String::from("ab\0cd\0ef").opencv_into_extern_container_nofail();
    assert_eq!(c.as_bytes(), b"ab");
    assert_eq!(c.as_bytes_with_nul(), b"ab\0");
}

#[test]
fn lossy_str_truncates_after_multibyte() {
    let c = "\u{e9}\0x".opencv_into_extern_container_nofail();
    assert_eq!(c.as_bytes(), &[0xc3u8, 0xa9][..]);
}

#[test]
fn lossy_text_without_nul_keeps_all() {
    let c = "keylines".opencv_into_extern_container_nofail();
    assert_eq!(c.as_bytes(), b"keylines");
}

#[test]
fn lossy_text_leading_nul_gives_empty() {
    let c = String::from("\0abc").opencv_into_extern_container_nofail();
    assert_eq!(c.as_bytes(), b"");
}

#[test]
fn cstring_new_accepts_nul_free() {
    let c = CString::new(vec![1u8, 2, 3]).unwrap();
    assert_eq!(c.as_bytes(), &[1u8, 2, 3][..]);
    assert_eq!(c.as_bytes_with_nul(), &[1u8, 2, 3, 0][..]);
    assert_eq!(c.into_bytes(), vec![1u8, 2, 3]);
}

#[test]
fn cstring_new_reports_first_nul() {
    let e = CString::new(vec![7u8, 0, 8, 0]).err().unwrap();
    assert_eq!(e.nul_position(), 1);
    assert_eq!(e.into_vec(), vec![7u8, 0, 8, 0]);
}

#[test]
fn nul_error_becomes_error() {
    let e = CString::new(vec![5u8, 6, 0]).err().unwrap();
    assert_eq!(Error::from(e), Error::InteriorNul { position: 2 });
}

#[test]
fn cstring_from_vec_unchecked_keeps_bytes() {
    let c = CString::from_vec_unchecked(vec![9u8, 10]);
    assert_eq!(c.as_bytes_with_nul(), &[9u8, 10, 0][..]);
}

#[test]
fn cstring_new_nofail_cuts_at_nul() {
    assert_eq!(cstring_new_nofail(vec![1u8, 0, 2]).as_bytes(), &[1u8][..]);
    assert_eq!(cstring_new_nofail(vec![1u8, 2]).as_bytes(), &[1u8, 2][..]);
    assert_eq!(cstring_new_nofail(Vec::new()).as_bytes(), b"");
}

#[test]
fn cstring_container_shows_terminator() {
    let mut c = CString::new(b"xy".to_vec()).unwrap();
    assert_eq!(c.opencv_as_extern(), b"xy\0");
    let mut d = CString::new(b"xy".to_vec()).unwrap();
    assert_eq!(d.opencv_as_extern_mut(), b"xy\0");
    c = d;
    assert_eq!(c.as_bytes(), b"xy");
}

#[test]
fn text_received_from_native_bytes() {
    let bytes = "\u{e9}t\u{e9}".as_bytes().to_vec();
    assert_eq!(String::opencv_from_extern(&bytes[..]), "\u{e9}t\u{e9}");
}
