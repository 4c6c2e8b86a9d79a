use opencv::line_descriptor::{
    BinaryDescriptor, BinaryDescriptorMatcher, BinaryDescriptorMatcherTrait, BinaryDescriptorTrait,
    BinaryDescriptor_Params, BinaryDescriptor_ParamsTrait, DrawLinesMatchesFlags,
    DrawLinesMatchesFlags_DEFAULT, DrawLinesMatchesFlags_DRAW_OVER_OUTIMG,
    DrawLinesMatchesFlags_NOT_DRAW_SINGLE_LINES, LSDDetector, LSDDetectorTrait,
};
use opencv::{Boxed, OpenCVType, OpenCVTypeArg, OpenCVTypeExternContainer, ReleaseLog};

#[test]
fn scalar_identity_i32() {
    let v: i32 = -123456;
    let mut c = v.opencv_into_extern_container_nofail();
    assert_eq!(c, v);
    assert_eq!(i32::opencv_from_extern(c.opencv_as_extern()), v);
    assert_eq!(c.opencv_as_extern_mut(), v);
    assert_eq!(c.opencv_into_extern(), v);
}

#[test]
fn scalar_identity_extremes() {
    assert_eq!(u64::opencv_from_extern(u64::MAX.opencv_as_extern()), u64::MAX);
    assert_eq!(i8::opencv_from_extern(i8::MIN.opencv_as_extern()), i8::MIN);
    assert_eq!(usize::opencv_from_extern(0usize.opencv_as_extern()), 0);
    assert_eq!(bool::opencv_from_extern(true.opencv_as_extern()), true);
    assert_eq!(i64::opencv_from_extern((-1i64).opencv_into_extern_container().unwrap()), -1);
    assert_eq!(u16::opencv_from_extern(65535u16.opencv_as_extern()), 65535);
}

#[test]
fn byte_buffer_round_trip() {
    let v = vec![1u8, 2, 3, 0, 255];
    let c = v.clone().opencv_into_extern_container().unwrap();
    let sent = c.opencv_as_extern();
    assert_eq!(sent.len(), 5);
    assert_eq!(Vec::<u8>::opencv_from_extern(sent), v);
}

#[test]
fn byte_buffer_round_trip_empty() {
    let c = Vec::<u8>::new().opencv_into_extern_container_nofail();
    assert_eq!(Vec::<u8>::opencv_from_extern(c.opencv_as_extern()), Vec::<u8>::new());
}

#[test]
fn byte_buffer_lent_for_writing() {
    let mut c = vec![4u8, 5, 6];
    let sent = c.opencv_as_extern_mut();
    assert_eq!(&sent[..], &[4u8, 5, 6][..]);
    sent[1] = 50;
    assert_eq!(c, vec![4u8, 50, 6]);
}

#[test]
fn wrapper_released_once_after_borrows() {
    let mut log = ReleaseLog::new();
    let mut d = BinaryDescriptor::opencv_from_extern(0x1000);
    for _ in 0..5 {
        assert_eq!(d.as_raw_BinaryDescriptor(), 0x1000);
        assert_eq!(d.as_raw_mut_BinaryDescriptor(), 0x1000);
        assert_eq!(d.opencv_as_extern(), 0x1000);
    }
    assert_eq!(log.times_released(0x1000), 0);
    d.release(&mut log);
    assert_eq!(log.times_released(0x1000), 1);
    assert_eq!(log.times_released(0x2000), 0);
}

#[test]
fn release_log_counts_each_handle() {
    let mut log = ReleaseLog::new();
    BinaryDescriptor_Params::from_raw(7).release(&mut log);
    LSDDetector::from_raw(9).release(&mut log);
    BinaryDescriptorMatcher::from_raw(7).release(&mut log);
    assert_eq!(log.times_released(7), 2);
    assert_eq!(log.times_released(9), 1);
    assert_eq!(log.times_released(8), 0);
}

#[test]
fn handed_over_wrapper_is_not_released() {
    let mut log = ReleaseLog::new();
    let m = BinaryDescriptorMatcher::opencv_from_extern(0x30);
    assert_eq!(m.opencv_into_extern(), 0x30);
    assert_eq!(log.times_released(0x30), 0);
    LSDDetector::from_raw(0x31).release(&mut log);
    assert_eq!(log.times_released(0x30), 0);
}

#[test]
fn wrappers_lend_their_handles() {
    let mut p = BinaryDescriptor_Params::from_raw(11);
    assert_eq!(p.as_raw_BinaryDescriptor_Params(), 11);
    assert_eq!(p.as_raw_mut_BinaryDescriptor_Params(), 11);
    assert_eq!(BinaryDescriptor_ParamsTrait::as_raw_BinaryDescriptor_Params(&p), 11);
    let mut m = BinaryDescriptorMatcher::from_raw(12);
    assert_eq!(m.as_raw_BinaryDescriptorMatcher(), 12);
    assert_eq!(m.as_raw_mut_BinaryDescriptorMatcher(), 12);
    assert_eq!(BinaryDescriptorMatcherTrait::as_raw_mut_BinaryDescriptorMatcher(&mut m), 12);
    let mut l = LSDDetector::from_raw(13);
    assert_eq!(l.as_raw_LSDDetector(), 13);
    assert_eq!(l.as_raw_mut_LSDDetector(), 13);
    assert_eq!(LSDDetectorTrait::as_raw_LSDDetector(&l), 13);
    let mut d = BinaryDescriptor::from_raw(14);
    assert_eq!(BinaryDescriptorTrait::as_raw_mut_BinaryDescriptor(&mut d), 14);
    assert_eq!(d.into_raw(), 14);
}

#[test]
fn wrapper_container_keeps_handle() {
    let p = BinaryDescriptor_Params::opencv_from_extern(21);
    let c = p.opencv_into_extern_container().ok().unwrap();
    assert_eq!(c.as_raw(), 21);
    let c = c.opencv_into_extern_container_nofail();
    assert_eq!(c.opencv_into_extern(), 21);
}

#[test]
fn draw_flags_shown_in_place() {
    let f = DrawLinesMatchesFlags {};
    let mut c = f.opencv_into_extern_container_nofail();
    assert_eq!(*c.opencv_as_extern(), f);
    assert_eq!(*c.opencv_as_extern_mut(), f);
    assert_eq!(*c.opencv_into_extern(), f);
    assert_eq!(DrawLinesMatchesFlags::opencv_from_extern(f), f);
}

#[test]
fn draw_flag_values() {
    assert_eq!(DrawLinesMatchesFlags_DEFAULT, 0);
    assert_eq!(DrawLinesMatchesFlags_DRAW_OVER_OUTIMG, 1);
    assert_eq!(DrawLinesMatchesFlags_NOT_DRAW_SINGLE_LINES, 2);
}
