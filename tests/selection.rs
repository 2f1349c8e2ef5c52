use video_processor::catalog::Resolution;
use video_processor::geometry::{select, target_geometry, Decision};

fn res(width: u32, height: u32) -> Resolution {
    Resolution { width, height }
}

#[test]
fn catalog_knows_four_labels() {
    assert_eq!(Resolution::from_string("4K"), Some(res(3840, 2160)));
    assert_eq!(Resolution::from_string("1080p"), Some(res(1920, 1080)));
    assert_eq!(Resolution::from_string("720p"), Some(res(1280, 720)));
    assert_eq!(Resolution::from_string("480p"), Some(res(854, 480)));
}

#[test]
fn catalog_does_no_fallback() {
    assert_eq!(Resolution::from_string("bogus"), None);
    assert_eq!(Resolution::from_string(""), None);
    assert_eq!(Resolution::from_string("1080"), None);
    assert_eq!(Resolution::from_string("1080p "), None);
    assert_eq!(Resolution::from_string("4k"), None);
}

#[test]
fn recognized_labels_proceed_with_catalog_size() {
    assert_eq!(select(3840, 2160, "4K"), Decision::Proceed(res(3840, 2160)));
    assert_eq!(select(3840, 2160, "1080p"), Decision::Proceed(res(1920, 1080)));
    assert_eq!(select(3840, 2160, "720p"), Decision::Proceed(res(1280, 720)));
    assert_eq!(select(3840, 2160, "480p"), Decision::Proceed(res(854, 480)));
}

#[test]
fn unknown_label_falls_back_to_480p() {
    assert_eq!(select(854, 480, "bogus"), Decision::Proceed(res(854, 480)));
    assert_eq!(select(1920, 1080, "8K"), Decision::Proceed(res(854, 480)));
    assert_eq!(target_geometry("typo"), res(854, 480));
}

#[test]
fn unknown_label_on_tiny_source_skips() {
    assert_eq!(select(640, 360, "bogus"), Decision::Skip);
}

#[test]
fn upscale_on_either_axis_skips() {
    assert_eq!(select(1280, 720, "1080p"), Decision::Skip);
    assert_eq!(select(1919, 1080, "1080p"), Decision::Skip);
    assert_eq!(select(1920, 1079, "1080p"), Decision::Skip);
    assert_eq!(select(1920, 1080, "4K"), Decision::Skip);
    assert_eq!(select(4000, 1000, "1080p"), Decision::Skip);
}

#[test]
fn equal_dimensions_proceed() {
    assert_eq!(select(1920, 1080, "1080p"), Decision::Proceed(res(1920, 1080)));
    assert_eq!(select(854, 480, "480p"), Decision::Proceed(res(854, 480)));
}

#[test]
fn fits_within_checks_both_axes() {
    let r = res(1280, 720);
    assert!(r.fits_within(1280, 720));
    assert!(!r.fits_within(1279, 720));
    assert!(!r.fits_within(1280, 719));
    assert_eq!(Resolution::fallback(), res(854, 480));
}
