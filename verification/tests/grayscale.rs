use yp_ffi::grayscale::grayscale;
use yp_ffi::params::GrayscaleParams;

#[test]
fn desaturates_a_pure_red_pixel() {
    let mut data = vec![255, 0, 0, 255];
    grayscale(1, 1, &mut data, &GrayscaleParams {}).unwrap();
    assert_eq!(data[0], data[1]);
    assert_eq!(data[1], data[2]);
    assert_eq!(data[3], 255);
}

#[test]
fn preserves_alpha() {
    let mut data = vec![10, 20, 30, 128];
    grayscale(1, 1, &mut data, &GrayscaleParams {}).unwrap();
    assert_eq!(data[3], 128);
}

#[test]
fn grays_are_unchanged() {
    let mut data = vec![100, 100, 100, 255, 200, 200, 200, 255];
    let original = data.clone();
    grayscale(2, 1, &mut data, &GrayscaleParams {}).unwrap();
    assert_eq!(data, original);
}

#[test]
fn luma_uses_the_srgb_weights() {
    // (2126 * 255) / 10000 = 54; (7152 * 255) / 10000 = 182;
    // (722 * 255) / 10000 = 18; (2126 * 10 + 7152 * 20 + 722 * 30) / 10000 = 18
    let mut data = vec![255, 0, 0, 1, 0, 255, 0, 2, 0, 0, 255, 3, 10, 20, 30, 4];
    grayscale(2, 2, &mut data, &GrayscaleParams {}).unwrap();
    assert_eq!(data, vec![54, 54, 54, 1, 182, 182, 182, 2, 18, 18, 18, 3, 18, 18, 18, 4]);
}

#[test]
fn grayscale_twice_is_grayscale_once() {
    let mut data: Vec<u8> = (0..4 * 4 * 4).map(|v| (v * 37 % 251) as u8).collect();
    grayscale(4, 4, &mut data, &GrayscaleParams {}).unwrap();
    let once = data.clone();
    grayscale(4, 4, &mut data, &GrayscaleParams {}).unwrap();
    assert_eq!(data, once);
}

#[test]
fn short_buffer_is_refused_and_left_alone() {
    let mut data = vec![1, 2, 3, 4, 5, 6, 7];
    let err = grayscale(2, 1, &mut data, &GrayscaleParams {}).unwrap_err();
    assert_eq!(err, "width/height do not match buffer length");
    assert_eq!(data, vec![1, 2, 3, 4, 5, 6, 7]);
}

#[test]
fn empty_image_is_accepted() {
    let mut data: Vec<u8> = vec![];
    assert_eq!(grayscale(0, 1, &mut data, &GrayscaleParams {}), Ok(()));
    assert_eq!(grayscale(5, 0, &mut data, &GrayscaleParams {}), Ok(()));
    assert!(data.is_empty());
}
