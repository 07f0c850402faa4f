use yp_ffi::mirror::{mirror, rgba_buffer_fits};
use yp_ffi::params::MirrorParams;

// 2x2 buffer, row-major, one distinct color per pixel:
// A B
// C D
fn sample_2x2() -> Vec<u8> {
    vec![
        10, 10, 10, 255, 20, 20, 20, 255, // A B
        30, 30, 30, 255, 40, 40, 40, 255, // C D
    ]
}

#[test]
fn horizontal_flip_swaps_columns() {
    let mut data = sample_2x2();
    mirror(2, 2, &mut data, &MirrorParams { horizontal: true, vertical: false });
    assert_eq!(
        data,
        vec![
            20, 20, 20, 255, 10, 10, 10, 255, // B A
            40, 40, 40, 255, 30, 30, 30, 255, // D C
        ]
    );
}

#[test]
fn vertical_flip_swaps_rows() {
    let mut data = sample_2x2();
    mirror(2, 2, &mut data, &MirrorParams { horizontal: false, vertical: true });
    assert_eq!(
        data,
        vec![
            30, 30, 30, 255, 40, 40, 40, 255, // C D
            10, 10, 10, 255, 20, 20, 20, 255, // A B
        ]
    );
}

#[test]
fn both_flips_rotate_180() {
    let mut data = sample_2x2();
    mirror(2, 2, &mut data, &MirrorParams { horizontal: true, vertical: true });
    assert_eq!(
        data,
        vec![
            40, 40, 40, 255, 30, 30, 30, 255, // D C
            20, 20, 20, 255, 10, 10, 10, 255, // B A
        ]
    );
}

#[test]
fn no_flip_is_identity() {
    let mut data = sample_2x2();
    let original = data.clone();
    mirror(2, 2, &mut data, &MirrorParams { horizontal: false, vertical: false });
    assert_eq!(data, original);
}

#[test]
fn mirroring_twice_restores_the_image() {
    let original: Vec<u8> = (0..3 * 2 * 4).map(|v| v as u8).collect();
    for (horizontal, vertical) in [(false, false), (true, false), (false, true), (true, true)] {
        let params = MirrorParams { horizontal, vertical };
        let mut data = original.clone();
        mirror(3, 2, &mut data, &params);
        mirror(3, 2, &mut data, &params);
        assert_eq!(data, original);
    }
}

#[test]
fn flips_commute() {
    let original: Vec<u8> = (0..3 * 3 * 4).map(|v| (v * 7) as u8).collect();
    let mut one = original.clone();
    mirror(3, 3, &mut one, &MirrorParams { horizontal: true, vertical: false });
    mirror(3, 3, &mut one, &MirrorParams { horizontal: false, vertical: true });
    let mut other = original.clone();
    mirror(3, 3, &mut other, &MirrorParams { horizontal: false, vertical: true });
    mirror(3, 3, &mut other, &MirrorParams { horizontal: true, vertical: false });
    let mut both = original.clone();
    mirror(3, 3, &mut both, &MirrorParams { horizontal: true, vertical: true });
    assert_eq!(one, other);
    assert_eq!(one, both);
}

#[test]
fn odd_width_keeps_the_middle_column() {
    // 3x1: A B C -> C B A
    let mut data = vec![1, 1, 1, 1, 2, 2, 2, 2, 3, 3, 3, 3];
    mirror(3, 1, &mut data, &MirrorParams { horizontal: true, vertical: false });
    assert_eq!(data, vec![3, 3, 3, 3, 2, 2, 2, 2, 1, 1, 1, 1]);
}

#[test]
fn bytes_past_the_image_are_untouched() {
    let mut data = sample_2x2();
    data.extend_from_slice(&[7, 8, 9]);
    mirror(2, 2, &mut data, &MirrorParams { horizontal: true, vertical: true });
    assert_eq!(&data[16..], &[7, 8, 9]);
    assert_eq!(&data[..4], &[40, 40, 40, 255]);
}

#[test]
fn buffer_fits_checks_the_length() {
    let data = sample_2x2();
    assert!(rgba_buffer_fits(2, 2, &data));
    assert!(rgba_buffer_fits(1, 3, &data));
    assert!(!rgba_buffer_fits(3, 2, &data));
    assert!(rgba_buffer_fits(0, 5, &[]));
    assert!(!rgba_buffer_fits(u32::MAX, u32::MAX, &data));
}
