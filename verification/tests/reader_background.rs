use prollyglot_runtime::reader_background::{
    count_background_samples, has_reader_background_samples,
};

/// The 7 by 7 sample grid over `(x, y, width, height)`, as byte offsets into
/// a frame of `stride` bytes per row.
fn sample_offsets(bounds: (f32, f32, f32, f32), stride: usize) -> Vec<usize> {
    let (x0, y0, width, height) = bounds;
    let mut offsets = Vec::new();
    for row in 0..7 {
        for column in 0..7 {
            let x = (x0 + width * (column as f32 + 0.5) / 7.0) as usize;
            let y = (y0 + height * (row as f32 + 0.5) / 7.0) as usize;
            offsets.push(y * stride + x * 4);
        }
    }
    offsets
}

fn reader_frame() -> Vec<u8> {
    let mut pixels = vec![255; 200 * 80 * 4];
    for y in 0..80 {
        for x in 100..200 {
            let offset = (y * 200 + x) * 4;
            pixels[offset..offset + 4].copy_from_slice(&[0x39, 0x2d, 0x13, 255]);
        }
    }
    pixels
}

#[test]
fn only_the_readers_own_background_counts_as_reader_evidence() {
    let pixels = reader_frame();
    let source_side = sample_offsets((10.0, 10.0, 80.0, 30.0), 800);
    assert_eq!(count_background_samples(&pixels, &source_side), 0);
    assert!(!has_reader_background_samples(&pixels, &source_side));
    let reader_side = sample_offsets((110.0, 10.0, 80.0, 30.0), 800);
    assert_eq!(count_background_samples(&pixels, &reader_side), 49);
    assert!(has_reader_background_samples(&pixels, &reader_side));
}

#[test]
fn near_colors_match_and_samples_off_the_frame_do_not() {
    let pixels = vec![0x39 + 8, 0x2d - 8, 0x13, 255, 0x39 + 9, 0x2d, 0x13, 255];
    assert_eq!(count_background_samples(&pixels, &vec![0]), 1);
    assert_eq!(count_background_samples(&pixels, &vec![4]), 0);
    assert_eq!(count_background_samples(&pixels, &vec![6, 8, usize::MAX]), 0);
    let many = vec![0; 29];
    assert!(!has_reader_background_samples(&pixels, &many));
    let enough = vec![0; 30];
    assert!(has_reader_background_samples(&pixels, &enough));
}
