use raytrace::axis::{random_axis, Axis};
use raytrace::pcg32::PCG32State;
use raytrace::render::{RenderConfigError, Renderer};

#[test]
fn accepts_a_small_configuration() {
    let r = Renderer::new(400, 266, 10, 10).unwrap();
    assert_eq!(r.img_width, 400);
    assert_eq!(r.img_height, 266);
    assert_eq!(r.samples_per_pixel, 10);
    assert_eq!(r.max_depth, 10);
}

#[test]
fn rejects_zero_width() {
    assert_eq!(Renderer::new(0, 266, 10, 10), Err(RenderConfigError::ZeroWidth));
    assert_eq!(Renderer::new(0, 0, 0, 0), Err(RenderConfigError::ZeroWidth));
}

#[test]
fn rejects_zero_height() {
    assert_eq!(Renderer::new(400, 0, 10, 10), Err(RenderConfigError::ZeroHeight));
}

#[test]
fn rejects_zero_samples() {
    assert_eq!(Renderer::new(400, 266, 0, 10), Err(RenderConfigError::ZeroSamples));
}

#[test]
fn rejects_an_unaddressable_image() {
    assert_eq!(Renderer::new(65536, 65536, 1, 1), Err(RenderConfigError::ImageTooLarge));
    // The largest image whose byte buffer still fits: width * height * 3
    // is exactly u32::MAX.
    assert!(Renderer::new(1431655765, 1, 1, 1).is_ok());
    assert_eq!(Renderer::new(1431655766, 1, 1, 1), Err(RenderConfigError::ImageTooLarge));
}

#[test]
fn depth_zero_is_accepted() {
    // A zero recursion depth is a valid, if black, render.
    assert!(Renderer::new(4, 3, 1, 0).is_ok());
}

#[test]
fn buffer_len_counts_three_bytes_per_pixel() {
    let r = Renderer::new(4, 3, 1, 5).unwrap();
    assert_eq!(r.buffer_len(), 36);
}

#[test]
fn pixel_offset_is_row_major() {
    let r = Renderer::new(4, 3, 1, 5).unwrap();
    assert_eq!(r.pixel_offset(0, 0), 0);
    assert_eq!(r.pixel_offset(1, 0), 3);
    assert_eq!(r.pixel_offset(0, 1), 12);
    assert_eq!(r.pixel_offset(2, 1), 18);
    assert_eq!(r.pixel_offset(3, 2), 33);
}

#[test]
fn write_pixel_changes_exactly_one_pixel() {
    let r = Renderer::new(4, 3, 1, 5).unwrap();
    let mut buffer = vec![0u8; r.buffer_len() as usize];
    r.write_pixel(&mut buffer, 2, 1, 9, 8, 7);
    for (index, byte) in buffer.iter().enumerate() {
        match index {
            18 => assert_eq!(*byte, 9),
            19 => assert_eq!(*byte, 8),
            20 => assert_eq!(*byte, 7),
            _ => assert_eq!(*byte, 0),
        }
    }
}

#[test]
fn pixel_rng_is_seeded_from_row_and_column() {
    let r = Renderer::new(400, 266, 10, 10).unwrap();
    let mut per_pixel = r.pixel_rng(5, 7);
    let mut expected = PCG32State::new(17 + 7, 23 + 5);
    for _ in 0..6 {
        assert_eq!(per_pixel.u32(), expected.u32());
    }
}

#[test]
fn pixel_rng_does_not_depend_on_the_configuration() {
    // Only the pixel's row and column enter the seed, so reruns at the same
    // pixel reproduce the same samples.
    let small = Renderer::new(8, 8, 1, 1).unwrap();
    let large = Renderer::new(4000, 2660, 100, 50).unwrap();
    let mut a = small.pixel_rng(3, 2);
    let mut b = large.pixel_rng(3, 2);
    for _ in 0..6 {
        assert_eq!(a.u32(), b.u32());
    }
}

#[test]
fn random_axis_follows_the_generator() {
    // The draws of the reference seed reduce to 0, 0, 2, 1, 1 modulo three.
    let mut rng = PCG32State::new(42, 54);
    let picks: Vec<Axis> = (0..5).map(|_| random_axis(&mut rng)).collect();
    assert_eq!(picks, vec![Axis::X, Axis::X, Axis::Z, Axis::Y, Axis::Y]);
}
