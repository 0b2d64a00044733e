use eymate::illumination::{assess_brightness, is_bright_enough, Brightness, Frame};

fn frame(pixels: Vec<u8>) -> Frame {
    let n = pixels.len() as u32;
    Frame { pixels, width: n, height: 1, channels: 1 }
}

#[test]
fn brightness_is_the_mean_of_all_samples() {
    let b = assess_brightness(&frame(vec![10, 20, 30, 40]));
    assert_eq!(b.sum(), 100);
    assert_eq!(b.count(), 4);
    // mean 25.0
    assert!(is_bright_enough(&b, 25_000));
    assert!(!is_bright_enough(&b, 25_001));
    assert!(is_bright_enough(&b, 0));
}

#[test]
fn brightness_equal_to_minimum_passes() {
    let b = assess_brightness(&frame(vec![10; 12]));
    assert!(is_bright_enough(&b, 10_000));
    assert!(!is_bright_enough(&b, 10_001));
}

#[test]
fn brightness_of_interleaved_channels() {
    // Two pixels of three channels: per-channel means 1.5, 3.5, 5.5, whose mean is 3.5.
    let f = Frame { pixels: vec![1, 3, 5, 2, 4, 6], width: 2, height: 1, channels: 3 };
    let b = assess_brightness(&f);
    assert!(is_bright_enough(&b, 3_500));
    assert!(!is_bright_enough(&b, 3_501));
}

#[test]
fn fractional_brightness() {
    // mean 1/3 of a level
    let b = assess_brightness(&frame(vec![1, 0, 0]));
    assert!(is_bright_enough(&b, 333));
    assert!(!is_bright_enough(&b, 334));
}

#[test]
fn empty_frame_is_dark() {
    let b = assess_brightness(&frame(Vec::new()));
    assert_eq!(b.count(), 0);
    assert!(!is_bright_enough(&b, 1));
    assert!(is_bright_enough(&b, 0));
    let z = Brightness::zero();
    assert_eq!(z.sum(), 0);
    assert_eq!(z.count(), 0);
}

#[test]
fn full_white_frame() {
    let b = assess_brightness(&frame(vec![255; 640 * 3]));
    assert!(is_bright_enough(&b, 255_000));
    assert!(!is_bright_enough(&b, 255_001));
    assert!(is_bright_enough(&b, 50_000));
    assert_eq!(b.duplicate().sum(), 255 * 640 * 3);
}
