use weadless::convert::{convert_to_rgb, ConvertError};
use weadless::video::PixelFormat;

fn frame(width: usize, height: usize, pixel: [u8; 4]) -> Vec<u8> {
    let mut data = Vec::with_capacity(width * height * 4);
    for _ in 0..width * height {
        data.extend_from_slice(&pixel);
    }
    data
}

#[test]
fn rgbx_keeps_the_first_three_bytes_of_each_pixel() {
    let data = vec![1, 2, 3, 4, 5, 6, 7, 8, 9, 10, 11, 12];
    let rgb = convert_to_rgb(&data, PixelFormat::Rgbx8888).unwrap();
    assert_eq!(rgb, vec![1, 2, 3, 5, 6, 7, 9, 10, 11]);
}

#[test]
fn rgba_drops_the_alpha_channel() {
    let data = vec![10, 20, 30, 255, 40, 50, 60, 0];
    let rgb = convert_to_rgb(&data, PixelFormat::Rgba8888).unwrap();
    assert_eq!(rgb, vec![10, 20, 30, 40, 50, 60]);
}

#[test]
fn bgrx_swaps_red_and_blue() {
    let data = vec![1, 2, 3, 4, 5, 6, 7, 8];
    let rgb = convert_to_rgb(&data, PixelFormat::Bgrx8888).unwrap();
    assert_eq!(rgb, vec![3, 2, 1, 7, 6, 5]);
}

#[test]
fn bgra_swaps_red_and_blue() {
    let data = vec![9, 8, 7, 6];
    let rgb = convert_to_rgb(&data, PixelFormat::Bgra8888).unwrap();
    assert_eq!(rgb, vec![7, 8, 9]);
}

#[test]
fn output_has_three_bytes_for_each_pixel() {
    let (w, h) = (7usize, 5usize);
    let data = frame(w, h, [1, 2, 3, 4]);
    assert_eq!(data.len(), 4 * w * h);
    for format in [
        PixelFormat::Rgbx8888,
        PixelFormat::Rgba8888,
        PixelFormat::Bgrx8888,
        PixelFormat::Bgra8888,
    ] {
        let rgb = convert_to_rgb(&data, format).unwrap();
        assert_eq!(rgb.len(), 3 * w * h);
    }
}

#[test]
fn every_triplet_follows_its_pixel() {
    let data: Vec<u8> = (0..64u32).map(|n| (n * 3 % 251) as u8).collect();
    let rgb = convert_to_rgb(&data, PixelFormat::Rgbx8888).unwrap();
    let bgr = convert_to_rgb(&data, PixelFormat::Bgrx8888).unwrap();
    for i in 0..16 {
        assert_eq!(rgb[3 * i], data[4 * i]);
        assert_eq!(rgb[3 * i + 1], data[4 * i + 1]);
        assert_eq!(rgb[3 * i + 2], data[4 * i + 2]);
        assert_eq!(bgr[3 * i], data[4 * i + 2]);
        assert_eq!(bgr[3 * i + 1], data[4 * i + 1]);
        assert_eq!(bgr[3 * i + 2], data[4 * i]);
    }
}

#[test]
fn bgrx_round_trip_gives_the_triplets_back() {
    let triplets: Vec<u8> = vec![255, 0, 0, 0, 255, 0, 0, 0, 255, 12, 34, 56];
    let mut padded = Vec::new();
    for t in triplets.chunks(3) {
        padded.push(t[2]);
        padded.push(t[1]);
        padded.push(t[0]);
        padded.push(0xAA);
    }
    let back = convert_to_rgb(&padded, PixelFormat::Bgrx8888).unwrap();
    assert_eq!(back, triplets);
    let back = convert_to_rgb(&padded, PixelFormat::Bgra8888).unwrap();
    assert_eq!(back, triplets);
}

#[test]
fn a_partial_last_pixel_is_left_out() {
    let (w, h) = (3usize, 2usize);
    let mut data = frame(w, h, [9, 8, 7, 6]);
    data.pop();
    assert_eq!(data.len(), 4 * w * h - 1);
    let rgb = convert_to_rgb(&data, PixelFormat::Rgbx8888).unwrap();
    assert_eq!(rgb.len(), 3 * (w * h - 1));
    assert_eq!(rgb, frame_rgb(w * h - 1, [9, 8, 7]));
    let again = convert_to_rgb(&data, PixelFormat::Rgbx8888).unwrap();
    assert_eq!(rgb, again);
    let bgr = convert_to_rgb(&data, PixelFormat::Bgra8888).unwrap();
    assert_eq!(bgr, frame_rgb(w * h - 1, [7, 8, 9]));
}

fn frame_rgb(pixels: usize, pixel: [u8; 3]) -> Vec<u8> {
    let mut data = Vec::new();
    for _ in 0..pixels {
        data.extend_from_slice(&pixel);
    }
    data
}

#[test]
fn fewer_than_four_bytes_give_no_pixel() {
    assert_eq!(convert_to_rgb(&[], PixelFormat::Rgbx8888).unwrap(), Vec::<u8>::new());
    assert_eq!(convert_to_rgb(&[1, 2, 3], PixelFormat::Bgrx8888).unwrap(), Vec::<u8>::new());
}

#[test]
fn other_layouts_are_not_supported() {
    assert_eq!(
        convert_to_rgb(&[1, 2, 3, 4], PixelFormat::Other),
        Err(ConvertError::UnsupportedFormat)
    );
    assert_eq!(convert_to_rgb(&[], PixelFormat::Other), Err(ConvertError::UnsupportedFormat));
}
