use bootloader::error::HandoffError;
use bootloader::frame_buffer::{select_mode, FrameBuffer, ModeInfo, PixelFormat};

fn mode(width: usize, height: usize) -> ModeInfo {
    ModeInfo { width, height, pixel_format: PixelFormat::Bgr, stride: width }
}

#[test]
fn first_of_two_equal_largest_modes_is_chosen() {
    let modes = [mode(800, 600), mode(1920, 1080), mode(1920, 1080)];
    assert_eq!(modes[0].pixels(), 480000);
    assert_eq!(modes[1].pixels(), 2073600);
    assert_eq!(modes[2].pixels(), 2073600);
    assert_eq!(select_mode(&modes), Ok(1));
}

#[test]
fn no_modes_is_an_error() {
    assert_eq!(select_mode(&[]), Err(HandoffError::NoDisplayModes));
    assert_eq!(FrameBuffer::init(&[]).err(), Some(HandoffError::NoDisplayModes));
}

#[test]
fn single_mode_is_chosen() {
    assert_eq!(select_mode(&[mode(640, 480)]), Ok(0));
}

#[test]
fn modes_without_pixels_still_give_the_first() {
    assert_eq!(select_mode(&[mode(0, 600), mode(800, 0), mode(0, 0)]), Ok(0));
}

#[test]
fn largest_mode_is_found_wherever_it_stands() {
    assert_eq!(select_mode(&[mode(1920, 1080), mode(800, 600), mode(1024, 768)]), Ok(0));
    assert_eq!(select_mode(&[mode(800, 600), mode(1024, 768), mode(1920, 1080)]), Ok(2));
    assert_eq!(select_mode(&[mode(800, 600), mode(600, 800), mode(400, 1200)]), Ok(0));
}

#[test]
fn area_counts_and_not_width() {
    assert_eq!(select_mode(&[mode(4000, 10), mode(300, 300)]), Ok(1));
}

#[test]
fn areas_beyond_the_address_size_do_not_wrap() {
    let huge = mode(usize::MAX, usize::MAX);
    assert_eq!(huge.pixels(), (usize::MAX as u128) * (usize::MAX as u128));
    assert_eq!(select_mode(&[mode(usize::MAX, 2), mode(1, 1), huge]), Ok(2));
    assert_eq!(select_mode(&[mode(usize::MAX, 2), mode(3, 1)]), Ok(0));
}

#[test]
fn frame_buffer_keeps_the_chosen_mode() {
    let modes = [
        ModeInfo { width: 800, height: 600, pixel_format: PixelFormat::Rgb, stride: 832 },
        ModeInfo { width: 1920, height: 1080, pixel_format: PixelFormat::Bgr, stride: 2048 },
        ModeInfo { width: 1920, height: 1080, pixel_format: PixelFormat::Rgb, stride: 1920 },
    ];
    let frame_buffer = FrameBuffer::init(&modes).unwrap();
    assert_eq!(frame_buffer.mode_index(), 1);
    assert_eq!(frame_buffer.mode(), modes[1]);
    assert_eq!(frame_buffer.mode().stride, 2048);
    assert_eq!(frame_buffer.mode().pixel_format, PixelFormat::Bgr);
}
