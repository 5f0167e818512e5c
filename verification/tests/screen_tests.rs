use rustautogui::errors::AutoGuiError;
use rustautogui::frame::{GrayFrame, RgbaFrame};
use rustautogui::keyboard::Keyboard;
use rustautogui::mouse::Mouse;
use rustautogui::pixels::{bgra_to_rgba, gray_from_pixels};
use rustautogui::region::{cut_screen_region_gray, cut_screen_region_rgba};
use rustautogui::wayland_screen::WaylandScreen;
use rustautogui::x11_screen::{X11Screen, XImageData};

fn image_message(e: &AutoGuiError) -> String {
    match e {
        AutoGuiError::ImageError(ie) => ie.message.clone(),
        other => panic!("unexpected error {:?}", other),
    }
}

#[test]
fn bgra_to_rgba_swaps_red_and_blue_and_sets_alpha() {
    let raw = [1u8, 2, 3, 4, 10, 20, 30, 40];
    assert_eq!(bgra_to_rgba(&raw, 2, 1), vec![3, 2, 1, 255, 30, 20, 10, 255]);
}

#[test]
fn bgra_to_rgba_reads_only_the_pixels_of_the_image() {
    let raw = [1u8, 2, 3, 4, 10, 20, 30, 40, 99, 99];
    assert_eq!(bgra_to_rgba(&raw, 1, 1), vec![3, 2, 1, 255]);
    assert_eq!(bgra_to_rgba(&raw, 0, 5), Vec::<u8>::new());
}

#[test]
fn gray_levels_use_weighted_channels() {
    // red (byte 0) is weighted 30, green (byte 1) 59, blue (byte 2) 11
    let data = [0u8, 0, 100, 7, 0, 100, 0, 7, 100, 0, 0, 7];
    assert_eq!(gray_from_pixels(&data), vec![11, 59, 30]);
}

#[test]
fn pure_red_pixel_has_gray_level_76() {
    let mut screen = X11Screen::new(1, 1, 0);
    // captured as B, G, R, X
    let raw = [0u8, 0, 255, 0];
    let img = XImageData { width: 1, height: 1, bits_per_pixel: 32, data: &raw };
    screen.capture_screen(Some(img)).unwrap();
    assert_eq!(screen.pixel_data, vec![255, 0, 0, 255]);
    assert_eq!(screen.convert_bitmap_to_grayscale().unwrap().data, vec![76]);
}

#[test]
fn gray_levels_lie_between_channel_extremes() {
    let data = [10u8, 200, 50, 0, 255, 0, 0, 0, 0, 0, 255, 0];
    let gray = gray_from_pixels(&data);
    // (10*30 + 200*59 + 50*11) / 100 = 126
    assert_eq!(gray, vec![126, 76, 28]);
    assert!(gray[0] >= 10 && gray[0] <= 200);
}

#[test]
fn gray_levels_keep_gray_pixels_and_drop_partial_pixels() {
    let data = [77u8, 77, 77, 0, 255, 255, 255, 255, 1, 2];
    assert_eq!(gray_from_pixels(&data), vec![77, 255]);
}

#[test]
fn frames_accept_buffers_that_fit() {
    assert!(RgbaFrame::from_raw(2, 2, vec![0; 16]).is_some());
    assert!(RgbaFrame::from_raw(2, 2, vec![0; 20]).is_some());
    assert!(RgbaFrame::from_raw(2, 2, vec![0; 15]).is_none());
    assert!(GrayFrame::from_raw(3, 2, vec![0; 6]).is_some());
    assert!(GrayFrame::from_raw(3, 2, vec![0; 5]).is_none());
    assert!(GrayFrame::from_raw(u32::MAX, u32::MAX, vec![]).is_none());
    assert!(GrayFrame::from_raw(u32::MAX, 0, vec![]).is_some());
}

fn numbered_rgba(width: u32, height: u32) -> RgbaFrame {
    let data = (0..width * height * 4).map(|i| i as u8).collect();
    RgbaFrame { width, height, data }
}

#[test]
fn wayland_crop_keeps_the_requested_rectangle() {
    let mut screen = WaylandScreen::new(numbered_rgba(3, 3));
    let cropped = screen.grab_screen_image(None, (1, 1, 2, 1)).unwrap();
    assert_eq!((cropped.width, cropped.height), (2, 1));
    // pixel (1,1) starts at byte 16, pixel (2,1) at byte 20
    assert_eq!(cropped.data, vec![16, 17, 18, 19, 20, 21, 22, 23]);
}

#[test]
fn wayland_crop_clamps_to_the_image() {
    let mut screen = WaylandScreen::new(numbered_rgba(2, 2));
    let cropped = screen.grab_screen_image(None, (1, 0, 10, 10)).unwrap();
    assert_eq!((cropped.width, cropped.height), (1, 2));
    assert_eq!(cropped.data, vec![4, 5, 6, 7, 12, 13, 14, 15]);
    let outside = screen.grab_screen_image(None, (5, 5, 3, 3)).unwrap();
    assert_eq!((outside.width, outside.height), (0, 0));
    assert!(outside.data.is_empty());
}

#[test]
fn x11_gray_crop_keeps_the_requested_rectangle() {
    let mut screen = X11Screen::new(3, 2, 0);
    // gray levels of the stored pixels are 1..=6 (gray pixels keep their level)
    let raw: Vec<u8> = (1..=6u8).flat_map(|v| [v, v, v, 0]).collect();
    let img = XImageData { width: 3, height: 2, bits_per_pixel: 32, data: &raw };
    let cropped = screen.grab_screen_image_grayscale(Some(img), &(1, 0, 2, 2)).unwrap();
    assert_eq!((cropped.width, cropped.height), (2, 2));
    assert_eq!(cropped.data, vec![2, 3, 5, 6]);
}

#[test]
fn wayland_grayscale_uses_the_luminance_formula() {
    let frame = RgbaFrame { width: 2, height: 1, data: vec![100, 0, 0, 255, 255, 255, 255, 0] };
    let screen = WaylandScreen::new(frame);
    let gray = screen.convert_bitmap_to_grayscale().unwrap();
    assert_eq!((gray.width, gray.height), (2, 1));
    // 30 * 100 / 100 = 30
    assert_eq!(gray.data, vec![30, 255]);
}

#[test]
fn wayland_gray_region_is_cut_then_converted() {
    let frame = RgbaFrame { width: 2, height: 2, data: vec![
        0, 0, 0, 255, 100, 0, 0, 255,
        0, 100, 0, 255, 0, 0, 100, 255,
    ] };
    let mut screen = WaylandScreen::new(frame);
    let region = screen.grab_screen_image_grayscale(None, &(1, 0, 1, 5)).unwrap();
    assert_eq!((region.width, region.height), (1, 2));
    assert_eq!(region.data, vec![30, 11]);
}

#[test]
fn new_x11_screen_has_a_zero_buffer() {
    let screen = X11Screen::new(3, 2, 7);
    assert_eq!(screen.dimension(), (3, 2));
    assert_eq!(screen.root_window, 7);
    assert_eq!(screen.pixel_data, vec![0u8; 24]);
}

#[test]
fn x11_capture_without_image_fails() {
    let mut screen = X11Screen::new(1, 1, 0);
    match screen.capture_screen(None) {
        Err(AutoGuiError::OSFailure(m)) => assert_eq!(
            m,
            "Error grabbing display image. Unable to get X image. Possible x11 error, check if you're running on x11 and not wayland"
        ),
        other => panic!("unexpected {:?}", other),
    }
    assert_eq!(screen.pixel_data, vec![0u8; 4]);
}

#[test]
fn x11_capture_stores_rgba_pixels() {
    let mut screen = X11Screen::new(2, 1, 0);
    let raw = [1u8, 2, 3, 0, 4, 5, 6, 0];
    let img = XImageData { width: 2, height: 1, bits_per_pixel: 32, data: &raw };
    assert!(screen.capture_screen(Some(img)).is_ok());
    assert_eq!(screen.pixel_data, vec![3, 2, 1, 255, 6, 5, 4, 255]);
    let rgba = screen.convert_bitmap_to_rgba().unwrap();
    assert_eq!((rgba.width, rgba.height), (2, 1));
    assert_eq!(rgba.data, vec![3, 2, 1, 255, 6, 5, 4, 255]);
    let gray = screen.convert_bitmap_to_grayscale().unwrap();
    // stored bytes are R, G, B, A: (3*30 + 2*59 + 1*11) / 100 = 2 and
    // (6*30 + 5*59 + 4*11) / 100 = 5
    assert_eq!(gray.data, vec![2, 5]);
}

#[test]
fn x11_conversions_fail_when_buffer_is_too_small() {
    let mut screen = X11Screen::new(2, 2, 0);
    let raw = [9u8; 4];
    let img = XImageData { width: 1, height: 1, bits_per_pixel: 32, data: &raw };
    screen.capture_screen(Some(img)).unwrap();
    let e = screen.convert_bitmap_to_rgba().unwrap_err();
    assert_eq!(image_message(&e), "Failed conversion to RGBa");
    let e = screen.convert_bitmap_to_grayscale().unwrap_err();
    assert_eq!(image_message(&e), "Failed conversion to grayscale");
}

#[test]
fn x11_grab_screen_image_crops_the_capture() {
    let mut screen = X11Screen::new(2, 2, 0);
    let raw: Vec<u8> = (0..16).collect();
    let img = XImageData { width: 2, height: 2, bits_per_pixel: 32, data: &raw };
    let region = screen.grab_screen_image(Some(img), (1, 1, 1, 1)).unwrap();
    assert_eq!((region.width, region.height), (1, 1));
    assert_eq!(region.data, vec![14, 13, 12, 255]);
}

#[test]
fn x11_grab_screen_image_grayscale_crops_the_gray_capture() {
    let mut screen = X11Screen::new(2, 1, 0);
    let raw = [0u8, 0, 0, 0, 100, 100, 100, 0];
    let img = XImageData { width: 2, height: 1, bits_per_pixel: 32, data: &raw };
    let region = screen.grab_screen_image_grayscale(Some(img), &(1, 0, 5, 5)).unwrap();
    assert_eq!((region.width, region.height), (1, 1));
    assert_eq!(region.data, vec![100]);
}

#[test]
fn x11_grab_screenshot_returns_the_whole_capture() {
    let mut screen = X11Screen::new(1, 1, 0);
    let raw = [5u8, 6, 7, 8];
    let img = XImageData { width: 1, height: 1, bits_per_pixel: 32, data: &raw };
    let shot = screen.grab_screenshot(Some(img)).unwrap();
    assert_eq!(shot.data, vec![7, 6, 5, 255]);
    assert!(screen.grab_screenshot(None).is_err());
}

#[test]
fn x11_screen_creates_x11_input() {
    let mut screen = X11Screen::new(1, 1, 0);
    assert_eq!(screen.create_keyboard(), Keyboard::X11);
    assert_eq!(screen.create_mouse(), Mouse::X11);
}

#[test]
fn wayland_screen_keeps_latest_frame() {
    let mut screen = WaylandScreen::new(numbered_rgba(2, 1));
    assert_eq!(screen.dimension(), (2, 1));
    assert!(screen.capture_screen(None).is_ok());
    assert_eq!(screen.img.width, 2);
    screen.capture_screen(Some(numbered_rgba(1, 3))).unwrap();
    assert_eq!(screen.dimension(), (1, 3));
    let shot = screen.grab_screenshot(None).unwrap();
    assert_eq!(shot.data, numbered_rgba(1, 3).data);
    let rgba = screen.convert_bitmap_to_rgba().unwrap();
    assert_eq!(rgba.height, 3);
}

#[test]
fn wayland_grab_screen_image_crops_latest_frame() {
    let mut screen = WaylandScreen::new(numbered_rgba(1, 1));
    let region = screen.grab_screen_image(Some(numbered_rgba(2, 2)), (0, 1, 2, 1)).unwrap();
    assert_eq!((region.width, region.height), (2, 1));
    assert_eq!(region.data, vec![8, 9, 10, 11, 12, 13, 14, 15]);
}

#[test]
fn wayland_grayscale_converts_latest_frame() {
    let frame = RgbaFrame { width: 2, height: 1, data: vec![0, 0, 0, 255, 255, 255, 255, 255] };
    let mut screen = WaylandScreen::new(frame);
    let gray = screen.convert_bitmap_to_grayscale().unwrap();
    assert_eq!(gray.data, vec![0, 255]);
    let region = screen.grab_screen_image_grayscale(None, &(1, 0, 1, 1)).unwrap();
    assert_eq!(region.data, vec![255]);
}

#[test]
fn wayland_screen_has_no_x11_input() {
    let mut screen = WaylandScreen::new(numbered_rgba(1, 1));
    assert_eq!(screen.create_keyboard(), Keyboard::Wayland);
    assert_eq!(screen.create_mouse(), Mouse::Wayland);
}

#[test]
fn new_x11_screen_buffer_converts() {
    let screen = X11Screen::new(3, 2, 0);
    let rgba = screen.convert_bitmap_to_rgba().unwrap();
    assert_eq!((rgba.width, rgba.height), (3, 2));
    let gray = screen.convert_bitmap_to_grayscale().unwrap();
    assert_eq!(gray.data, vec![0u8; 6]);
}

#[test]
fn x11_grab_of_the_whole_screen_is_the_whole_capture() {
    let mut screen = X11Screen::new(2, 2, 0);
    let raw: Vec<u8> = (0..16).collect();
    let img = XImageData { width: 2, height: 2, bits_per_pixel: 32, data: &raw };
    let whole = screen.grab_screen_image(Some(img), (0, 0, 2, 2)).unwrap();
    assert_eq!((whole.width, whole.height), (2, 2));
    assert_eq!(whole.data, screen.pixel_data);
}

#[test]
fn cut_screen_region_keeps_and_clamps_the_rectangle() {
    let frame = numbered_rgba(3, 3);
    let cut = cut_screen_region_rgba(1, 1, 2, 1, &frame);
    assert_eq!((cut.width, cut.height), (2, 1));
    assert_eq!(cut.data, vec![16, 17, 18, 19, 20, 21, 22, 23]);
    let clamped = cut_screen_region_rgba(2, 2, 9, 9, &frame);
    assert_eq!((clamped.width, clamped.height), (1, 1));
    assert_eq!(clamped.data, vec![32, 33, 34, 35]);
    let gray = GrayFrame { width: 3, height: 2, data: vec![1, 2, 3, 4, 5, 6] };
    let cut = cut_screen_region_gray(0, 1, 2, 1, &gray);
    assert_eq!((cut.width, cut.height), (2, 1));
    assert_eq!(cut.data, vec![4, 5]);
    let empty = cut_screen_region_gray(7, 0, 2, 2, &gray);
    assert_eq!((empty.width, empty.height), (0, 2));
    assert!(empty.data.is_empty());
}

#[test]
fn screen_size_stays_fixed_across_captures() {
    let mut screen = X11Screen::new(2, 1, 0);
    let raw = [1u8; 4];
    let img = XImageData { width: 1, height: 1, bits_per_pixel: 32, data: &raw };
    screen.capture_screen(Some(img)).unwrap();
    assert!(screen.capture_screen(None).is_err());
    let _ = screen.grab_screenshot(None);
    assert_eq!(screen.dimension(), (2, 1));
}

#[test]
fn frame_size_check_agrees_with_the_image_buffer() {
    let cases: [(u32, u32, usize); 6] =
        [(2, 2, 16), (2, 2, 15), (u32::MAX, 0, 0), (0, u32::MAX, 0), (u32::MAX, u32::MAX, 0), (3, 1, 12)];
    for (w, h, len) in cases {
        let ours = RgbaFrame::from_raw(w, h, vec![0; len]).is_some();
        let theirs = image::RgbaImage::from_raw(w, h, vec![0u8; len]).is_some();
        assert_eq!(ours, theirs, "rgba {}x{} with {} bytes", w, h, len);
        let ours = GrayFrame::from_raw(w, h, vec![0; len]).is_some();
        let theirs = image::GrayImage::from_raw(w, h, vec![0u8; len]).is_some();
        assert_eq!(ours, theirs, "gray {}x{} with {} bytes", w, h, len);
    }
}
