use circle_to_search_pc::capture_buffer::{CaptureBuffer, CropError};
use circle_to_search_pc::capture_errors::{
    build_capture_error_message_for_platform, build_capture_error_message_from_lowercase,
};
use circle_to_search_pc::screen_region::{
    MousePosition, ScreenRegion, SystemMousePositionProvider, XcapScreenCapturer,
};

fn create_test_buffer_with_pattern(width: u32, height: u32) -> CaptureBuffer {
    let mut raw_data = Vec::with_capacity((width * height * 4) as usize);

    for y in 0..height {
        for x in 0..width {
            let r = (x % 256) as u8;
            let g = (y % 256) as u8;
            let b = ((x + y) % 256) as u8;
            let a = 255u8;

            raw_data.extend_from_slice(&[r, g, b, a]);
        }
    }

    CaptureBuffer::build_from_raw_data(1.0f64.to_bits(), width, height, raw_data)
}

#[test]
fn test_build_from_raw_data_creates_buffer_with_correct_dimensions() {
    let width = 100;
    let height = 50;
    let raw_data = vec![0u8; (width * height * 4) as usize];

    let buffer = CaptureBuffer::build_from_raw_data(1.0f64.to_bits(), width, height, raw_data.clone());

    assert_eq!(buffer.width, width);
    assert_eq!(buffer.height, height);
    assert_eq!(buffer.raw_data.len(), raw_data.len());
    assert_eq!(f64::from_bits(buffer.scale_factor_bits), 1.0);
}

#[test]
fn test_crop_region_with_valid_dimensions_returns_cropped_buffer() {
    let buffer = create_test_buffer_with_pattern(100, 100);

    let result = buffer.crop_region(10, 20, 30, 40);

    assert!(result.is_ok());
    let cropped = result.unwrap();
    assert_eq!(cropped.width, 30);
    assert_eq!(cropped.height, 40);
    assert_eq!(cropped.raw_data.len(), (30 * 40 * 4) as usize);
}

#[test]
fn test_crop_region_with_zero_width_returns_error() {
    let buffer = create_test_buffer_with_pattern(100, 100);

    let result = buffer.crop_region(10, 10, 0, 50);

    assert!(result.is_err());
    assert!(result.unwrap_err().message().contains("must be greater than zero"));
}

#[test]
fn test_crop_region_with_zero_height_returns_error() {
    let buffer = create_test_buffer_with_pattern(100, 100);

    let result = buffer.crop_region(10, 10, 50, 0);

    assert!(result.is_err());
    assert!(result.unwrap_err().message().contains("must be greater than zero"));
}

#[test]
fn test_crop_region_clamps_coordinates_to_buffer_bounds() {
    let buffer = create_test_buffer_with_pattern(100, 100);

    let result = buffer.crop_region(95, 95, 20, 20);

    assert!(result.is_ok());
    let cropped = result.unwrap();
    assert_eq!(cropped.width, 5);
    assert_eq!(cropped.height, 5);
}

#[test]
fn test_crop_region_at_origin_returns_correct_subset() {
    let buffer = create_test_buffer_with_pattern(50, 50);

    let result = buffer.crop_region(0, 0, 10, 10);

    assert!(result.is_ok());
    let cropped = result.unwrap();
    assert_eq!(cropped.width, 10);
    assert_eq!(cropped.height, 10);
}

#[test]
fn test_crop_region_preserves_scale_factor() {
    let raw_data = vec![0u8; (100 * 100 * 4) as usize];
    let buffer = CaptureBuffer::build_from_raw_data(2.5f64.to_bits(), 100, 100, raw_data);

    let result = buffer.crop_region(10, 10, 20, 20);

    assert!(result.is_ok());
    let cropped = result.unwrap();
    assert_eq!(f64::from_bits(cropped.scale_factor_bits), 2.5);
}

#[test]
fn test_crop_full_image_returns_identical_dimensions() {
    let buffer = create_test_buffer_with_pattern(50, 50);

    let result = buffer.crop_region(0, 0, 50, 50);

    assert!(result.is_ok());
    let cropped = result.unwrap();
    assert_eq!(cropped.width, buffer.width);
    assert_eq!(cropped.height, buffer.height);
}

#[test]
fn crop_copies_the_selected_pixels() {
    let buffer = create_test_buffer_with_pattern(10, 10);

    let cropped = buffer.crop_region(2, 3, 2, 2).unwrap();

    // Pixel (2, 3) of the pattern is (2, 3, 5, 255); pixel (3, 4) is (3, 4, 7, 255).
    assert_eq!(&cropped.raw_data[0..4], &[2, 3, 5, 255]);
    assert_eq!(&cropped.raw_data[12..16], &[3, 4, 7, 255]);
}

#[test]
fn crop_of_full_image_gives_the_same_pixels() {
    let buffer = create_test_buffer_with_pattern(7, 5);

    let cropped = buffer.crop_region(0, 0, 7, 5).unwrap();

    assert_eq!(cropped.raw_data, buffer.raw_data);
}

#[test]
fn crop_origin_outside_image_is_moved_to_last_pixel() {
    let buffer = create_test_buffer_with_pattern(10, 10);

    let cropped = buffer.crop_region(50, 50, 3, 3).unwrap();

    assert_eq!(cropped.width, 1);
    assert_eq!(cropped.height, 1);
    assert_eq!(cropped.raw_data, vec![9, 9, 18, 255]);
}

#[test]
fn crop_of_short_pixel_data_is_refused() {
    let buffer = CaptureBuffer::build_from_raw_data(1.0f64.to_bits(), 10, 10, vec![0u8; 50]);

    let result = buffer.crop_region(0, 0, 10, 10);

    assert_eq!(result.unwrap_err(), CropError::ExceedsBounds);
    assert_eq!(CropError::ExceedsBounds.message(), "Crop region exceeds image bounds");
}

#[test]
fn test_build_capture_error_message_linux_permission_error() {
    let error = "Access denied to screen capture";
    let result = build_capture_error_message_for_platform(error, "linux");
    assert!(result.contains("Screen capture failed"));
    assert!(result.contains("PipeWire"));
    assert!(result.contains("xdg-desktop-portal"));
    assert!(result.contains("sudo apt install"));
}

#[test]
fn test_build_capture_error_message_linux_pipewire_error() {
    let error = "PipeWire connection failed";
    let result = build_capture_error_message_for_platform(error, "linux");
    assert!(result.contains("Screen capture failed"));
    assert!(result.contains("PipeWire"));
}

#[test]
fn test_build_capture_error_message_linux_portal_error() {
    let error = "Portal request denied";
    let result = build_capture_error_message_for_platform(error, "linux");
    assert!(result.contains("Screen capture failed"));
    assert!(result.contains("xdg-desktop-portal"));
}

#[test]
fn test_build_capture_error_message_linux_generic_error() {
    let error = "Unknown capture error";
    let result = build_capture_error_message_for_platform(error, "linux");
    assert!(result.contains("Capture failed"));
    assert!(result.contains("Try closing other instances"));
    assert!(!result.contains("PipeWire"));
}

#[test]
fn test_build_capture_error_message_macos_permission_error() {
    let error = "Permission denied for screen recording";
    let result = build_capture_error_message_for_platform(error, "macos");
    assert!(result.contains("Screen capture failed"));
    assert!(result.contains("Screen Recording permission"));
    assert!(result.contains("System Settings"));
}

#[test]
fn test_build_capture_error_message_macos_access_error() {
    let error = "Access to screen not granted";
    let result = build_capture_error_message_for_platform(error, "macos");
    assert!(result.contains("Screen capture failed"));
    assert!(result.contains("Privacy & Security"));
}

#[test]
fn test_build_capture_error_message_macos_generic_error() {
    let error = "Monitor not found";
    let result = build_capture_error_message_for_platform(error, "macos");
    assert!(result.contains("Capture failed"));
    assert!(result.contains("Try closing other instances"));
    assert!(!result.contains("System Settings"));
}

#[test]
fn test_build_capture_error_message_windows_always_generic() {
    let error = "Permission denied";
    let result = build_capture_error_message_for_platform(error, "windows");
    assert!(result.contains("Capture failed"));
    assert!(result.contains("Try closing other instances"));
    assert!(!result.contains("PipeWire"));
    assert!(!result.contains("System Settings"));
}

#[test]
fn test_build_capture_error_message_unknown_platform() {
    let error = "Some error";
    let result = build_capture_error_message_for_platform(error, "freebsd");
    assert!(result.contains("Capture failed"));
    assert!(result.contains("Try closing other instances"));
}

#[test]
fn capture_error_generic_message_is_exact() {
    let result = build_capture_error_message_for_platform("boom", "windows");
    assert_eq!(result, "Capture failed: boom. Try closing other instances.");
}

#[test]
fn capture_error_keywords_are_matched_case_insensitively() {
    // The upper-case error is lowered before the keyword search.
    let result = build_capture_error_message_for_platform("PORTAL BROKEN", "linux");
    assert!(result.starts_with("Screen capture failed: PORTAL BROKEN\n\nOn Linux"));
    // The lower-case form given directly decides the same way.
    let direct = build_capture_error_message_from_lowercase("PORTAL BROKEN", "portal broken", "linux");
    assert_eq!(result, direct);
}

#[test]
fn test_at_coordinates_creates_region_with_correct_position() {
    let region = ScreenRegion::at_coordinates(100, 200);

    assert_eq!(region.x_position, 100);
    assert_eq!(region.y_position, 200);
}

#[test]
fn test_at_coordinates_handles_negative_coordinates() {
    let region = ScreenRegion::at_coordinates(-50, -100);

    assert_eq!(region.x_position, -50);
    assert_eq!(region.y_position, -100);
}

#[test]
fn test_default_origin_creates_region_at_zero() {
    let region = ScreenRegion::default_origin();

    assert_eq!(region.x_position, 0);
    assert_eq!(region.y_position, 0);
}

#[test]
fn test_initialize_creates_provider() {
    let provider = SystemMousePositionProvider::initialize();

    assert!(std::mem::size_of_val(&provider) == 0);
}

#[test]
fn test_convert_mouse_result_to_region_with_valid_position_returns_ok() {
    let provider = SystemMousePositionProvider::initialize();
    let mouse_result = MousePosition::Position { x: 100, y: 200 };

    let result = provider.convert_mouse_result_to_region(mouse_result);

    assert!(result.is_ok());
    let region = result.unwrap();
    assert_eq!(region.x_position, 100);
    assert_eq!(region.y_position, 200);
}

#[test]
fn test_convert_mouse_result_to_region_with_error_returns_err() {
    let provider = SystemMousePositionProvider::initialize();
    let mouse_result = MousePosition::Error;

    let result = provider.convert_mouse_result_to_region(mouse_result);

    assert!(result.is_err());
    assert!(result.unwrap_err().contains("mouse position"));
}

#[test]
fn test_convert_mouse_result_to_region_handles_negative_coordinates() {
    let provider = SystemMousePositionProvider::initialize();
    let mouse_result = MousePosition::Position { x: -50, y: -100 };

    let result = provider.convert_mouse_result_to_region(mouse_result);

    assert!(result.is_ok());
    let region = result.unwrap();
    assert_eq!(region.x_position, -50);
    assert_eq!(region.y_position, -100);
}

#[test]
fn unknown_pointer_position_falls_back_to_origin() {
    let provider = SystemMousePositionProvider::initialize();

    let region = provider.region_or_origin(MousePosition::Error);

    assert_eq!(region.x_position, 0);
    assert_eq!(region.y_position, 0);
}

#[test]
fn test_initialize_creates_capturer() {
    let capturer = XcapScreenCapturer::initialize();

    assert!(std::mem::size_of_val(&capturer) == 0);
}

#[test]
fn test_convert_image_to_capture_buffer_creates_buffer_with_correct_dimensions() {
    let capturer = XcapScreenCapturer::initialize();
    let width = 100u32;
    let height = 50u32;
    let raw_data = vec![255u8; (width * height * 4) as usize];

    let buffer = capturer.convert_image_to_capture_buffer(width, height, raw_data, 2.0f64.to_bits());

    assert_eq!(buffer.width, width);
    assert_eq!(buffer.height, height);
    assert_eq!(f64::from_bits(buffer.scale_factor_bits), 2.0);
}

#[test]
fn test_convert_image_to_capture_buffer_preserves_scale_factor() {
    let capturer = XcapScreenCapturer::initialize();
    let width = 100u32;
    let height = 100u32;
    let raw_data = vec![0u8; (width * height * 4) as usize];

    let buffer = capturer.convert_image_to_capture_buffer(width, height, raw_data, 1.5f64.to_bits());

    assert_eq!(f64::from_bits(buffer.scale_factor_bits), 1.5);
}

#[test]
fn raw_data_must_hold_the_whole_image_before_ocr() {
    let full = CaptureBuffer::build_from_raw_data(0, 10, 10, vec![255u8; 10 * 10 * 4]);
    assert_eq!(full.check_raw_image(), Ok(()));
    let short = CaptureBuffer::build_from_raw_data(0, 10, 10, vec![255u8; 50]);
    assert_eq!(short.check_raw_image(), Err("Failed to create image from raw data".to_string()));
    let empty = CaptureBuffer::build_from_raw_data(0, 0, 7, Vec::new());
    assert_eq!(empty.check_raw_image(), Ok(()));
}
