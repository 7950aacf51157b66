//! Screen positions and the pointer position that a capture starts from.
use vstd::prelude::*;

use crate::capture_buffer::CaptureBuffer;
use crate::constants::MESSAGE_MOUSE_POSITION_FAILED;

verus! {

/// A point on the virtual desktop, in screen coordinates.
#[derive(Debug, Clone, Copy, PartialEq, Eq)]
pub struct ScreenRegion {
    pub x_position: i32,
    pub y_position: i32,
}

impl ScreenRegion {
    /// The region at the given coordinates.
    pub fn at_coordinates(x_position: i32, y_position: i32) -> (region: Self)
        ensures
            region.x_position == x_position,
            region.y_position == y_position,
    {
        Self { x_position, y_position }
    }

    /// The region at the origin (0, 0).
    pub fn default_origin() -> (region: Self)
        ensures
            region.x_position == 0,
            region.y_position == 0,
    {
        Self { x_position: 0, y_position: 0 }
    }
}

/// What the system reports when asked for the pointer position.
#[derive(Debug, Clone, Copy, PartialEq, Eq)]
pub enum MousePosition {
    Position { x: i32, y: i32 },
    Error,
}

/// Something that can report the current pointer position as a screen region.
pub trait MousePositionProvider {
    fn get_current_mouse_position(&self) -> Result<ScreenRegion, String>;
}

/// The pointer-position provider backed by the operating system.
#[derive(Debug, Clone, Copy)]
pub struct SystemMousePositionProvider;

impl SystemMousePositionProvider {
    /// A new provider.
    pub fn initialize() -> (provider: Self) {
        Self
    }

    /// Turns a system pointer report into a screen region, or the failure message.
    pub fn convert_mouse_result_to_region(&self, mouse_result: MousePosition) -> (r: Result<
        ScreenRegion,
        String,
    >)
        ensures
            match mouse_result {
                MousePosition::Position { x, y } => r == Ok::<ScreenRegion, String>(
                    ScreenRegion { x_position: x, y_position: y },
                ),
                MousePosition::Error => r matches Err(msg) && msg@
                    == MESSAGE_MOUSE_POSITION_FAILED@,
            },
    {
        match mouse_result {
            MousePosition::Position { x, y } => Ok(ScreenRegion::at_coordinates(x, y)),
            MousePosition::Error => Err(String::from_str(MESSAGE_MOUSE_POSITION_FAILED)),
        }
    }

    /// The capture region: the reported pointer position, or the origin when it is unknown.
    pub fn region_or_origin(&self, mouse_result: MousePosition) -> (region: ScreenRegion)
        ensures
            match mouse_result {
                MousePosition::Position { x, y } => region == ScreenRegion {
                    x_position: x,
                    y_position: y,
                },
                MousePosition::Error => region == ScreenRegion { x_position: 0, y_position: 0 },
            },
    {
        match self.convert_mouse_result_to_region(mouse_result) {
            Ok(region) => region,
            Err(_) => ScreenRegion::default_origin(),
        }
    }
}

/// The screen capturer backed by the system's capture facilities.
#[derive(Debug, Clone, Copy)]
pub struct XcapScreenCapturer;

impl XcapScreenCapturer {
    /// A new capturer.
    pub fn initialize() -> (capturer: Self) {
        Self
    }

    /// A capture buffer holding a captured RGBA image of `width` × `height` pixels taken at the
    /// display scale whose bit pattern is `scale_factor_bits`.
    pub fn convert_image_to_capture_buffer(
        &self,
        width: u32,
        height: u32,
        raw_rgba_data: Vec<u8>,
        scale_factor_bits: u64,
    ) -> (buffer: CaptureBuffer)
        ensures
            buffer.width == width,
            buffer.height == height,
            buffer.raw_data@ == raw_rgba_data@,
            buffer.scale_factor_bits == scale_factor_bits,
    {
        CaptureBuffer::build_from_raw_data(scale_factor_bits, width, height, raw_rgba_data)
    }
}

} // verus!
