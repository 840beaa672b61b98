//! The requests and responses of the HTTP variant of the API.
use vstd::prelude::*;

verus! {

/// The state of the server.
#[derive(Debug)]
pub struct StatusResponse {
    pub status: String,
    pub paint_window_handle: String,
    pub version: String,
}

/// The answer to a request to connect.
#[derive(Debug)]
pub struct ConnectResponse {
    pub success: bool,
    pub paint_window_handle: String,
    pub error: Option<String>,
}

/// The answer to an operation that returns nothing else.
#[derive(Debug)]
pub struct OperationResponse {
    pub success: bool,
    pub error: Option<String>,
}

#[derive(Debug)]
pub struct DrawPixelRequest {
    pub x: i32,
    pub y: i32,
    pub color: Option<String>,
}

#[derive(Debug)]
pub struct SetBrushSizeRequest {
    pub size: u32,
    pub tool: Option<String>,
}

#[derive(Debug)]
pub struct FetchImageRequest {
    pub path: String,
}

/// An image file with what is known of it.
#[derive(Debug)]
pub struct FetchImageResponse {
    pub status: String,
    /// The bytes of the file in base64.
    pub data: String,
    pub format: String,
    pub width: u32,
    pub height: u32,
    pub error: Option<String>,
}

#[derive(Debug)]
pub struct DrawLineRequest {
    pub start_x: i32,
    pub start_y: i32,
    pub end_x: i32,
    pub end_y: i32,
    pub color: String,
    pub thickness: u32,
}

#[derive(Debug)]
pub struct DrawRectangleRequest {
    pub start_x: i32,
    pub start_y: i32,
    pub width: i32,
    pub height: i32,
    pub filled: bool,
    pub color: String,
    pub thickness: u32,
}

#[derive(Debug)]
pub struct DrawCircleRequest {
    pub center_x: i32,
    pub center_y: i32,
    pub radius: i32,
    pub filled: bool,
    pub color: String,
    pub thickness: u32,
}

#[derive(Debug)]
pub struct SelectToolRequest {
    pub tool: String,
}

#[derive(Debug)]
pub struct SetColorRequest {
    pub color: String,
}

#[derive(Debug)]
pub struct SaveRequest {
    pub filename: String,
    pub format: String,
}

#[derive(Debug)]
pub struct RecreateImageRequest {
    pub image_base64: String,
    pub output_filename: Option<String>,
    pub max_detail_level: Option<u32>,
}

#[derive(Debug)]
pub struct AddTextRequest {
    pub x: i32,
    pub y: i32,
    pub text: String,
    pub font_name: Option<String>,
    pub font_size: Option<u32>,
    /// `regular`, `bold`, `italic` or `bold_italic`.
    pub font_style: Option<String>,
    pub color: Option<String>,
}

#[derive(Debug)]
pub struct RotateImageRequest {
    /// 90, 180 or 270.
    pub degrees: i32,
    pub clockwise: bool,
}

#[derive(Debug)]
pub struct FlipImageRequest {
    /// `horizontal` or `vertical`.
    pub direction: String,
}

#[derive(Debug)]
pub struct CropImageRequest {
    pub start_x: i32,
    pub start_y: i32,
    pub width: i32,
    pub height: i32,
}

#[derive(Debug)]
pub struct CreateCanvasRequest {
    pub width: i32,
    pub height: i32,
    /// A colour as `#RRGGBB`.
    pub background_color: Option<String>,
}

} // verus!
