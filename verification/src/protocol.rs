//! The parameters and responses of the JSON-RPC methods, and the methods
//! themselves.
use vstd::prelude::*;

use crate::text::same_text;

verus! {

#[derive(Debug)]
pub struct ConnectParams {
    pub client_id: String,
    pub client_name: String,
}

#[derive(Debug)]
pub struct SelectToolParams {
    /// `pencil`, `brush`, `fill`, `text`, `eraser`, `select` or `shape`.
    pub tool: String,
    pub shape_type: Option<String>,
}

#[derive(Debug)]
pub struct SetColorParams {
    /// A colour as `#RRGGBB`.
    pub color: String,
}

#[derive(Debug)]
pub struct SetThicknessParams {
    /// 1 to 5.
    pub level: u32,
}

#[derive(Debug)]
pub struct SetBrushSizeParams {
    /// 1 to 30.
    pub size: u32,
    pub tool: Option<String>,
}

#[derive(Debug)]
pub struct SetFillParams {
    /// `none`, `solid` or `outline`.
    pub fill_type: String,
}

#[derive(Debug)]
pub struct DrawPixelParams {
    pub x: i32,
    pub y: i32,
    pub color: Option<String>,
}

#[derive(Debug)]
pub struct DrawLineParams {
    pub start_x: i32,
    pub start_y: i32,
    pub end_x: i32,
    pub end_y: i32,
    pub color: Option<String>,
    pub thickness: Option<u32>,
}

#[derive(Debug)]
pub struct DrawShapeParams {
    /// `rectangle`, `ellipse`, `line`, `arrow`, `triangle`, `pentagon` or `hexagon`.
    pub shape_type: String,
    pub start_x: i32,
    pub start_y: i32,
    pub end_x: i32,
    pub end_y: i32,
    pub color: Option<String>,
    pub thickness: Option<u32>,
    pub fill_type: Option<String>,
}

#[derive(Debug)]
pub struct DrawPolylineParams {
    pub points: Vec<Point>,
    pub color: Option<String>,
    pub thickness: Option<u32>,
    /// `pencil` or `brush`.
    pub tool: Option<String>,
}

#[derive(Debug)]
pub struct AddTextParams {
    pub x: i32,
    pub y: i32,
    pub text: String,
    pub color: Option<String>,
    pub font_name: Option<String>,
    pub font_size: Option<u32>,
    pub font_style: Option<String>,
}

#[derive(Debug)]
pub struct CreateCanvasParams {
    pub width: u32,
    pub height: u32,
    pub background_color: Option<String>,
}

#[derive(Debug)]
pub struct SaveCanvasParams {
    pub file_path: String,
    /// `png`, `jpeg` or `bmp`.
    pub format: String,
}

/// A point of the canvas.
#[derive(Clone, Copy, Debug, PartialEq, Eq, Structural)]
pub struct Point {
    pub x: i32,
    pub y: i32,
}

#[derive(Debug)]
pub struct SuccessResponse {
    /// Always `success`.
    pub status: String,
}

#[derive(Debug)]
pub struct ConnectResponse {
    /// Always `success`.
    pub status: String,
    pub paint_version: String,
    pub canvas_width: u32,
    pub canvas_height: u32,
}

#[derive(Debug)]
pub struct GetVersionResponse {
    /// Always `success`.
    pub status: String,
    pub protocol_version: String,
    pub server_version: String,
    pub paint_version: String,
}

#[derive(Debug)]
pub struct ErrorResponse {
    /// Always `error`.
    pub status: String,
    pub error: ErrorDetails,
}

#[derive(Debug)]
pub struct ErrorDetails {
    pub code: i32,
    pub message: String,
}

/// The parameters of a call as they arrived: none, some that could not be
/// read as what the method takes, or those that the method takes.
#[derive(Debug)]
pub enum Parsed<T> {
    /// The call had no parameters.
    Missing,
    /// The parameters could not be read; the text is what the reader's error prints.
    Invalid(String),
    Valid(T),
}

/// The parameters of a call, read as those of the method that it names.
#[derive(Debug)]
pub enum Params {
    /// The call had no parameters.
    Missing,
    /// The parameters could not be read; the text is what the reader's error prints.
    Invalid(String),
    Connect(ConnectParams),
    SelectTool(SelectToolParams),
    SetColor(SetColorParams),
    SetThickness(SetThicknessParams),
    SetBrushSize(SetBrushSizeParams),
    SetFill(SetFillParams),
    DrawPixel(DrawPixelParams),
    DrawLine(DrawLineParams),
    DrawShape(DrawShapeParams),
    DrawPolyline(DrawPolylineParams),
    AddText(AddTextParams),
    CreateCanvas(CreateCanvasParams),
}

/// What the reader says of parameters that are those of another method.
pub const WRONG_PARAMS: &'static str = "parameters of another method";

impl Params {
    /// These parameters as those of `connect`.
    pub fn connect(self) -> (r: Parsed<ConnectParams>)
        ensures
            match self {
                Params::Missing => r is Missing,
                Params::Invalid(text) => r == Parsed::<ConnectParams>::Invalid(text),
                Params::Connect(v) => r == Parsed::Valid(v),
                _ => r matches Parsed::Invalid(text) && text@ == WRONG_PARAMS@,
            },
    {
        match self {
            Params::Missing => Parsed::Missing,
            Params::Invalid(text) => Parsed::Invalid(text),
            Params::Connect(v) => Parsed::Valid(v),
            _ => Parsed::Invalid(String::from_str(WRONG_PARAMS)),
        }
    }

    /// These parameters as those of `select_tool`.
    pub fn select_tool(self) -> (r: Parsed<SelectToolParams>)
        ensures
            match self {
                Params::Missing => r is Missing,
                Params::Invalid(text) => r == Parsed::<SelectToolParams>::Invalid(text),
                Params::SelectTool(v) => r == Parsed::Valid(v),
                _ => r matches Parsed::Invalid(text) && text@ == WRONG_PARAMS@,
            },
    {
        match self {
            Params::Missing => Parsed::Missing,
            Params::Invalid(text) => Parsed::Invalid(text),
            Params::SelectTool(v) => Parsed::Valid(v),
            _ => Parsed::Invalid(String::from_str(WRONG_PARAMS)),
        }
    }

    /// These parameters as those of `set_color`.
    pub fn set_color(self) -> (r: Parsed<SetColorParams>)
        ensures
            match self {
                Params::Missing => r is Missing,
                Params::Invalid(text) => r == Parsed::<SetColorParams>::Invalid(text),
                Params::SetColor(v) => r == Parsed::Valid(v),
                _ => r matches Parsed::Invalid(text) && text@ == WRONG_PARAMS@,
            },
    {
        match self {
            Params::Missing => Parsed::Missing,
            Params::Invalid(text) => Parsed::Invalid(text),
            Params::SetColor(v) => Parsed::Valid(v),
            _ => Parsed::Invalid(String::from_str(WRONG_PARAMS)),
        }
    }

    /// These parameters as those of `set_thickness`.
    pub fn set_thickness(self) -> (r: Parsed<SetThicknessParams>)
        ensures
            match self {
                Params::Missing => r is Missing,
                Params::Invalid(text) => r == Parsed::<SetThicknessParams>::Invalid(text),
                Params::SetThickness(v) => r == Parsed::Valid(v),
                _ => r matches Parsed::Invalid(text) && text@ == WRONG_PARAMS@,
            },
    {
        match self {
            Params::Missing => Parsed::Missing,
            Params::Invalid(text) => Parsed::Invalid(text),
            Params::SetThickness(v) => Parsed::Valid(v),
            _ => Parsed::Invalid(String::from_str(WRONG_PARAMS)),
        }
    }

    /// These parameters as those of `set_brush_size`.
    pub fn set_brush_size(self) -> (r: Parsed<SetBrushSizeParams>)
        ensures
            match self {
                Params::Missing => r is Missing,
                Params::Invalid(text) => r == Parsed::<SetBrushSizeParams>::Invalid(text),
                Params::SetBrushSize(v) => r == Parsed::Valid(v),
                _ => r matches Parsed::Invalid(text) && text@ == WRONG_PARAMS@,
            },
    {
        match self {
            Params::Missing => Parsed::Missing,
            Params::Invalid(text) => Parsed::Invalid(text),
            Params::SetBrushSize(v) => Parsed::Valid(v),
            _ => Parsed::Invalid(String::from_str(WRONG_PARAMS)),
        }
    }

    /// These parameters as those of `set_fill`.
    pub fn set_fill(self) -> (r: Parsed<SetFillParams>)
        ensures
            match self {
                Params::Missing => r is Missing,
                Params::Invalid(text) => r == Parsed::<SetFillParams>::Invalid(text),
                Params::SetFill(v) => r == Parsed::Valid(v),
                _ => r matches Parsed::Invalid(text) && text@ == WRONG_PARAMS@,
            },
    {
        match self {
            Params::Missing => Parsed::Missing,
            Params::Invalid(text) => Parsed::Invalid(text),
            Params::SetFill(v) => Parsed::Valid(v),
            _ => Parsed::Invalid(String::from_str(WRONG_PARAMS)),
        }
    }

    /// These parameters as those of `draw_pixel`.
    pub fn draw_pixel(self) -> (r: Parsed<DrawPixelParams>)
        ensures
            match self {
                Params::Missing => r is Missing,
                Params::Invalid(text) => r == Parsed::<DrawPixelParams>::Invalid(text),
                Params::DrawPixel(v) => r == Parsed::Valid(v),
                _ => r matches Parsed::Invalid(text) && text@ == WRONG_PARAMS@,
            },
    {
        match self {
            Params::Missing => Parsed::Missing,
            Params::Invalid(text) => Parsed::Invalid(text),
            Params::DrawPixel(v) => Parsed::Valid(v),
            _ => Parsed::Invalid(String::from_str(WRONG_PARAMS)),
        }
    }

    /// These parameters as those of `draw_line`.
    pub fn draw_line(self) -> (r: Parsed<DrawLineParams>)
        ensures
            match self {
                Params::Missing => r is Missing,
                Params::Invalid(text) => r == Parsed::<DrawLineParams>::Invalid(text),
                Params::DrawLine(v) => r == Parsed::Valid(v),
                _ => r matches Parsed::Invalid(text) && text@ == WRONG_PARAMS@,
            },
    {
        match self {
            Params::Missing => Parsed::Missing,
            Params::Invalid(text) => Parsed::Invalid(text),
            Params::DrawLine(v) => Parsed::Valid(v),
            _ => Parsed::Invalid(String::from_str(WRONG_PARAMS)),
        }
    }

    /// These parameters as those of `draw_shape`.
    pub fn draw_shape(self) -> (r: Parsed<DrawShapeParams>)
        ensures
            match self {
                Params::Missing => r is Missing,
                Params::Invalid(text) => r == Parsed::<DrawShapeParams>::Invalid(text),
                Params::DrawShape(v) => r == Parsed::Valid(v),
                _ => r matches Parsed::Invalid(text) && text@ == WRONG_PARAMS@,
            },
    {
        match self {
            Params::Missing => Parsed::Missing,
            Params::Invalid(text) => Parsed::Invalid(text),
            Params::DrawShape(v) => Parsed::Valid(v),
            _ => Parsed::Invalid(String::from_str(WRONG_PARAMS)),
        }
    }

    /// These parameters as those of `draw_polyline`.
    pub fn draw_polyline(self) -> (r: Parsed<DrawPolylineParams>)
        ensures
            match self {
                Params::Missing => r is Missing,
                Params::Invalid(text) => r == Parsed::<DrawPolylineParams>::Invalid(text),
                Params::DrawPolyline(v) => r == Parsed::Valid(v),
                _ => r matches Parsed::Invalid(text) && text@ == WRONG_PARAMS@,
            },
    {
        match self {
            Params::Missing => Parsed::Missing,
            Params::Invalid(text) => Parsed::Invalid(text),
            Params::DrawPolyline(v) => Parsed::Valid(v),
            _ => Parsed::Invalid(String::from_str(WRONG_PARAMS)),
        }
    }

    /// These parameters as those of `add_text`.
    pub fn add_text(self) -> (r: Parsed<AddTextParams>)
        ensures
            match self {
                Params::Missing => r is Missing,
                Params::Invalid(text) => r == Parsed::<AddTextParams>::Invalid(text),
                Params::AddText(v) => r == Parsed::Valid(v),
                _ => r matches Parsed::Invalid(text) && text@ == WRONG_PARAMS@,
            },
    {
        match self {
            Params::Missing => Parsed::Missing,
            Params::Invalid(text) => Parsed::Invalid(text),
            Params::AddText(v) => Parsed::Valid(v),
            _ => Parsed::Invalid(String::from_str(WRONG_PARAMS)),
        }
    }

    /// These parameters as those of `create_canvas`.
    pub fn create_canvas(self) -> (r: Parsed<CreateCanvasParams>)
        ensures
            match self {
                Params::Missing => r is Missing,
                Params::Invalid(text) => r == Parsed::<CreateCanvasParams>::Invalid(text),
                Params::CreateCanvas(v) => r == Parsed::Valid(v),
                _ => r matches Parsed::Invalid(text) && text@ == WRONG_PARAMS@,
            },
    {
        match self {
            Params::Missing => Parsed::Missing,
            Params::Invalid(text) => Parsed::Invalid(text),
            Params::CreateCanvas(v) => Parsed::Valid(v),
            _ => Parsed::Invalid(String::from_str(WRONG_PARAMS)),
        }
    }
}

/// What a method answers where it succeeds.
#[derive(Clone, Copy, Debug, PartialEq, Eq, Structural)]
pub enum Reply {
    /// Nothing but the success.
    Success,
    /// The answer to `connect`: the size of the canvas.
    Connected { canvas_width: u32, canvas_height: u32 },
    /// The answer to `get_canvas_dimensions`.
    Dimensions { width: u32, height: u32 },
    /// The answer to `get_version`.
    Version,
    /// The answer to `create_canvas`: the size of the new canvas.
    CanvasCreated { canvas_width: u32, canvas_height: u32 },
    /// The answer to `initialize`: what the server is and can do.
    Initialized,
}

/// The version of the protocol that the server speaks.
pub const PROTOCOL_VERSION: &'static str = "1.1";

/// The Paint that the server drives.
pub const PAINT_VERSION: &'static str = "windows11";

/// The name under which the server introduces itself.
pub const SERVER_NAME: &'static str = "mcp-server-microsoft-paint";

/// The response to `connect` for a canvas of this size.
pub fn connect_response(canvas_width: u32, canvas_height: u32) -> (r: ConnectResponse)
    ensures
        r.status@ == "success"@,
        r.paint_version@ == PAINT_VERSION@,
        r.canvas_width == canvas_width,
        r.canvas_height == canvas_height,
{
    ConnectResponse {
        status: String::from_str("success"),
        paint_version: String::from_str(PAINT_VERSION),
        canvas_width,
        canvas_height,
    }
}

/// The response to `get_version` of a server of this version.
pub fn version_response(server_version: &str) -> (r: GetVersionResponse)
    ensures
        r.status@ == "success"@,
        r.protocol_version@ == PROTOCOL_VERSION@,
        r.server_version@ == server_version@,
        r.paint_version@ == PAINT_VERSION@,
{
    GetVersionResponse {
        status: String::from_str("success"),
        protocol_version: String::from_str(PROTOCOL_VERSION),
        server_version: String::from_str(server_version),
        paint_version: String::from_str(PAINT_VERSION),
    }
}

/// The response to a method that succeeded and returns nothing else.
pub fn success_response() -> (r: SuccessResponse)
    ensures
        r.status@ == "success"@,
{
    SuccessResponse { status: String::from_str("success") }
}

/// The response to a method that failed with this code and message.
pub fn error_response(code: i32, message: String) -> (r: ErrorResponse)
    ensures
        r.status@ == "error"@,
        r.error.code == code,
        r.error.message == message,
{
    ErrorResponse { status: String::from_str("error"), error: ErrorDetails { code, message } }
}

/// A method of the protocol, which is to say the handler that serves it.
#[derive(Clone, Copy, Debug, PartialEq, Eq, Structural)]
pub enum MethodHandler {
    Initialize,
    Connect,
    ActivateWindow,
    GetCanvasDimensions,
    Disconnect,
    GetVersion,
    DrawPixel,
    DrawLine,
    DrawShape,
    DrawPolyline,
    AddText,
    SelectRegion,
    CopySelection,
    Paste,
    ClearCanvas,
    CreateCanvas,
    SelectTool,
    SetColor,
    SetThickness,
    SetBrushSize,
    SetFill,
}

/// The handler that serves the method of this name.
pub open spec fn method_handler(method: Seq<char>) -> Option<MethodHandler> {
    if method == "initialize"@ {
        Some(MethodHandler::Initialize)
    } else if method == "connect"@ {
        Some(MethodHandler::Connect)
    } else if method == "activate_window"@ {
        Some(MethodHandler::ActivateWindow)
    } else if method == "get_canvas_dimensions"@ {
        Some(MethodHandler::GetCanvasDimensions)
    } else if method == "disconnect"@ {
        Some(MethodHandler::Disconnect)
    } else if method == "get_version"@ {
        Some(MethodHandler::GetVersion)
    } else if method == "draw_pixel"@ {
        Some(MethodHandler::DrawPixel)
    } else if method == "draw_line"@ {
        Some(MethodHandler::DrawLine)
    } else if method == "draw_shape"@ {
        Some(MethodHandler::DrawShape)
    } else if method == "draw_polyline"@ {
        Some(MethodHandler::DrawPolyline)
    } else if method == "add_text"@ {
        Some(MethodHandler::AddText)
    } else if method == "select_region"@ {
        Some(MethodHandler::SelectRegion)
    } else if method == "copy_selection"@ {
        Some(MethodHandler::CopySelection)
    } else if method == "paste"@ {
        Some(MethodHandler::Paste)
    } else if method == "clear_canvas"@ {
        Some(MethodHandler::ClearCanvas)
    } else if method == "create_canvas"@ {
        Some(MethodHandler::CreateCanvas)
    } else if method == "select_tool"@ {
        Some(MethodHandler::SelectTool)
    } else if method == "set_color"@ {
        Some(MethodHandler::SetColor)
    } else if method == "set_thickness"@ {
        Some(MethodHandler::SetThickness)
    } else if method == "set_brush_size"@ {
        Some(MethodHandler::SetBrushSize)
    } else if method == "set_fill"@ {
        Some(MethodHandler::SetFill)
    } else {
        None
    }
}

/// The handler that serves the method of this name; `None` for a name that
/// is no method's.
pub fn get_method_handler(method: &str) -> (r: Option<MethodHandler>)
    ensures
        r == method_handler(method@),
{
    if same_text(method, "initialize") {
        Some(MethodHandler::Initialize)
    } else if same_text(method, "connect") {
        Some(MethodHandler::Connect)
    } else if same_text(method, "activate_window") {
        Some(MethodHandler::ActivateWindow)
    } else if same_text(method, "get_canvas_dimensions") {
        Some(MethodHandler::GetCanvasDimensions)
    } else if same_text(method, "disconnect") {
        Some(MethodHandler::Disconnect)
    } else if same_text(method, "get_version") {
        Some(MethodHandler::GetVersion)
    } else if same_text(method, "draw_pixel") {
        Some(MethodHandler::DrawPixel)
    } else if same_text(method, "draw_line") {
        Some(MethodHandler::DrawLine)
    } else if same_text(method, "draw_shape") {
        Some(MethodHandler::DrawShape)
    } else if same_text(method, "draw_polyline") {
        Some(MethodHandler::DrawPolyline)
    } else if same_text(method, "add_text") {
        Some(MethodHandler::AddText)
    } else if same_text(method, "select_region") {
        Some(MethodHandler::SelectRegion)
    } else if same_text(method, "copy_selection") {
        Some(MethodHandler::CopySelection)
    } else if same_text(method, "paste") {
        Some(MethodHandler::Paste)
    } else if same_text(method, "clear_canvas") {
        Some(MethodHandler::ClearCanvas)
    } else if same_text(method, "create_canvas") {
        Some(MethodHandler::CreateCanvas)
    } else if same_text(method, "select_tool") {
        Some(MethodHandler::SelectTool)
    } else if same_text(method, "set_color") {
        Some(MethodHandler::SetColor)
    } else if same_text(method, "set_thickness") {
        Some(MethodHandler::SetThickness)
    } else if same_text(method, "set_brush_size") {
        Some(MethodHandler::SetBrushSize)
    } else if same_text(method, "set_fill") {
        Some(MethodHandler::SetFill)
    } else {
        None
    }
}

} // verus!
