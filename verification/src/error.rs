//! The errors of the server.
use vstd::prelude::*;

verus! {

/// An error of the server. Where the cause was an error of the
/// operating system or of a decoder, the variant holds the text it prints.
#[derive(Debug)]
pub enum MspMcpError {
    General(String),
    WindowNotFound,
    OperationTimeout(String),
    InvalidParameters(String),
    InvalidColorFormat(String),
    InvalidTool(String),
    InvalidShape(String),
    WindowActivationFailed(String),
    OperationNotSupported(String),
    FileNotFound(String),
    FilePermissionDenied(String),
    InvalidImageFormat(String),
    TextInputFailed(String),
    FontSelectionFailed(String),
    ImageTransformationFailed(String),
    CanvasCreationFailed(String),
    WindowsApiError(String),
    /// An element of the accessibility tree was not found.
    ElementNotFound(String),
    IoError(String),
    JsonError(String),
    Base64DecodeError(String),
}

/// An error of the server as a value: its variant, with its text as a sequence
/// of characters.
pub enum MspMcpErrorModel {
    General(Seq<char>),
    WindowNotFound,
    OperationTimeout(Seq<char>),
    InvalidParameters(Seq<char>),
    InvalidColorFormat(Seq<char>),
    InvalidTool(Seq<char>),
    InvalidShape(Seq<char>),
    WindowActivationFailed(Seq<char>),
    OperationNotSupported(Seq<char>),
    FileNotFound(Seq<char>),
    FilePermissionDenied(Seq<char>),
    InvalidImageFormat(Seq<char>),
    TextInputFailed(Seq<char>),
    FontSelectionFailed(Seq<char>),
    ImageTransformationFailed(Seq<char>),
    CanvasCreationFailed(Seq<char>),
    WindowsApiError(Seq<char>),
    ElementNotFound(Seq<char>),
    IoError(Seq<char>),
    JsonError(Seq<char>),
    Base64DecodeError(Seq<char>),
}

impl View for MspMcpError {
    type V = MspMcpErrorModel;

    open spec fn view(&self) -> MspMcpErrorModel {
        match *self {
            MspMcpError::General(s) => MspMcpErrorModel::General(s@),
            MspMcpError::WindowNotFound => MspMcpErrorModel::WindowNotFound,
            MspMcpError::OperationTimeout(s) => MspMcpErrorModel::OperationTimeout(s@),
            MspMcpError::InvalidParameters(s) => MspMcpErrorModel::InvalidParameters(s@),
            MspMcpError::InvalidColorFormat(s) => MspMcpErrorModel::InvalidColorFormat(s@),
            MspMcpError::InvalidTool(s) => MspMcpErrorModel::InvalidTool(s@),
            MspMcpError::InvalidShape(s) => MspMcpErrorModel::InvalidShape(s@),
            MspMcpError::WindowActivationFailed(s) => MspMcpErrorModel::WindowActivationFailed(s@),
            MspMcpError::OperationNotSupported(s) => MspMcpErrorModel::OperationNotSupported(s@),
            MspMcpError::FileNotFound(s) => MspMcpErrorModel::FileNotFound(s@),
            MspMcpError::FilePermissionDenied(s) => MspMcpErrorModel::FilePermissionDenied(s@),
            MspMcpError::InvalidImageFormat(s) => MspMcpErrorModel::InvalidImageFormat(s@),
            MspMcpError::TextInputFailed(s) => MspMcpErrorModel::TextInputFailed(s@),
            MspMcpError::FontSelectionFailed(s) => MspMcpErrorModel::FontSelectionFailed(s@),
            MspMcpError::ImageTransformationFailed(s) => MspMcpErrorModel::ImageTransformationFailed(
                s@,
            ),
            MspMcpError::CanvasCreationFailed(s) => MspMcpErrorModel::CanvasCreationFailed(s@),
            MspMcpError::WindowsApiError(s) => MspMcpErrorModel::WindowsApiError(s@),
            MspMcpError::ElementNotFound(s) => MspMcpErrorModel::ElementNotFound(s@),
            MspMcpError::IoError(s) => MspMcpErrorModel::IoError(s@),
            MspMcpError::JsonError(s) => MspMcpErrorModel::JsonError(s@),
            MspMcpError::Base64DecodeError(s) => MspMcpErrorModel::Base64DecodeError(s@),
        }
    }
}

impl MspMcpErrorModel {
    /// The code under which the protocol reports this error.
    pub open spec fn code(self) -> int {
        match self {
            MspMcpErrorModel::General(_) => 1000,
            MspMcpErrorModel::WindowNotFound => 1001,
            MspMcpErrorModel::OperationTimeout(_) => 1002,
            MspMcpErrorModel::InvalidParameters(_) => 1003,
            MspMcpErrorModel::InvalidColorFormat(_) => 1004,
            MspMcpErrorModel::InvalidTool(_) => 1005,
            MspMcpErrorModel::InvalidShape(_) => 1006,
            MspMcpErrorModel::WindowActivationFailed(_) => 1007,
            MspMcpErrorModel::OperationNotSupported(_) => 1008,
            MspMcpErrorModel::FileNotFound(_) => 1009,
            MspMcpErrorModel::FilePermissionDenied(_) => 1010,
            MspMcpErrorModel::InvalidImageFormat(_) => 1011,
            MspMcpErrorModel::TextInputFailed(_) => 1012,
            MspMcpErrorModel::FontSelectionFailed(_) => 1013,
            MspMcpErrorModel::ImageTransformationFailed(_) => 1014,
            MspMcpErrorModel::CanvasCreationFailed(_) => 1015,
            MspMcpErrorModel::WindowsApiError(_) => 1000,
            MspMcpErrorModel::ElementNotFound(_) => 1000,
            MspMcpErrorModel::IoError(_) => 1000,
            MspMcpErrorModel::JsonError(_) => 1000,
            MspMcpErrorModel::Base64DecodeError(_) => 1003,
        }
    }

    /// The line that this error prints.
    pub open spec fn text(self) -> Seq<char> {
        match self {
            MspMcpErrorModel::General(s) => "General MCP Server Error: "@ + s,
            MspMcpErrorModel::WindowNotFound => "Paint window not found"@,
            MspMcpErrorModel::OperationTimeout(s) => "Operation timed out: "@ + s,
            MspMcpErrorModel::InvalidParameters(s) => "Invalid parameters: "@ + s,
            MspMcpErrorModel::InvalidColorFormat(s) => "Invalid color format: "@ + s,
            MspMcpErrorModel::InvalidTool(s) => "Invalid tool specified: "@ + s,
            MspMcpErrorModel::InvalidShape(s) => "Invalid shape specified: "@ + s,
            MspMcpErrorModel::WindowActivationFailed(s) => "Window activation failed: "@ + s,
            MspMcpErrorModel::OperationNotSupported(s) => "Operation not supported in Windows 11 Paint: "@
                + s,
            MspMcpErrorModel::FileNotFound(s) => "File not found: "@ + s,
            MspMcpErrorModel::FilePermissionDenied(s) => "Permission denied accessing file: "@ + s,
            MspMcpErrorModel::InvalidImageFormat(s) => "Invalid image format: "@ + s,
            MspMcpErrorModel::TextInputFailed(s) => "Text input failed: "@ + s,
            MspMcpErrorModel::FontSelectionFailed(s) => "Font selection failed: "@ + s,
            MspMcpErrorModel::ImageTransformationFailed(s) => "Image transformation failed: "@ + s,
            MspMcpErrorModel::CanvasCreationFailed(s) => "Canvas creation failed: "@ + s,
            MspMcpErrorModel::WindowsApiError(s) => "Windows API error: "@ + s,
            MspMcpErrorModel::ElementNotFound(s) => "UI element not found: "@ + s,
            MspMcpErrorModel::IoError(s) => "IO error: "@ + s,
            MspMcpErrorModel::JsonError(s) => "JSON serialization/deserialization error: "@ + s,
            MspMcpErrorModel::Base64DecodeError(s) => "Base64 decoding error: "@ + s,
        }
    }
}

/// `prefix` followed by `detail`.
fn line(prefix: &str, detail: &String) -> (r: String)
    ensures
        r@ == prefix@ + detail@,
{
    let mut r = String::from_str(prefix);
    r.append(detail.as_str());
    r
}

impl MspMcpError {
    /// The code under which the protocol reports this error.
    pub fn code(&self) -> (c: i32)
        ensures
            c == self@.code(),
    {
        match self {
            MspMcpError::General(_) => 1000,
            MspMcpError::WindowNotFound => 1001,
            MspMcpError::OperationTimeout(_) => 1002,
            MspMcpError::InvalidParameters(_) => 1003,
            MspMcpError::InvalidColorFormat(_) => 1004,
            MspMcpError::InvalidTool(_) => 1005,
            MspMcpError::InvalidShape(_) => 1006,
            MspMcpError::WindowActivationFailed(_) => 1007,
            MspMcpError::OperationNotSupported(_) => 1008,
            MspMcpError::FileNotFound(_) => 1009,
            MspMcpError::FilePermissionDenied(_) => 1010,
            MspMcpError::InvalidImageFormat(_) => 1011,
            MspMcpError::TextInputFailed(_) => 1012,
            MspMcpError::FontSelectionFailed(_) => 1013,
            MspMcpError::ImageTransformationFailed(_) => 1014,
            MspMcpError::CanvasCreationFailed(_) => 1015,
            MspMcpError::WindowsApiError(_) => 1000,
            MspMcpError::ElementNotFound(_) => 1000,
            MspMcpError::IoError(_) => 1000,
            MspMcpError::JsonError(_) => 1000,
            MspMcpError::Base64DecodeError(_) => 1003,
        }
    }

    /// The line that this error prints.
    pub fn to_string(&self) -> (r: String)
        ensures
            r@ == self@.text(),
    {
        match self {
            MspMcpError::General(s) => line("General MCP Server Error: ", s),
            MspMcpError::WindowNotFound => String::from_str("Paint window not found"),
            MspMcpError::OperationTimeout(s) => line("Operation timed out: ", s),
            MspMcpError::InvalidParameters(s) => line("Invalid parameters: ", s),
            MspMcpError::InvalidColorFormat(s) => line("Invalid color format: ", s),
            MspMcpError::InvalidTool(s) => line("Invalid tool specified: ", s),
            MspMcpError::InvalidShape(s) => line("Invalid shape specified: ", s),
            MspMcpError::WindowActivationFailed(s) => line("Window activation failed: ", s),
            MspMcpError::OperationNotSupported(s) => line(
                "Operation not supported in Windows 11 Paint: ",
                s,
            ),
            MspMcpError::FileNotFound(s) => line("File not found: ", s),
            MspMcpError::FilePermissionDenied(s) => line("Permission denied accessing file: ", s),
            MspMcpError::InvalidImageFormat(s) => line("Invalid image format: ", s),
            MspMcpError::TextInputFailed(s) => line("Text input failed: ", s),
            MspMcpError::FontSelectionFailed(s) => line("Font selection failed: ", s),
            MspMcpError::ImageTransformationFailed(s) => line("Image transformation failed: ", s),
            MspMcpError::CanvasCreationFailed(s) => line("Canvas creation failed: ", s),
            MspMcpError::WindowsApiError(s) => line("Windows API error: ", s),
            MspMcpError::ElementNotFound(s) => line("UI element not found: ", s),
            MspMcpError::IoError(s) => line("IO error: ", s),
            MspMcpError::JsonError(s) => line("JSON serialization/deserialization error: ", s),
            MspMcpError::Base64DecodeError(s) => line("Base64 decoding error: ", s),
        }
    }
}

} // verus!
