//! A manager that drives one Paint window: it connects to the window, selects
//! tools and colours by their places in the window, and draws with the mouse.
use vstd::prelude::*;

use crate::codec::{
    base64_decode, base64_decoded, base64_encode, base64_encoded, base64_fits, base64_length,
    copy_bytes, decode_png, extension_of, image_dimensions, image_size, path_extension,
    png_picture,
};
use crate::desktop::{
    ask_count, ask_done, ask_file, ask_flag, ask_handle, ask_number, ask_position, ask_rect,
    ask_windows, fit_i32, minus, plus, replayed, replayed_as, text_view, times,
    Action, Answer, Fault, FileContent, FileRead, Halt, Input, KeyInput, MenuItem, MouseInput,
    Position, Rect, Run, Transcript, WindowInfo,
};
use crate::models::StatusResponse;
use crate::text::{
    byte_slice, chars_of, color_code, color_text, contains, decimal, ends_with, has_substring,
    has_suffix, integer_text, joined, joined3, lowercase, parse_hex_u8, parsed_hex_u8, same_text,
    slice_bytes, text_of, to_lowercase, to_uppercase, uppercase,
};
use crate::windows::{
    first_window, has_color_form, is_color_form, normalize, normalized, KEYEVENTF_KEYUP, KEYEVENTF_SCANCODE,
    KEYEVENTF_SCANCODE_KEYUP, MOUSEEVENTF_ABSOLUTE, MOUSEEVENTF_LEFTDOWN, MOUSEEVENTF_LEFTUP,
    MOUSEEVENTF_MOVE, SW_RESTORE, VK_CONTROL, VK_MENU, VK_RETURN, VK_S,
};

verus! {

/// Which Paint the manager is connected to.
#[derive(Clone, Copy, Debug, PartialEq, Eq, Structural)]
enum PaintVersion {
    Unknown,
    /// The Paint of Windows 11.
    Modern,
}

/// The connection to a Paint window.
#[derive(Clone, Copy, Debug)]
pub struct PaintManager {
    window_handle: Option<isize>,
    paint_version: PaintVersion,
}

/// An error of the manager.
#[derive(Debug)]
pub enum PaintError {
    WindowNotFound,
    CanvasPositionError,
    DrawingOperationFailed,
    ToolSelectionFailed,
    ColorSelectionFailed,
    SaveOperationFailed,
    BrushSizeError,
    FileNotFound,
    FileReadError,
    InvalidImageFormat,
    PermissionDenied,
    InvalidParameterError(String),
    TextInputFailed,
    FontSelectionFailed,
    TransformationFailed,
    CanvasCreationFailed,
}

/// An error of the manager as a value, with its text as a sequence of characters.
pub enum PaintErrorModel {
    WindowNotFound,
    CanvasPositionError,
    DrawingOperationFailed,
    ToolSelectionFailed,
    ColorSelectionFailed,
    SaveOperationFailed,
    BrushSizeError,
    FileNotFound,
    FileReadError,
    InvalidImageFormat,
    PermissionDenied,
    InvalidParameterError(Seq<char>),
    TextInputFailed,
    FontSelectionFailed,
    TransformationFailed,
    CanvasCreationFailed,
}

impl View for PaintError {
    type V = PaintErrorModel;

    open spec fn view(&self) -> PaintErrorModel {
        match *self {
            PaintError::WindowNotFound => PaintErrorModel::WindowNotFound,
            PaintError::CanvasPositionError => PaintErrorModel::CanvasPositionError,
            PaintError::DrawingOperationFailed => PaintErrorModel::DrawingOperationFailed,
            PaintError::ToolSelectionFailed => PaintErrorModel::ToolSelectionFailed,
            PaintError::ColorSelectionFailed => PaintErrorModel::ColorSelectionFailed,
            PaintError::SaveOperationFailed => PaintErrorModel::SaveOperationFailed,
            PaintError::BrushSizeError => PaintErrorModel::BrushSizeError,
            PaintError::FileNotFound => PaintErrorModel::FileNotFound,
            PaintError::FileReadError => PaintErrorModel::FileReadError,
            PaintError::InvalidImageFormat => PaintErrorModel::InvalidImageFormat,
            PaintError::PermissionDenied => PaintErrorModel::PermissionDenied,
            PaintError::InvalidParameterError(s) => PaintErrorModel::InvalidParameterError(s@),
            PaintError::TextInputFailed => PaintErrorModel::TextInputFailed,
            PaintError::FontSelectionFailed => PaintErrorModel::FontSelectionFailed,
            PaintError::TransformationFailed => PaintErrorModel::TransformationFailed,
            PaintError::CanvasCreationFailed => PaintErrorModel::CanvasCreationFailed,
        }
    }
}

impl PaintErrorModel {
    /// The line that this error prints.
    pub open spec fn text(self) -> Seq<char> {
        match self {
            PaintErrorModel::WindowNotFound => "Microsoft Paint window not found"@,
            PaintErrorModel::CanvasPositionError => "Failed to get canvas position"@,
            PaintErrorModel::DrawingOperationFailed => "Drawing operation failed"@,
            PaintErrorModel::ToolSelectionFailed => "Tool selection failed"@,
            PaintErrorModel::ColorSelectionFailed => "Color selection failed"@,
            PaintErrorModel::SaveOperationFailed => "Save operation failed"@,
            PaintErrorModel::BrushSizeError => "Failed to set brush size"@,
            PaintErrorModel::FileNotFound => "File not found"@,
            PaintErrorModel::FileReadError => "Error reading file"@,
            PaintErrorModel::InvalidImageFormat => "Invalid image format"@,
            PaintErrorModel::PermissionDenied => "Permission denied accessing file"@,
            PaintErrorModel::InvalidParameterError(msg) => "Invalid parameter: "@ + msg,
            PaintErrorModel::TextInputFailed => "Failed to add text to drawing"@,
            PaintErrorModel::FontSelectionFailed => "Failed to select font"@,
            PaintErrorModel::TransformationFailed => "Image transformation failed"@,
            PaintErrorModel::CanvasCreationFailed => "Failed to create new canvas"@,
        }
    }
}

impl PaintError {
    /// The line that this error prints.
    pub fn to_string(&self) -> (r: String)
        ensures
            r@ == self@.text(),
    {
        match self {
            PaintError::WindowNotFound => String::from_str("Microsoft Paint window not found"),
            PaintError::CanvasPositionError => String::from_str("Failed to get canvas position"),
            PaintError::DrawingOperationFailed => String::from_str("Drawing operation failed"),
            PaintError::ToolSelectionFailed => String::from_str("Tool selection failed"),
            PaintError::ColorSelectionFailed => String::from_str("Color selection failed"),
            PaintError::SaveOperationFailed => String::from_str("Save operation failed"),
            PaintError::BrushSizeError => String::from_str("Failed to set brush size"),
            PaintError::FileNotFound => String::from_str("File not found"),
            PaintError::FileReadError => String::from_str("Error reading file"),
            PaintError::InvalidImageFormat => String::from_str("Invalid image format"),
            PaintError::PermissionDenied => String::from_str("Permission denied accessing file"),
            PaintError::InvalidParameterError(msg) => joined("Invalid parameter: ", msg.as_str()),
            PaintError::TextInputFailed => String::from_str("Failed to add text to drawing"),
            PaintError::FontSelectionFailed => String::from_str("Failed to select font"),
            PaintError::TransformationFailed => String::from_str("Image transformation failed"),
            PaintError::CanvasCreationFailed => String::from_str("Failed to create new canvas"),
        }
    }
}

/// An image file with what is known of it.
#[derive(Debug)]
pub struct ImageMetadata {
    /// The bytes of the file in base64.
    pub data: String,
    /// `png`, `jpeg` or `bmp`.
    pub format: String,
    pub width: u32,
    pub height: u32,
}

/// An image file with what is known of it, as a value.
pub ghost struct ImageMetadataModel {
    pub data: Seq<char>,
    pub format: Seq<char>,
    pub width: u32,
    pub height: u32,
}

impl View for ImageMetadata {
    type V = ImageMetadataModel;

    open spec fn view(&self) -> ImageMetadataModel {
        ImageMetadataModel {
            data: self.data@,
            format: self.format@,
            width: self.width,
            height: self.height,
        }
    }
}

/// What an operation of the manager returns.
pub type PaintOutcome<T> = Result<T, Halt<PaintError>>;

/// What a run of an operation of the manager comes to.
pub type PaintTrace<T> = Run<T, PaintErrorModel>;

/// The error of a parameter that is not accepted, with this text.
pub fn invalid_parameter(text: &str) -> (e: PaintError)
    ensures
        e@ == PaintErrorModel::InvalidParameterError(text@),
{
    PaintError::InvalidParameterError(String::from_str(text))
}

/// Whether the search among all windows takes this one: it has a title that
/// contains `Paint` and names no browser, and is visible and top-level.
pub open spec fn is_paint_window(w: WindowInfo) -> bool {
    &&& w.title matches Some(title)
    &&& has_substring(title@, "Paint"@)
    &&& !has_substring(title@, "Edge"@)
    &&& !has_substring(title@, "Chrome"@)
    &&& !has_substring(title@, "Firefox"@)
    &&& w.visible
    &&& w.top_level
}

/// Whether the search among all windows takes this one.
pub fn enum_windows_callback(window: &WindowInfo) -> (found: bool)
    ensures
        found == is_paint_window(*window),
{
    match &window.title {
        Some(title) => {
            let title_str = title.as_str();
            contains(title_str, "Paint") && !contains(title_str, "Edge") && !contains(
                title_str,
                "Chrome",
            ) && !contains(title_str, "Firefox") && window.visible && window.top_level
        },
        None => false,
    }
}

/// The first of `windows` that [`is_paint_window`].
pub fn first_paint_window(windows: &Vec<WindowInfo>) -> (r: Option<isize>)
    ensures
        r == first_window(windows@, |w: WindowInfo| is_paint_window(w), 0),
{
    let ghost take = |w: WindowInfo| is_paint_window(w);
    let mut i: usize = 0;
    while i < windows.len()
        invariant
            i <= windows.len(),
            take == |w: WindowInfo| is_paint_window(w),
            first_window(windows@, take, 0) == first_window(windows@, take, i as int),
        decreases windows.len() - i,
    {
        if enum_windows_callback(&windows[i]) {
            return Some(windows[i].hwnd);
        }
        i = i + 1;
    }
    None
}

/// [`find_paint_window`]: the window of the class `MSPaintApp`, if there is
/// one; else the first of all windows that [`is_paint_window`].
pub open spec fn find_paint_window_run(a: Seq<Answer>, p: nat) -> PaintTrace<Option<isize>> {
    ask_handle(a, p, Action::FindWindowByClass).and_next(
        |hwnd: isize, p: nat|
            if hwnd != 0 {
                Run::value(Some(hwnd), p)
            } else {
                ask_windows(a, p, Action::ListWindows).and_next(
                    |windows: Seq<WindowInfo>, p: nat|
                        Run::value(first_window(windows, |w: WindowInfo| is_paint_window(w), 0), p),
                )
            },
    )
}

/// Finds the window of a running Paint.
pub fn find_paint_window(t: &mut Transcript) -> (r: PaintOutcome<Option<isize>>)
    ensures
        replayed(*old(t), *final(t), r, find_paint_window_run(old(t).answers@, old(t).pos as nat)),
{
    let hwnd = t.handle(Action::FindWindowByClass)?;
    if hwnd != 0 {
        return Ok(Some(hwnd));
    }
    match t.windows(Action::ListWindows)? {
        Some(windows) => Ok(first_paint_window(windows)),
        None => {
            assert(first_window(Seq::empty(), |w: WindowInfo| is_paint_window(w), 0) is None);
            Ok(None)
        },
    }
}

/// How often [`activate_window`] checks whether the window is in the foreground.
pub const MAX_ATTEMPTS: i32 = 5;

/// The Alt key down and up, which lets another window take the foreground.
pub open spec fn alt_tap() -> Action {
    Action::Send2(
        Input::Key(KeyInput { vk: VK_MENU, scan: 0, flags: 0 }),
        Input::Key(KeyInput { vk: VK_MENU, scan: 0, flags: KEYEVENTF_KEYUP }),
    )
}

/// The checks of [`activate_window`] from this attempt on: where the window
/// is in the foreground, it is done. Else it waits 100 ms, asks for the
/// foreground again and checks again. After the fifth check the window is
/// not found.
pub open spec fn await_foreground_run(a: Seq<Answer>, p: nat, hwnd: isize, attempt: int) -> PaintTrace<
    (),
>
    decreases MAX_ATTEMPTS - attempt,
{
    if attempt < 0 || attempt >= MAX_ATTEMPTS {
        Run::fail(PaintErrorModel::WindowNotFound, p)
    } else {
        ask_handle(a, p, Action::ForegroundWindow).and_next(
            |active: isize, p: nat|
                if active == hwnd {
                    Run::value((), p)
                } else {
                    ask_done(a, p, Action::Sleep { millis: 100 }).and_next(
                        |u: (), p: nat|
                            ask_done(a, p, Action::SetForegroundWindow { hwnd }).and_next(
                                |u: (), p: nat| await_foreground_run(a, p, hwnd, attempt + 1),
                            ),
                    )
                },
        )
    }
}

/// Waits until the window is in the foreground, for up to five checks.
pub fn await_foreground(t: &mut Transcript, hwnd: isize) -> (r: PaintOutcome<()>)
    ensures
        replayed(
            *old(t),
            *final(t),
            r,
            await_foreground_run(old(t).answers@, old(t).pos as nat, hwnd, 0),
        ),
{
    let mut attempt: i32 = 0;
    while attempt < MAX_ATTEMPTS
        invariant
            0 <= attempt <= MAX_ATTEMPTS,
            t.answers == old(t).answers,
            await_foreground_run(old(t).answers@, old(t).pos as nat, hwnd, 0)
                == await_foreground_run(t.answers@, t.pos as nat, hwnd, attempt as int),
        decreases MAX_ATTEMPTS - attempt,
    {
        let active_hwnd = t.handle(Action::ForegroundWindow)?;
        if active_hwnd == hwnd {
            return Ok(());
        }
        t.sleep(100)?;
        attempt = attempt + 1;
        t.done(Action::SetForegroundWindow { hwnd })?;
    }
    Err(Halt::Failed(PaintError::WindowNotFound))
}

/// The attempt to take the foreground: where `SetForegroundWindow` fails and
/// another window has the foreground, Alt is tapped and it is tried again.
pub open spec fn take_foreground_run(a: Seq<Answer>, p: nat, hwnd: isize) -> PaintTrace<()> {
    ask_flag(a, p, Action::SetForegroundWindow { hwnd }).and_next(
        |taken: bool, p: nat|
            if taken {
                Run::value((), p)
            } else {
                ask_handle(a, p, Action::ForegroundWindow).and_next(
                    |foreground: isize, p: nat|
                        if foreground != hwnd {
                            ask_done(a, p, alt_tap()).and_next(
                                |u: (), p: nat|
                                    ask_done(a, p, Action::SetForegroundWindow { hwnd }),
                            )
                        } else {
                            Run::value((), p)
                        },
                )
            },
    )
}

/// [`activate_window`]: restores the window where it is minimised, tries to
/// take the foreground, and waits until the window has it.
pub open spec fn activate_window_run(a: Seq<Answer>, p: nat, hwnd: isize) -> PaintTrace<()> {
    ask_flag(a, p, Action::IsIconic { hwnd }).and_next(
        |iconic: bool, p: nat|
            (if iconic {
                ask_done(a, p, Action::ShowWindow { hwnd, command: SW_RESTORE })
            } else {
                Run::value((), p)
            }).and_next(
                |u: (), p: nat|
                    take_foreground_run(a, p, hwnd).and_next(
                        |u: (), p: nat| await_foreground_run(a, p, hwnd, 0),
                    ),
            ),
    )
}

/// Brings the window to the foreground and makes it ready for input.
pub fn activate_window(t: &mut Transcript, hwnd: isize) -> (r: PaintOutcome<()>)
    ensures
        replayed(
            *old(t),
            *final(t),
            r,
            activate_window_run(old(t).answers@, old(t).pos as nat, hwnd),
        ),
{
    let is_iconic = t.flag(Action::IsIconic { hwnd })?;
    if is_iconic {
        t.done(Action::ShowWindow { hwnd, command: SW_RESTORE })?;
    }
    let taken = t.flag(Action::SetForegroundWindow { hwnd })?;
    if !taken {
        let foreground_hwnd = t.handle(Action::ForegroundWindow)?;
        if foreground_hwnd != hwnd {
            t.done(
                Action::Send2(
                    Input::Key(KeyInput { vk: VK_MENU, scan: 0, flags: 0 }),
                    Input::Key(KeyInput { vk: VK_MENU, scan: 0, flags: KEYEVENTF_KEYUP }),
                ),
            )?;
            t.done(Action::SetForegroundWindow { hwnd })?;
        }
    }
    await_foreground(t, hwnd)
}

/// [`PaintManager::launch_paint`]: creates the process of Paint, waits up to
/// 5 s until it is idle, gives its handles back and looks for its window.
pub open spec fn launch_paint_run(a: Seq<Answer>, p: nat) -> PaintTrace<isize> {
    ask_flag(a, p, Action::CreatePaintProcess).and_next(
        |success: bool, p: nat|
            if !success {
                Run::fail(PaintErrorModel::WindowNotFound, p)
            } else {
                ask_done(a, p, Action::WaitForPaintIdle { millis: 5000 }).and_next(
                    |u: (), p: nat|
                        ask_done(a, p, Action::ClosePaintProcess).and_next(
                            |u: (), p: nat|
                                find_paint_window_run(a, p).and_next(
                                    |found: Option<isize>, p: nat|
                                        match found {
                                            Some(hwnd) => Run::value(hwnd, p),
                                            None => Run::fail(PaintErrorModel::WindowNotFound, p),
                                        },
                                ),
                        ),
                )
            },
    )
}

/// The window that [`PaintManager::connect`] adopts: one that is found, or
/// else that of a Paint that is launched; none where the run does not come
/// that far.
pub open spec fn adopted_window(a: Seq<Answer>, p: nat) -> Option<isize> {
    let find = find_paint_window_run(a, p);
    match find.result {
        Ok(Some(hwnd)) => Some(hwnd),
        Ok(None) => match launch_paint_run(a, find.pos).result {
            Ok(hwnd) => Some(hwnd),
            Err(_) => None,
        },
        Err(_) => None,
    }
}

/// [`PaintManager::connect`]: finds the window, or launches Paint and finds
/// it then; activates the window and returns it.
pub open spec fn connect_run(a: Seq<Answer>, p: nat) -> PaintTrace<isize> {
    find_paint_window_run(a, p).and_next(
        |found: Option<isize>, p: nat|
            (match found {
                Some(hwnd) => Run::value(hwnd, p),
                None => launch_paint_run(a, p),
            }).and_next(
                |hwnd: isize, p: nat|
                    activate_window_run(a, p, hwnd).and_next(
                        |u: (), p: nat| Run::value(hwnd, p),
                    ),
            ),
    )
}

/// [`PaintManager::ensure_connected`]: the window of the manager, or the one
/// it connects to.
pub open spec fn ensure_connected_run(window: Option<isize>, a: Seq<Answer>, p: nat) -> PaintTrace<
    isize,
> {
    match window {
        Some(hwnd) => Run::value(hwnd, p),
        None => connect_run(a, p),
    }
}

/// The manager after [`PaintManager::connect`]: connected to the window it
/// adopted, or as it was where it adopted none.
pub open spec fn after_connect(m: PaintManager, a: Seq<Answer>, p: nat) -> PaintManager {
    match adopted_window(a, p) {
        Some(hwnd) => PaintManager::connected_to(hwnd),
        None => m,
    }
}

/// The manager after [`PaintManager::ensure_connected`].
pub open spec fn after_ensure(m: PaintManager, a: Seq<Answer>, p: nat) -> PaintManager {
    match m.window() {
        Some(_) => m,
        None => after_connect(m, a, p),
    }
}

impl PaintManager {
    /// The window that the manager is connected to.
    pub closed spec fn window(self) -> Option<isize> {
        self.window_handle
    }

    /// The manager that is connected to this window.
    pub closed spec fn connected_to(hwnd: isize) -> PaintManager {
        PaintManager { window_handle: Some(hwnd), paint_version: PaintVersion::Modern }
    }

    /// A connected manager has its window, and knows it as that of Windows 11.
    pub proof fn lemma_connected_to(hwnd: isize)
        ensures
            Self::connected_to(hwnd).window() == Some(hwnd),
            Self::connected_to(hwnd).modern(),
    {
    }

    /// Whether the manager knows its window as that of the Paint of Windows 11.
    pub closed spec fn modern(self) -> bool {
        self.paint_version == PaintVersion::Modern
    }

    /// A manager that is not connected.
    pub fn new() -> (m: Self)
        ensures
            m.window() is None,
            !m.modern(),
    {
        PaintManager { window_handle: None, paint_version: PaintVersion::Unknown }
    }

    /// The state of the manager: `connected` with the window's handle, or
    /// `disconnected` with `0x0`.
    pub fn get_status(&self) -> (r: StatusResponse)
        ensures
            r.version@ == "1.0.0"@,
            match self.window() {
                Some(hwnd) => r.status@ == "connected"@ && r.paint_window_handle@ == "HWND("@
                    + decimal(hwnd as int) + ")"@,
                None => r.status@ == "disconnected"@ && r.paint_window_handle@ == "0x0"@,
            },
    {
        let status = if self.window_handle.is_some() {
            "connected"
        } else {
            "disconnected"
        };
        let window_handle = match self.window_handle {
            Some(hwnd) => {
                let number = integer_text(hwnd as i64);
                joined3("HWND(", number.as_str(), ")")
            },
            None => String::from_str("0x0"),
        };
        StatusResponse {
            status: String::from_str(status),
            paint_window_handle: window_handle,
            version: String::from_str("1.0.0"),
        }
    }

    /// The window of the manager, or the error that it has none.
    pub fn get_window_handle(&self) -> (r: Result<isize, PaintError>)
        ensures
            match self.window() {
                Some(hwnd) => r == Ok::<isize, PaintError>(hwnd),
                None => r matches Err(e) && e@ == PaintErrorModel::WindowNotFound,
            },
    {
        match self.window_handle {
            Some(hwnd) => Ok(hwnd),
            None => Err(PaintError::WindowNotFound),
        }
    }

    /// Notes that the window is that of the Paint of Windows 11, the only one
    /// that is supported.
    pub fn detect_paint_version(&mut self)
        ensures
            final(self).modern(),
            final(self).window() == old(self).window(),
    {
        self.paint_version = PaintVersion::Modern;
    }

    /// Launches Paint and finds its window.
    pub fn launch_paint(&self, t: &mut Transcript) -> (r: PaintOutcome<isize>)
        ensures
            replayed(*old(t), *final(t), r, launch_paint_run(old(t).answers@, old(t).pos as nat)),
    {
        let success = t.flag(Action::CreatePaintProcess)?;
        if !success {
            return Err(Halt::Failed(PaintError::WindowNotFound));
        }
        t.done(Action::WaitForPaintIdle { millis: 5000 })?;
        t.done(Action::ClosePaintProcess)?;
        match find_paint_window(t)? {
            Some(hwnd) => Ok(hwnd),
            None => Err(Halt::Failed(PaintError::WindowNotFound)),
        }
    }

    /// Connects to the window of Paint, launching Paint where none runs. The
    /// manager keeps the window from the moment it is found, whether or not
    /// it can be activated.
    pub fn connect(&mut self, t: &mut Transcript) -> (r: PaintOutcome<isize>)
        ensures
            replayed(*old(t), *final(t), r, connect_run(old(t).answers@, old(t).pos as nat)),
            *final(self) == after_connect(*old(self), old(t).answers@, old(t).pos as nat),
    {
        if let Some(hwnd) = find_paint_window(t)? {
            self.window_handle = Some(hwnd);
            self.detect_paint_version();
            activate_window(t, hwnd)?;
            return Ok(hwnd);
        }
        let hwnd = self.launch_paint(t)?;
        self.window_handle = Some(hwnd);
        self.detect_paint_version();
        activate_window(t, hwnd)?;
        Ok(hwnd)
    }

    /// The window of the manager; where it has none, it connects.
    pub fn ensure_connected(&mut self, t: &mut Transcript) -> (r: PaintOutcome<isize>)
        ensures
            replayed(
                *old(t),
                *final(t),
                r,
                ensure_connected_run(old(self).window(), old(t).answers@, old(t).pos as nat),
            ),
            *final(self) == after_ensure(*old(self), old(t).answers@, old(t).pos as nat),
    {
        match self.window_handle {
            Some(hwnd) => Ok(hwnd),
            None => self.connect(t),
        }
    }
}


/// `MOUSEEVENTF_ABSOLUTE | MOUSEEVENTF_LEFTDOWN`
pub const ABSOLUTE_LEFTDOWN: u32 = 0x8002;

/// `MOUSEEVENTF_ABSOLUTE | MOUSEEVENTF_LEFTUP`
pub const ABSOLUTE_LEFTUP: u32 = 0x8004;

/// A result of the manager as the outcome of an operation.
pub fn lift<T>(r: Result<T, PaintError>) -> (o: PaintOutcome<T>)
    ensures
        match r {
            Ok(v) => o == Ok::<T, Halt<PaintError>>(v),
            Err(e) => o matches Err(Halt::Failed(x)) && x == e,
        },
{
    match r {
        Ok(v) => Ok(v),
        Err(e) => Err(Halt::Failed(e)),
    }
}

/// The window of a manager, or the failure that it has none.
pub open spec fn window_run(m: PaintManager, p: nat) -> PaintTrace<isize> {
    match m.window() {
        Some(hwnd) => Run::value(hwnd, p),
        None => Run::fail(PaintErrorModel::WindowNotFound, p),
    }
}

/// [`PaintManager::simulate_click`]: asks for the size of the screen, scales
/// the position to it, and sends the left button down and up there; unless
/// both were injected the drawing failed. Then waits 50 ms.
pub open spec fn simulate_click_run(a: Seq<Answer>, p: nat, x: i32, y: i32) -> PaintTrace<()> {
    ask_number(a, p, Action::ScreenWidth).and_next(
        |screen_width: i32, p: nat|
            ask_number(a, p, Action::ScreenHeight).and_next(
                |screen_height: i32, p: nat|
                    Run::of(normalized(x, screen_width), p).and_next(
                        |norm_x: i32, p: nat|
                            Run::of(normalized(y, screen_height), p).and_next(
                                |norm_y: i32, p: nat| click_sent_run(a, p, norm_x, norm_y),
                            ),
                    ),
            ),
    )
}

/// The second half of [`PaintManager::simulate_click`]: the two events.
pub open spec fn click_sent_run(a: Seq<Answer>, p: nat, norm_x: i32, norm_y: i32) -> PaintTrace<()> {
    ask_count(
        a,
        p,
        Action::Send2(
            Input::Mouse(MouseInput { dx: norm_x, dy: norm_y, flags: ABSOLUTE_LEFTDOWN }),
            Input::Mouse(MouseInput { dx: norm_x, dy: norm_y, flags: ABSOLUTE_LEFTUP }),
        ),
    ).and_next(
        |sent: u32, p: nat|
            if sent == 2 {
                ask_done(a, p, Action::Sleep { millis: 50 })
            } else {
                Run::fail(PaintErrorModel::DrawingOperationFailed, p)
            },
    )
}

/// [`PaintManager::simulate_mouse_event`]: converts the point to the screen,
/// and keeps it as it is where that fails; asks for the size of the screen,
/// scales the point to it, and sends one absolute event with these flags;
/// unless it was injected the drawing failed. Then waits 10 ms.
pub open spec fn simulate_mouse_event_run(
    a: Seq<Answer>,
    p: nat,
    hwnd: isize,
    x: i32,
    y: i32,
    flags: u32,
) -> PaintTrace<()> {
    ask_position(a, p, Action::ClientToScreen { hwnd, x, y }).and_next(
        |at: Option<Position>, p: nat|
            {
                let point = match at {
                    Some(at) => at,
                    None => Position { x, y },
                };
                ask_number(a, p, Action::ScreenWidth).and_next(
                    |screen_width: i32, p: nat|
                        ask_number(a, p, Action::ScreenHeight).and_next(
                            |screen_height: i32, p: nat|
                                Run::of(normalized(point.x, screen_width), p).and_next(
                                    |norm_x: i32, p: nat|
                                        Run::of(normalized(point.y, screen_height), p).and_next(
                                            |norm_y: i32, p: nat|
                                                event_sent_run(a, p, norm_x, norm_y, flags),
                                        ),
                                ),
                        ),
                )
            },
    )
}

/// The second half of [`PaintManager::simulate_mouse_event`]: the event.
pub open spec fn event_sent_run(a: Seq<Answer>, p: nat, norm_x: i32, norm_y: i32, flags: u32) -> PaintTrace<
    (),
> {
    ask_count(
        a,
        p,
        Action::Send1(
            Input::Mouse(MouseInput { dx: norm_x, dy: norm_y, flags: flags | MOUSEEVENTF_ABSOLUTE }),
        ),
    ).and_next(
        |sent: u32, p: nat|
            if sent == 1 {
                ask_done(a, p, Action::Sleep { millis: 10 })
            } else {
                Run::fail(PaintErrorModel::DrawingOperationFailed, p)
            },
    )
}

/// [`PaintManager::simulate_mouse_line`]: activates the window, presses the
/// left button at the start, moves to the end and releases the button there.
pub open spec fn simulate_mouse_line_run(
    a: Seq<Answer>,
    p: nat,
    hwnd: isize,
    start_x: i32,
    start_y: i32,
    end_x: i32,
    end_y: i32,
) -> PaintTrace<()> {
    activate_window_run(a, p, hwnd).and_next(
        |u: (), p: nat|
            simulate_mouse_event_run(a, p, hwnd, start_x, start_y, MOUSEEVENTF_LEFTDOWN).and_next(
                |u: (), p: nat|
                    simulate_mouse_event_run(a, p, hwnd, end_x, end_y, MOUSEEVENTF_MOVE).and_next(
                        |u: (), p: nat|
                            simulate_mouse_event_run(a, p, hwnd, end_x, end_y, MOUSEEVENTF_LEFTUP),
                    ),
            ),
    )
}

/// The canvas inside a window: 15 in from the left, the right and the bottom,
/// and 100 down from the top.
pub open spec fn canvas_inside<E>(rect: Rect) -> Result<Rect, Halt<E>> {
    match fit_i32::<E>(rect.left + 15) {
        Ok(left) => match fit_i32::<E>(rect.top + 100) {
            Ok(top) => match fit_i32::<E>(rect.right - 15) {
                Ok(right) => match fit_i32::<E>(rect.bottom - 15) {
                    Ok(bottom) => Ok(Rect { left, top, right, bottom }),
                    Err(h) => Err(h),
                },
                Err(h) => Err(h),
            },
            Err(h) => Err(h),
        },
        Err(h) => Err(h),
    }
}

/// The canvas inside a window.
pub fn canvas_of<E>(rect: Rect) -> (r: Result<Rect, Halt<E>>)
    ensures
        r == canvas_inside::<E>(rect),
{
    let left = plus(rect.left, 15)?;
    let top = plus(rect.top, 100)?;
    let right = minus(rect.right, 15)?;
    let bottom = minus(rect.bottom, 15)?;
    Ok(Rect { left, top, right, bottom })
}

/// [`PaintManager::get_canvas_rect`]: reads the rectangle of the window and
/// returns the canvas inside it.
pub open spec fn get_canvas_rect_run(a: Seq<Answer>, p: nat, hwnd: isize) -> PaintTrace<Rect> {
    ask_rect(a, p, Action::WindowRect { hwnd }).and_next(
        |rect: Option<Rect>, p: nat|
            match rect {
                Some(rect) => Run::of(canvas_inside(rect), p),
                None => Run::fail(PaintErrorModel::CanvasPositionError, p),
            },
    )
}

/// The rectangle of the window, or this error.
pub open spec fn rect_or_run(a: Seq<Answer>, p: nat, hwnd: isize, error: PaintErrorModel) -> PaintTrace<
    Rect,
> {
    ask_rect(a, p, Action::WindowRect { hwnd }).and_next(
        |rect: Option<Rect>, p: nat|
            match rect {
                Some(rect) => Run::value(rect, p),
                None => Run::fail(error, p),
            },
    )
}

/// The rectangle of the window, or this error.
pub fn rect_or(t: &mut Transcript, hwnd: isize, error: PaintError) -> (r: PaintOutcome<Rect>)
    ensures
        replayed(
            *old(t),
            *final(t),
            r,
            rect_or_run(old(t).answers@, old(t).pos as nat, hwnd, error@),
        ),
{
    match t.rect(Action::WindowRect { hwnd })? {
        Some(rect) => Ok(rect),
        None => Err(Halt::Failed(error)),
    }
}

/// Where a tool lies in the toolbar, from the left of the window: 20, and 60
/// for each menu, 50 for each group and 40 for each item before it.
pub open spec fn toolbar_x<E>(left: i32, menu: i32, group: i32, item: i32) -> Result<i32, Halt<E>> {
    match fit_i32::<E>(left + 20) {
        Ok(base) => match fit_i32::<E>(menu * 60) {
            Ok(menus) => match fit_i32::<E>(base + menus) {
                Ok(at_menu) => match fit_i32::<E>(group * 50) {
                    Ok(groups) => match fit_i32::<E>(at_menu + groups) {
                        Ok(at_group) => match fit_i32::<E>(item * 40) {
                            Ok(items) => fit_i32::<E>(at_group + items),
                            Err(h) => Err(h),
                        },
                        Err(h) => Err(h),
                    },
                    Err(h) => Err(h),
                },
                Err(h) => Err(h),
            },
            Err(h) => Err(h),
        },
        Err(h) => Err(h),
    }
}

/// Where a tool lies in the toolbar, from the left of the window.
pub fn toolbar_position<E>(left: i32, menu: i32, group: i32, item: i32) -> (r: Result<i32, Halt<E>>)
    ensures
        r == toolbar_x::<E>(left, menu, group, item),
{
    let base = plus(left, 20)?;
    let menus = times(menu, 60)?;
    let at_menu = plus(base, menus)?;
    let groups = times(group, 50)?;
    let at_group = plus(at_menu, groups)?;
    let items = times(item, 40)?;
    plus(at_group, items)
}

/// [`PaintManager::select_modern_tool`]: activates the window of the manager
/// and reads its rectangle; sends the left button down and up at the place of
/// the tool, 50 below the top of the window; unless both were injected the
/// selection failed. Then waits 100 ms.
pub open spec fn select_modern_tool_run(
    m: PaintManager,
    a: Seq<Answer>,
    p: nat,
    menu: i32,
    group: i32,
    item: i32,
) -> PaintTrace<()> {
    window_run(m, p).and_next(
        |hwnd: isize, p: nat|
            activate_window_run(a, p, hwnd).and_next(
                |u: (), p: nat|
                    rect_or_run(a, p, hwnd, PaintErrorModel::ToolSelectionFailed).and_next(
                        |rect: Rect, p: nat|
                            Run::of(fit_i32(rect.top + 50), p).and_next(
                                |y_pos: i32, p: nat|
                                    Run::of(toolbar_x(rect.left, menu, group, item), p).and_next(
                                        |x_pos: i32, p: nat| tool_clicked_run(a, p, x_pos, y_pos),
                                    ),
                            ),
                    ),
            ),
    )
}

/// The second half of [`PaintManager::select_modern_tool`]: the two events.
pub open spec fn tool_clicked_run(a: Seq<Answer>, p: nat, x_pos: i32, y_pos: i32) -> PaintTrace<()> {
    ask_count(
        a,
        p,
        Action::Send2(
            Input::Mouse(MouseInput { dx: x_pos, dy: y_pos, flags: ABSOLUTE_LEFTDOWN }),
            Input::Mouse(MouseInput { dx: x_pos, dy: y_pos, flags: ABSOLUTE_LEFTUP }),
        ),
    ).and_next(
        |sent: u32, p: nat|
            if sent != 2 {
                Run::fail(PaintErrorModel::ToolSelectionFailed, p)
            } else {
                ask_done(a, p, Action::Sleep { millis: 100 })
            },
    )
}

/// The group and the item of a tool in the toolbar.
pub open spec fn tool_place(tool: Seq<char>) -> Option<(i32, i32)> {
    if tool == "pencil"@ {
        Some((1, 1))
    } else if tool == "brush"@ {
        Some((1, 2))
    } else if tool == "fill"@ {
        Some((1, 6))
    } else if tool == "text"@ {
        Some((2, 1))
    } else if tool == "eraser"@ {
        Some((1, 3))
    } else if tool == "select"@ {
        Some((3, 1))
    } else if tool == "shape"@ {
        Some((2, 2))
    } else {
        None
    }
}

/// The group and the item of a tool in the toolbar; `None` for a name that
/// is no tool's.
pub fn place_of_tool(tool: &str) -> (r: Option<(i32, i32)>)
    ensures
        r == tool_place(tool@),
{
    if same_text(tool, "pencil") {
        Some((1, 1))
    } else if same_text(tool, "brush") {
        Some((1, 2))
    } else if same_text(tool, "fill") {
        Some((1, 6))
    } else if same_text(tool, "text") {
        Some((2, 1))
    } else if same_text(tool, "eraser") {
        Some((1, 3))
    } else if same_text(tool, "select") {
        Some((3, 1))
    } else if same_text(tool, "shape") {
        Some((2, 2))
    } else {
        None
    }
}

/// [`PaintManager::select_tool`]: fails where the manager has no window, or
/// knows it not as that of Windows 11; refuses an unknown tool; else selects
/// the tool at its place in the first menu.
pub open spec fn select_tool_run(m: PaintManager, a: Seq<Answer>, p: nat, tool: Seq<char>) -> PaintTrace<
    (),
> {
    window_run(m, p).and_next(
        |hwnd: isize, p: nat|
            if !m.modern() {
                Run::fail(PaintErrorModel::ToolSelectionFailed, p)
            } else {
                match tool_place(tool) {
                    Some(place) => select_modern_tool_run(m, a, p, 0, place.0, place.1),
                    None => Run::fail(
                        PaintErrorModel::InvalidParameterError("Unknown tool: "@ + tool),
                        p,
                    ),
                }
            },
    )
}

/// Whether a thickness is one of the five that Paint offers.
pub open spec fn is_thickness(thickness: u32) -> bool {
    1 <= thickness <= 5
}

/// [`PaintManager::set_thickness`]: refuses a thickness outside 1 to 5. Else
/// reads the rectangle of the manager's window, clicks on the size button,
/// 150 left of the right edge and 120 below the top, waits 200 ms, clicks on
/// the option, 40 below the button and 30 further for each step of
/// thickness, and waits 100 ms.
pub open spec fn set_thickness_run(m: PaintManager, a: Seq<Answer>, p: nat, thickness: u32) -> PaintTrace<
    (),
> {
    if !is_thickness(thickness) {
        Run::fail(
            PaintErrorModel::InvalidParameterError(
                "Thickness must be between 1 and 5, got "@ + decimal(thickness as int),
            ),
            p,
        )
    } else {
        window_run(m, p).and_next(
            |hwnd: isize, p: nat|
                rect_or_run(a, p, hwnd, PaintErrorModel::ToolSelectionFailed).and_next(
                    |rect: Rect, p: nat|
                        Run::of(fit_i32(rect.right - 150), p).and_next(
                            |size_button_x: i32, p: nat|
                                Run::of(fit_i32(rect.top + 120), p).and_next(
                                    |size_button_y: i32, p: nat|
                                        thickness_chosen_run(
                                            a,
                                            p,
                                            size_button_x,
                                            size_button_y,
                                            thickness,
                                        ),
                                ),
                        ),
                ),
        )
    }
}

/// The second half of [`PaintManager::set_thickness`]: the two clicks.
pub open spec fn thickness_chosen_run(
    a: Seq<Answer>,
    p: nat,
    size_button_x: i32,
    size_button_y: i32,
    thickness: u32,
) -> PaintTrace<()> {
    simulate_click_run(a, p, size_button_x, size_button_y).and_next(
        |u: (), p: nat|
            ask_done(a, p, Action::Sleep { millis: 200 }).and_next(
                |u: (), p: nat|
                    Run::of(fit_i32(size_button_y + 40), p).and_next(
                        |below: i32, p: nat|
                            Run::of(fit_i32(below + (thickness - 1) * 30), p).and_next(
                                |option_y: i32, p: nat|
                                    simulate_click_run(a, p, size_button_x, option_y).and_next(
                                        |u: (), p: nat|
                                            ask_done(a, p, Action::Sleep { millis: 100 }),
                                    ),
                            ),
                    ),
            ),
    )
}

/// [`PaintManager::select_shape_option`]: reads the rectangle of the
/// manager's window, selects the shape tool and waits 200 ms; clicks on the
/// shape, 100 below the top and 60 from the left plus 50 for each shape
/// before it, and waits 200 ms; clicks on the fill toggle, 100 left of the
/// right edge and 150 below the top, and waits 200 ms; clicks on the option
/// below the toggle, 40 for filled and 80 for outline, and waits 100 ms.
pub open spec fn select_shape_option_run(
    m: PaintManager,
    a: Seq<Answer>,
    p: nat,
    shape_index: i32,
    filled: bool,
) -> PaintTrace<()> {
    window_run(m, p).and_next(
        |hwnd: isize, p: nat|
            rect_or_run(a, p, hwnd, PaintErrorModel::ToolSelectionFailed).and_next(
                |rect: Rect, p: nat|
                    select_modern_tool_run(m, a, p, 0, 2, 2).and_next(
                        |u: (), p: nat|
                            ask_done(a, p, Action::Sleep { millis: 200 }).and_next(
                                |u: (), p: nat|
                                    shape_clicked_run(a, p, rect, shape_index).and_next(
                                        |u: (), p: nat| fill_chosen_run(a, p, rect, filled),
                                    ),
                            ),
                    ),
            ),
    )
}

/// The click on the shape in [`PaintManager::select_shape_option`].
pub open spec fn shape_clicked_run(a: Seq<Answer>, p: nat, rect: Rect, shape_index: i32) -> PaintTrace<
    (),
> {
    Run::of(fit_i32(rect.top + 100), p).and_next(
        |shape_y: i32, p: nat|
            Run::of(fit_i32(rect.left + 60), p).and_next(
                |first: i32, p: nat|
                    Run::of(fit_i32(shape_index * 50), p).and_next(
                        |offset: i32, p: nat|
                            Run::of(fit_i32(first + offset), p).and_next(
                                |shape_x: i32, p: nat|
                                    simulate_click_run(a, p, shape_x, shape_y).and_next(
                                        |u: (), p: nat|
                                            ask_done(a, p, Action::Sleep { millis: 200 }),
                                    ),
                            ),
                    ),
            ),
    )
}

/// The choice of fill or outline in [`PaintManager::select_shape_option`].
pub open spec fn fill_chosen_run(a: Seq<Answer>, p: nat, rect: Rect, filled: bool) -> PaintTrace<()> {
    Run::of(fit_i32(rect.right - 100), p).and_next(
        |fill_toggle_x: i32, p: nat|
            Run::of(fit_i32(rect.top + 150), p).and_next(
                |fill_toggle_y: i32, p: nat|
                    simulate_click_run(a, p, fill_toggle_x, fill_toggle_y).and_next(
                        |u: (), p: nat|
                            ask_done(a, p, Action::Sleep { millis: 200 }).and_next(
                                |u: (), p: nat|
                                    Run::of(
                                        fit_i32(
                                            fill_toggle_y + (if filled {
                                                40int
                                            } else {
                                                80int
                                            }),
                                        ),
                                        p,
                                    ).and_next(
                                        |option_y: i32, p: nat|
                                            simulate_click_run(
                                                a,
                                                p,
                                                fill_toggle_x,
                                                option_y,
                                            ).and_next(
                                                |u: (), p: nat|
                                                    ask_done(a, p, Action::Sleep { millis: 100 }),
                                            ),
                                    ),
                            ),
                    ),
            ),
    )
}

impl PaintManager {
    /// Clicks the left button at a position of the screen.
    pub fn simulate_click(&self, t: &mut Transcript, x: i32, y: i32) -> (r: PaintOutcome<()>)
        ensures
            replayed(
                *old(t),
                *final(t),
                r,
                simulate_click_run(old(t).answers@, old(t).pos as nat, x, y),
            ),
    {
        let screen_width = t.number(Action::ScreenWidth)?;
        let screen_height = t.number(Action::ScreenHeight)?;
        let norm_x = normalize(x, screen_width)?;
        let norm_y = normalize(y, screen_height)?;
        let sent = t.count(
            Action::Send2(
                Input::Mouse(MouseInput { dx: norm_x, dy: norm_y, flags: ABSOLUTE_LEFTDOWN }),
                Input::Mouse(MouseInput { dx: norm_x, dy: norm_y, flags: ABSOLUTE_LEFTUP }),
            ),
        )?;
        if sent == 2 {
            t.sleep(50)
        } else {
            Err(Halt::Failed(PaintError::DrawingOperationFailed))
        }
    }

    /// Sends one mouse event at a point of the window's client area.
    pub fn simulate_mouse_event(&self, t: &mut Transcript, hwnd: isize, x: i32, y: i32, flags: u32) -> (r:
        PaintOutcome<()>)
        ensures
            replayed(
                *old(t),
                *final(t),
                r,
                simulate_mouse_event_run(old(t).answers@, old(t).pos as nat, hwnd, x, y, flags),
            ),
    {
        let point = match t.position(Action::ClientToScreen { hwnd, x, y })? {
            Some(at) => at,
            None => Position { x, y },
        };
        let screen_width = t.number(Action::ScreenWidth)?;
        let screen_height = t.number(Action::ScreenHeight)?;
        let norm_x = normalize(point.x, screen_width)?;
        let norm_y = normalize(point.y, screen_height)?;
        let sent = t.count(
            Action::Send1(
                Input::Mouse(
                    MouseInput { dx: norm_x, dy: norm_y, flags: flags | MOUSEEVENTF_ABSOLUTE },
                ),
            ),
        )?;
        if sent == 1 {
            t.sleep(10)
        } else {
            Err(Halt::Failed(PaintError::DrawingOperationFailed))
        }
    }

    /// Drags the mouse with the left button held, between two points of the
    /// window's client area.
    pub fn simulate_mouse_line(
        &self,
        t: &mut Transcript,
        hwnd: isize,
        start_x: i32,
        start_y: i32,
        end_x: i32,
        end_y: i32,
    ) -> (r: PaintOutcome<()>)
        ensures
            replayed(
                *old(t),
                *final(t),
                r,
                simulate_mouse_line_run(
                    old(t).answers@,
                    old(t).pos as nat,
                    hwnd,
                    start_x,
                    start_y,
                    end_x,
                    end_y,
                ),
            ),
    {
        activate_window(t, hwnd)?;
        self.simulate_mouse_event(t, hwnd, start_x, start_y, MOUSEEVENTF_LEFTDOWN)?;
        self.simulate_mouse_event(t, hwnd, end_x, end_y, MOUSEEVENTF_MOVE)?;
        self.simulate_mouse_event(t, hwnd, end_x, end_y, MOUSEEVENTF_LEFTUP)
    }

    /// The rectangle of the canvas on the screen.
    pub fn get_canvas_rect(&self, t: &mut Transcript, hwnd: isize) -> (r: PaintOutcome<Rect>)
        ensures
            replayed(
                *old(t),
                *final(t),
                r,
                get_canvas_rect_run(old(t).answers@, old(t).pos as nat, hwnd),
            ),
    {
        match t.rect(Action::WindowRect { hwnd })? {
            Some(rect) => canvas_of(rect),
            None => Err(Halt::Failed(PaintError::CanvasPositionError)),
        }
    }

    /// Activates the window. See [`activate_window`].
    pub fn activate_window(&self, t: &mut Transcript, hwnd: isize) -> (r: PaintOutcome<()>)
        ensures
            replayed(
                *old(t),
                *final(t),
                r,
                activate_window_run(old(t).answers@, old(t).pos as nat, hwnd),
            ),
    {
        activate_window(t, hwnd)
    }

    /// Selects a tool by its place in the toolbar of the Paint of Windows 11.
    pub fn select_modern_tool(&self, t: &mut Transcript, menu: i32, group: i32, item: i32) -> (r:
        PaintOutcome<()>)
        ensures
            replayed(
                *old(t),
                *final(t),
                r,
                select_modern_tool_run(
                    *self,
                    old(t).answers@,
                    old(t).pos as nat,
                    menu,
                    group,
                    item,
                ),
            ),
    {
        let hwnd = lift(self.get_window_handle())?;
        activate_window(t, hwnd)?;
        let rect = rect_or(t, hwnd, PaintError::ToolSelectionFailed)?;
        let toolbar_top = plus(rect.top, 50)?;
        let x_pos = toolbar_position(rect.left, menu, group, item)?;
        let y_pos = toolbar_top;
        let sent = t.count(
            Action::Send2(
                Input::Mouse(MouseInput { dx: x_pos, dy: y_pos, flags: ABSOLUTE_LEFTDOWN }),
                Input::Mouse(MouseInput { dx: x_pos, dy: y_pos, flags: ABSOLUTE_LEFTUP }),
            ),
        )?;
        if sent != 2 {
            return Err(Halt::Failed(PaintError::ToolSelectionFailed));
        }
        t.sleep(100)
    }

    /// Selects a drawing tool: `pencil`, `brush`, `fill`, `text`, `eraser`,
    /// `select` or `shape`.
    pub fn select_tool(&mut self, t: &mut Transcript, tool: &str) -> (r: PaintOutcome<()>)
        ensures
            *final(self) == *old(self),
            replayed(
                *old(t),
                *final(t),
                r,
                select_tool_run(*old(self), old(t).answers@, old(t).pos as nat, tool@),
            ),
    {
        let hwnd = lift(self.get_window_handle())?;
        match self.paint_version {
            PaintVersion::Modern => {
                match place_of_tool(tool) {
                    Some(place) => self.select_modern_tool(t, 0, place.0, place.1),
                    None => Err(
                        Halt::Failed(
                            PaintError::InvalidParameterError(joined("Unknown tool: ", tool)),
                        ),
                    ),
                }
            },
            _ => Err(Halt::Failed(PaintError::ToolSelectionFailed)),
        }
    }

    /// Sets the thickness of lines, 1 to 5.
    pub fn set_thickness(&self, t: &mut Transcript, thickness: u32) -> (r: PaintOutcome<()>)
        ensures
            replayed(
                *old(t),
                *final(t),
                r,
                set_thickness_run(*self, old(t).answers@, old(t).pos as nat, thickness),
            ),
    {
        if thickness == 0 || thickness > 5 {
            let got = integer_text(thickness as i64);
            return Err(
                Halt::Failed(
                    PaintError::InvalidParameterError(
                        joined("Thickness must be between 1 and 5, got ", got.as_str()),
                    ),
                ),
            );
        }
        let hwnd = lift(self.get_window_handle())?;
        let rect = rect_or(t, hwnd, PaintError::ToolSelectionFailed)?;
        let size_button_x = minus(rect.right, 150)?;
        let size_button_y = plus(rect.top, 120)?;
        self.simulate_click(t, size_button_x, size_button_y)?;
        t.sleep(200)?;
        let below = plus(size_button_y, 40)?;
        let thickness_option_y = plus(below, (thickness as i32 - 1) * 30)?;
        self.simulate_click(t, size_button_x, thickness_option_y)?;
        t.sleep(100)
    }

    /// Selects a shape, and whether it is drawn filled or in outline.
    pub fn select_shape_option(&self, t: &mut Transcript, shape_index: i32, filled: bool) -> (r:
        PaintOutcome<()>)
        ensures
            replayed(
                *old(t),
                *final(t),
                r,
                select_shape_option_run(
                    *self,
                    old(t).answers@,
                    old(t).pos as nat,
                    shape_index,
                    filled,
                ),
            ),
    {
        let hwnd = lift(self.get_window_handle())?;
        let rect = rect_or(t, hwnd, PaintError::ToolSelectionFailed)?;
        self.select_modern_tool(t, 0, 2, 2)?;
        t.sleep(200)?;
        let shape_panel_top = plus(rect.top, 100)?;
        let first = plus(rect.left, 60)?;
        let offset = times(shape_index, 50)?;
        let shape_x = plus(first, offset)?;
        let shape_y = shape_panel_top;
        self.simulate_click(t, shape_x, shape_y)?;
        t.sleep(200)?;
        let fill_toggle_x = minus(rect.right, 100)?;
        let fill_toggle_y = plus(rect.top, 150)?;
        self.simulate_click(t, fill_toggle_x, fill_toggle_y)?;
        t.sleep(200)?;
        let option_y = if filled {
            plus(fill_toggle_y, 40)?
        } else {
            plus(fill_toggle_y, 80)?
        };
        self.simulate_click(t, fill_toggle_x, option_y)?;
        t.sleep(100)
    }
}


/// One component of a colour `#RRGGBB`: the two bytes from `from` on, read as
/// a number in hexadecimal digits. It is a fault where these bytes are not
/// whole characters, and fails with `text` where they are no such number.
pub open spec fn component_run(color: Seq<char>, p: nat, from: int, text: Seq<char>) -> PaintTrace<
    u8,
> {
    match byte_slice(color, from, from + 2) {
        None => Run::fault(Fault::Slice, p),
        Some(part) => match parsed_hex_u8(part) {
            Some(v) => Run::value(v, p),
            None => Run::fail(PaintErrorModel::InvalidParameterError(text), p),
        },
    }
}

/// One component of a colour `#RRGGBB`.
pub fn component(color: &Vec<char>, from: usize, text: &str) -> (r: PaintOutcome<u8>)
    requires
        from <= 5,
    ensures
        forall|p: nat|
            crate::desktop::seen(r) == (#[trigger] component_run(
                color@,
                p,
                from as int,
                text@,
            )).result,
{
    match slice_bytes(color, from, from + 2) {
        None => Err(Halt::Fault(Fault::Slice)),
        Some(part) => {
            let digits = text_of(&part);
            match parse_hex_u8(digits.as_str()) {
                Some(v) => Ok(v),
                None => Err(Halt::Failed(invalid_parameter(text))),
            }
        },
    }
}

/// The cell of the colour panel that stands for a colour: 1 for red, 2 for
/// green, 3 for blue, 4 for yellow, 5 for magenta, 6 for cyan, 7 for white,
/// and 0, that of black, for every other colour. A component counts as set
/// above 200 and as clear below 100.
pub open spec fn palette_cell(r: u8, g: u8, b: u8) -> i32 {
    if r > 200 && g < 100 && b < 100 {
        1
    } else if r < 100 && g > 200 && b < 100 {
        2
    } else if r < 100 && g < 100 && b > 200 {
        3
    } else if r > 200 && g > 200 && b < 100 {
        4
    } else if r > 200 && g < 100 && b > 200 {
        5
    } else if r < 100 && g > 200 && b > 200 {
        6
    } else if r > 200 && g > 200 && b > 200 {
        7
    } else {
        0
    }
}

/// The cell of the colour panel that stands for a colour.
pub fn palette_index(r: u8, g: u8, b: u8) -> (index: i32)
    ensures
        index == palette_cell(r, g, b),
{
    if r > 200 && g < 100 && b < 100 {
        1
    } else if r < 100 && g > 200 && b < 100 {
        2
    } else if r < 100 && g < 100 && b > 200 {
        3
    } else if r > 200 && g > 200 && b < 100 {
        4
    } else if r > 200 && g < 100 && b > 200 {
        5
    } else if r < 100 && g > 200 && b > 200 {
        6
    } else if r > 200 && g > 200 && b > 200 {
        7
    } else {
        0
    }
}

/// The cells in one row of the colour panel.
pub const COLORS_PER_ROW: i32 = 4;

/// The width of a cell of the colour panel.
pub const COLOR_CELL_WIDTH: i32 = 45;

/// The height of a cell of the colour panel.
pub const COLOR_CELL_HEIGHT: i32 = 40;

/// The middle of a cell of the colour panel, for a panel that opens below
/// this colour button: the panel begins 50 to the left of the button and 30
/// below it, and has four cells in a row.
pub open spec fn cell_middle<E>(button_x: i32, button_y: i32, index: i32) -> Result<
    (i32, i32),
    Halt<E>,
> {
    let col = index % COLORS_PER_ROW;
    let row = index / COLORS_PER_ROW;
    match fit_i32::<E>(button_x - 50) {
        Ok(left) => match fit_i32::<E>(button_y + 30) {
            Ok(top) => match fit_i32::<E>(left + col * COLOR_CELL_WIDTH) {
                Ok(cell_x) => match fit_i32::<E>(cell_x + COLOR_CELL_WIDTH / 2) {
                    Ok(x) => match fit_i32::<E>(top + row * COLOR_CELL_HEIGHT) {
                        Ok(cell_y) => match fit_i32::<E>(cell_y + COLOR_CELL_HEIGHT / 2) {
                            Ok(y) => Ok((x, y)),
                            Err(h) => Err(h),
                        },
                        Err(h) => Err(h),
                    },
                    Err(h) => Err(h),
                },
                Err(h) => Err(h),
            },
            Err(h) => Err(h),
        },
        Err(h) => Err(h),
    }
}

/// The middle of a cell of the colour panel.
pub fn cell_position<E>(button_x: i32, button_y: i32, index: i32) -> (r: Result<(i32, i32), Halt<E>>)
    requires
        0 <= index <= 7,
    ensures
        r == cell_middle::<E>(button_x, button_y, index),
{
    let color_row = index / COLORS_PER_ROW;
    let color_col = index % COLORS_PER_ROW;
    let color_panel_left = minus(button_x, 50)?;
    let color_panel_top = plus(button_y, 30)?;
    let cell_x = plus(color_panel_left, color_col * COLOR_CELL_WIDTH)?;
    let color_x = plus(cell_x, COLOR_CELL_WIDTH / 2)?;
    let cell_y = plus(color_panel_top, color_row * COLOR_CELL_HEIGHT)?;
    let color_y = plus(cell_y, COLOR_CELL_HEIGHT / 2)?;
    Ok((color_x, color_y))
}

/// [`PaintManager::set_color`]: refuses a text that has not the form of a
/// colour, then one whose red, green or blue is no number. Else activates
/// the manager's window and reads its rectangle; clicks on the colour button,
/// 300 from the left and 50 below the top, and waits 200 ms; clicks on the
/// cell of the colour, and waits 100 ms.
pub open spec fn set_color_run(m: PaintManager, a: Seq<Answer>, p: nat, color: Seq<char>) -> PaintTrace<
    (),
> {
    if !is_color_form(color) {
        Run::fail(PaintErrorModel::InvalidParameterError("Color must be in #RRGGBB format"@), p)
    } else {
        component_run(color, p, 1, "Invalid red component"@).and_next(
            |r: u8, p: nat|
                component_run(color, p, 3, "Invalid green component"@).and_next(
                    |g: u8, p: nat|
                        component_run(color, p, 5, "Invalid blue component"@).and_next(
                            |b: u8, p: nat| pick_color_run(m, a, p, palette_cell(r, g, b)),
                        ),
                ),
        )
    }
}

/// The second half of [`PaintManager::set_color`], from the window on.
pub open spec fn pick_color_run(m: PaintManager, a: Seq<Answer>, p: nat, index: i32) -> PaintTrace<
    (),
> {
    window_run(m, p).and_next(
        |hwnd: isize, p: nat|
            activate_window_run(a, p, hwnd).and_next(
                |u: (), p: nat|
                    rect_or_run(a, p, hwnd, PaintErrorModel::ColorSelectionFailed).and_next(
                        |rect: Rect, p: nat|
                            Run::of(fit_i32(rect.left + 300), p).and_next(
                                |button_x: i32, p: nat|
                                    Run::of(fit_i32(rect.top + 50), p).and_next(
                                        |button_y: i32, p: nat|
                                            cell_clicked_run(a, p, button_x, button_y, index),
                                    ),
                            ),
                    ),
            ),
    )
}

/// The two clicks of [`PaintManager::set_color`].
pub open spec fn cell_clicked_run(
    a: Seq<Answer>,
    p: nat,
    button_x: i32,
    button_y: i32,
    index: i32,
) -> PaintTrace<()> {
    simulate_click_run(a, p, button_x, button_y).and_next(
        |u: (), p: nat|
            ask_done(a, p, Action::Sleep { millis: 200 }).and_next(
                |u: (), p: nat|
                    Run::of(cell_middle(button_x, button_y, index), p).and_next(
                        |at: (i32, i32), p: nat|
                            simulate_click_run(a, p, at.0, at.1).and_next(
                                |u: (), p: nat| ask_done(a, p, Action::Sleep { millis: 100 }),
                            ),
                    ),
            ),
    )
}

/// The optional setting of a colour.
pub open spec fn maybe_color_run(
    m: PaintManager,
    a: Seq<Answer>,
    p: nat,
    color: Option<Seq<char>>,
) -> PaintTrace<()> {
    match color {
        Some(color) => set_color_run(m, a, p, color),
        None => Run::value((), p),
    }
}

/// What the drawing operations do first: they select the tool, set the colour
/// and set the thickness.
pub open spec fn prepare_run(
    m: PaintManager,
    a: Seq<Answer>,
    p: nat,
    color: Seq<char>,
    thickness: u32,
) -> PaintTrace<()> {
    set_color_run(m, a, p, color).and_next(|u: (), p: nat| set_thickness_run(m, a, p, thickness))
}

/// A line on the canvas: reads the canvas, and drags the mouse between the
/// two points, each moved by the canvas's left and top.
pub open spec fn canvas_line_run(
    a: Seq<Answer>,
    p: nat,
    hwnd: isize,
    start_x: i32,
    start_y: i32,
    end_x: i32,
    end_y: i32,
) -> PaintTrace<()> {
    get_canvas_rect_run(a, p, hwnd).and_next(
        |canvas: Rect, p: nat|
            Run::of(fit_i32(start_x + canvas.left), p).and_next(
                |from_x: i32, p: nat|
                    Run::of(fit_i32(start_y + canvas.top), p).and_next(
                        |from_y: i32, p: nat|
                            Run::of(fit_i32(end_x + canvas.left), p).and_next(
                                |to_x: i32, p: nat|
                                    Run::of(fit_i32(end_y + canvas.top), p).and_next(
                                        |to_y: i32, p: nat|
                                            simulate_mouse_line_run(
                                                a,
                                                p,
                                                hwnd,
                                                from_x,
                                                from_y,
                                                to_x,
                                                to_y,
                                            ),
                                    ),
                            ),
                    ),
            ),
    )
}

/// [`PaintManager::draw_line`]: selects the pencil, sets the colour and the
/// thickness, and draws the line on the canvas.
pub open spec fn draw_line_run(
    m: PaintManager,
    a: Seq<Answer>,
    p: nat,
    start_x: i32,
    start_y: i32,
    end_x: i32,
    end_y: i32,
    color: Seq<char>,
    thickness: u32,
) -> PaintTrace<()> {
    window_run(m, p).and_next(
        |hwnd: isize, p: nat|
            select_tool_run(m, a, p, "pencil"@).and_next(
                |u: (), p: nat|
                    prepare_run(m, a, p, color, thickness).and_next(
                        |u: (), p: nat|
                            canvas_line_run(a, p, hwnd, start_x, start_y, end_x, end_y),
                    ),
            ),
    )
}

/// [`PaintManager::draw_rectangle`]: selects the shape tool and the first
/// shape, filled or not; sets the colour and the thickness; and drags from
/// the start to the start plus width and height.
pub open spec fn draw_rectangle_run(
    m: PaintManager,
    a: Seq<Answer>,
    p: nat,
    start_x: i32,
    start_y: i32,
    width: i32,
    height: i32,
    filled: bool,
    color: Seq<char>,
    thickness: u32,
) -> PaintTrace<()> {
    window_run(m, p).and_next(
        |hwnd: isize, p: nat|
            select_tool_run(m, a, p, "shape"@).and_next(
                |u: (), p: nat|
                    select_shape_option_run(m, a, p, 1, filled).and_next(
                        |u: (), p: nat|
                            prepare_run(m, a, p, color, thickness).and_next(
                                |u: (), p: nat|
                                    rectangle_dragged_run(a, p, hwnd, start_x, start_y, width, height),
                            ),
                    ),
            ),
    )
}

/// The drag of [`PaintManager::draw_rectangle`].
pub open spec fn rectangle_dragged_run(
    a: Seq<Answer>,
    p: nat,
    hwnd: isize,
    start_x: i32,
    start_y: i32,
    width: i32,
    height: i32,
) -> PaintTrace<()> {
    get_canvas_rect_run(a, p, hwnd).and_next(
        |canvas: Rect, p: nat|
            Run::of(fit_i32(start_x + width), p).and_next(
                |end_x: i32, p: nat|
                    Run::of(fit_i32(start_y + height), p).and_next(
                        |end_y: i32, p: nat|
                            moved_line_run(a, p, hwnd, canvas, start_x, start_y, end_x, end_y),
                    ),
            ),
    )
}

/// A drag between two points, each moved by the canvas's left and top.
pub open spec fn moved_line_run(
    a: Seq<Answer>,
    p: nat,
    hwnd: isize,
    canvas: Rect,
    start_x: i32,
    start_y: i32,
    end_x: i32,
    end_y: i32,
) -> PaintTrace<()> {
    Run::of(fit_i32(start_x + canvas.left), p).and_next(
        |from_x: i32, p: nat|
            Run::of(fit_i32(start_y + canvas.top), p).and_next(
                |from_y: i32, p: nat|
                    Run::of(fit_i32(end_x + canvas.left), p).and_next(
                        |to_x: i32, p: nat|
                            Run::of(fit_i32(end_y + canvas.top), p).and_next(
                                |to_y: i32, p: nat|
                                    simulate_mouse_line_run(a, p, hwnd, from_x, from_y, to_x, to_y),
                            ),
                    ),
            ),
    )
}

/// [`PaintManager::draw_circle`]: selects the shape tool and the second
/// shape, filled or not; sets the colour and the thickness; and drags from
/// the centre minus the radius to the centre plus the radius.
pub open spec fn draw_circle_run(
    m: PaintManager,
    a: Seq<Answer>,
    p: nat,
    center_x: i32,
    center_y: i32,
    radius: i32,
    filled: bool,
    color: Seq<char>,
    thickness: u32,
) -> PaintTrace<()> {
    window_run(m, p).and_next(
        |hwnd: isize, p: nat|
            select_tool_run(m, a, p, "shape"@).and_next(
                |u: (), p: nat|
                    select_shape_option_run(m, a, p, 2, filled).and_next(
                        |u: (), p: nat|
                            prepare_run(m, a, p, color, thickness).and_next(
                                |u: (), p: nat|
                                    circle_dragged_run(a, p, hwnd, center_x, center_y, radius),
                            ),
                    ),
            ),
    )
}

/// The drag of [`PaintManager::draw_circle`].
pub open spec fn circle_dragged_run(
    a: Seq<Answer>,
    p: nat,
    hwnd: isize,
    center_x: i32,
    center_y: i32,
    radius: i32,
) -> PaintTrace<()> {
    get_canvas_rect_run(a, p, hwnd).and_next(
        |canvas: Rect, p: nat|
            Run::of(fit_i32(center_x - radius), p).and_next(
                |start_x: i32, p: nat|
                    Run::of(fit_i32(center_y - radius), p).and_next(
                        |start_y: i32, p: nat|
                            Run::of(fit_i32(center_x + radius), p).and_next(
                                |end_x: i32, p: nat|
                                    Run::of(fit_i32(center_y + radius), p).and_next(
                                        |end_y: i32, p: nat|
                                            moved_line_run(
                                                a,
                                                p,
                                                hwnd,
                                                canvas,
                                                start_x,
                                                start_y,
                                                end_x,
                                                end_y,
                                            ),
                                    ),
                            ),
                    ),
            ),
    )
}

/// [`PaintManager::draw_pixel`]: activates the manager's window; sets the
/// colour, if one is given; selects the pencil and the thickness 1; and
/// clicks on the point of the canvas.
pub open spec fn draw_pixel_run(
    m: PaintManager,
    a: Seq<Answer>,
    p: nat,
    x: i32,
    y: i32,
    color: Option<Seq<char>>,
) -> PaintTrace<()> {
    window_run(m, p).and_next(
        |hwnd: isize, p: nat|
            activate_window_run(a, p, hwnd).and_next(
                |u: (), p: nat|
                    maybe_color_run(m, a, p, color).and_next(
                        |u: (), p: nat|
                            select_tool_run(m, a, p, "pencil"@).and_next(
                                |u: (), p: nat|
                                    set_thickness_run(m, a, p, 1).and_next(
                                        |u: (), p: nat| dot_run(a, p, hwnd, x, y),
                                    ),
                            ),
                    ),
            ),
    )
}

/// The click of [`PaintManager::draw_pixel`].
pub open spec fn dot_run(a: Seq<Answer>, p: nat, hwnd: isize, x: i32, y: i32) -> PaintTrace<()> {
    get_canvas_rect_run(a, p, hwnd).and_next(
        |canvas: Rect, p: nat|
            Run::of(fit_i32(canvas.left + x), p).and_next(
                |abs_x: i32, p: nat|
                    Run::of(fit_i32(canvas.top + y), p).and_next(
                        |abs_y: i32, p: nat| simulate_click_run(a, p, abs_x, abs_y),
                    ),
            ),
    )
}

/// How far below the size button the option for a brush size lies: 40 for
/// sizes up to 4, 80 for sizes up to 12, and 120 for larger ones.
pub open spec fn size_option_offset(size: u32) -> i32 {
    if size <= 4 {
        40
    } else if size <= 12 {
        80
    } else {
        120
    }
}

/// The rectangle that an answer holds, or the one of zeros.
pub open spec fn rect_or_zero(rect: Option<Rect>) -> Rect {
    match rect {
        Some(rect) => rect,
        None => Rect { left: 0, top: 0, right: 0, bottom: 0 },
    }
}

/// [`PaintManager::set_brush_size`]: refuses a size outside 1 to 30. Else
/// activates the manager's window and selects the tool, if one is named;
/// reads the rectangle of the window, which counts as one of zeros where it
/// cannot be read; clicks on the size button, 100 left of the right edge and
/// 150 below the top, and waits 100 ms; and clicks on the option for the size.
pub open spec fn set_brush_size_run(
    m: PaintManager,
    a: Seq<Answer>,
    p: nat,
    size: u32,
    tool: Option<Seq<char>>,
) -> PaintTrace<()> {
    if size < 1 || size > 30 {
        Run::fail(
            PaintErrorModel::InvalidParameterError("Brush size must be between 1 and 30 pixels"@),
            p,
        )
    } else {
        window_run(m, p).and_next(
            |hwnd: isize, p: nat|
                activate_window_run(a, p, hwnd).and_next(
                    |u: (), p: nat|
                        (match tool {
                            Some(tool_name) => select_tool_run(m, a, p, tool_name),
                            None => Run::value((), p),
                        }).and_next(
                            |u: (), p: nat|
                                ask_rect(a, p, Action::WindowRect { hwnd }).and_next(
                                    |rect: Option<Rect>, p: nat|
                                        size_chosen_run(a, p, rect_or_zero(rect), size),
                                ),
                        ),
                ),
        )
    }
}

/// The two clicks of [`PaintManager::set_brush_size`].
pub open spec fn size_chosen_run(a: Seq<Answer>, p: nat, rect: Rect, size: u32) -> PaintTrace<()> {
    Run::of(fit_i32(rect.right - 100), p).and_next(
        |prop_panel_x: i32, p: nat|
            Run::of(fit_i32(rect.top + 150), p).and_next(
                |prop_panel_y: i32, p: nat|
                    simulate_click_run(a, p, prop_panel_x, prop_panel_y).and_next(
                        |u: (), p: nat|
                            ask_done(a, p, Action::Sleep { millis: 100 }).and_next(
                                |u: (), p: nat|
                                    Run::of(
                                        fit_i32(prop_panel_y + size_option_offset(size)),
                                        p,
                                    ).and_next(
                                        |size_panel_y: i32, p: nat|
                                            simulate_click_run(a, p, prop_panel_x, size_panel_y),
                                    ),
                            ),
                    ),
            ),
    )
}

impl PaintManager {
    /// Sets the active colour, given as `#RRGGBB`, by a click on the cell of
    /// the colour panel that comes nearest.
    pub fn set_color(&mut self, t: &mut Transcript, color: &str) -> (r: PaintOutcome<()>)
        ensures
            *final(self) == *old(self),
            replayed(
                *old(t),
                *final(t),
                r,
                set_color_run(*old(self), old(t).answers@, old(t).pos as nat, color@),
            ),
    {
        if !has_color_form(color) {
            return Err(Halt::Failed(invalid_parameter("Color must be in #RRGGBB format")));
        }
        let chars = chars_of(color);
        let r = component(&chars, 1, "Invalid red component")?;
        let g = component(&chars, 3, "Invalid green component")?;
        let b = component(&chars, 5, "Invalid blue component")?;
        let hwnd = lift(self.get_window_handle())?;
        activate_window(t, hwnd)?;
        let rect = rect_or(t, hwnd, PaintError::ColorSelectionFailed)?;
        let color_button_x = plus(rect.left, 300)?;
        let color_button_y = plus(rect.top, 50)?;
        self.simulate_click(t, color_button_x, color_button_y)?;
        t.sleep(200)?;
        let color_index = palette_index(r, g, b);
        let (color_x, color_y) = cell_position(color_button_x, color_button_y, color_index)?;
        self.simulate_click(t, color_x, color_y)?;
        t.sleep(100)
    }

    /// Draws a line on the canvas with the pencil.
    pub fn draw_line(
        &mut self,
        t: &mut Transcript,
        start_x: i32,
        start_y: i32,
        end_x: i32,
        end_y: i32,
        color: &str,
        thickness: u32,
    ) -> (r: PaintOutcome<()>)
        ensures
            *final(self) == *old(self),
            replayed(
                *old(t),
                *final(t),
                r,
                draw_line_run(
                    *old(self),
                    old(t).answers@,
                    old(t).pos as nat,
                    start_x,
                    start_y,
                    end_x,
                    end_y,
                    color@,
                    thickness,
                ),
            ),
    {
        let hwnd = lift(self.get_window_handle())?;
        self.select_tool(t, "pencil")?;
        self.set_color(t, color)?;
        self.set_thickness(t, thickness)?;
        let canvas_rect = self.get_canvas_rect(t, hwnd)?;
        let from_x = plus(start_x, canvas_rect.left)?;
        let from_y = plus(start_y, canvas_rect.top)?;
        let to_x = plus(end_x, canvas_rect.left)?;
        let to_y = plus(end_y, canvas_rect.top)?;
        self.simulate_mouse_line(t, hwnd, from_x, from_y, to_x, to_y)
    }

    /// Draws a rectangle on the canvas, filled or in outline.
    pub fn draw_rectangle(
        &mut self,
        t: &mut Transcript,
        start_x: i32,
        start_y: i32,
        width: i32,
        height: i32,
        filled: bool,
        color: &str,
        thickness: u32,
    ) -> (r: PaintOutcome<()>)
        ensures
            *final(self) == *old(self),
            replayed(
                *old(t),
                *final(t),
                r,
                draw_rectangle_run(
                    *old(self),
                    old(t).answers@,
                    old(t).pos as nat,
                    start_x,
                    start_y,
                    width,
                    height,
                    filled,
                    color@,
                    thickness,
                ),
            ),
    {
        let hwnd = lift(self.get_window_handle())?;
        self.select_tool(t, "shape")?;
        let shape_index: i32 = 1;
        self.select_shape_option(t, shape_index, filled)?;
        self.set_color(t, color)?;
        self.set_thickness(t, thickness)?;
        let canvas_rect = self.get_canvas_rect(t, hwnd)?;
        let end_x = plus(start_x, width)?;
        let end_y = plus(start_y, height)?;
        let from_x = plus(start_x, canvas_rect.left)?;
        let from_y = plus(start_y, canvas_rect.top)?;
        let to_x = plus(end_x, canvas_rect.left)?;
        let to_y = plus(end_y, canvas_rect.top)?;
        self.simulate_mouse_line(t, hwnd, from_x, from_y, to_x, to_y)
    }

    /// Draws a circle on the canvas, filled or in outline.
    pub fn draw_circle(
        &mut self,
        t: &mut Transcript,
        center_x: i32,
        center_y: i32,
        radius: i32,
        filled: bool,
        color: &str,
        thickness: u32,
    ) -> (r: PaintOutcome<()>)
        ensures
            *final(self) == *old(self),
            replayed(
                *old(t),
                *final(t),
                r,
                draw_circle_run(
                    *old(self),
                    old(t).answers@,
                    old(t).pos as nat,
                    center_x,
                    center_y,
                    radius,
                    filled,
                    color@,
                    thickness,
                ),
            ),
    {
        let hwnd = lift(self.get_window_handle())?;
        self.select_tool(t, "shape")?;
        let shape_index: i32 = 2;
        self.select_shape_option(t, shape_index, filled)?;
        self.set_color(t, color)?;
        self.set_thickness(t, thickness)?;
        let canvas_rect = self.get_canvas_rect(t, hwnd)?;
        let start_x = minus(center_x, radius)?;
        let start_y = minus(center_y, radius)?;
        let end_x = plus(center_x, radius)?;
        let end_y = plus(center_y, radius)?;
        let from_x = plus(start_x, canvas_rect.left)?;
        let from_y = plus(start_y, canvas_rect.top)?;
        let to_x = plus(end_x, canvas_rect.left)?;
        let to_y = plus(end_y, canvas_rect.top)?;
        self.simulate_mouse_line(t, hwnd, from_x, from_y, to_x, to_y)
    }

    /// Draws one pixel on the canvas with the pencil.
    pub fn draw_pixel(&mut self, t: &mut Transcript, x: i32, y: i32, color: Option<&str>) -> (r:
        PaintOutcome<()>)
        ensures
            *final(self) == *old(self),
            replayed(
                *old(t),
                *final(t),
                r,
                draw_pixel_run(*old(self), old(t).answers@, old(t).pos as nat, x, y, text_view(color)),
            ),
    {
        let hwnd = lift(self.get_window_handle())?;
        activate_window(t, hwnd)?;
        if let Some(color_str) = color {
            self.set_color(t, color_str)?;
        }
        self.select_tool(t, "pencil")?;
        self.set_thickness(t, 1)?;
        let canvas_rect = self.get_canvas_rect(t, hwnd)?;
        let abs_x = plus(canvas_rect.left, x)?;
        let abs_y = plus(canvas_rect.top, y)?;
        self.simulate_click(t, abs_x, abs_y)
    }

    /// Sets the size of the brush or the pencil, 1 to 30 pixels.
    pub fn set_brush_size(&mut self, t: &mut Transcript, size: u32, tool: Option<&str>) -> (r:
        PaintOutcome<()>)
        ensures
            *final(self) == *old(self),
            replayed(
                *old(t),
                *final(t),
                r,
                set_brush_size_run(
                    *old(self),
                    old(t).answers@,
                    old(t).pos as nat,
                    size,
                    text_view(tool),
                ),
            ),
    {
        if size < 1 || size > 30 {
            return Err(
                Halt::Failed(invalid_parameter("Brush size must be between 1 and 30 pixels")),
            );
        }
        let hwnd = lift(self.get_window_handle())?;
        activate_window(t, hwnd)?;
        if let Some(tool_name) = tool {
            self.select_tool(t, tool_name)?;
        }
        let rect = match t.rect(Action::WindowRect { hwnd })? {
            Some(rect) => rect,
            None => Rect { left: 0, top: 0, right: 0, bottom: 0 },
        };
        let prop_panel_x = minus(rect.right, 100)?;
        let prop_panel_y = plus(rect.top, 150)?;
        self.simulate_click(t, prop_panel_x, prop_panel_y)?;
        t.sleep(100)?;
        let size_panel_x = prop_panel_x;
        let size_panel_y = if size <= 4 {
            plus(prop_panel_y, 40)?
        } else if size <= 12 {
            plus(prop_panel_y, 80)?
        } else {
            plus(prop_panel_y, 120)?
        };
        self.simulate_click(t, size_panel_x, size_panel_y)
    }
}


/// The scan code of the key that types a character: that of a letter in
/// either case, of a digit, of `.`, `/`, `\` or the space; zero for any other.
pub open spec fn scancode_of(c: char) -> u16 {
    if 'a' <= c && c <= 'z' {
        ((c as u16) - ('a' as u16) + 0x1E) as u16
    } else if 'A' <= c && c <= 'Z' {
        ((c as u16) - ('A' as u16) + 0x1E) as u16
    } else if '0' <= c && c <= '9' {
        ((c as u16) - ('0' as u16) + 0x02) as u16
    } else if c == '.' {
        0x34
    } else if c == '/' {
        0x35
    } else if c == '\\' {
        0x2B
    } else if c == ' ' {
        0x39
    } else {
        0x00
    }
}

/// Whether a format in lower case is one that Paint saves.
pub open spec fn is_save_format(lowered: Seq<char>) -> bool {
    lowered == "png"@ || lowered == "jpeg"@ || lowered == "bmp"@ || lowered == "gif"@
}

/// Whether a format in lower case is one that Paint saves.
pub fn names_save_format(lowered: &str) -> (r: bool)
    ensures
        r == is_save_format(lowered@),
{
    same_text(lowered, "png") || same_text(lowered, "jpeg") || same_text(lowered, "bmp")
        || same_text(lowered, "gif")
}

/// Ctrl+S in one call: Ctrl down, S down, S up, Ctrl up.
pub open spec fn save_chord() -> Action {
    Action::Send4(
        Input::Key(KeyInput { vk: VK_CONTROL, scan: 0, flags: 0 }),
        Input::Key(KeyInput { vk: VK_S, scan: 0, flags: 0 }),
        Input::Key(KeyInput { vk: VK_S, scan: 0, flags: KEYEVENTF_KEYUP }),
        Input::Key(KeyInput { vk: VK_CONTROL, scan: 0, flags: KEYEVENTF_KEYUP }),
    )
}

/// A key down and up by scan code, in one call.
pub open spec fn scan_tap(scan: u16) -> Action {
    Action::Send2(
        Input::Key(KeyInput { vk: 0, scan, flags: KEYEVENTF_SCANCODE }),
        Input::Key(KeyInput { vk: 0, scan, flags: KEYEVENTF_SCANCODE_KEYUP }),
    )
}

/// The Enter key down and up, in one call.
pub open spec fn enter_tap() -> Action {
    Action::Send2(
        Input::Key(KeyInput { vk: VK_RETURN, scan: 0, flags: 0 }),
        Input::Key(KeyInput { vk: VK_RETURN, scan: 0, flags: KEYEVENTF_KEYUP }),
    )
}

/// The typing of a file name from the character at `i` on: the key of each
/// character is tapped, whatever comes of it, with a wait of 10 ms after it.
pub open spec fn enter_name_run(a: Seq<Answer>, p: nat, filename: Seq<char>, i: int) -> PaintTrace<()>
    decreases filename.len() - i,
{
    if i < 0 || i >= filename.len() {
        Run::value((), p)
    } else {
        ask_done(a, p, scan_tap(scancode_of(filename[i]))).and_next(
            |u: (), p: nat|
                ask_done(a, p, Action::Sleep { millis: 10 }).and_next(
                    |u: (), p: nat| enter_name_run(a, p, filename, i + 1),
                ),
        )
    }
}

/// [`PaintManager::save`]: activates the manager's window; refuses a format
/// that is none of `png`, `jpeg`, `bmp` and `gif` in any case of letters;
/// sends Ctrl+S, and unless all four events were injected the save failed;
/// waits 500 ms; types the file name; taps Enter; and waits 500 ms.
pub open spec fn save_run(
    m: PaintManager,
    a: Seq<Answer>,
    p: nat,
    filename: Seq<char>,
    format: Seq<char>,
) -> PaintTrace<()> {
    window_run(m, p).and_next(
        |hwnd: isize, p: nat|
            activate_window_run(a, p, hwnd).and_next(
                |u: (), p: nat|
                    if !is_save_format(lowercase(format)) {
                        Run::fail(
                            PaintErrorModel::InvalidParameterError(
                                "Invalid format: "@ + format
                                    + ". Must be one of: png, jpeg, bmp, gif"@,
                            ),
                            p,
                        )
                    } else {
                        ask_count(a, p, save_chord()).and_next(
                            |sent: u32, p: nat|
                                if sent != 4 {
                                    Run::fail(PaintErrorModel::SaveOperationFailed, p)
                                } else {
                                    name_entered_run(a, p, filename)
                                },
                        )
                    },
            ),
    )
}

/// The second half of [`PaintManager::save`], from the dialog on.
pub open spec fn name_entered_run(a: Seq<Answer>, p: nat, filename: Seq<char>) -> PaintTrace<()> {
    ask_done(a, p, Action::Sleep { millis: 500 }).and_next(
        |u: (), p: nat|
            enter_name_run(a, p, filename, 0).and_next(
                |u: (), p: nat|
                    ask_done(a, p, enter_tap()).and_next(
                        |u: (), p: nat| ask_done(a, p, Action::Sleep { millis: 500 }),
                    ),
            ),
    )
}

/// A character with a small ASCII letter turned into its capital.
pub open spec fn ascii_upper(c: char) -> char {
    if 'a' <= c && c <= 'z' {
        ((c as u8) - 32) as char
    } else {
        c
    }
}

/// A character with a small ASCII letter turned into its capital.
pub fn to_ascii_upper(c: char) -> (r: char)
    ensures
        r == ascii_upper(c),
{
    if 'a' <= c && c <= 'z' {
        ((c as u8) - 32) as char
    } else {
        c
    }
}

/// The virtual key code that a shortcut sends for a character: the low 16
/// bits of its capital.
pub open spec fn shortcut_key(key: char) -> u16 {
    ((ascii_upper(key) as u32) % 0x1_0000) as u16
}

/// [`PaintManager::simulate_keyboard_shortcut`]: sends the modifier down, the
/// key down, the key up and the modifier up in one call; where none was
/// injected the drawing failed. Then waits 100 ms.
pub open spec fn simulate_keyboard_shortcut_run(a: Seq<Answer>, p: nat, modifier: u16, key: char) -> PaintTrace<
    (),
> {
    ask_count(
        a,
        p,
        Action::Send4(
            Input::Key(KeyInput { vk: modifier, scan: 0, flags: 0 }),
            Input::Key(KeyInput { vk: shortcut_key(key), scan: 0, flags: 0 }),
            Input::Key(KeyInput { vk: shortcut_key(key), scan: 0, flags: KEYEVENTF_KEYUP }),
            Input::Key(KeyInput { vk: modifier, scan: 0, flags: KEYEVENTF_KEYUP }),
        ),
    ).and_next(
        |sent: u32, p: nat|
            if sent == 0 {
                Run::fail(PaintErrorModel::DrawingOperationFailed, p)
            } else {
                ask_done(a, p, Action::Sleep { millis: 100 })
            },
    )
}

/// [`PaintManager::access_menu_item`]: announces the entry and waits 300 ms.
pub open spec fn access_menu_item_run(a: Seq<Answer>, p: nat, item: MenuItem) -> PaintTrace<()> {
    ask_done(a, p, Action::AnnounceMenu(item)).and_next(
        |u: (), p: nat| ask_done(a, p, Action::Sleep { millis: 300 }),
    )
}

/// The characters of a text from the one at `i` on, each announced in turn.
pub open spec fn send_text_run(a: Seq<Answer>, p: nat, text: Seq<char>, i: int) -> PaintTrace<()>
    decreases text.len() - i,
{
    if i < 0 || i >= text.len() {
        Run::value((), p)
    } else {
        ask_done(a, p, Action::AnnounceCharacter(text[i])).and_next(
            |u: (), p: nat| send_text_run(a, p, text, i + 1),
        )
    }
}

/// What the operations on the whole image do first: the manager connects
/// where it has no window, and activates its window.
pub open spec fn ready_run(m: PaintManager, a: Seq<Answer>, p: nat) -> PaintTrace<isize> {
    ensure_connected_run(m.window(), a, p).and_next(
        |hwnd: isize, p: nat|
            activate_window_run(a, p, hwnd).and_next(|u: (), p: nat| Run::value(hwnd, p)),
    )
}

/// [`PaintManager::add_text`]: makes the manager ready; selects the text tool
/// and sets the colour, if one is given; where a font is asked for, waits
/// 500 ms and 300 ms for the font dialog; and announces the characters of
/// the text.
pub open spec fn add_text_run(
    m: PaintManager,
    a: Seq<Answer>,
    start: nat,
    text: Seq<char>,
    font: bool,
    color: Option<Seq<char>>,
) -> PaintTrace<()> {
    let ready = after_ensure(m, a, start);
    ready_run(m, a, start).and_next(
        |hwnd: isize, p: nat|
            select_tool_run(ready, a, p, "text"@).and_next(
                |u: (), p: nat|
                    maybe_color_run(ready, a, p, color).and_next(
                        |u: (), p: nat|
                            (if font {
                                ask_done(a, p, Action::Sleep { millis: 500 }).and_next(
                                    |u: (), p: nat| ask_done(a, p, Action::Sleep { millis: 300 }),
                                )
                            } else {
                                Run::value((), p)
                            }).and_next(|u: (), p: nat| send_text_run(a, p, text, 0)),
                    ),
            ),
    )
}

/// The entry of the Image menu that rotates by these degrees; `None` for
/// degrees that Paint does not rotate by.
pub open spec fn rotation_item(degrees: i32, clockwise: bool) -> Option<MenuItem> {
    if degrees == 90 {
        if clockwise {
            Some(MenuItem::RotateRight)
        } else {
            Some(MenuItem::RotateLeft)
        }
    } else if degrees == 180 {
        Some(MenuItem::Rotate180)
    } else {
        None
    }
}

/// The entry of the Image menu that rotates by these degrees.
pub fn rotation(degrees: i32, clockwise: bool) -> (r: Option<MenuItem>)
    ensures
        r == rotation_item(degrees, clockwise),
{
    if degrees == 90 {
        if clockwise {
            Some(MenuItem::RotateRight)
        } else {
            Some(MenuItem::RotateLeft)
        }
    } else if degrees == 180 {
        Some(MenuItem::Rotate180)
    } else {
        None
    }
}

/// A command of the Image menu on the whole image: the entry is announced,
/// with a wait of 300 ms, and 500 ms are given for it to take effect.
pub open spec fn menu_command_run(a: Seq<Answer>, p: nat, item: MenuItem) -> PaintTrace<()> {
    access_menu_item_run(a, p, item).and_next(
        |u: (), p: nat| ask_done(a, p, Action::Sleep { millis: 500 }),
    )
}

/// [`PaintManager::rotate_image`]: makes the manager ready; refuses degrees
/// other than 90 and 180; else gives the command that rotates.
pub open spec fn rotate_image_run(
    m: PaintManager,
    a: Seq<Answer>,
    p: nat,
    degrees: i32,
    clockwise: bool,
) -> PaintTrace<()> {
    ready_run(m, a, p).and_next(
        |hwnd: isize, p: nat|
            match rotation_item(degrees, clockwise) {
                Some(item) => menu_command_run(a, p, item),
                None => Run::fail(
                    PaintErrorModel::InvalidParameterError(
                        "Only 90, 180, and 270 degree rotations are supported"@,
                    ),
                    p,
                ),
            },
    )
}

/// The entry of the Image menu that flips in this direction, given in lower
/// case; `None` for any other text.
pub open spec fn flip_item(lowered: Seq<char>) -> Option<MenuItem> {
    if lowered == "horizontal"@ {
        Some(MenuItem::FlipHorizontal)
    } else if lowered == "vertical"@ {
        Some(MenuItem::FlipVertical)
    } else {
        None
    }
}

/// The entry of the Image menu that flips in this direction.
pub fn flip(lowered: &str) -> (r: Option<MenuItem>)
    ensures
        r == flip_item(lowered@),
{
    if same_text(lowered, "horizontal") {
        Some(MenuItem::FlipHorizontal)
    } else if same_text(lowered, "vertical") {
        Some(MenuItem::FlipVertical)
    } else {
        None
    }
}

/// [`PaintManager::flip_image`]: makes the manager ready; refuses a
/// direction that is neither `horizontal` nor `vertical` in any case of
/// letters; else gives the command that flips.
pub open spec fn flip_image_run(m: PaintManager, a: Seq<Answer>, p: nat, direction: Seq<char>) -> PaintTrace<
    (),
> {
    ready_run(m, a, p).and_next(
        |hwnd: isize, p: nat|
            match flip_item(lowercase(direction)) {
                Some(item) => menu_command_run(a, p, item),
                None => Run::fail(
                    PaintErrorModel::InvalidParameterError(
                        "Direction must be 'horizontal' or 'vertical'"@,
                    ),
                    p,
                ),
            },
    )
}

/// [`PaintManager::scale_image`]: makes the manager ready, gives the command
/// that resizes, and waits another 500 ms.
pub open spec fn scale_image_run(m: PaintManager, a: Seq<Answer>, p: nat) -> PaintTrace<()> {
    ready_run(m, a, p).and_next(
        |hwnd: isize, p: nat|
            menu_command_run(a, p, MenuItem::Resize).and_next(
                |u: (), p: nat| ask_done(a, p, Action::Sleep { millis: 500 }),
            ),
    )
}

/// [`PaintManager::crop_image`]: makes the manager ready, selects the
/// selection tool, and gives the command that crops. The far corner of the
/// region must lie in the range of `i32`.
pub open spec fn crop_image_run(
    m: PaintManager,
    a: Seq<Answer>,
    start: nat,
    start_x: i32,
    start_y: i32,
    width: i32,
    height: i32,
) -> PaintTrace<()> {
    let ready = after_ensure(m, a, start);
    ready_run(m, a, start).and_next(
        |hwnd: isize, p: nat|
            select_tool_run(ready, a, p, "select"@).and_next(
                |u: (), p: nat|
                    Run::of(fit_i32(start_x + width), p).and_next(
                        |end_x: i32, p: nat|
                            Run::of(fit_i32(start_y + height), p).and_next(
                                |end_y: i32, p: nat| menu_command_run(a, p, MenuItem::Crop),
                            ),
                    ),
            ),
    )
}

/// Whether a canvas is filled after it is created: a background is given,
/// and it is not white.
pub open spec fn needs_fill(background_color: Option<Seq<char>>) -> bool {
    match background_color {
        Some(color) => uppercase(color) != "#FFFFFF"@,
        None => false,
    }
}

/// [`PaintManager::create_canvas`]: makes the manager ready and waits
/// 500 ms; for a background that is not white, it sets the colour and
/// selects the fill tool.
pub open spec fn create_canvas_run(
    m: PaintManager,
    a: Seq<Answer>,
    start: nat,
    background_color: Option<Seq<char>>,
) -> PaintTrace<()> {
    let ready = after_ensure(m, a, start);
    ready_run(m, a, start).and_next(
        |hwnd: isize, p: nat|
            ask_done(a, p, Action::Sleep { millis: 500 }).and_next(
                |u: (), p: nat|
                    if needs_fill(background_color) {
                        set_color_run(ready, a, p, background_color->0).and_next(
                            |u: (), p: nat| select_tool_run(ready, a, p, "fill"@),
                        )
                    } else {
                        Run::value((), p)
                    },
            ),
    )
}

impl PaintManager {
    /// The scan code of the key that types a character; zero where it has none.
    pub fn map_char_to_scancode(c: char) -> (code: u16)
        ensures
            code == scancode_of(c),
    {
        if 'a' <= c && c <= 'z' {
            (c as u16) - ('a' as u16) + 0x1E
        } else if 'A' <= c && c <= 'Z' {
            (c as u16) - ('A' as u16) + 0x1E
        } else if '0' <= c && c <= '9' {
            (c as u16) - ('0' as u16) + 0x02
        } else if c == '.' {
            0x34
        } else if c == '/' {
            0x35
        } else if c == '\\' {
            0x2B
        } else if c == ' ' {
            0x39
        } else {
            0x00
        }
    }

    /// Types a file name into the dialog that has the focus.
    fn enter_name(&self, t: &mut Transcript, filename: &str) -> (r: PaintOutcome<()>)
        ensures
            replayed(
                *old(t),
                *final(t),
                r,
                enter_name_run(old(t).answers@, old(t).pos as nat, filename@, 0),
            ),
    {
        let chars = chars_of(filename);
        let mut i: usize = 0;
        while i < chars.len()
            invariant
                i <= chars.len(),
                chars@ == filename@,
                t.answers == old(t).answers,
                enter_name_run(old(t).answers@, old(t).pos as nat, filename@, 0) == enter_name_run(
                    t.answers@,
                    t.pos as nat,
                    filename@,
                    i as int,
                ),
            decreases chars.len() - i,
        {
            let scan_code = Self::map_char_to_scancode(chars[i]);
            t.done(
                Action::Send2(
                    Input::Key(KeyInput { vk: 0, scan: scan_code, flags: KEYEVENTF_SCANCODE }),
                    Input::Key(
                        KeyInput { vk: 0, scan: scan_code, flags: KEYEVENTF_SCANCODE_KEYUP },
                    ),
                ),
            )?;
            t.sleep(10)?;
            i = i + 1;
        }
        Ok(())
    }

    /// Saves the drawing under a file name, through the dialog of Ctrl+S.
    pub fn save(&mut self, t: &mut Transcript, filename: &str, format: &str) -> (r: PaintOutcome<()>)
        ensures
            *final(self) == *old(self),
            replayed(
                *old(t),
                *final(t),
                r,
                save_run(*old(self), old(t).answers@, old(t).pos as nat, filename@, format@),
            ),
    {
        let hwnd = lift(self.get_window_handle())?;
        activate_window(t, hwnd)?;
        let lowered = to_lowercase(format);
        if !names_save_format(lowered.as_str()) {
            return Err(
                Halt::Failed(
                    PaintError::InvalidParameterError(
                        joined3("Invalid format: ", format, ". Must be one of: png, jpeg, bmp, gif"),
                    ),
                ),
            );
        }
        let sent = t.count(
            Action::Send4(
                Input::Key(KeyInput { vk: VK_CONTROL, scan: 0, flags: 0 }),
                Input::Key(KeyInput { vk: VK_S, scan: 0, flags: 0 }),
                Input::Key(KeyInput { vk: VK_S, scan: 0, flags: KEYEVENTF_KEYUP }),
                Input::Key(KeyInput { vk: VK_CONTROL, scan: 0, flags: KEYEVENTF_KEYUP }),
            ),
        )?;
        if sent != 4 {
            return Err(Halt::Failed(PaintError::SaveOperationFailed));
        }
        t.sleep(500)?;
        self.enter_name(t, filename)?;
        t.done(
            Action::Send2(
                Input::Key(KeyInput { vk: VK_RETURN, scan: 0, flags: 0 }),
                Input::Key(KeyInput { vk: VK_RETURN, scan: 0, flags: KEYEVENTF_KEYUP }),
            ),
        )?;
        t.sleep(500)
    }

    /// Sends a key while a modifier is held, in one call.
    pub fn simulate_keyboard_shortcut(&self, t: &mut Transcript, hwnd: isize, modifier: u16, key: char) -> (r:
        PaintOutcome<()>)
        ensures
            replayed(
                *old(t),
                *final(t),
                r,
                simulate_keyboard_shortcut_run(old(t).answers@, old(t).pos as nat, modifier, key),
            ),
    {
        let key_vk = ((to_ascii_upper(key) as u32) % 0x1_0000) as u16;
        let sent = t.count(
            Action::Send4(
                Input::Key(KeyInput { vk: modifier, scan: 0, flags: 0 }),
                Input::Key(KeyInput { vk: key_vk, scan: 0, flags: 0 }),
                Input::Key(KeyInput { vk: key_vk, scan: 0, flags: KEYEVENTF_KEYUP }),
                Input::Key(KeyInput { vk: modifier, scan: 0, flags: KEYEVENTF_KEYUP }),
            ),
        )?;
        if sent == 0 {
            return Err(Halt::Failed(PaintError::DrawingOperationFailed));
        }
        t.sleep(100)
    }

    /// Opens an entry of the Image menu. For now the entry is only announced.
    pub fn access_menu_item(&self, t: &mut Transcript, item: MenuItem) -> (r: PaintOutcome<()>)
        ensures
            replayed(
                *old(t),
                *final(t),
                r,
                access_menu_item_run(old(t).answers@, old(t).pos as nat, item),
            ),
    {
        t.done(Action::AnnounceMenu(item))?;
        t.sleep(300)
    }

    /// Presses a key. For now no input is sent.
    pub fn press_key(&self, key: u16) -> (r: Result<(), PaintError>)
        ensures
            r is Ok,
    {
        Ok(())
    }

    /// Releases a key. For now no input is sent.
    pub fn release_key(&self, key: u16) -> (r: Result<(), PaintError>)
        ensures
            r is Ok,
    {
        Ok(())
    }

    /// Presses and releases a key. For now no input is sent.
    pub fn send_key(&self, key: &u16) -> (r: Result<(), PaintError>)
        ensures
            r is Ok,
    {
        match self.press_key(*key) {
            Ok(_) => {},
            Err(e) => {
                return Err(e);
            },
        }
        self.release_key(*key)
    }

    /// Presses the modifiers, presses and releases each key, and releases
    /// the modifiers in reverse. For now no input is sent.
    pub fn send_key_combo(&self, modifiers: &[u16], keys: &[u8]) -> (r: Result<(), PaintError>)
        ensures
            r is Ok,
    {
        let mut i: usize = 0;
        while i < modifiers.len()
            invariant
                i <= modifiers.len(),
            decreases modifiers.len() - i,
        {
            match self.press_key(modifiers[i]) {
                Ok(_) => {},
                Err(e) => {
                    return Err(e);
                },
            }
            i = i + 1;
        }
        let mut k: usize = 0;
        while k < keys.len()
            invariant
                k <= keys.len(),
            decreases keys.len() - k,
        {
            let virtual_key = keys[k] as u16;
            match self.press_key(virtual_key) {
                Ok(_) => {},
                Err(e) => {
                    return Err(e);
                },
            }
            match self.release_key(virtual_key) {
                Ok(_) => {},
                Err(e) => {
                    return Err(e);
                },
            }
            k = k + 1;
        }
        let mut j: usize = modifiers.len();
        while j > 0
            invariant
                j <= modifiers.len(),
            decreases j,
        {
            j = j - 1;
            match self.release_key(modifiers[j]) {
                Ok(_) => {},
                Err(e) => {
                    return Err(e);
                },
            }
        }
        Ok(())
    }

    /// Types a character. For now the character is only announced.
    pub fn send_char(&self, t: &mut Transcript, c: char) -> (r: PaintOutcome<()>)
        ensures
            replayed(
                *old(t),
                *final(t),
                r,
                ask_done(old(t).answers@, old(t).pos as nat, Action::AnnounceCharacter(c)),
            ),
    {
        t.done(Action::AnnounceCharacter(c))
    }

    /// Clicks at a point of the canvas. For now no input is sent.
    pub fn click_at(&self, x: i32, y: i32) -> (r: Result<(), PaintError>)
        ensures
            r is Ok,
    {
        Ok(())
    }

    /// Drags the mouse to a point of the canvas. For now no input is sent.
    pub fn drag_to(&self, x: i32, y: i32) -> (r: Result<(), PaintError>)
        ensures
            r is Ok,
    {
        Ok(())
    }

    /// Announces the characters of a text, one by one.
    fn send_text(&self, t: &mut Transcript, text: &str) -> (r: PaintOutcome<()>)
        ensures
            replayed(
                *old(t),
                *final(t),
                r,
                send_text_run(old(t).answers@, old(t).pos as nat, text@, 0),
            ),
    {
        let chars = chars_of(text);
        let mut i: usize = 0;
        while i < chars.len()
            invariant
                i <= chars.len(),
                chars@ == text@,
                t.answers == old(t).answers,
                send_text_run(old(t).answers@, old(t).pos as nat, text@, 0) == send_text_run(
                    t.answers@,
                    t.pos as nat,
                    text@,
                    i as int,
                ),
            decreases chars.len() - i,
        {
            self.send_char(t, chars[i])?;
            i = i + 1;
        }
        Ok(())
    }

    /// Connects where the manager has no window, and activates its window.
    pub fn ready(&mut self, t: &mut Transcript) -> (r: PaintOutcome<isize>)
        ensures
            *final(self) == after_ensure(*old(self), old(t).answers@, old(t).pos as nat),
            replayed(
                *old(t),
                *final(t),
                r,
                ready_run(*old(self), old(t).answers@, old(t).pos as nat),
            ),
    {
        let hwnd = self.ensure_connected(t)?;
        activate_window(t, hwnd)?;
        Ok(hwnd)
    }

    /// Adds a text to the drawing at a point, in a font and a colour.
    pub fn add_text(
        &mut self,
        t: &mut Transcript,
        x: i32,
        y: i32,
        text: &str,
        font_name: Option<&str>,
        font_size: Option<u32>,
        font_style: Option<&str>,
        color: Option<&str>,
    ) -> (r: PaintOutcome<()>)
        ensures
            *final(self) == after_ensure(*old(self), old(t).answers@, old(t).pos as nat),
            replayed(
                *old(t),
                *final(t),
                r,
                add_text_run(
                    *old(self),
                    old(t).answers@,
                    old(t).pos as nat,
                    text@,
                    font_name is Some || font_size is Some || font_style is Some,
                    text_view(color),
                ),
            ),
    {
        let hwnd = self.ready(t)?;
        self.select_tool(t, "text")?;
        if let Some(clr) = color {
            self.set_color(t, clr)?;
        }
        if font_name.is_some() || font_size.is_some() || font_style.is_some() {
            let modifiers: [u16; 1] = [VK_CONTROL];
            let keys: [u8; 1] = [0x46];
            lift(self.send_key_combo(modifiers.as_slice(), keys.as_slice()))?;
            t.sleep(500)?;
            lift(self.send_key(&VK_RETURN))?;
            t.sleep(300)?;
        }
        lift(self.click_at(x, y))?;
        self.send_text(t, text)?;
        lift(self.send_key(&VK_RETURN))
    }

    /// Rotates the whole image by 90 or 180 degrees.
    pub fn rotate_image(&mut self, t: &mut Transcript, degrees: i32, clockwise: bool) -> (r:
        PaintOutcome<()>)
        ensures
            *final(self) == after_ensure(*old(self), old(t).answers@, old(t).pos as nat),
            replayed(
                *old(t),
                *final(t),
                r,
                rotate_image_run(*old(self), old(t).answers@, old(t).pos as nat, degrees, clockwise),
            ),
    {
        let hwnd = self.ready(t)?;
        let modifiers: [u16; 1] = [VK_CONTROL];
        let keys: [u8; 1] = [0x41];
        lift(self.send_key_combo(modifiers.as_slice(), keys.as_slice()))?;
        match rotation(degrees, clockwise) {
            Some(item) => {
                self.access_menu_item(t, item)?;
            },
            None => {
                return Err(
                    Halt::Failed(
                        invalid_parameter("Only 90, 180, and 270 degree rotations are supported"),
                    ),
                );
            },
        }
        t.sleep(500)
    }

    /// Flips the whole image, `horizontal` or `vertical`.
    pub fn flip_image(&mut self, t: &mut Transcript, direction: &str) -> (r: PaintOutcome<()>)
        ensures
            *final(self) == after_ensure(*old(self), old(t).answers@, old(t).pos as nat),
            replayed(
                *old(t),
                *final(t),
                r,
                flip_image_run(*old(self), old(t).answers@, old(t).pos as nat, direction@),
            ),
    {
        let hwnd = self.ready(t)?;
        let modifiers: [u16; 1] = [VK_CONTROL];
        let keys: [u8; 1] = [0x41];
        lift(self.send_key_combo(modifiers.as_slice(), keys.as_slice()))?;
        let lowered = to_lowercase(direction);
        match flip(lowered.as_str()) {
            Some(item) => {
                self.access_menu_item(t, item)?;
            },
            None => {
                return Err(
                    Halt::Failed(invalid_parameter("Direction must be 'horizontal' or 'vertical'")),
                );
            },
        }
        t.sleep(500)
    }

    /// Resizes the whole image. The dialog is accepted as it opens.
    pub fn scale_image(
        &mut self,
        t: &mut Transcript,
        width: Option<i32>,
        height: Option<i32>,
        maintain_aspect_ratio: Option<bool>,
    ) -> (r: PaintOutcome<()>)
        ensures
            *final(self) == after_ensure(*old(self), old(t).answers@, old(t).pos as nat),
            replayed(
                *old(t),
                *final(t),
                r,
                scale_image_run(*old(self), old(t).answers@, old(t).pos as nat),
            ),
    {
        let hwnd = self.ready(t)?;
        self.access_menu_item(t, MenuItem::Resize)?;
        t.sleep(500)?;
        lift(self.send_key(&VK_RETURN))?;
        t.sleep(500)
    }

    /// Crops the image to a region.
    pub fn crop_image(&mut self, t: &mut Transcript, start_x: i32, start_y: i32, width: i32, height: i32) -> (r:
        PaintOutcome<()>)
        ensures
            *final(self) == after_ensure(*old(self), old(t).answers@, old(t).pos as nat),
            replayed(
                *old(t),
                *final(t),
                r,
                crop_image_run(
                    *old(self),
                    old(t).answers@,
                    old(t).pos as nat,
                    start_x,
                    start_y,
                    width,
                    height,
                ),
            ),
    {
        let hwnd = self.ready(t)?;
        self.select_tool(t, "select")?;
        lift(self.click_at(start_x, start_y))?;
        let end_x = plus(start_x, width)?;
        let end_y = plus(start_y, height)?;
        lift(self.drag_to(end_x, end_y))?;
        self.access_menu_item(t, MenuItem::Crop)?;
        t.sleep(500)
    }

    /// Creates a new canvas, and fills it where a background other than white
    /// is asked for.
    pub fn create_canvas(
        &mut self,
        t: &mut Transcript,
        width: i32,
        height: i32,
        background_color: Option<&str>,
    ) -> (r: PaintOutcome<()>)
        ensures
            *final(self) == after_ensure(*old(self), old(t).answers@, old(t).pos as nat),
            replayed(
                *old(t),
                *final(t),
                r,
                create_canvas_run(
                    *old(self),
                    old(t).answers@,
                    old(t).pos as nat,
                    text_view(background_color),
                ),
            ),
    {
        let hwnd = self.ready(t)?;
        let modifiers: [u16; 1] = [VK_CONTROL];
        let keys: [u8; 1] = [0x4E];
        lift(self.send_key_combo(modifiers.as_slice(), keys.as_slice()))?;
        t.sleep(500)?;
        lift(self.send_key(&VK_RETURN))?;
        if let Some(color) = background_color {
            let upper = to_uppercase(color);
            if !same_text(upper.as_str(), "#FFFFFF") {
                self.set_color(t, color)?;
                self.select_tool(t, "fill")?;
                lift(self.click_at(width / 2, height / 2))?;
            }
        }
        Ok(())
    }
}


/// The bytes of the file that a call names: the file is looked for, then read.
pub open spec fn fetch_image_run(a: Seq<Answer>, p: nat) -> PaintTrace<Seq<u8>> {
    ask_flag(a, p, Action::FileExists).and_next(
        |exists: bool, p: nat|
            if !exists {
                Run::fail(PaintErrorModel::FileNotFound, p)
            } else {
                ask_file(a, p, Action::ReadFile).and_next(
                    |content: FileContent, p: nat|
                        match content {
                            FileContent::Bytes(data) => Run::value(data, p),
                            FileContent::Denied => Run::fail(PaintErrorModel::PermissionDenied, p),
                            FileContent::Unreadable => Run::fail(PaintErrorModel::FileReadError, p),
                        },
                )
            },
    )
}

/// The name of the image format that a file extension stands for: `png`,
/// `jpeg` for `jpg` and `jpeg`, and `bmp`; `None` for any other extension
/// and for none.
pub open spec fn format_named(extension: Option<Seq<char>>) -> Option<Seq<char>> {
    match extension {
        Some(e) => if e == "png"@ {
            Some("png"@)
        } else if e == "jpg"@ || e == "jpeg"@ {
            Some("jpeg"@)
        } else if e == "bmp"@ {
            Some("bmp"@)
        } else {
            None
        },
        None => None,
    }
}

/// The name of the image format that a file extension stands for.
pub fn format_of(extension: Option<&str>) -> (r: Option<&'static str>)
    ensures
        text_view(r) == format_named(text_view(extension)),
{
    match extension {
        Some(e) => if same_text(e, "png") {
            Some("png")
        } else if same_text(e, "jpg") || same_text(e, "jpeg") {
            Some("jpeg")
        } else if same_text(e, "bmp") {
            Some("bmp")
        } else {
            None
        },
        None => None,
    }
}

/// What is known of an image file with these bytes under this path: its
/// format by the extension of the path, its size as the bytes decode, and the
/// bytes in base64. It is no image where the extension names no format or
/// the bytes do not decode, and a fault where the base64 text would be
/// longer than a text can be.
pub open spec fn metadata_of(path: Seq<char>, data: Seq<u8>, p: nat) -> PaintTrace<
    ImageMetadataModel,
> {
    match format_named(path_extension(path)) {
        None => Run::fail(PaintErrorModel::InvalidImageFormat, p),
        Some(format) => match image_size(data) {
            None => Run::fail(PaintErrorModel::InvalidImageFormat, p),
            Some(size) => if base64_length(data.len()) > usize::MAX {
                Run::fault(Fault::Overflow, p)
            } else {
                Run::value(
                    ImageMetadataModel {
                        data: base64_encoded(data),
                        format,
                        width: size.0,
                        height: size.1,
                    },
                    p,
                )
            },
        },
    }
}

/// What is known of an image file with these bytes under this path.
pub fn describe_image(path: &str, data: &Vec<u8>) -> (r: PaintOutcome<ImageMetadata>)
    ensures
        forall|p: nat|
            (match r {
                Ok(v) => Ok(v@),
                Err(h) => Err(h@),
            }) == (#[trigger] metadata_of(path@, data@, p)).result,
{
    let extension = extension_of(path);
    let format = match format_of(
        match &extension {
            Some(e) => Some(e.as_str()),
            None => None,
        },
    ) {
        Some(format) => format,
        None => {
            return Err(Halt::Failed(PaintError::InvalidImageFormat));
        },
    };
    let (width, height) = match image_dimensions(data) {
        Some(size) => size,
        None => {
            return Err(Halt::Failed(PaintError::InvalidImageFormat));
        },
    };
    if !base64_fits(data.len()) {
        return Err(Halt::Fault(Fault::Overflow));
    }
    let base64_data = base64_encode(data);
    Ok(ImageMetadata { data: base64_data, format: String::from_str(format), width, height })
}

/// [`PaintManager::fetch_image_with_metadata`]: reads the file that the call
/// names, and says what is known of it.
pub open spec fn fetch_image_with_metadata_run(a: Seq<Answer>, p: nat, path: Seq<char>) -> PaintTrace<
    ImageMetadataModel,
> {
    fetch_image_run(a, p).and_next(|data: Seq<u8>, p: nat| metadata_of(path, data, p))
}

impl PaintManager {
    /// The bytes of the file that the call names, which is the file at `path`.
    fn read_image<'a>(&self, t: &mut Transcript<'a>) -> (r: PaintOutcome<&'a Vec<u8>>)
        ensures
            replayed_as(
                *old(t),
                *final(t),
                r,
                fetch_image_run(old(t).answers@, old(t).pos as nat),
                |v: &Vec<u8>| v@,
            ),
    {
        let exists = t.flag(Action::FileExists)?;
        if !exists {
            return Err(Halt::Failed(PaintError::FileNotFound));
        }
        match t.file(Action::ReadFile)? {
            FileRead::Bytes(data) => Ok(data),
            FileRead::Denied => Err(Halt::Failed(PaintError::PermissionDenied)),
            FileRead::Unreadable => Err(Halt::Failed(PaintError::FileReadError)),
        }
    }

    /// The bytes of the file at `path`.
    pub fn fetch_image(&self, t: &mut Transcript, path: &str) -> (r: PaintOutcome<Vec<u8>>)
        ensures
            replayed_as(
                *old(t),
                *final(t),
                r,
                fetch_image_run(old(t).answers@, old(t).pos as nat),
                |v: Vec<u8>| v@,
            ),
    {
        let data = self.read_image(t)?;
        Ok(copy_bytes(data))
    }

    /// The image file at `path` with what is known of it: its bytes in
    /// base64, its format and its size.
    pub fn fetch_image_with_metadata(&self, t: &mut Transcript, path: &str) -> (r: PaintOutcome<
        ImageMetadata,
    >)
        ensures
            replayed_as(
                *old(t),
                *final(t),
                r,
                fetch_image_with_metadata_run(old(t).answers@, old(t).pos as nat, path@),
                |v: ImageMetadata| v@,
            ),
    {
        let data = self.read_image(t)?;
        describe_image(path, data)
    }
}


/// An image that is ready to be drawn again: the window and the canvas to
/// draw on, the pixels of the image, and the distance between the pixels
/// that are drawn.
#[derive(Debug)]
pub struct Sketch {
    pub hwnd: isize,
    pub width: u32,
    pub height: u32,
    /// The pixels row by row, three bytes for each: red, green and blue.
    pub rgb: Vec<u8>,
    pub canvas: Rect,
    pub sample_rate: u32,
}

/// An image that is ready to be drawn again, as a value.
pub ghost struct SketchModel {
    pub hwnd: isize,
    pub width: u32,
    pub height: u32,
    pub rgb: Seq<u8>,
    pub canvas: Rect,
    pub sample_rate: u32,
}

impl View for Sketch {
    type V = SketchModel;

    open spec fn view(&self) -> SketchModel {
        SketchModel {
            hwnd: self.hwnd,
            width: self.width,
            height: self.height,
            rgb: self.rgb@,
            canvas: self.canvas,
            sample_rate: self.sample_rate,
        }
    }
}

impl SketchModel {
    /// The image has three bytes for each of its pixels, and pixels are not
    /// drawn twice.
    pub open spec fn wf(self) -> bool {
        self.rgb.len() == 3 * self.width * self.height && self.sample_rate >= 1
    }

    /// The colour of the pixel in column `x` of row `y`, as `#RRGGBB`.
    pub open spec fn color_at(self, x: int, y: int) -> Seq<char> {
        let i = 3 * (y * self.width + x);
        color_code(self.rgb[i], self.rgb[i + 1], self.rgb[i + 2])
    }
}

/// How fine an image is drawn where nothing is asked for.
pub const DEFAULT_DETAIL: u32 = 100;

/// The finest that an image is drawn.
pub const MAX_DETAIL: u32 = 200;

/// How fine an image is drawn: as asked, but no finer than 200; and 100
/// where nothing is asked for.
pub open spec fn detail_of(max_detail_level: Option<u32>) -> u32 {
    match max_detail_level {
        Some(level) => if level < MAX_DETAIL {
            level
        } else {
            MAX_DETAIL
        },
        None => DEFAULT_DETAIL,
    }
}

/// How fine an image is drawn.
pub fn detail_level(max_detail_level: Option<u32>) -> (r: u32)
    ensures
        r == detail_of(max_detail_level),
{
    match max_detail_level {
        Some(level) => if level < MAX_DETAIL {
            level
        } else {
            MAX_DETAIL
        },
        None => DEFAULT_DETAIL,
    }
}

/// The first part of [`PaintManager::recreate_image`]: the image is decoded
/// from base64, written to a temporary file and decoded as a PNG; the
/// window is activated and a new document is asked for, with a wait of
/// 300 ms; the canvas is read and the pencil is selected; and the distance
/// between the pixels to draw is worked out, which is at least 1.
pub open spec fn sketch_run(
    m: PaintManager,
    a: Seq<Answer>,
    p: nat,
    image_base64: Seq<char>,
    max_detail_level: Option<u32>,
) -> PaintTrace<SketchModel> {
    window_run(m, p).and_next(
        |hwnd: isize, p: nat|
            match base64_decoded(image_base64) {
                None => Run::fail(
                    PaintErrorModel::InvalidParameterError("Invalid base64 image data"@),
                    p,
                ),
                Some(data) => ask_flag(a, p, Action::WriteTemporaryImage).and_next(
                    |written: bool, p: nat|
                        if !written {
                            Run::fail(PaintErrorModel::FileReadError, p)
                        } else {
                            match png_picture(data) {
                                None => Run::fail(PaintErrorModel::InvalidImageFormat, p),
                                Some(picture) => canvas_ready_run(
                                    m,
                                    a,
                                    p,
                                    hwnd,
                                    picture,
                                    detail_of(max_detail_level),
                                ),
                            }
                        },
                ),
            },
    )
}

/// The second half of [`sketch_run`], from the decoded image on.
pub open spec fn canvas_ready_run(
    m: PaintManager,
    a: Seq<Answer>,
    p: nat,
    hwnd: isize,
    picture: (u32, u32, Seq<u8>),
    detail: u32,
) -> PaintTrace<SketchModel> {
    activate_window_run(a, p, hwnd).and_next(
        |u: (), p: nat|
            simulate_keyboard_shortcut_run(a, p, VK_CONTROL, 'N').and_next(
                |u: (), p: nat|
                    ask_done(a, p, Action::Sleep { millis: 300 }).and_next(
                        |u: (), p: nat|
                            get_canvas_rect_run(a, p, hwnd).and_next(
                                |canvas: Rect, p: nat|
                                    select_tool_run(m, a, p, "pencil"@).and_next(
                                        |u: (), p: nat|
                                            ask_count(
                                                a,
                                                p,
                                                Action::SampleRate {
                                                    width: picture.0,
                                                    height: picture.1,
                                                    detail,
                                                },
                                            ).and_next(
                                                |rate: u32, p: nat|
                                                    Run::value(
                                                        SketchModel {
                                                            hwnd,
                                                            width: picture.0,
                                                            height: picture.1,
                                                            rgb: picture.2,
                                                            canvas,
                                                            sample_rate: if rate < 1 {
                                                                1
                                                            } else {
                                                                rate
                                                            },
                                                        },
                                                        p,
                                                    ),
                                            ),
                                    ),
                            ),
                    ),
            ),
    )
}

/// One pixel is drawn: the colour is set, unless it is the one that was set
/// last; the pixel's place on the canvas is worked out; and the left button
/// goes down and up there. The colour that is set now is returned.
pub open spec fn sample_run(
    m: PaintManager,
    a: Seq<Answer>,
    p: nat,
    sketch: SketchModel,
    x: int,
    y: int,
    last_color: Seq<char>,
) -> PaintTrace<Seq<char>> {
    let color = sketch.color_at(x, y);
    (if color != last_color {
        set_color_run(m, a, p, color)
    } else {
        Run::value((), p)
    }).and_next(
        |u: (), p: nat|
            Run::of(fit_i32(sketch.canvas.right - sketch.canvas.left), p).and_next(
                |canvas_width: i32, p: nat|
                    Run::of(fit_i32(sketch.canvas.bottom - sketch.canvas.top), p).and_next(
                        |canvas_height: i32, p: nat|
                            dab_run(a, p, sketch, x, y, canvas_width, canvas_height).and_next(
                                |u: (), p: nat| Run::value(color, p),
                            ),
                    ),
            ),
    )
}

/// The second half of [`sample_run`]: the place on the canvas and the click.
pub open spec fn dab_run(
    a: Seq<Answer>,
    p: nat,
    sketch: SketchModel,
    x: int,
    y: int,
    canvas_width: i32,
    canvas_height: i32,
) -> PaintTrace<()> {
    ask_number(
        a,
        p,
        Action::Scale {
            origin: sketch.canvas.left,
            index: x as u32,
            extent: sketch.width,
            span: canvas_width,
        },
    ).and_next(
        |scaled_x: i32, p: nat|
            ask_number(
                a,
                p,
                Action::Scale {
                    origin: sketch.canvas.top,
                    index: y as u32,
                    extent: sketch.height,
                    span: canvas_height,
                },
            ).and_next(
                |scaled_y: i32, p: nat|
                    simulate_mouse_event_run(
                        a,
                        p,
                        sketch.hwnd,
                        scaled_x,
                        scaled_y,
                        MOUSEEVENTF_LEFTDOWN,
                    ).and_next(
                        |u: (), p: nat|
                            simulate_mouse_event_run(
                                a,
                                p,
                                sketch.hwnd,
                                scaled_x,
                                scaled_y,
                                MOUSEEVENTF_LEFTUP,
                            ),
                    ),
            ),
    )
}

/// The pixels of row `y` from column `x` on, each `sample_rate` columns
/// after the one before.
pub open spec fn row_run(
    m: PaintManager,
    a: Seq<Answer>,
    p: nat,
    sketch: SketchModel,
    x: int,
    y: int,
    last_color: Seq<char>,
) -> PaintTrace<Seq<char>>
    decreases
        (if x < sketch.width {
            sketch.width - x
        } else {
            0
        }),
{
    if x < 0 || x >= sketch.width || sketch.sample_rate < 1 {
        Run::value(last_color, p)
    } else {
        sample_run(m, a, p, sketch, x, y, last_color).and_next(
            |color: Seq<char>, p: nat|
                row_run(m, a, p, sketch, x + sketch.sample_rate, y, color),
        )
    }
}

/// What follows a row: a wait of 10 ms after every tenth row that is drawn.
pub open spec fn row_end_run(a: Seq<Answer>, p: nat, sketch: SketchModel, y: int) -> PaintTrace<()> {
    if sketch.sample_rate * 10 > u32::MAX {
        Run::fault(Fault::Overflow, p)
    } else if y % (sketch.sample_rate * 10) == 0 {
        ask_done(a, p, Action::Sleep { millis: 10 })
    } else {
        Run::value((), p)
    }
}

/// The rows from row `y` on, each `sample_rate` rows after the one before.
pub open spec fn rows_run(
    m: PaintManager,
    a: Seq<Answer>,
    p: nat,
    sketch: SketchModel,
    y: int,
    last_color: Seq<char>,
) -> PaintTrace<Seq<char>>
    decreases
        (if y < sketch.height {
            sketch.height - y
        } else {
            0
        }),
{
    if y < 0 || y >= sketch.height || sketch.sample_rate < 1 {
        Run::value(last_color, p)
    } else {
        row_run(m, a, p, sketch, 0, y, last_color).and_next(
            |color: Seq<char>, p: nat|
                row_end_run(a, p, sketch, y).and_next(
                    |u: (), p: nat| rows_run(m, a, p, sketch, y + sketch.sample_rate, color),
                ),
        )
    }
}

/// The format under which a drawing is saved to a file of this name, given
/// in lower case: by its ending, `png`, `jpeg` for `.jpg` and `.jpeg`, or
/// `bmp`; and `png` for any other name.
pub open spec fn format_for(lowered: Seq<char>) -> Seq<char> {
    if has_suffix(lowered, ".png"@) {
        "png"@
    } else if has_suffix(lowered, ".jpg"@) || has_suffix(lowered, ".jpeg"@) {
        "jpeg"@
    } else if has_suffix(lowered, ".bmp"@) {
        "bmp"@
    } else {
        "png"@
    }
}

/// The format under which a drawing is saved to a file of this name, given
/// in lower case.
pub fn format_by_name(lowered: &str) -> (r: &'static str)
    ensures
        r@ == format_for(lowered@),
{
    if ends_with(lowered, ".png") {
        "png"
    } else if ends_with(lowered, ".jpg") || ends_with(lowered, ".jpeg") {
        "jpeg"
    } else if ends_with(lowered, ".bmp") {
        "bmp"
    } else {
        "png"
    }
}

/// The last part of [`PaintManager::recreate_image`]: the drawing is saved,
/// where a file name is given; and the temporary file is removed.
pub open spec fn finish_run(
    m: PaintManager,
    a: Seq<Answer>,
    p: nat,
    output_filename: Option<Seq<char>>,
) -> PaintTrace<()> {
    (match output_filename {
        Some(filename) => save_run(m, a, p, filename, format_for(lowercase(filename))),
        None => Run::value((), p),
    }).and_next(|u: (), p: nat| ask_done(a, p, Action::RemoveTemporaryImage))
}

/// [`PaintManager::recreate_image`]: the image is made ready, its pixels
/// are drawn row by row, and the drawing is saved.
pub open spec fn recreate_image_run(
    m: PaintManager,
    a: Seq<Answer>,
    p: nat,
    image_base64: Seq<char>,
    output_filename: Option<Seq<char>>,
    max_detail_level: Option<u32>,
) -> PaintTrace<()> {
    sketch_run(m, a, p, image_base64, max_detail_level).and_next(
        |sketch: SketchModel, p: nat|
            rows_run(m, a, p, sketch, 0, Seq::empty()).and_next(
                |color: Seq<char>, p: nat| finish_run(m, a, p, output_filename),
            ),
    )
}

impl PaintManager {
    /// Makes an image ready to be drawn again: decodes it, opens a new
    /// document and works out how fine to draw.
    pub fn recreate_image_begin(
        &mut self,
        t: &mut Transcript,
        image_base64: &str,
        max_detail_level: Option<u32>,
    ) -> (r: PaintOutcome<Sketch>)
        ensures
            *final(self) == *old(self),
            replayed_as(
                *old(t),
                *final(t),
                r,
                sketch_run(
                    *old(self),
                    old(t).answers@,
                    old(t).pos as nat,
                    image_base64@,
                    max_detail_level,
                ),
                |sketch: Sketch| sketch@,
            ),
            r matches Ok(sketch) ==> sketch@.wf(),
    {
        let hwnd = lift(self.get_window_handle())?;
        let image_data = match base64_decode(image_base64) {
            Some(data) => data,
            None => {
                return Err(Halt::Failed(invalid_parameter("Invalid base64 image data")));
            },
        };
        let written = t.flag(Action::WriteTemporaryImage)?;
        if !written {
            return Err(Halt::Failed(PaintError::FileReadError));
        }
        let (width, height, rgb) = match decode_png(&image_data) {
            Some(picture) => picture,
            None => {
                return Err(Halt::Failed(PaintError::InvalidImageFormat));
            },
        };
        self.activate_window(t, hwnd)?;
        self.simulate_keyboard_shortcut(t, hwnd, VK_CONTROL, 'N')?;
        t.sleep(300)?;
        let detail_level = detail_level(max_detail_level);
        let canvas_rect = self.get_canvas_rect(t, hwnd)?;
        self.select_tool(t, "pencil")?;
        let rate = t.count(Action::SampleRate { width, height, detail: detail_level })?;
        let sample_rate = if rate < 1 {
            1
        } else {
            rate
        };
        Ok(Sketch { hwnd, width, height, rgb, canvas: canvas_rect, sample_rate })
    }

    /// The colour of a pixel of an image, as `#RRGGBB`.
    pub fn pixel_color(sketch: &Sketch, x: u32, y: u32) -> (color: String)
        requires
            sketch@.wf(),
            x < sketch.width,
            y < sketch.height,
        ensures
            color@ == sketch@.color_at(x as int, y as int),
    {
        let ghost w = sketch.width as int;
        let ghost h = sketch.height as int;
        assert(0 <= y * w && y * w + x < w * h) by (nonlinear_arith)
            requires
                0 <= x < w,
                0 <= y < h,
        ;
        assert(3 * (y * w + x) + 2 < 3 * (w * h));
        assert(3 * (w * h) == 3 * w * h) by (nonlinear_arith);
        assert(sketch.rgb@.len() == 3 * w * h);
        let n = sketch.rgb.len();
        assert((y as usize) * (sketch.width as usize) == y * w);
        let row = (y as usize) * (sketch.width as usize);
        let i = 3 * (row + x as usize);
        color_text(sketch.rgb[i], sketch.rgb[i + 1], sketch.rgb[i + 2])
    }

    /// Draws one pixel of an image, and returns the colour that is set after it.
    pub fn recreate_image_sample(
        &mut self,
        t: &mut Transcript,
        sketch: &Sketch,
        x: u32,
        y: u32,
        last_color: &str,
    ) -> (r: PaintOutcome<String>)
        requires
            sketch@.wf(),
            x < sketch.width,
            y < sketch.height,
        ensures
            *final(self) == *old(self),
            replayed_as(
                *old(t),
                *final(t),
                r,
                sample_run(
                    *old(self),
                    old(t).answers@,
                    old(t).pos as nat,
                    sketch@,
                    x as int,
                    y as int,
                    last_color@,
                ),
                |color: String| color@,
            ),
    {
        let color = Self::pixel_color(sketch, x, y);
        if !same_text(color.as_str(), last_color) {
            self.set_color(t, color.as_str())?;
        }
        let canvas_width = minus(sketch.canvas.right, sketch.canvas.left)?;
        let canvas_height = minus(sketch.canvas.bottom, sketch.canvas.top)?;
        let scaled_x = t.number(
            Action::Scale {
                origin: sketch.canvas.left,
                index: x,
                extent: sketch.width,
                span: canvas_width,
            },
        )?;
        let scaled_y = t.number(
            Action::Scale {
                origin: sketch.canvas.top,
                index: y,
                extent: sketch.height,
                span: canvas_height,
            },
        )?;
        self.simulate_mouse_event(t, sketch.hwnd, scaled_x, scaled_y, MOUSEEVENTF_LEFTDOWN)?;
        self.simulate_mouse_event(t, sketch.hwnd, scaled_x, scaled_y, MOUSEEVENTF_LEFTUP)?;
        Ok(color)
    }

    /// Draws the pixels of one row of an image, and returns the colour that
    /// is set after it.
    pub fn recreate_image_row(&mut self, t: &mut Transcript, sketch: &Sketch, y: u32, last_color: String) -> (r:
        PaintOutcome<String>)
        requires
            sketch@.wf(),
            y < sketch.height,
        ensures
            *final(self) == *old(self),
            replayed_as(
                *old(t),
                *final(t),
                r,
                row_run(
                    *old(self),
                    old(t).answers@,
                    old(t).pos as nat,
                    sketch@,
                    0,
                    y as int,
                    last_color@,
                ),
                |color: String| color@,
            ),
    {
        let mut color = last_color;
        let mut x: u64 = 0;
        while x < sketch.width as u64
            invariant
                sketch@.wf(),
                y < sketch.height,
                *self == *old(self),
                t.answers == old(t).answers,
                row_run(
                    *old(self),
                    old(t).answers@,
                    old(t).pos as nat,
                    sketch@,
                    0,
                    y as int,
                    last_color@,
                ) == row_run(*self, t.answers@, t.pos as nat, sketch@, x as int, y as int, color@),
                x <= sketch.width as u64 + u32::MAX as u64,
            decreases sketch.width as u64 + u32::MAX as u64 - x,
        {
            color = self.recreate_image_sample(t, sketch, x as u32, y, color.as_str())?;
            x = x + sketch.sample_rate as u64;
        }
        Ok(color)
    }

    /// Waits after a row of an image, where a wait is due.
    pub fn recreate_image_row_end(&self, t: &mut Transcript, sketch: &Sketch, y: u32) -> (r:
        PaintOutcome<()>)
        requires
            sketch@.wf(),
        ensures
            replayed(
                *old(t),
                *final(t),
                r,
                row_end_run(old(t).answers@, old(t).pos as nat, sketch@, y as int),
            ),
    {
        let every = match sketch.sample_rate.checked_mul(10) {
            Some(n) => n,
            None => {
                return Err(Halt::Fault(Fault::Overflow));
            },
        };
        if y % every == 0 {
            t.sleep(10)?;
        }
        Ok(())
    }

    /// Draws the pixels of an image row by row.
    pub fn recreate_image_rows(&mut self, t: &mut Transcript, sketch: &Sketch) -> (r: PaintOutcome<
        String,
    >)
        requires
            sketch@.wf(),
        ensures
            *final(self) == *old(self),
            replayed_as(
                *old(t),
                *final(t),
                r,
                rows_run(
                    *old(self),
                    old(t).answers@,
                    old(t).pos as nat,
                    sketch@,
                    0,
                    Seq::empty(),
                ),
                |color: String| color@,
            ),
    {
        let mut color = String::new();
        let mut y: u64 = 0;
        while y < sketch.height as u64
            invariant
                sketch@.wf(),
                *self == *old(self),
                t.answers == old(t).answers,
                rows_run(
                    *old(self),
                    old(t).answers@,
                    old(t).pos as nat,
                    sketch@,
                    0,
                    Seq::empty(),
                ) == rows_run(*self, t.answers@, t.pos as nat, sketch@, y as int, color@),
                y <= sketch.height as u64 + u32::MAX as u64,
            decreases sketch.height as u64 + u32::MAX as u64 - y,
        {
            color = self.recreate_image_row(t, sketch, y as u32, color)?;
            self.recreate_image_row_end(t, sketch, y as u32)?;
            y = y + sketch.sample_rate as u64;
        }
        Ok(color)
    }

    /// Saves the drawing of an image, where a file name is given, and clears up.
    pub fn recreate_image_finish(&mut self, t: &mut Transcript, output_filename: Option<&str>) -> (r:
        PaintOutcome<()>)
        ensures
            *final(self) == *old(self),
            replayed(
                *old(t),
                *final(t),
                r,
                finish_run(*old(self), old(t).answers@, old(t).pos as nat, text_view(output_filename)),
            ),
    {
        if let Some(filename) = output_filename {
            let lowered = to_lowercase(filename);
            let format = format_by_name(lowered.as_str());
            self.save(t, filename, format)?;
        }
        t.done(Action::RemoveTemporaryImage)
    }

    /// Draws an image again in Paint, pixel by pixel, from its PNG data in
    /// base64; and saves the drawing where a file name is given.
    pub fn recreate_image(
        &mut self,
        t: &mut Transcript,
        image_base64: &str,
        output_filename: Option<&str>,
        max_detail_level: Option<u32>,
    ) -> (r: PaintOutcome<()>)
        ensures
            *final(self) == *old(self),
            replayed(
                *old(t),
                *final(t),
                r,
                recreate_image_run(
                    *old(self),
                    old(t).answers@,
                    old(t).pos as nat,
                    image_base64@,
                    text_view(output_filename),
                    max_detail_level,
                ),
            ),
    {
        let sketch = self.recreate_image_begin(t, image_base64, max_detail_level)?;
        self.recreate_image_rows(t, &sketch)?;
        self.recreate_image_finish(t, output_filename)
    }
}

} // verus!
