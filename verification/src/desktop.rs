//! What the library asks of the desktop, and what the desktop answers.
//!
//! An operation never touches the desktop. It reads the answers that earlier
//! actions have received from a [`Transcript`], in the order in which it asked
//! for them. Where the transcript has no answer left, the operation halts with
//! [`Halt::Pending`] and the action it needs. The caller performs that action,
//! appends its answer to the transcript and runs the operation again from the
//! start, until it ends in a value, an error or a fault.
use vstd::prelude::*;

verus! {

/// A rectangle in screen coordinates, as `GetWindowRect` fills it.
#[derive(Clone, Copy, Debug, PartialEq, Eq, Structural)]
pub struct Rect {
    pub left: i32,
    pub top: i32,
    pub right: i32,
    pub bottom: i32,
}

/// A position, in the coordinates that the context names.
#[derive(Clone, Copy, Debug, PartialEq, Eq, Structural)]
pub struct Position {
    pub x: i32,
    pub y: i32,
}

/// One mouse event for `SendInput`. The fields that it leaves out are zero.
#[derive(Clone, Copy, Debug, PartialEq, Eq, Structural)]
pub struct MouseInput {
    pub dx: i32,
    pub dy: i32,
    pub flags: u32,
}

/// One keyboard event for `SendInput`. The fields that it leaves out are zero.
#[derive(Clone, Copy, Debug, PartialEq, Eq, Structural)]
pub struct KeyInput {
    pub vk: u16,
    pub scan: u16,
    pub flags: u32,
}

/// One event for `SendInput`.
#[derive(Clone, Copy, Debug, PartialEq, Eq, Structural)]
pub enum Input {
    Mouse(MouseInput),
    Key(KeyInput),
}

/// A child process that is run for what it prints, and whose result nobody reads.
#[derive(Clone, Copy, Debug, PartialEq, Eq, Structural)]
pub enum Report {
    /// `powershell -Command Get-Process`, filtered by the name `*paint*`.
    PaintProcesses,
    /// `tasklist /FI "IMAGENAME eq mspaint.exe" /FO LIST`.
    TaskList,
    /// `wmic process where name='mspaint.exe' get processid,commandline /format:list`.
    ProcessCommandLines,
}

/// The kinds of control that the library tells apart in the accessibility tree.
#[derive(Clone, Copy, Debug, PartialEq, Eq, Structural)]
pub enum ControlKind {
    Button,
    Pane,
    ToolBar,
    Other,
}

/// A name that an element of the accessibility tree must contain.
#[derive(Clone, Copy, Debug, PartialEq, Eq, Structural)]
pub enum NamePart {
    /// `"Colors"`
    Colors,
    /// `"Size"`
    Size,
    /// `"Fill"`
    Fill,
}

/// A class name that an element of the accessibility tree must have.
#[derive(Clone, Copy, Debug, PartialEq, Eq, Structural)]
pub enum ClassName {
    /// `"ColorPicker"`
    ColorPicker,
    /// `"SizePanel"`
    SizePanel,
    /// `"FillPanel"`
    FillPanel,
}

/// What a search below an element of the accessibility tree looks for.
#[derive(Clone, Copy, Debug, PartialEq, Eq, Structural)]
pub enum Filter {
    Control(ControlKind),
    NameContains(NamePart),
    Class(ClassName),
    /// Every element.
    Any,
}

/// Keys in the notation of `UIElement::send_keys`.
#[derive(Clone, Copy, Debug, PartialEq, Eq, Structural)]
pub enum Keys {
    /// `" "`
    Space,
    /// `"{ESC}"`
    Escape,
    /// `"%h"`: Alt+H
    AltH,
    /// `"s"`
    LetterS,
    /// `"{DOWN}"`
    Down,
    /// `"{ENTER}"`
    Enter,
}

/// An entry of the Image menu.
#[derive(Clone, Copy, Debug, PartialEq, Eq, Structural)]
pub enum MenuItem {
    RotateRight,
    RotateLeft,
    Rotate180,
    FlipHorizontal,
    FlipVertical,
    Resize,
    Crop,
}

/// A call that the caller is asked to make on the desktop.
#[derive(Clone, Copy, Debug, PartialEq, Eq, Structural)]
pub enum Action {
    /// `thread::sleep` for so many milliseconds. Answer: [`Answer::Done`].
    Sleep { millis: u64 },
    /// `EnumWindows` over all top-level windows, in its order, with each
    /// window's class name, title, visibility and parent. Answer: [`Answer::Windows`].
    ListWindows,
    /// `GetWindowTextW` with room for 256 units. Answer: [`Answer::Text`], or
    /// any other where the length is not positive.
    WindowTitle { hwnd: isize },
    /// `GetClassNameW` with room for 128 units. Answer: [`Answer::Text`], or
    /// any other where the length is not positive.
    WindowClass { hwnd: isize },
    /// `FindWindowW` by the class `MSPaintApp`. Answer: [`Answer::Handle`].
    FindWindowByClass,
    /// `IsWindowVisible`. Answer: [`Answer::Flag`].
    IsWindowVisible { hwnd: isize },
    /// `IsIconic`. Answer: [`Answer::Flag`].
    IsIconic { hwnd: isize },
    /// `GetWindowLongW` with `GWL_STYLE`. Answer: [`Answer::Number`].
    WindowStyle { hwnd: isize },
    /// `ShowWindow` with this command. Answer: [`Answer::Flag`], what it returned.
    ShowWindow { hwnd: isize, command: i32 },
    /// `SetForegroundWindow`. Answer: [`Answer::Flag`].
    SetForegroundWindow { hwnd: isize },
    /// `GetForegroundWindow`. Answer: [`Answer::Handle`].
    ForegroundWindow,
    /// `SetWindowPos` to `HWND_TOP` with `SWP_SHOWWINDOW`, position and size
    /// zero. Answer: [`Answer::Flag`].
    RaiseWindow { hwnd: isize },
    /// `GetWindowRect`. Answer: [`Answer::Rect`], or any other where it failed.
    WindowRect { hwnd: isize },
    /// `ClientToScreen` on this point. Answer: [`Answer::Position`], or any
    /// other where it failed.
    ClientToScreen { hwnd: isize, x: i32, y: i32 },
    /// `GetSystemMetrics(SM_CXSCREEN)`. Answer: [`Answer::Number`].
    ScreenWidth,
    /// `GetSystemMetrics(SM_CYSCREEN)`. Answer: [`Answer::Number`].
    ScreenHeight,
    /// `SendInput` with one event. Answer: [`Answer::Count`], the events injected.
    Send1(Input),
    /// `SendInput` with two events. Answer: [`Answer::Count`].
    Send2(Input, Input),
    /// `SendInput` with four events. Answer: [`Answer::Count`].
    Send4(Input, Input, Input, Input),
    /// In single precision: `delta` divided by `steps`, times `step`, cut off
    /// towards zero. Answer: [`Answer::Number`].
    Fraction { delta: i32, step: i32, steps: i32 },
    /// `ShellExecuteW` that opens `mspaint.exe` in a normal window. Answer:
    /// [`Answer::Handle`], the value it returned.
    ShellOpenPaint,
    /// `cmd /C start mspaint.exe`, spawned. Answer: [`Answer::Done`], or
    /// [`Answer::Failed`] with the error's text.
    StartPaintWithCmd,
    /// `mspaint.exe`, spawned. Answer: [`Answer::Done`] or [`Answer::Failed`].
    SpawnPaint,
    /// `powershell -Command "Start-Process mspaint.exe -WindowStyle Normal"`,
    /// run to its end. Answer: [`Answer::Done`] or [`Answer::Failed`].
    StartPaintWithPowershell,
    /// `CreateProcessW` for `mspaint.exe` in a new console. Answer: [`Answer::Flag`].
    CreatePaintProcess,
    /// `WaitForInputIdle` on the created process. Answer: [`Answer::Done`].
    WaitForPaintIdle { millis: u64 },
    /// `CloseHandle` on the created process and its thread. Answer: [`Answer::Done`].
    ClosePaintProcess,
    /// The standard output of `tasklist /FI "IMAGENAME eq mspaint.exe" /FO LIST`.
    /// Answer: [`Answer::Text`], or any other where it did not run or did not
    /// print UTF-8.
    TaskList,
    /// The standard output of the PowerShell command that calls `FindWindow`
    /// for the title `Untitled - Paint`. Answer: as for [`Action::TaskList`].
    FindWindowWithPowershell,
    /// Run this child process with the server's own output. Answer: [`Answer::Done`].
    Run(Report),
    /// `UIAutomation::new`. Answer: [`Answer::Done`] or [`Answer::Failed`].
    StartAutomation,
    /// `UIAutomation::element_from_handle`. Answer: [`Answer::Element`] or
    /// [`Answer::Failed`].
    ElementOfWindow { hwnd: isize },
    /// The first element below `root` that a matcher with this filter and
    /// time limit finds. Answer: [`Answer::Element`] or [`Answer::Failed`].
    FindFirst { root: u32, filter: Filter, timeout: u64 },
    /// All elements below `root` that a matcher without filter finds within
    /// the time limit. Answer: [`Answer::Elements`] or [`Answer::Failed`].
    MatchAll { root: u32, timeout: u64 },
    /// `UIAutomation::create_true_condition`. Answer: [`Answer::Done`] or
    /// [`Answer::Failed`].
    TrueCondition,
    /// `UIElement::find_all` in the subtree of `root` with the true condition.
    /// Answer: [`Answer::Elements`] or [`Answer::Failed`].
    Descendants { root: u32 },
    /// `UIElement::get_pattern` for the invoke pattern. Answer:
    /// [`Answer::Flag`], whether the element has it.
    InvokePattern { element: u32 },
    /// `UIInvokePattern::invoke`. Answer: [`Answer::Done`] or [`Answer::Failed`].
    Invoke { element: u32 },
    /// `UIElement::send_keys` with this pause between keys. Answer:
    /// [`Answer::Done`] or [`Answer::Failed`].
    SendKeys { element: u32, keys: Keys, interval: u64 },
    /// `UIElement::get_bounding_rectangle`. Answer: [`Answer::Rect`] or
    /// [`Answer::Failed`].
    BoundingRectangle { element: u32 },
    /// Print the line that names this menu entry. Answer: [`Answer::Done`].
    AnnounceMenu(MenuItem),
    /// Print the line that names this character. Answer: [`Answer::Done`].
    AnnounceCharacter(char),
    /// `Path::exists` on the file that the call names. Answer: [`Answer::Flag`].
    FileExists,
    /// `fs::read` of the file that the call names. Answer: [`Answer::Bytes`],
    /// [`Answer::Denied`] where permission was refused, or any other.
    ReadFile,
    /// `fs::write` of the call's decoded image to `paint_mcp_input_image.png`
    /// in the temporary directory. Answer: [`Answer::Flag`], whether it was written.
    WriteTemporaryImage,
    /// `fs::remove_file` on that file. Answer: [`Answer::Done`].
    RemoveTemporaryImage,
    /// In single precision: the larger of `width` and `height` divided by
    /// 500, times 200 divided by `detail`, cut off towards zero. Answer:
    /// [`Answer::Count`].
    SampleRate { width: u32, height: u32, detail: u32 },
    /// In single precision: `origin` plus `index` divided by `extent`, times
    /// `span`, cut off towards zero. Answer: [`Answer::Number`].
    Scale { origin: i32, index: u32, extent: u32, span: i32 },
}

/// What the library reads of one top-level window.
pub struct WindowInfo {
    pub hwnd: isize,
    /// `IsWindowVisible`.
    pub visible: bool,
    /// `GetParent` returned no window.
    pub top_level: bool,
    /// `GetClassNameW`; `None` where its length was not positive.
    pub class_name: Option<String>,
    /// `GetWindowTextW`; `None` where its length was not positive.
    pub title: Option<String>,
}

/// What the library reads of one element of the accessibility tree.
pub struct ElementInfo {
    /// The number by which an action names this element.
    pub id: u32,
    /// `get_control_type`; `None` where it failed.
    pub control: Option<ControlKind>,
    /// `get_name`; `None` where it failed.
    pub name: Option<String>,
    /// `get_automation_id`; `None` where it failed.
    pub automation_id: Option<String>,
    /// `get_bounding_rectangle`; `None` where it failed.
    pub bounds: Option<Rect>,
}

/// What the desktop said to one action.
pub enum Answer {
    /// The call was made; it has no result, or its result is not read.
    Done,
    Flag(bool),
    Number(i32),
    Count(u32),
    Handle(isize),
    Rect(Rect),
    Position(Position),
    Text(String),
    Bytes(Vec<u8>),
    Windows(Vec<WindowInfo>),
    Element(u32),
    Elements(Vec<ElementInfo>),
    /// The call failed for want of permission.
    Denied,
    /// The call failed; the text is what its error prints.
    Failed(String),
}

/// A place where the program that this library describes would panic.
#[derive(Clone, Copy, Debug, PartialEq, Eq, Structural)]
pub enum Fault {
    /// An integer operation left the range of its type.
    Overflow,
    /// A division by zero.
    DivisionByZero,
    /// A slice of a text that begins or ends inside a character.
    Slice,
}

/// Why an operation ended without a value.
pub enum Halt<E> {
    /// The transcript has no answer for this action yet.
    Pending(Action),
    /// The operation failed.
    Failed(E),
    /// The operation cannot go on.
    Fault(Fault),
}

impl<E: View> View for Halt<E> {
    type V = Halt<E::V>;

    open spec fn view(&self) -> Halt<E::V> {
        match *self {
            Halt::Pending(a) => Halt::Pending(a),
            Halt::Failed(e) => Halt::Failed(e@),
            Halt::Fault(f) => Halt::Fault(f),
        }
    }
}

/// A result with its error, if any, taken by its view.
pub open spec fn seen<T, E: View>(r: Result<T, Halt<E>>) -> Result<T, Halt<E::V>> {
    match r {
        Ok(v) => Ok(v),
        Err(h) => Err(h@),
    }
}

/// Where a run over a transcript stands: its result, and the number of answers
/// that it has read.
pub ghost struct Run<T, E> {
    pub result: Result<T, Halt<E>>,
    pub pos: nat,
}

impl<T, E> Run<T, E> {
    /// A run that ends at `pos` with a value.
    pub open spec fn value(v: T, pos: nat) -> Run<T, E> {
        Run { result: Ok(v), pos }
    }

    /// A run that ends at `pos` with an error.
    pub open spec fn fail(e: E, pos: nat) -> Run<T, E> {
        Run { result: Err(Halt::Failed(e)), pos }
    }

    /// A run that ends at `pos` in a fault.
    pub open spec fn fault(f: Fault, pos: nat) -> Run<T, E> {
        Run { result: Err(Halt::Fault(f)), pos }
    }

    /// A run that ends at `pos` with this result.
    pub open spec fn of(result: Result<T, Halt<E>>, pos: nat) -> Run<T, E> {
        Run { result, pos }
    }

    /// This run, unless it failed: then the run that `handler` makes of its
    /// error. A run that is pending or in a fault stays as it is.
    pub open spec fn recover(self, handler: spec_fn(E, nat) -> Run<T, E>) -> Run<T, E> {
        match self.result {
            Err(Halt::Failed(e)) => handler(e, self.pos),
            _ => self,
        }
    }

    /// This run with its error, if it failed, turned by `f`.
    pub open spec fn with_error<F>(self, f: spec_fn(E) -> F) -> Run<T, F> {
        Run {
            result: match self.result {
                Ok(v) => Ok(v),
                Err(Halt::Pending(action)) => Err(Halt::Pending(action)),
                Err(Halt::Failed(e)) => Err(Halt::Failed(f(e))),
                Err(Halt::Fault(fault)) => Err(Halt::Fault(fault)),
            },
            pos: self.pos,
        }
    }

    /// This run, and after its value the run that `next` makes of it; where
    /// this run halts, so does the whole.
    pub open spec fn and_next<U>(self, next: spec_fn(T, nat) -> Run<U, E>) -> Run<U, E> {
        match self.result {
            Ok(v) => next(v, self.pos),
            Err(h) => Run { result: Err(h), pos: self.pos },
        }
    }
}

/// The answers given so far, and how many of them the running operation has read.
pub struct Transcript<'a> {
    pub answers: &'a Vec<Answer>,
    pub pos: usize,
}

/// An operation read `before` up to `after` and returned `r`, as `run` says.
pub open spec fn replayed<T, E: View>(
    before: Transcript,
    after: Transcript,
    r: Result<T, Halt<E>>,
    run: Run<T, E::V>,
) -> bool {
    &&& after.answers == before.answers
    &&& after.pos == run.pos
    &&& seen(r) == run.result
}

/// As [`replayed`], for a value that the contract reads through `view`.
pub open spec fn replayed_as<T, U, E: View>(
    before: Transcript,
    after: Transcript,
    r: Result<T, Halt<E>>,
    run: Run<U, E::V>,
    view: spec_fn(T) -> U,
) -> bool {
    &&& after.answers == before.answers
    &&& after.pos == run.pos
    &&& match r {
        Ok(v) => run.result == Ok::<U, Halt<E::V>>(view(v)),
        Err(h) => run.result == Err::<U, Halt<E::V>>(h@),
    }
}

/// The view of an optional text.
pub open spec fn text_view(s: Option<&str>) -> Option<Seq<char>> {
    match s {
        Some(s) => Some(s@),
        None => None,
    }
}

/// The windows of an optional list: none where there is no list.
pub open spec fn windows_view(w: Option<&Vec<WindowInfo>>) -> Seq<WindowInfo> {
    match w {
        Some(w) => w@,
        None => Seq::empty(),
    }
}

/// What came of reading a file.
pub enum FileRead<'a> {
    /// The bytes of the file.
    Bytes(&'a Vec<u8>),
    /// Permission was refused.
    Denied,
    /// The file could not be read for another reason.
    Unreadable,
}

/// What came of reading a file, as a value.
pub enum FileContent {
    Bytes(Seq<u8>),
    Denied,
    Unreadable,
}

impl<'a> View for FileRead<'a> {
    type V = FileContent;

    open spec fn view(&self) -> FileContent {
        match *self {
            FileRead::Bytes(bytes) => FileContent::Bytes(bytes@),
            FileRead::Denied => FileContent::Denied,
            FileRead::Unreadable => FileContent::Unreadable,
        }
    }
}

/// An answer read as what came of reading a file: any other kind counts as
/// a file that could not be read.
pub open spec fn content_of(answer: Answer) -> FileContent {
    match answer {
        Answer::Bytes(bytes) => FileContent::Bytes(bytes@),
        Answer::Denied => FileContent::Denied,
        _ => FileContent::Unreadable,
    }
}

/// The view of an element or the message of its failure.
pub open spec fn element_view(r: Result<u32, &str>) -> Result<u32, Seq<char>> {
    match r {
        Ok(id) => Ok(id),
        Err(text) => Err(text@),
    }
}

/// The view of a list of elements or the message of its failure.
pub open spec fn elements_view(r: Result<&Vec<ElementInfo>, &str>) -> Result<
    Seq<ElementInfo>,
    Seq<char>,
> {
    match r {
        Ok(elements) => Ok(elements@),
        Err(text) => Err(text@),
    }
}

/// The view of a rectangle or the message of its failure.
pub open spec fn bounds_view(r: Result<Rect, &str>) -> Result<Rect, Seq<char>> {
    match r {
        Ok(rect) => Ok(rect),
        Err(text) => Err(text@),
    }
}

/// An answer read as a rectangle: `Err` with the message where the call
/// failed, and with the empty message for any other kind.
pub open spec fn bounds_of(answer: Answer) -> Result<Rect, Seq<char>> {
    match answer {
        Answer::Rect(rect) => Ok(rect),
        Answer::Failed(s) => Err(s@),
        _ => Err(Seq::empty()),
    }
}

/// The answer at `p` where there is one; else the halt that asks for `action`.
pub open spec fn ask<E>(a: Seq<Answer>, p: nat, action: Action) -> Run<Answer, E> {
    if p < a.len() {
        Run { result: Ok(a[p as int]), pos: p + 1 }
    } else {
        Run { result: Err(Halt::Pending(action)), pos: p }
    }
}

/// An answer read as a flag: any other kind counts as `false`.
pub open spec fn flag_of(answer: Answer) -> bool {
    match answer {
        Answer::Flag(b) => b,
        _ => false,
    }
}

/// An answer read as a number: any other kind counts as zero.
pub open spec fn number_of(answer: Answer) -> i32 {
    match answer {
        Answer::Number(n) => n,
        _ => 0,
    }
}

/// An answer read as a count: any other kind counts as zero.
pub open spec fn count_of(answer: Answer) -> u32 {
    match answer {
        Answer::Count(n) => n,
        _ => 0,
    }
}

/// An answer read as a window handle: any other kind counts as no window.
pub open spec fn handle_of(answer: Answer) -> isize {
    match answer {
        Answer::Handle(h) => h,
        _ => 0,
    }
}

/// An answer read as a rectangle.
pub open spec fn rect_of(answer: Answer) -> Option<Rect> {
    match answer {
        Answer::Rect(r) => Some(r),
        _ => None,
    }
}

/// An answer read as a position.
pub open spec fn position_of(answer: Answer) -> Option<Position> {
    match answer {
        Answer::Position(p) => Some(p),
        _ => None,
    }
}

/// An answer read as a text.
pub open spec fn text_of(answer: Answer) -> Option<Seq<char>> {
    match answer {
        Answer::Text(s) => Some(s@),
        _ => None,
    }
}

/// An answer read as the outcome of a call that fails with a message.
pub open spec fn failure_of(answer: Answer) -> Option<Seq<char>> {
    match answer {
        Answer::Failed(s) => Some(s@),
        _ => None,
    }
}

/// An answer read as an element: `Err` with the message where the call failed,
/// and with the empty message for any other kind.
pub open spec fn element_of(answer: Answer) -> Result<u32, Seq<char>> {
    match answer {
        Answer::Element(id) => Ok(id),
        Answer::Failed(s) => Err(s@),
        _ => Err(Seq::empty()),
    }
}

/// An answer read as a list of windows: any other kind counts as no windows.
pub open spec fn windows_of(answer: Answer) -> Seq<WindowInfo> {
    match answer {
        Answer::Windows(w) => w@,
        _ => Seq::empty(),
    }
}

/// An answer read as a list of elements: `Err` with the message where the call
/// failed, and with the empty message for any other kind.
pub open spec fn elements_of(answer: Answer) -> Result<Seq<ElementInfo>, Seq<char>> {
    match answer {
        Answer::Elements(e) => Ok(e@),
        Answer::Failed(s) => Err(s@),
        _ => Err(Seq::empty()),
    }
}

/// Asks for a call without a result that is read.
pub open spec fn ask_done<E>(a: Seq<Answer>, p: nat, action: Action) -> Run<(), E> {
    ask(a, p, action).and_next(|x: Answer, p: nat| Run::value((), p))
}

/// Asks for a flag.
pub open spec fn ask_flag<E>(a: Seq<Answer>, p: nat, action: Action) -> Run<bool, E> {
    ask(a, p, action).and_next(|x: Answer, p: nat| Run::value(flag_of(x), p))
}

/// Asks for a number.
pub open spec fn ask_number<E>(a: Seq<Answer>, p: nat, action: Action) -> Run<i32, E> {
    ask(a, p, action).and_next(|x: Answer, p: nat| Run::value(number_of(x), p))
}

/// Asks for a count.
pub open spec fn ask_count<E>(a: Seq<Answer>, p: nat, action: Action) -> Run<u32, E> {
    ask(a, p, action).and_next(|x: Answer, p: nat| Run::value(count_of(x), p))
}

/// Asks for a window handle.
pub open spec fn ask_handle<E>(a: Seq<Answer>, p: nat, action: Action) -> Run<isize, E> {
    ask(a, p, action).and_next(|x: Answer, p: nat| Run::value(handle_of(x), p))
}

/// Asks for a rectangle.
pub open spec fn ask_rect<E>(a: Seq<Answer>, p: nat, action: Action) -> Run<Option<Rect>, E> {
    ask(a, p, action).and_next(|x: Answer, p: nat| Run::value(rect_of(x), p))
}

/// Asks for a position.
pub open spec fn ask_position<E>(a: Seq<Answer>, p: nat, action: Action) -> Run<
    Option<Position>,
    E,
> {
    ask(a, p, action).and_next(|x: Answer, p: nat| Run::value(position_of(x), p))
}

/// Asks for a text.
pub open spec fn ask_text<E>(a: Seq<Answer>, p: nat, action: Action) -> Run<Option<Seq<char>>, E> {
    ask(a, p, action).and_next(|x: Answer, p: nat| Run::value(text_of(x), p))
}

/// Asks for a call that may fail with a message: `Some` with the message
/// where it did.
pub open spec fn ask_failure<E>(a: Seq<Answer>, p: nat, action: Action) -> Run<
    Option<Seq<char>>,
    E,
> {
    ask(a, p, action).and_next(|x: Answer, p: nat| Run::value(failure_of(x), p))
}

/// Asks for the list of windows.
pub open spec fn ask_windows<E>(a: Seq<Answer>, p: nat, action: Action) -> Run<Seq<WindowInfo>, E> {
    ask(a, p, action).and_next(|x: Answer, p: nat| Run::value(windows_of(x), p))
}

/// Asks for the bytes of a file.
pub open spec fn ask_file<E>(a: Seq<Answer>, p: nat, action: Action) -> Run<FileContent, E> {
    ask(a, p, action).and_next(|x: Answer, p: nat| Run::value(content_of(x), p))
}

/// Asks for an element of the accessibility tree.
pub open spec fn ask_element<E>(a: Seq<Answer>, p: nat, action: Action) -> Run<
    Result<u32, Seq<char>>,
    E,
> {
    ask(a, p, action).and_next(|x: Answer, p: nat| Run::value(element_of(x), p))
}

/// Asks for a list of elements of the accessibility tree.
pub open spec fn ask_elements<E>(a: Seq<Answer>, p: nat, action: Action) -> Run<
    Result<Seq<ElementInfo>, Seq<char>>,
    E,
> {
    ask(a, p, action).and_next(|x: Answer, p: nat| Run::value(elements_of(x), p))
}

/// Asks for the rectangle of an element of the accessibility tree.
pub open spec fn ask_bounds<E>(a: Seq<Answer>, p: nat, action: Action) -> Run<
    Result<Rect, Seq<char>>,
    E,
> {
    ask(a, p, action).and_next(|x: Answer, p: nat| Run::value(bounds_of(x), p))
}

/// A value in the range of `i32`, or the overflow.
pub open spec fn fit_i32<E>(v: int) -> Result<i32, Halt<E>> {
    if i32::MIN <= v <= i32::MAX {
        Ok(v as i32)
    } else {
        Err(Halt::Fault(Fault::Overflow))
    }
}

/// The quotient as Rust divides integers: cut off towards zero.
pub open spec fn quotient(x: int, d: int) -> int
    recommends
        d != 0,
{
    if x == 0 {
        0
    } else if x > 0 && d > 0 {
        x / d
    } else if x < 0 && d < 0 {
        ((x * -1) / (d * -1))
    } else if x < 0 {
        ((x * -1) / d) * -1
    } else {
        (x / (d * -1)) * -1
    }
}

/// The quotient of two `i32`, or the fault with which the division panics.
pub open spec fn divide_i32<E>(x: i32, y: i32) -> Result<i32, Halt<E>> {
    if y == 0 {
        Err(Halt::Fault(Fault::DivisionByZero))
    } else {
        fit_i32(quotient(x as int, y as int))
    }
}

/// The sum of two `i32`, or the overflow.
pub fn plus<E>(x: i32, y: i32) -> (r: Result<i32, Halt<E>>)
    ensures
        r == fit_i32::<E>(x + y),
{
    match x.checked_add(y) {
        Some(v) => Ok(v),
        None => Err(Halt::Fault(Fault::Overflow)),
    }
}

/// The difference of two `i32`, or the overflow.
pub fn minus<E>(x: i32, y: i32) -> (r: Result<i32, Halt<E>>)
    ensures
        r == fit_i32::<E>(x - y),
{
    match x.checked_sub(y) {
        Some(v) => Ok(v),
        None => Err(Halt::Fault(Fault::Overflow)),
    }
}

/// The product of two `i32`, or the overflow.
pub fn times<E>(x: i32, y: i32) -> (r: Result<i32, Halt<E>>)
    ensures
        r == fit_i32::<E>(x * y),
{
    match x.checked_mul(y) {
        Some(v) => Ok(v),
        None => Err(Halt::Fault(Fault::Overflow)),
    }
}

/// The quotient of two `i32`, or the fault with which the division panics.
pub fn divide<E>(x: i32, y: i32) -> (r: Result<i32, Halt<E>>)
    ensures
        r == divide_i32::<E>(x, y),
{
    match x.checked_div(y) {
        Some(v) => Ok(v),
        None => if y == 0 {
            Err(Halt::Fault(Fault::DivisionByZero))
        } else {
            Err(Halt::Fault(Fault::Overflow))
        },
    }
}

/// An `i32` as the cast `as u32` turns it: negative values wrap.
pub open spec fn wrapped_u32(v: i32) -> u32 {
    if v >= 0 {
        v as u32
    } else {
        (v + 0x1_0000_0000) as u32
    }
}

/// An `i32` as the cast `as u32` turns it.
pub fn wrap_u32(v: i32) -> (r: u32)
    ensures
        r == wrapped_u32(v),
{
    if v >= 0 {
        v as u32
    } else {
        ((v as i64) + 0x1_0000_0000i64) as u32
    }
}

impl<'a> Transcript<'a> {
    /// A transcript of these answers, none of them read.
    pub fn new(answers: &'a Vec<Answer>) -> (t: Transcript<'a>)
        ensures
            t.answers == answers,
            t.pos == 0,
    {
        Transcript { answers, pos: 0 }
    }

    /// The next answer, or the halt that asks for `action`.
    pub fn next<E: View>(&mut self, action: Action) -> (r: Result<&'a Answer, Halt<E>>)
        ensures
            final(self).answers == old(self).answers,
            final(self).pos == ask::<E::V>(old(self).answers@, old(self).pos as nat, action).pos,
            match r {
                Ok(answer) => ask::<E::V>(old(self).answers@, old(self).pos as nat, action).result
                    == Ok::<Answer, Halt<E::V>>(*answer),
                Err(h) => ask::<E::V>(old(self).answers@, old(self).pos as nat, action).result
                    == Err::<Answer, Halt<E::V>>(h@),
            },
    {
        if self.pos < self.answers.len() {
            let answer = &self.answers[self.pos];
            self.pos = self.pos + 1;
            Ok(answer)
        } else {
            Err(Halt::Pending(action))
        }
    }

    /// Asks for a call without a result that is read.
    pub fn done<E: View>(&mut self, action: Action) -> (r: Result<(), Halt<E>>)
        ensures
            replayed(
                *old(self),
                *final(self),
                r,
                ask_done(old(self).answers@, old(self).pos as nat, action),
            ),
    {
        let _ = self.next(action)?;
        Ok(())
    }

    /// Asks for a wait of so many milliseconds.
    pub fn sleep<E: View>(&mut self, millis: u64) -> (r: Result<(), Halt<E>>)
        ensures
            replayed(
                *old(self),
                *final(self),
                r,
                ask_done(old(self).answers@, old(self).pos as nat, Action::Sleep { millis }),
            ),
    {
        self.done(Action::Sleep { millis })
    }

    /// Asks for a flag.
    pub fn flag<E: View>(&mut self, action: Action) -> (r: Result<bool, Halt<E>>)
        ensures
            replayed(
                *old(self),
                *final(self),
                r,
                ask_flag(old(self).answers@, old(self).pos as nat, action),
            ),
    {
        match self.next(action)? {
            Answer::Flag(b) => Ok(*b),
            _ => Ok(false),
        }
    }

    /// Asks for a number.
    pub fn number<E: View>(&mut self, action: Action) -> (r: Result<i32, Halt<E>>)
        ensures
            replayed(
                *old(self),
                *final(self),
                r,
                ask_number(old(self).answers@, old(self).pos as nat, action),
            ),
    {
        match self.next(action)? {
            Answer::Number(n) => Ok(*n),
            _ => Ok(0),
        }
    }

    /// Asks for a count.
    pub fn count<E: View>(&mut self, action: Action) -> (r: Result<u32, Halt<E>>)
        ensures
            replayed(
                *old(self),
                *final(self),
                r,
                ask_count(old(self).answers@, old(self).pos as nat, action),
            ),
    {
        match self.next(action)? {
            Answer::Count(n) => Ok(*n),
            _ => Ok(0),
        }
    }

    /// Asks for a window handle.
    pub fn handle<E: View>(&mut self, action: Action) -> (r: Result<isize, Halt<E>>)
        ensures
            replayed(
                *old(self),
                *final(self),
                r,
                ask_handle(old(self).answers@, old(self).pos as nat, action),
            ),
    {
        match self.next(action)? {
            Answer::Handle(h) => Ok(*h),
            _ => Ok(0),
        }
    }

    /// Asks for a rectangle.
    pub fn rect<E: View>(&mut self, action: Action) -> (r: Result<Option<Rect>, Halt<E>>)
        ensures
            replayed(
                *old(self),
                *final(self),
                r,
                ask_rect(old(self).answers@, old(self).pos as nat, action),
            ),
    {
        match self.next(action)? {
            Answer::Rect(x) => Ok(Some(*x)),
            _ => Ok(None),
        }
    }

    /// Asks for a position.
    pub fn position<E: View>(&mut self, action: Action) -> (r: Result<Option<Position>, Halt<E>>)
        ensures
            replayed(
                *old(self),
                *final(self),
                r,
                ask_position(old(self).answers@, old(self).pos as nat, action),
            ),
    {
        match self.next(action)? {
            Answer::Position(x) => Ok(Some(*x)),
            _ => Ok(None),
        }
    }

    /// Asks for a text.
    pub fn text<E: View>(&mut self, action: Action) -> (r: Result<Option<&'a str>, Halt<E>>)
        ensures
            replayed_as(
                *old(self),
                *final(self),
                r,
                ask_text(old(self).answers@, old(self).pos as nat, action),
                |v: Option<&str>| text_view(v),
            ),
    {
        match self.next(action)? {
            Answer::Text(s) => Ok(Some(s.as_str())),
            _ => Ok(None),
        }
    }

    /// Asks for a call that may fail with a message.
    pub fn failure<E: View>(&mut self, action: Action) -> (r: Result<Option<&'a str>, Halt<E>>)
        ensures
            replayed_as(
                *old(self),
                *final(self),
                r,
                ask_failure(old(self).answers@, old(self).pos as nat, action),
                |v: Option<&str>| text_view(v),
            ),
    {
        match self.next(action)? {
            Answer::Failed(s) => Ok(Some(s.as_str())),
            _ => Ok(None),
        }
    }

    /// Asks for the list of windows.
    pub fn windows<E: View>(&mut self, action: Action) -> (r: Result<
        Option<&'a Vec<WindowInfo>>,
        Halt<E>,
    >)
        ensures
            replayed_as(
                *old(self),
                *final(self),
                r,
                ask_windows(old(self).answers@, old(self).pos as nat, action),
                |v: Option<&Vec<WindowInfo>>| windows_view(v),
            ),
    {
        match self.next(action)? {
            Answer::Windows(w) => Ok(Some(w)),
            _ => Ok(None),
        }
    }

    /// Asks for the bytes of a file.
    pub fn file<E: View>(&mut self, action: Action) -> (r: Result<FileRead<'a>, Halt<E>>)
        ensures
            replayed_as(
                *old(self),
                *final(self),
                r,
                ask_file(old(self).answers@, old(self).pos as nat, action),
                |v: FileRead| v@,
            ),
    {
        match self.next(action)? {
            Answer::Bytes(bytes) => Ok(FileRead::Bytes(bytes)),
            Answer::Denied => Ok(FileRead::Denied),
            _ => Ok(FileRead::Unreadable),
        }
    }

    /// Asks for an element of the accessibility tree.
    pub fn element<E: View>(&mut self, action: Action) -> (r: Result<Result<u32, &'a str>, Halt<E>>)
        ensures
            replayed_as(
                *old(self),
                *final(self),
                r,
                ask_element(old(self).answers@, old(self).pos as nat, action),
                |v: Result<u32, &str>| element_view(v),
            ),
    {
        match self.next(action)? {
            Answer::Element(id) => Ok(Ok(*id)),
            Answer::Failed(s) => Ok(Err(s.as_str())),
            _ => {
                proof {
                    reveal_strlit("");
                }
                assert(""@ =~= Seq::<char>::empty());
                Ok(Err(""))
            },
        }
    }

    /// Asks for a list of elements of the accessibility tree.
    pub fn elements<E: View>(&mut self, action: Action) -> (r: Result<
        Result<&'a Vec<ElementInfo>, &'a str>,
        Halt<E>,
    >)
        ensures
            replayed_as(
                *old(self),
                *final(self),
                r,
                ask_elements(old(self).answers@, old(self).pos as nat, action),
                |v: Result<&Vec<ElementInfo>, &str>| elements_view(v),
            ),
    {
        match self.next(action)? {
            Answer::Elements(e) => Ok(Ok(e)),
            Answer::Failed(s) => Ok(Err(s.as_str())),
            _ => {
                proof {
                    reveal_strlit("");
                }
                assert(""@ =~= Seq::<char>::empty());
                Ok(Err(""))
            },
        }
    }

    /// Asks for the rectangle of an element of the accessibility tree.
    pub fn bounds<E: View>(&mut self, action: Action) -> (r: Result<Result<Rect, &'a str>, Halt<E>>)
        ensures
            replayed_as(
                *old(self),
                *final(self),
                r,
                ask_bounds(old(self).answers@, old(self).pos as nat, action),
                |v: Result<Rect, &str>| bounds_view(v),
            ),
    {
        match self.next(action)? {
            Answer::Rect(rect) => Ok(Ok(*rect)),
            Answer::Failed(s) => Ok(Err(s.as_str())),
            _ => {
                proof {
                    reveal_strlit("");
                }
                assert(""@ =~= Seq::<char>::empty());
                Ok(Err(""))
            },
        }
    }
}

} // verus!
