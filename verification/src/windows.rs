//! Finding the Paint window, and driving it with synthetic mouse and keyboard
//! input.
use vstd::prelude::*;

use crate::desktop::{
    ask_count, ask_done, ask_failure, ask_flag, ask_handle, ask_number, ask_position, ask_rect,
    ask_text, ask_windows, divide, divide_i32, fit_i32, minus, plus, replayed, text_view, times,
    Action, Answer, Halt, Input, KeyInput, MouseInput, Position, Rect, Report, Run, Transcript,
    WindowInfo,
};
use crate::error::{MspMcpError, MspMcpErrorModel};
use crate::uia::{
    draw_shape_uia, draw_shape_uia_run, invalid_shape, is_shape, names_shape, shape_error,
};
use crate::text::{
    char_is_alphabetic, char_is_lowercase, char_is_uppercase, char_uppercase, chars_of, contains,
    byte_length, decimal, has_prefix, has_substring, integer_text, is_alphabetic, is_lowercase,
    is_uppercase, joined, joined3, lowercase, parse_i32, parsed_i32, same_text, starts_with,
    to_lowercase, to_uppercase_char, trim, trimmed,
};

verus! {

/// What an operation of this module returns.
pub type Outcome<T> = Result<T, Halt<MspMcpError>>;

/// What a run of an operation of this module comes to.
pub type Trace<T> = Run<T, MspMcpErrorModel>;

pub const MOUSEEVENTF_MOVE: u32 = 0x0001;

pub const MOUSEEVENTF_LEFTDOWN: u32 = 0x0002;

pub const MOUSEEVENTF_LEFTUP: u32 = 0x0004;

pub const MOUSEEVENTF_RIGHTDOWN: u32 = 0x0008;

pub const MOUSEEVENTF_RIGHTUP: u32 = 0x0010;

pub const MOUSEEVENTF_ABSOLUTE: u32 = 0x8000;

/// `MOUSEEVENTF_MOVE | MOUSEEVENTF_ABSOLUTE`
pub const MOUSEEVENTF_MOVE_ABSOLUTE: u32 = 0x8001;

pub const KEYEVENTF_KEYUP: u32 = 0x0002;

pub const KEYEVENTF_SCANCODE: u32 = 0x0008;

/// `KEYEVENTF_SCANCODE | KEYEVENTF_KEYUP`
pub const KEYEVENTF_SCANCODE_KEYUP: u32 = 0x000A;

pub const VK_BACK: u16 = 0x08;

pub const VK_TAB: u16 = 0x09;

pub const VK_RETURN: u16 = 0x0D;

pub const VK_SHIFT: u16 = 0x10;

pub const VK_CONTROL: u16 = 0x11;

pub const VK_MENU: u16 = 0x12;

pub const VK_ESCAPE: u16 = 0x1B;

pub const VK_SPACE: u16 = 0x20;

pub const VK_DELETE: u16 = 0x2E;

pub const SW_SHOWMAXIMIZED: i32 = 3;

pub const SW_RESTORE: i32 = 9;

pub const WS_MAXIMIZE: i32 = 0x0100_0000;

/// The error of a call of the Windows API, with this text.
pub fn api_error(text: &str) -> (e: MspMcpError)
    ensures
        e@ == MspMcpErrorModel::WindowsApiError(text@),
{
    MspMcpError::WindowsApiError(String::from_str(text))
}

/// The error of a parameter that is not accepted, with this text.
pub fn invalid_parameters(text: &str) -> (e: MspMcpError)
    ensures
        e@ == MspMcpErrorModel::InvalidParameters(text@),
{
    MspMcpError::InvalidParameters(String::from_str(text))
}

/// A mouse event that only names its kind: the pointer stays where it is.
pub open spec fn mouse_button(flags: u32) -> Input {
    Input::Mouse(MouseInput { dx: 0, dy: 0, flags })
}

/// A key event by virtual key code.
pub open spec fn key_event(vk: u16, flags: u32) -> Input {
    Input::Key(KeyInput { vk, scan: 0, flags })
}

/// A key event by scan code.
pub open spec fn scan_event(scan: u16, flags: u32) -> Input {
    Input::Key(KeyInput { vk: 0, scan, flags })
}

/// `v` on an axis of `extent` pixels, in the units of an absolute mouse event:
/// `v * 65535 / extent`.
pub open spec fn normalized<E>(v: i32, extent: i32) -> Result<i32, Halt<E>> {
    match fit_i32::<E>(v * 65535) {
        Ok(scaled) => divide_i32(scaled, extent),
        Err(h) => Err(h),
    }
}

/// `v * 65535 / extent`, or the fault where that overflows or divides by zero.
pub fn normalize<E>(v: i32, extent: i32) -> (r: Result<i32, Halt<E>>)
    ensures
        r == normalized::<E>(v, extent),
{
    let scaled = times(v, 65535)?;
    divide(scaled, extent)
}

/// [`client_to_screen`]: one call of `ClientToScreen`; where it fails, the error.
pub open spec fn client_to_screen_run(
    a: Seq<Answer>,
    p: nat,
    hwnd: isize,
    client_x: i32,
    client_y: i32,
) -> Trace<(i32, i32)> {
    ask_position(a, p, Action::ClientToScreen { hwnd, x: client_x, y: client_y }).and_next(
        |at: Option<Position>, p: nat|
            match at {
                Some(at) => Run::value((at.x, at.y), p),
                None => Run::fail(MspMcpErrorModel::WindowsApiError("ClientToScreen failed"@), p),
            },
    )
}

/// Converts a point of the window's client area to screen coordinates.
pub fn client_to_screen(t: &mut Transcript, hwnd: isize, client_x: i32, client_y: i32) -> (r:
    Outcome<(i32, i32)>)
    ensures
        replayed(
            *old(t),
            *final(t),
            r,
            client_to_screen_run(old(t).answers@, old(t).pos as nat, hwnd, client_x, client_y),
        ),
{
    match t.position(Action::ClientToScreen { hwnd, x: client_x, y: client_y })? {
        Some(at) => Ok((at.x, at.y)),
        None => Err(Halt::Failed(api_error("ClientToScreen failed"))),
    }
}

/// [`screen_to_normalized`]: asks for the width and the height of the screen,
/// then scales `x` by the one and `y` by the other.
pub open spec fn screen_to_normalized_run(a: Seq<Answer>, p: nat, x: i32, y: i32) -> Trace<
    (i32, i32),
> {
    ask_number(a, p, Action::ScreenWidth).and_next(
        |width: i32, p: nat|
            ask_number(a, p, Action::ScreenHeight).and_next(
                |height: i32, p: nat|
                    Run::of(normalized(x, width), p).and_next(
                        |nx: i32, p: nat|
                            Run::of(normalized(y, height), p).and_next(
                                |ny: i32, p: nat| Run::value((nx, ny), p),
                            ),
                    ),
            ),
    )
}

/// Converts a screen position to the units of an absolute mouse event, in
/// which each axis of the screen runs from 0 to 65535.
pub fn screen_to_normalized(t: &mut Transcript, x: i32, y: i32) -> (r: Outcome<(i32, i32)>)
    ensures
        replayed(
            *old(t),
            *final(t),
            r,
            screen_to_normalized_run(old(t).answers@, old(t).pos as nat, x, y),
        ),
{
    let screen_width = t.number(Action::ScreenWidth)?;
    let screen_height = t.number(Action::ScreenHeight)?;
    let normalized_x = normalize(x, screen_width)?;
    let normalized_y = normalize(y, screen_height)?;
    Ok((normalized_x, normalized_y))
}

/// Sends one event; unless exactly one was injected, fails with `text`.
pub open spec fn send_one_run(a: Seq<Answer>, p: nat, input: Input, text: Seq<char>) -> Trace<()> {
    ask_count(a, p, Action::Send1(input)).and_next(
        |sent: u32, p: nat|
            if sent != 1 {
                Run::fail(MspMcpErrorModel::WindowsApiError(text), p)
            } else {
                Run::value((), p)
            },
    )
}

/// Sends one event; unless exactly one was injected, fails with `text`.
pub fn send_one(t: &mut Transcript, input: Input, text: &str) -> (r: Outcome<()>)
    ensures
        replayed(
            *old(t),
            *final(t),
            r,
            send_one_run(old(t).answers@, old(t).pos as nat, input, text@),
        ),
{
    let sent = t.count(Action::Send1(input))?;
    if sent != 1 {
        return Err(Halt::Failed(api_error(text)));
    }
    Ok(())
}

/// Sends two events; unless exactly two were injected, fails with `text`.
pub open spec fn send_two_run(
    a: Seq<Answer>,
    p: nat,
    first: Input,
    second: Input,
    text: Seq<char>,
) -> Trace<()> {
    ask_count(a, p, Action::Send2(first, second)).and_next(
        |sent: u32, p: nat|
            if sent != 2 {
                Run::fail(MspMcpErrorModel::WindowsApiError(text), p)
            } else {
                Run::value((), p)
            },
    )
}

/// Sends two events; unless exactly two were injected, fails with `text`.
pub fn send_two(t: &mut Transcript, first: Input, second: Input, text: &str) -> (r: Outcome<()>)
    ensures
        replayed(
            *old(t),
            *final(t),
            r,
            send_two_run(old(t).answers@, old(t).pos as nat, first, second, text@),
        ),
{
    let sent = t.count(Action::Send2(first, second))?;
    if sent != 2 {
        return Err(Halt::Failed(api_error(text)));
    }
    Ok(())
}

/// [`move_mouse_to`]: normalises the position, sends one absolute move, and
/// waits 5 ms.
pub open spec fn move_mouse_to_run(a: Seq<Answer>, p: nat, screen_x: i32, screen_y: i32) -> Trace<
    (),
> {
    screen_to_normalized_run(a, p, screen_x, screen_y).and_next(
        |n: (i32, i32), p: nat|
            send_one_run(
                a,
                p,
                Input::Mouse(MouseInput { dx: n.0, dy: n.1, flags: MOUSEEVENTF_MOVE_ABSOLUTE }),
                "Failed to send mouse movement input"@,
            ).and_next(|u: (), p: nat| ask_done(a, p, Action::Sleep { millis: 5 })),
    )
}

/// Moves the mouse pointer to a screen position.
pub fn move_mouse_to(t: &mut Transcript, screen_x: i32, screen_y: i32) -> (r: Outcome<()>)
    ensures
        replayed(
            *old(t),
            *final(t),
            r,
            move_mouse_to_run(old(t).answers@, old(t).pos as nat, screen_x, screen_y),
        ),
{
    let (normalized_x, normalized_y) = screen_to_normalized(t, screen_x, screen_y)?;
    send_one(
        t,
        Input::Mouse(
            MouseInput { dx: normalized_x, dy: normalized_y, flags: MOUSEEVENTF_MOVE_ABSOLUTE },
        ),
        "Failed to send mouse movement input",
    )?;
    t.sleep(5)
}


/// [`click_left_mouse_button`]: sends the left button down and up, and waits 10 ms.
pub open spec fn click_left_mouse_button_run(a: Seq<Answer>, p: nat) -> Trace<()> {
    send_two_run(
        a,
        p,
        mouse_button(MOUSEEVENTF_LEFTDOWN),
        mouse_button(MOUSEEVENTF_LEFTUP),
        "Failed to send mouse click input"@,
    ).and_next(|u: (), p: nat| ask_done(a, p, Action::Sleep { millis: 10 }))
}

/// Clicks the left mouse button where the pointer is.
pub fn click_left_mouse_button(t: &mut Transcript) -> (r: Outcome<()>)
    ensures
        replayed(
            *old(t),
            *final(t),
            r,
            click_left_mouse_button_run(old(t).answers@, old(t).pos as nat),
        ),
{
    send_two(
        t,
        Input::Mouse(MouseInput { dx: 0, dy: 0, flags: MOUSEEVENTF_LEFTDOWN }),
        Input::Mouse(MouseInput { dx: 0, dy: 0, flags: MOUSEEVENTF_LEFTUP }),
        "Failed to send mouse click input",
    )?;
    t.sleep(10)
}

/// [`click_right_mouse_button`]: sends the right button down and up, and waits 10 ms.
pub open spec fn click_right_mouse_button_run(a: Seq<Answer>, p: nat) -> Trace<()> {
    send_two_run(
        a,
        p,
        mouse_button(MOUSEEVENTF_RIGHTDOWN),
        mouse_button(MOUSEEVENTF_RIGHTUP),
        "Failed to send mouse right-click input"@,
    ).and_next(|u: (), p: nat| ask_done(a, p, Action::Sleep { millis: 10 }))
}

/// Clicks the right mouse button where the pointer is.
pub fn click_right_mouse_button(t: &mut Transcript) -> (r: Outcome<()>)
    ensures
        replayed(
            *old(t),
            *final(t),
            r,
            click_right_mouse_button_run(old(t).answers@, old(t).pos as nat),
        ),
{
    send_two(
        t,
        Input::Mouse(MouseInput { dx: 0, dy: 0, flags: MOUSEEVENTF_RIGHTDOWN }),
        Input::Mouse(MouseInput { dx: 0, dy: 0, flags: MOUSEEVENTF_RIGHTUP }),
        "Failed to send mouse right-click input",
    )?;
    t.sleep(10)
}

/// [`send_mouse_down`]: sends the left button down.
pub open spec fn send_mouse_down_run(a: Seq<Answer>, p: nat) -> Trace<()> {
    send_one_run(a, p, mouse_button(MOUSEEVENTF_LEFTDOWN), "Failed to send mouse down input"@)
}

/// Presses the left mouse button where the pointer is, and holds it.
pub fn send_mouse_down(t: &mut Transcript) -> (r: Outcome<()>)
    ensures
        replayed(*old(t), *final(t), r, send_mouse_down_run(old(t).answers@, old(t).pos as nat)),
{
    send_one(
        t,
        Input::Mouse(MouseInput { dx: 0, dy: 0, flags: MOUSEEVENTF_LEFTDOWN }),
        "Failed to send mouse down input",
    )
}

/// [`send_mouse_up`]: sends the left button up.
pub open spec fn send_mouse_up_run(a: Seq<Answer>, p: nat) -> Trace<()> {
    send_one_run(a, p, mouse_button(MOUSEEVENTF_LEFTUP), "Failed to send mouse up input"@)
}

/// Releases the left mouse button.
pub fn send_mouse_up(t: &mut Transcript) -> (r: Outcome<()>)
    ensures
        replayed(*old(t), *final(t), r, send_mouse_up_run(old(t).answers@, old(t).pos as nat)),
{
    send_one(
        t,
        Input::Mouse(MouseInput { dx: 0, dy: 0, flags: MOUSEEVENTF_LEFTUP }),
        "Failed to send mouse up input",
    )
}

/// The number of moves in which a drag goes from its start to its end.
pub const DRAG_STEPS: i32 = 10;

/// The moves of a drag from step `i` on: for each step the pointer goes to the
/// start plus that step's share of the way, then waits `pause` ms.
pub open spec fn glide_run(
    a: Seq<Answer>,
    p: nat,
    start_x: i32,
    start_y: i32,
    delta_x: i32,
    delta_y: i32,
    i: int,
    pause: u64,
) -> Trace<()>
    decreases DRAG_STEPS + 1 - i,
{
    if i < 1 || i > DRAG_STEPS {
        Run::value((), p)
    } else {
        let rest = |u: (), p: nat|
            glide_run(a, p, start_x, start_y, delta_x, delta_y, i + 1, pause);
        ask_number(
            a,
            p,
            Action::Fraction { delta: delta_x, step: i as i32, steps: DRAG_STEPS },
        ).and_next(
            |fx: i32, p: nat|
                Run::of(fit_i32(start_x + fx), p).and_next(
                    |x: i32, p: nat|
                        ask_number(
                            a,
                            p,
                            Action::Fraction { delta: delta_y, step: i as i32, steps: DRAG_STEPS },
                        ).and_next(
                            |fy: i32, p: nat|
                                Run::of(fit_i32(start_y + fy), p).and_next(
                                    |y: i32, p: nat|
                                        move_mouse_to_run(a, p, x, y).and_next(
                                            |u: (), p: nat|
                                                ask_done(
                                                    a,
                                                    p,
                                                    Action::Sleep { millis: pause },
                                                ).and_next(rest),
                                        ),
                                ),
                        ),
                ),
        )
    }
}

/// Moves the pointer from the start towards the start plus the deltas in ten
/// steps, waiting `pause` ms after each.
pub fn glide(
    t: &mut Transcript,
    start_x: i32,
    start_y: i32,
    delta_x: i32,
    delta_y: i32,
    pause: u64,
) -> (r: Outcome<()>)
    ensures
        replayed(
            *old(t),
            *final(t),
            r,
            glide_run(
                old(t).answers@,
                old(t).pos as nat,
                start_x,
                start_y,
                delta_x,
                delta_y,
                1,
                pause,
            ),
        ),
{
    let mut i: i32 = 1;
    while i <= DRAG_STEPS
        invariant
            1 <= i <= DRAG_STEPS + 1,
            t.answers == old(t).answers,
            glide_run(
                old(t).answers@,
                old(t).pos as nat,
                start_x,
                start_y,
                delta_x,
                delta_y,
                1,
                pause,
            ) == glide_run(
                t.answers@,
                t.pos as nat,
                start_x,
                start_y,
                delta_x,
                delta_y,
                i as int,
                pause,
            ),
        decreases DRAG_STEPS + 1 - i,
    {
        let fx = t.number(Action::Fraction { delta: delta_x, step: i, steps: DRAG_STEPS })?;
        let x = plus(start_x, fx)?;
        let fy = t.number(Action::Fraction { delta: delta_y, step: i, steps: DRAG_STEPS })?;
        let y = plus(start_y, fy)?;
        move_mouse_to(t, x, y)?;
        t.sleep(pause)?;
        i = i + 1;
    }
    Ok(())
}


/// The text with which an activation fails, if it does: `shown`,
/// `foreground` and `raised` are what `ShowWindow`, `SetForegroundWindow` and
/// `SetWindowPos` returned, the last of them asked only where the second
/// failed. Raising the window makes up for both earlier failures.
pub open spec fn activation_failure(shown: bool, foreground: bool, raised: bool) -> Option<
    Seq<char>,
> {
    if foreground {
        if shown {
            None
        } else {
            Some("ShowWindow failed"@)
        }
    } else if raised {
        None
    } else if shown {
        Some("SetForegroundWindow failed"@ + ", SetWindowPos also failed"@)
    } else {
        Some("ShowWindow failed"@ + ", SetWindowPos also failed"@)
    }
}

/// The text with which an activation fails, if it does.
pub fn activation_error(shown: bool, foreground: bool, raised: bool) -> (r: Option<String>)
    ensures
        match r {
            Some(text) => activation_failure(shown, foreground, raised) == Some(text@),
            None => activation_failure(shown, foreground, raised) is None,
        },
{
    if foreground {
        if shown {
            None
        } else {
            Some(String::from_str("ShowWindow failed"))
        }
    } else if raised {
        None
    } else if shown {
        Some(joined("SetForegroundWindow failed", ", SetWindowPos also failed"))
    } else {
        Some(joined("ShowWindow failed", ", SetWindowPos also failed"))
    }
}

/// The command for `ShowWindow` that keeps a maximised window maximised and
/// restores any other.
pub open spec fn show_command(style: i32) -> i32 {
    if (style & WS_MAXIMIZE) != 0 {
        SW_SHOWMAXIMIZED
    } else {
        SW_RESTORE
    }
}

/// The end of an activation: the error, or a wait of 500 ms.
pub open spec fn activation_end(a: Seq<Answer>, p: nat, failure: Option<Seq<char>>) -> Trace<()> {
    match failure {
        Some(text) => Run::fail(MspMcpErrorModel::WindowActivationFailed(text), p),
        None => ask_done(a, p, Action::Sleep { millis: 500 }),
    }
}

/// [`activate_paint_window`]: fails with `WindowNotFound` where the window is
/// not visible. Else waits 200 ms, reads the style, shows the window, waits
/// 300 ms and brings it to the foreground; where that fails it waits 200 ms
/// and raises the window instead. It ends as [`activation_failure`] says.
pub open spec fn activate_paint_window_run(a: Seq<Answer>, p: nat, hwnd: isize) -> Trace<()> {
    ask_flag(a, p, Action::IsWindowVisible { hwnd }).and_next(
        |visible: bool, p: nat|
            if !visible {
                Run::fail(MspMcpErrorModel::WindowNotFound, p)
            } else {
                ask_done(a, p, Action::Sleep { millis: 200 }).and_next(
                    |u: (), p: nat|
                        ask_number(a, p, Action::WindowStyle { hwnd }).and_next(
                            |style: i32, p: nat|
                                ask_flag(
                                    a,
                                    p,
                                    Action::ShowWindow { hwnd, command: show_command(style) },
                                ).and_next(
                                    |shown: bool, p: nat|
                                        ask_done(a, p, Action::Sleep { millis: 300 }).and_next(
                                            |u: (), p: nat|
                                                activate_foreground_run(a, p, hwnd, shown),
                                        ),
                                ),
                        ),
                )
            },
    )
}

/// The second half of [`activate_paint_window`], from `SetForegroundWindow` on.
pub open spec fn activate_foreground_run(a: Seq<Answer>, p: nat, hwnd: isize, shown: bool) -> Trace<
    (),
> {
    ask_flag(a, p, Action::SetForegroundWindow { hwnd }).and_next(
        |foreground: bool, p: nat|
            if foreground {
                activation_end(a, p, activation_failure(shown, true, true))
            } else {
                ask_done(a, p, Action::Sleep { millis: 200 }).and_next(
                    |u: (), p: nat|
                        ask_flag(a, p, Action::RaiseWindow { hwnd }).and_next(
                            |raised: bool, p: nat|
                                activation_end(a, p, activation_failure(shown, false, raised)),
                        ),
                )
            },
    )
}

/// Brings the Paint window to the foreground, restored or maximised as it was.
pub fn activate_paint_window(t: &mut Transcript, hwnd: isize) -> (r: Outcome<()>)
    ensures
        replayed(
            *old(t),
            *final(t),
            r,
            activate_paint_window_run(old(t).answers@, old(t).pos as nat, hwnd),
        ),
{
    let is_visible = t.flag(Action::IsWindowVisible { hwnd })?;
    if !is_visible {
        return Err(Halt::Failed(MspMcpError::WindowNotFound));
    }
    t.sleep(200)?;
    let style = t.number(Action::WindowStyle { hwnd })?;
    let is_maximized = (style & WS_MAXIMIZE) != 0;
    let show_cmd = if is_maximized {
        SW_SHOWMAXIMIZED
    } else {
        SW_RESTORE
    };
    let shown = t.flag(Action::ShowWindow { hwnd, command: show_cmd })?;
    t.sleep(300)?;
    let foreground = t.flag(Action::SetForegroundWindow { hwnd })?;
    let mut raised = true;
    if !foreground {
        t.sleep(200)?;
        raised = t.flag(Action::RaiseWindow { hwnd })?;
    }
    match activation_error(shown, foreground, raised) {
        Some(activation_error) => Err(
            Halt::Failed(MspMcpError::WindowActivationFailed(activation_error)),
        ),
        None => t.sleep(500),
    }
}

/// The height of the title bar, the menu bar, the ribbon and the status bar
/// together, which the canvas does not have.
pub const CHROME_HEIGHT: u32 = 167;

/// The width of the panel at the right, which the canvas does not have.
pub const RIGHT_PANEL_WIDTH: u32 = 270;

/// `v - less`, or zero where that would be negative.
pub open spec fn reduced(v: u32, less: u32) -> u32 {
    if v >= less {
        (v - less) as u32
    } else {
        0
    }
}

/// The rectangle of the window, or the error of `GetWindowRect`.
pub open spec fn window_rect_run(a: Seq<Answer>, p: nat, hwnd: isize) -> Trace<Rect> {
    ask_rect(a, p, Action::WindowRect { hwnd }).and_next(
        |rect: Option<Rect>, p: nat|
            match rect {
                Some(rect) => Run::value(rect, p),
                None => Run::fail(MspMcpErrorModel::WindowsApiError("GetWindowRect failed"@), p),
            },
    )
}

/// The rectangle of the window, or the error of `GetWindowRect`.
pub fn window_rect(t: &mut Transcript, hwnd: isize) -> (r: Outcome<Rect>)
    ensures
        replayed(*old(t), *final(t), r, window_rect_run(old(t).answers@, old(t).pos as nat, hwnd)),
{
    match t.rect(Action::WindowRect { hwnd })? {
        Some(rect) => Ok(rect),
        None => Err(Halt::Failed(api_error("GetWindowRect failed"))),
    }
}

/// The width and the height of a rectangle as unsigned numbers: a negative
/// extent wraps, and one that leaves `i32` is a fault.
pub open spec fn extent<E>(rect: Rect) -> Result<(u32, u32), Halt<E>> {
    match fit_i32::<E>(rect.right - rect.left) {
        Ok(width) => match fit_i32::<E>(rect.bottom - rect.top) {
            Ok(height) => Ok((crate::desktop::wrapped_u32(width), crate::desktop::wrapped_u32(height))),
            Err(h) => Err(h),
        },
        Err(h) => Err(h),
    }
}

/// The width and the height of a rectangle as unsigned numbers.
pub fn rect_extent<E>(rect: Rect) -> (r: Result<(u32, u32), Halt<E>>)
    ensures
        r == extent::<E>(rect),
{
    let width = minus(rect.right, rect.left)?;
    let height = minus(rect.bottom, rect.top)?;
    Ok((crate::desktop::wrap_u32(width), crate::desktop::wrap_u32(height)))
}

/// [`get_canvas_dimensions`]: activates the window, reads its rectangle and
/// takes the panel off its width and the bars off its height.
pub open spec fn get_canvas_dimensions_run(a: Seq<Answer>, p: nat, hwnd: isize) -> Trace<
    (u32, u32),
> {
    activate_paint_window_run(a, p, hwnd).and_next(
        |u: (), p: nat|
            window_rect_run(a, p, hwnd).and_next(
                |rect: Rect, p: nat|
                    Run::of(extent(rect), p).and_next(
                        |size: (u32, u32), p: nat|
                            Run::value(
                                (
                                    reduced(size.0, RIGHT_PANEL_WIDTH),
                                    reduced(size.1, CHROME_HEIGHT),
                                ),
                                p,
                            ),
                    ),
            ),
    )
}

/// The width and height of the canvas, estimated from the window's size.
pub fn get_canvas_dimensions(t: &mut Transcript, hwnd: isize) -> (r: Outcome<(u32, u32)>)
    ensures
        replayed(
            *old(t),
            *final(t),
            r,
            get_canvas_dimensions_run(old(t).answers@, old(t).pos as nat, hwnd),
        ),
{
    activate_paint_window(t, hwnd)?;
    let rect = window_rect(t, hwnd)?;
    let (window_width, window_height) = rect_extent(rect)?;
    let canvas_width = window_width.saturating_sub(RIGHT_PANEL_WIDTH);
    let canvas_height = window_height.saturating_sub(CHROME_HEIGHT);
    Ok((canvas_width, canvas_height))
}

/// [`get_initial_canvas_dimensions`]: reads the window's rectangle and
/// returns its width and height.
pub open spec fn get_initial_canvas_dimensions_run(a: Seq<Answer>, p: nat, hwnd: isize) -> Trace<
    (u32, u32),
> {
    window_rect_run(a, p, hwnd).and_next(|rect: Rect, p: nat| Run::of(extent(rect), p))
}

/// The width and height of the window, which stand for those of the canvas
/// when a client connects.
pub fn get_initial_canvas_dimensions(t: &mut Transcript, hwnd: isize) -> (r: Outcome<(u32, u32)>)
    ensures
        replayed(
            *old(t),
            *final(t),
            r,
            get_initial_canvas_dimensions_run(old(t).answers@, old(t).pos as nat, hwnd),
        ),
{
    let rect = window_rect(t, hwnd)?;
    rect_extent(rect)
}


/// [`click_at_position`]: moves the pointer there and clicks the left button.
pub open spec fn click_at_position_run(a: Seq<Answer>, p: nat, screen_x: i32, screen_y: i32) -> Trace<
    (),
> {
    move_mouse_to_run(a, p, screen_x, screen_y).and_next(
        |u: (), p: nat| click_left_mouse_button_run(a, p),
    )
}

/// Clicks the left button at a screen position.
pub fn click_at_position(t: &mut Transcript, screen_x: i32, screen_y: i32) -> (r: Outcome<()>)
    ensures
        replayed(
            *old(t),
            *final(t),
            r,
            click_at_position_run(old(t).answers@, old(t).pos as nat, screen_x, screen_y),
        ),
{
    move_mouse_to(t, screen_x, screen_y)?;
    click_left_mouse_button(t)
}

/// [`click_at_client_position`]: converts the point to screen coordinates and
/// clicks there.
pub open spec fn click_at_client_position_run(
    a: Seq<Answer>,
    p: nat,
    hwnd: isize,
    client_x: i32,
    client_y: i32,
) -> Trace<()> {
    client_to_screen_run(a, p, hwnd, client_x, client_y).and_next(
        |s: (i32, i32), p: nat| click_at_position_run(a, p, s.0, s.1),
    )
}

/// Clicks the left button at a point of the window's client area.
pub fn click_at_client_position(t: &mut Transcript, hwnd: isize, client_x: i32, client_y: i32) -> (r:
    Outcome<()>)
    ensures
        replayed(
            *old(t),
            *final(t),
            r,
            click_at_client_position_run(
                old(t).answers@,
                old(t).pos as nat,
                hwnd,
                client_x,
                client_y,
            ),
        ),
{
    let (screen_x, screen_y) = client_to_screen(t, hwnd, client_x, client_y)?;
    click_at_position(t, screen_x, screen_y)
}

/// How far the canvas lies to the right of the client area's left edge.
pub const DRAWING_AREA_LEFT: i32 = 5;

/// How far the canvas lies below the client area's top edge.
pub const DRAWING_AREA_TOP: i32 = 120;

/// Where the canvas begins in the client area of the window: 5 to the right
/// and 120 down, whatever the window.
pub fn get_drawing_area_offset(hwnd: isize) -> (r: Result<(i32, i32), MspMcpError>)
    ensures
        r == Ok::<(i32, i32), MspMcpError>((DRAWING_AREA_LEFT, DRAWING_AREA_TOP)),
{
    Ok((DRAWING_AREA_LEFT, DRAWING_AREA_TOP))
}

/// [`press_key`]: sends the key down and up, and waits 10 ms.
pub open spec fn press_key_run(a: Seq<Answer>, p: nat, key_code: u16) -> Trace<()> {
    send_two_run(
        a,
        p,
        key_event(key_code, 0),
        key_event(key_code, KEYEVENTF_KEYUP),
        "Failed to send key press input"@,
    ).and_next(|u: (), p: nat| ask_done(a, p, Action::Sleep { millis: 10 }))
}

/// Presses and releases a key, named by its virtual key code.
pub fn press_key(t: &mut Transcript, key_code: u16) -> (r: Outcome<()>)
    ensures
        replayed(
            *old(t),
            *final(t),
            r,
            press_key_run(old(t).answers@, old(t).pos as nat, key_code),
        ),
{
    send_two(
        t,
        Input::Key(KeyInput { vk: key_code, scan: 0, flags: 0 }),
        Input::Key(KeyInput { vk: key_code, scan: 0, flags: KEYEVENTF_KEYUP }),
        "Failed to send key press input",
    )?;
    t.sleep(10)
}

/// [`press_key_scan`]: sends the key down and up by scan code, and waits 10 ms.
pub open spec fn press_key_scan_run(a: Seq<Answer>, p: nat, scan_code: u16) -> Trace<()> {
    send_two_run(
        a,
        p,
        scan_event(scan_code, KEYEVENTF_SCANCODE),
        scan_event(scan_code, KEYEVENTF_SCANCODE_KEYUP),
        "Failed to send key press scan code input"@,
    ).and_next(|u: (), p: nat| ask_done(a, p, Action::Sleep { millis: 10 }))
}

/// Presses and releases a key, named by its scan code.
pub fn press_key_scan(t: &mut Transcript, scan_code: u16) -> (r: Outcome<()>)
    ensures
        replayed(
            *old(t),
            *final(t),
            r,
            press_key_scan_run(old(t).answers@, old(t).pos as nat, scan_code),
        ),
{
    send_two(
        t,
        Input::Key(KeyInput { vk: 0, scan: scan_code, flags: KEYEVENTF_SCANCODE }),
        Input::Key(KeyInput { vk: 0, scan: scan_code, flags: KEYEVENTF_SCANCODE_KEYUP }),
        "Failed to send key press scan code input",
    )?;
    t.sleep(10)
}

/// [`key_down`]: sends the key down, and waits 5 ms.
pub open spec fn key_down_run(a: Seq<Answer>, p: nat, key_code: u16) -> Trace<()> {
    send_one_run(a, p, key_event(key_code, 0), "Failed to send key down input"@).and_next(
        |u: (), p: nat| ask_done(a, p, Action::Sleep { millis: 5 }),
    )
}

/// Presses a key and holds it.
pub fn key_down(t: &mut Transcript, key_code: u16) -> (r: Outcome<()>)
    ensures
        replayed(*old(t), *final(t), r, key_down_run(old(t).answers@, old(t).pos as nat, key_code)),
{
    send_one(
        t,
        Input::Key(KeyInput { vk: key_code, scan: 0, flags: 0 }),
        "Failed to send key down input",
    )?;
    t.sleep(5)
}

/// [`key_up`]: sends the key up, and waits 5 ms.
pub open spec fn key_up_run(a: Seq<Answer>, p: nat, key_code: u16) -> Trace<()> {
    send_one_run(a, p, key_event(key_code, KEYEVENTF_KEYUP), "Failed to send key up input"@).and_next(
        |u: (), p: nat| ask_done(a, p, Action::Sleep { millis: 5 }),
    )
}

/// Releases a key that is held.
pub fn key_up(t: &mut Transcript, key_code: u16) -> (r: Outcome<()>)
    ensures
        replayed(*old(t), *final(t), r, key_up_run(old(t).answers@, old(t).pos as nat, key_code)),
{
    send_one(
        t,
        Input::Key(KeyInput { vk: key_code, scan: 0, flags: KEYEVENTF_KEYUP }),
        "Failed to send key up input",
    )?;
    t.sleep(5)
}

/// A key pressed while `modifier` is held: the modifier goes down, the key is
/// pressed, the modifier goes up.
pub open spec fn chord_run(a: Seq<Answer>, p: nat, modifier: u16, key_code: u16) -> Trace<()> {
    key_down_run(a, p, modifier).and_next(
        |u: (), p: nat|
            press_key_run(a, p, key_code).and_next(|u: (), p: nat| key_up_run(a, p, modifier)),
    )
}

/// Presses a key while `modifier` is held.
pub fn chord(t: &mut Transcript, modifier: u16, key_code: u16) -> (r: Outcome<()>)
    ensures
        replayed(
            *old(t),
            *final(t),
            r,
            chord_run(old(t).answers@, old(t).pos as nat, modifier, key_code),
        ),
{
    key_down(t, modifier)?;
    press_key(t, key_code)?;
    key_up(t, modifier)
}

/// The virtual key code of the letter A.
pub const VK_A: u16 = 0x41;

/// The virtual key code of the letter C.
pub const VK_C: u16 = 0x43;

/// The virtual key code of the letter N.
pub const VK_N: u16 = 0x4E;

/// The virtual key code of the letter S.
pub const VK_S: u16 = 0x53;

/// The virtual key code of the letter V.
pub const VK_V: u16 = 0x56;

/// Presses Ctrl+A, which selects all.
pub fn press_ctrl_a(t: &mut Transcript) -> (r: Outcome<()>)
    ensures
        replayed(
            *old(t),
            *final(t),
            r,
            chord_run(old(t).answers@, old(t).pos as nat, VK_CONTROL, VK_A),
        ),
{
    chord(t, VK_CONTROL, VK_A)
}

/// Presses Ctrl+C, which copies.
pub fn press_ctrl_c(t: &mut Transcript) -> (r: Outcome<()>)
    ensures
        replayed(
            *old(t),
            *final(t),
            r,
            chord_run(old(t).answers@, old(t).pos as nat, VK_CONTROL, VK_C),
        ),
{
    chord(t, VK_CONTROL, VK_C)
}

/// Presses Ctrl+V, which pastes.
pub fn press_ctrl_v(t: &mut Transcript) -> (r: Outcome<()>)
    ensures
        replayed(
            *old(t),
            *final(t),
            r,
            chord_run(old(t).answers@, old(t).pos as nat, VK_CONTROL, VK_V),
        ),
{
    chord(t, VK_CONTROL, VK_V)
}

/// Presses Ctrl+N, which opens a new image.
pub fn press_ctrl_n(t: &mut Transcript) -> (r: Outcome<()>)
    ensures
        replayed(
            *old(t),
            *final(t),
            r,
            chord_run(old(t).answers@, old(t).pos as nat, VK_CONTROL, VK_N),
        ),
{
    chord(t, VK_CONTROL, VK_N)
}

/// Presses Ctrl+S, which saves.
pub fn press_ctrl_s(t: &mut Transcript) -> (r: Outcome<()>)
    ensures
        replayed(
            *old(t),
            *final(t),
            r,
            chord_run(old(t).answers@, old(t).pos as nat, VK_CONTROL, VK_S),
        ),
{
    chord(t, VK_CONTROL, VK_S)
}

/// Presses the Delete key.
pub fn press_delete(t: &mut Transcript) -> (r: Outcome<()>)
    ensures
        replayed(
            *old(t),
            *final(t),
            r,
            press_key_run(old(t).answers@, old(t).pos as nat, VK_DELETE),
        ),
{
    press_key(t, VK_DELETE)
}

/// Presses the Enter key.
pub fn press_enter(t: &mut Transcript) -> (r: Outcome<()>)
    ensures
        replayed(
            *old(t),
            *final(t),
            r,
            press_key_run(old(t).answers@, old(t).pos as nat, VK_RETURN),
        ),
{
    press_key(t, VK_RETURN)
}

/// Presses the Tab key.
pub fn press_tab(t: &mut Transcript) -> (r: Outcome<()>)
    ensures
        replayed(*old(t), *final(t), r, press_key_run(old(t).answers@, old(t).pos as nat, VK_TAB)),
{
    press_key(t, VK_TAB)
}

/// Presses the Escape key.
pub fn press_escape(t: &mut Transcript) -> (r: Outcome<()>)
    ensures
        replayed(
            *old(t),
            *final(t),
            r,
            press_key_run(old(t).answers@, old(t).pos as nat, VK_ESCAPE),
        ),
{
    press_key(t, VK_ESCAPE)
}

/// How a character is typed.
#[derive(Clone, Copy, Debug, PartialEq, Eq, Structural)]
pub enum Keystroke {
    /// The character has no key: it is left out.
    Skip,
    /// The key with this virtual key code.
    Press(u16),
    /// That key, while Shift is held.
    ShiftPress(u16),
}

/// How a character is typed, given the first character of its upper case
/// and whether it is an upper-case letter: space, tab and line ends have keys
/// of their own; a letter or digit has the key of its upper case, with Shift
/// for an upper-case letter; nothing else has a key.
pub open spec fn keystroke_of(upper: char, capital: bool) -> Keystroke {
    if upper == ' ' {
        Keystroke::Press(VK_SPACE)
    } else if upper == '\t' {
        Keystroke::Press(VK_TAB)
    } else if upper == '\n' || upper == '\r' {
        Keystroke::Press(VK_RETURN)
    } else if ('A' <= upper && upper <= 'Z') || ('0' <= upper && upper <= '9') {
        if capital {
            Keystroke::ShiftPress(upper as u16)
        } else {
            Keystroke::Press(upper as u16)
        }
    } else {
        Keystroke::Skip
    }
}

/// How a character is typed, given the first character of its upper case and
/// whether it is an upper-case letter.
pub fn keystroke(upper: char, capital: bool) -> (k: Keystroke)
    ensures
        k == keystroke_of(upper, capital),
{
    if upper == ' ' {
        Keystroke::Press(VK_SPACE)
    } else if upper == '\t' {
        Keystroke::Press(VK_TAB)
    } else if upper == '\n' || upper == '\r' {
        Keystroke::Press(VK_RETURN)
    } else if ('A' <= upper && upper <= 'Z') || ('0' <= upper && upper <= '9') {
        let key_code = upper as u16;
        if capital {
            Keystroke::ShiftPress(key_code)
        } else {
            Keystroke::Press(key_code)
        }
    } else {
        Keystroke::Skip
    }
}

/// The first character of the upper case of `c`, or `c` where it has none.
pub open spec fn upper_of(c: char) -> char {
    if char_uppercase(c).len() > 0 {
        char_uppercase(c)[0]
    } else {
        c
    }
}

/// Whether `c` is typed with Shift: it is an upper-case letter and not a
/// lower-case one.
pub open spec fn is_capital(c: char) -> bool {
    !(char_is_lowercase(c) && char_is_alphabetic(c)) && char_is_uppercase(c)
        && char_is_alphabetic(c)
}

/// How the character `c` is typed.
pub fn keystroke_for(c: char) -> (k: Keystroke)
    ensures
        k == keystroke_of(upper_of(c), is_capital(c)),
{
    let upper = to_uppercase_char(c);
    let upper_c = if upper.len() > 0 {
        upper[0]
    } else {
        c
    };
    let small = is_lowercase(c) && is_alphabetic(c);
    let capital = !small && is_uppercase(c) && is_alphabetic(c);
    keystroke(upper_c, capital)
}

/// Types one character and waits 5 ms.
pub open spec fn type_char_run(a: Seq<Answer>, p: nat, c: char) -> Trace<()> {
    let pause = |u: (), p: nat| ask_done(a, p, Action::Sleep { millis: 5 });
    match keystroke_of(upper_of(c), is_capital(c)) {
        Keystroke::Skip => ask_done(a, p, Action::Sleep { millis: 5 }),
        Keystroke::Press(key_code) => press_key_run(a, p, key_code).and_next(pause),
        Keystroke::ShiftPress(key_code) => chord_run(a, p, VK_SHIFT, key_code).and_next(pause),
    }
}

/// Types one character and waits 5 ms.
pub fn type_char(t: &mut Transcript, c: char) -> (r: Outcome<()>)
    ensures
        replayed(*old(t), *final(t), r, type_char_run(old(t).answers@, old(t).pos as nat, c)),
{
    match keystroke_for(c) {
        Keystroke::Skip => {},
        Keystroke::Press(key_code) => {
            press_key(t, key_code)?;
        },
        Keystroke::ShiftPress(key_code) => {
            chord(t, VK_SHIFT, key_code)?;
        },
    }
    t.sleep(5)
}

/// [`type_text`] from the character at `i` on: each character in turn.
pub open spec fn type_text_run(a: Seq<Answer>, p: nat, text: Seq<char>, i: int) -> Trace<()>
    decreases text.len() - i,
{
    if i < 0 || i >= text.len() {
        Run::value((), p)
    } else {
        type_char_run(a, p, text[i]).and_next(|u: (), p: nat| type_text_run(a, p, text, i + 1))
    }
}

/// Types a text, character by character. Characters without a key are left out.
pub fn type_text(t: &mut Transcript, text: &str) -> (r: Outcome<()>)
    ensures
        replayed(*old(t), *final(t), r, type_text_run(old(t).answers@, old(t).pos as nat, text@, 0)),
{
    let chars = chars_of(text);
    let mut i: usize = 0;
    while i < chars.len()
        invariant
            i <= chars.len(),
            chars@ == text@,
            t.answers == old(t).answers,
            type_text_run(old(t).answers@, old(t).pos as nat, text@, 0) == type_text_run(
                t.answers@,
                t.pos as nat,
                text@,
                i as int,
            ),
        decreases chars.len() - i,
    {
        type_char(t, chars[i])?;
        i = i + 1;
    }
    Ok(())
}


/// By what the width of the window is divided to find a tool in the toolbar,
/// for a tool's name in lower case.
pub open spec fn tool_divisor(tool: Seq<char>) -> Option<int> {
    if tool == "pencil"@ {
        Some(20)
    } else if tool == "brush"@ {
        Some(10)
    } else if tool == "fill"@ {
        Some(7)
    } else if tool == "text"@ {
        Some(5)
    } else if tool == "eraser"@ {
        Some(4)
    } else if tool == "select"@ {
        Some(3)
    } else if tool == "shape"@ {
        Some(2)
    } else {
        None
    }
}

/// How far below the top of the client area the toolbar's buttons lie.
pub const TOOLBAR_Y: i32 = 60;

/// Where a tool's button lies in the client area of a window of this width,
/// for a tool's name in lower case; `None` for a name that is no tool's.
pub open spec fn tool_spot(tool: Seq<char>, window_width: i32) -> Option<(i32, i32)> {
    match tool_divisor(tool) {
        Some(d) => Some((crate::desktop::quotient(window_width as int, d) as i32, TOOLBAR_Y)),
        None => None,
    }
}

/// Where a tool's button lies in the client area of a window of this width.
pub fn tool_position(tool: &str, window_width: i32) -> (r: Option<(i32, i32)>)
    ensures
        r == tool_spot(tool@, window_width),
{
    if same_text(tool, "pencil") {
        Some((window_width / 20, TOOLBAR_Y))
    } else if same_text(tool, "brush") {
        Some((window_width / 10, TOOLBAR_Y))
    } else if same_text(tool, "fill") {
        Some((window_width / 7, TOOLBAR_Y))
    } else if same_text(tool, "text") {
        Some((window_width / 5, TOOLBAR_Y))
    } else if same_text(tool, "eraser") {
        Some((window_width / 4, TOOLBAR_Y))
    } else if same_text(tool, "select") {
        Some((window_width / 3, TOOLBAR_Y))
    } else if same_text(tool, "shape") {
        Some((window_width / 2, TOOLBAR_Y))
    } else {
        None
    }
}

/// [`select_tool`]: activates the window, reads its rectangle and finds the
/// tool's button from its width; an unknown tool is refused only then. It
/// clicks the button and waits 300 ms.
pub open spec fn select_tool_run(a: Seq<Answer>, p: nat, hwnd: isize, tool: Seq<char>) -> Trace<()> {
    activate_paint_window_run(a, p, hwnd).and_next(
        |u: (), p: nat|
            window_rect_run(a, p, hwnd).and_next(
                |rect: Rect, p: nat|
                    Run::of(fit_i32(rect.right - rect.left), p).and_next(
                        |window_width: i32, p: nat|
                            match tool_spot(lowercase(tool), window_width) {
                                None => Run::fail(
                                    MspMcpErrorModel::InvalidParameters(
                                        "Unsupported tool: "@ + tool,
                                    ),
                                    p,
                                ),
                                Some(spot) => click_at_client_position_run(
                                    a,
                                    p,
                                    hwnd,
                                    spot.0,
                                    spot.1,
                                ).and_next(
                                    |u: (), p: nat| ask_done(a, p, Action::Sleep { millis: 300 }),
                                ),
                            },
                    ),
            ),
    )
}

/// Selects a drawing tool by a click on its button in the toolbar.
pub fn select_tool(t: &mut Transcript, hwnd: isize, tool: &str) -> (r: Outcome<()>)
    ensures
        replayed(
            *old(t),
            *final(t),
            r,
            select_tool_run(old(t).answers@, old(t).pos as nat, hwnd, tool@),
        ),
{
    activate_paint_window(t, hwnd)?;
    let rect = window_rect(t, hwnd)?;
    let window_width = minus(rect.right, rect.left)?;
    let lowered = to_lowercase(tool);
    let tool_positions = match tool_position(lowered.as_str(), window_width) {
        Some(spot) => spot,
        None => {
            return Err(
                Halt::Failed(MspMcpError::InvalidParameters(joined("Unsupported tool: ", tool))),
            );
        },
    };
    let (screen_x, screen_y) = client_to_screen(t, hwnd, tool_positions.0, tool_positions.1)?;
    click_at_position(t, screen_x, screen_y)?;
    t.sleep(300)
}

/// Whether a text has the form of a colour `#RRGGBB`: it begins with `#` and
/// is seven bytes long.
pub open spec fn is_color_form(color: Seq<char>) -> bool {
    has_prefix(color, "#"@) && byte_length(color) == 7
}

/// Whether a text has the form of a colour `#RRGGBB`.
pub fn has_color_form(color: &str) -> (r: bool)
    ensures
        r == is_color_form(color@),
{
    starts_with(color, "#") && color.len() == 7
}

/// [`set_color`]: activates the window, then refuses a text that has not the
/// form of a colour.
pub open spec fn set_color_run(a: Seq<Answer>, p: nat, hwnd: isize, color: Seq<char>) -> Trace<()> {
    activate_paint_window_run(a, p, hwnd).and_next(
        |u: (), p: nat|
            if !is_color_form(color) {
                Run::fail(
                    MspMcpErrorModel::InvalidParameters("Color must be in #RRGGBB format"@),
                    p,
                )
            } else {
                Run::value((), p)
            },
    )
}

/// Sets the active colour. The colour is checked; the palette is not touched.
pub fn set_color(t: &mut Transcript, hwnd: isize, color: &str) -> (r: Outcome<()>)
    ensures
        replayed(
            *old(t),
            *final(t),
            r,
            set_color_run(old(t).answers@, old(t).pos as nat, hwnd, color@),
        ),
{
    activate_paint_window(t, hwnd)?;
    if !has_color_form(color) {
        return Err(Halt::Failed(invalid_parameters("Color must be in #RRGGBB format")));
    }
    Ok(())
}

/// [`set_thickness`]: refuses a level outside 1 to 5, then activates the window.
pub open spec fn set_thickness_run(a: Seq<Answer>, p: nat, hwnd: isize, level: u32) -> Trace<()> {
    if level < 1 || level > 5 {
        Run::fail(
            MspMcpErrorModel::InvalidParameters("Thickness level must be between 1 and 5"@),
            p,
        )
    } else {
        activate_paint_window_run(a, p, hwnd)
    }
}

/// Sets the thickness of lines. The level is checked; the control is not touched.
pub fn set_thickness(t: &mut Transcript, hwnd: isize, level: u32) -> (r: Outcome<()>)
    ensures
        replayed(
            *old(t),
            *final(t),
            r,
            set_thickness_run(old(t).answers@, old(t).pos as nat, hwnd, level),
        ),
{
    if level < 1 || level > 5 {
        return Err(Halt::Failed(invalid_parameters("Thickness level must be between 1 and 5")));
    }
    activate_paint_window(t, hwnd)
}

/// [`set_brush_size`]: refuses a size outside 1 to 30, then activates the
/// window and selects the tool, if one is named.
pub open spec fn set_brush_size_run(
    a: Seq<Answer>,
    p: nat,
    hwnd: isize,
    size: u32,
    tool: Option<Seq<char>>,
) -> Trace<()> {
    if size < 1 || size > 30 {
        Run::fail(MspMcpErrorModel::InvalidParameters("Brush size must be between 1 and 30"@), p)
    } else {
        activate_paint_window_run(a, p, hwnd).and_next(
            |u: (), p: nat|
                match tool {
                    Some(tool_name) => select_tool_run(a, p, hwnd, tool_name),
                    None => Run::value((), p),
                },
        )
    }
}

/// Sets the size of the brush. The size is checked; the control is not touched.
pub fn set_brush_size(t: &mut Transcript, hwnd: isize, size: u32, tool: Option<&str>) -> (r:
    Outcome<()>)
    ensures
        replayed(
            *old(t),
            *final(t),
            r,
            set_brush_size_run(old(t).answers@, old(t).pos as nat, hwnd, size, text_view(tool)),
        ),
{
    if size < 1 || size > 30 {
        return Err(Halt::Failed(invalid_parameters("Brush size must be between 1 and 30")));
    }
    activate_paint_window(t, hwnd)?;
    if let Some(tool_name) = tool {
        select_tool(t, hwnd, tool_name)?;
    }
    Ok(())
}

/// Whether a text in lower case names a way to fill a shape.
pub open spec fn is_fill_type(lowered: Seq<char>) -> bool {
    lowered == "none"@ || lowered == "solid"@ || lowered == "outline"@
}

/// Whether a text in lower case names a way to fill a shape.
pub fn names_fill_type(lowered: &str) -> (r: bool)
    ensures
        r == is_fill_type(lowered@),
{
    same_text(lowered, "none") || same_text(lowered, "solid") || same_text(lowered, "outline")
}

/// [`set_fill`]: refuses a fill type that is none of `none`, `solid` and
/// `outline` in any case of letters, then activates the window.
pub open spec fn set_fill_run(a: Seq<Answer>, p: nat, hwnd: isize, fill_type: Seq<char>) -> Trace<
    (),
> {
    if !is_fill_type(lowercase(fill_type)) {
        Run::fail(
            MspMcpErrorModel::InvalidParameters(
                "Fill type must be 'none', 'solid', or 'outline', got '"@ + fill_type + "'"@,
            ),
            p,
        )
    } else {
        activate_paint_window_run(a, p, hwnd)
    }
}

/// Sets how shapes are filled. The type is checked; the control is not touched.
pub fn set_fill(t: &mut Transcript, hwnd: isize, fill_type: &str) -> (r: Outcome<()>)
    ensures
        replayed(
            *old(t),
            *final(t),
            r,
            set_fill_run(old(t).answers@, old(t).pos as nat, hwnd, fill_type@),
        ),
{
    let lowered = to_lowercase(fill_type);
    if !names_fill_type(lowered.as_str()) {
        return Err(
            Halt::Failed(
                MspMcpError::InvalidParameters(
                    joined3(
                        "Fill type must be 'none', 'solid', or 'outline', got '",
                        fill_type,
                        "'",
                    ),
                ),
            ),
        );
    }
    activate_paint_window(t, hwnd)
}


/// A wait of `millis` ms where there is one to make.
pub open spec fn pause_run(a: Seq<Answer>, p: nat, millis: Option<u64>) -> Trace<()> {
    match millis {
        Some(millis) => ask_done(a, p, Action::Sleep { millis }),
        None => Run::value((), p),
    }
}

/// A stroke with the left button held: the pointer goes to the start and
/// waits `settle` ms, the button goes down with a wait of `hold` ms, the
/// pointer glides to the end in ten steps with `pause` ms after each, goes to
/// the end itself and waits `rest` ms, and the button goes up.
pub open spec fn stroke_run(
    a: Seq<Answer>,
    p: nat,
    start: (i32, i32),
    end: (i32, i32),
    settle: u64,
    hold: Option<u64>,
    pause: u64,
    rest: u64,
) -> Trace<()> {
    move_mouse_to_run(a, p, start.0, start.1).and_next(
        |u: (), p: nat|
            ask_done(a, p, Action::Sleep { millis: settle }).and_next(
                |u: (), p: nat|
                    send_mouse_down_run(a, p).and_next(
                        |u: (), p: nat|
                            pause_run(a, p, hold).and_next(
                                |u: (), p: nat| stroke_glide_run(a, p, start, end, pause, rest),
                            ),
                    ),
            ),
    )
}

/// The second half of a stroke, from the glide on.
pub open spec fn stroke_glide_run(
    a: Seq<Answer>,
    p: nat,
    start: (i32, i32),
    end: (i32, i32),
    pause: u64,
    rest: u64,
) -> Trace<()> {
    Run::of(fit_i32(end.0 - start.0), p).and_next(
        |delta_x: i32, p: nat|
            Run::of(fit_i32(end.1 - start.1), p).and_next(
                |delta_y: i32, p: nat|
                    glide_run(a, p, start.0, start.1, delta_x, delta_y, 1, pause).and_next(
                        |u: (), p: nat|
                            move_mouse_to_run(a, p, end.0, end.1).and_next(
                                |u: (), p: nat|
                                    ask_done(a, p, Action::Sleep { millis: rest }).and_next(
                                        |u: (), p: nat| send_mouse_up_run(a, p),
                                    ),
                            ),
                    ),
            ),
    )
}

/// Draws a stroke with the left button held, from one screen position to another.
pub fn stroke(
    t: &mut Transcript,
    start: (i32, i32),
    end: (i32, i32),
    settle: u64,
    hold: Option<u64>,
    pause: u64,
    rest: u64,
) -> (r: Outcome<()>)
    ensures
        replayed(
            *old(t),
            *final(t),
            r,
            stroke_run(old(t).answers@, old(t).pos as nat, start, end, settle, hold, pause, rest),
        ),
{
    move_mouse_to(t, start.0, start.1)?;
    t.sleep(settle)?;
    send_mouse_down(t)?;
    if let Some(millis) = hold {
        t.sleep(millis)?;
    }
    let delta_x = minus(end.0, start.0)?;
    let delta_y = minus(end.1, start.1)?;
    glide(t, start.0, start.1, delta_x, delta_y, pause)?;
    move_mouse_to(t, end.0, end.1)?;
    t.sleep(rest)?;
    send_mouse_up(t)
}

/// [`drag_mouse`]: a stroke that settles for 50 ms, pauses 5 ms after each
/// step and rests 50 ms before the button goes up.
pub open spec fn drag_mouse_run(
    a: Seq<Answer>,
    p: nat,
    start_screen_x: i32,
    start_screen_y: i32,
    end_screen_x: i32,
    end_screen_y: i32,
) -> Trace<()> {
    stroke_run(
        a,
        p,
        (start_screen_x, start_screen_y),
        (end_screen_x, end_screen_y),
        50,
        None,
        5,
        50,
    )
}

/// Drags the mouse from one screen position to another.
pub fn drag_mouse(
    t: &mut Transcript,
    start_screen_x: i32,
    start_screen_y: i32,
    end_screen_x: i32,
    end_screen_y: i32,
) -> (r: Outcome<()>)
    ensures
        replayed(
            *old(t),
            *final(t),
            r,
            drag_mouse_run(
                old(t).answers@,
                old(t).pos as nat,
                start_screen_x,
                start_screen_y,
                end_screen_x,
                end_screen_y,
            ),
        ),
{
    stroke(t, (start_screen_x, start_screen_y), (end_screen_x, end_screen_y), 50, None, 5, 50)
}

/// A point of the canvas in the client area of the window.
pub open spec fn canvas_to_client<E>(canvas_x: i32, canvas_y: i32) -> Result<(i32, i32), Halt<E>> {
    match fit_i32::<E>(canvas_x + DRAWING_AREA_LEFT) {
        Ok(x) => match fit_i32::<E>(canvas_y + DRAWING_AREA_TOP) {
            Ok(y) => Ok((x, y)),
            Err(h) => Err(h),
        },
        Err(h) => Err(h),
    }
}

/// A point of the canvas in the client area of the window.
pub fn client_point<E>(canvas_x: i32, canvas_y: i32) -> (r: Result<(i32, i32), Halt<E>>)
    ensures
        r == canvas_to_client::<E>(canvas_x, canvas_y),
{
    let x = plus(canvas_x, DRAWING_AREA_LEFT)?;
    let y = plus(canvas_y, DRAWING_AREA_TOP)?;
    Ok((x, y))
}

/// [`draw_pixel_at`]: activates the window, selects the pencil, and clicks on
/// the point of the canvas.
pub open spec fn draw_pixel_at_run(
    a: Seq<Answer>,
    p: nat,
    hwnd: isize,
    canvas_x: i32,
    canvas_y: i32,
) -> Trace<()> {
    activate_paint_window_run(a, p, hwnd).and_next(
        |u: (), p: nat|
            select_tool_run(a, p, hwnd, "pencil"@).and_next(
                |u: (), p: nat|
                    Run::of(canvas_to_client(canvas_x, canvas_y), p).and_next(
                        |c: (i32, i32), p: nat|
                            click_at_client_position_run(a, p, hwnd, c.0, c.1),
                    ),
            ),
    )
}

/// Draws one pixel with the pencil.
pub fn draw_pixel_at(t: &mut Transcript, hwnd: isize, canvas_x: i32, canvas_y: i32) -> (r: Outcome<
    (),
>)
    ensures
        replayed(
            *old(t),
            *final(t),
            r,
            draw_pixel_at_run(old(t).answers@, old(t).pos as nat, hwnd, canvas_x, canvas_y),
        ),
{
    activate_paint_window(t, hwnd)?;
    select_tool(t, hwnd, "pencil")?;
    let (client_x, client_y) = client_point(canvas_x, canvas_y)?;
    let (screen_x, screen_y) = client_to_screen(t, hwnd, client_x, client_y)?;
    click_at_position(t, screen_x, screen_y)
}

/// [`draw_line_at`]: activates the window and selects the pencil; converts
/// both ends from the canvas to the screen; draws a stroke that settles for
/// 500 ms, holds 300 ms, pauses 50 ms after each step and rests 300 ms; and
/// waits 300 ms.
pub open spec fn draw_line_at_run(
    a: Seq<Answer>,
    p: nat,
    hwnd: isize,
    start_x: i32,
    start_y: i32,
    end_x: i32,
    end_y: i32,
) -> Trace<()> {
    activate_paint_window_run(a, p, hwnd).and_next(
        |u: (), p: nat|
            select_tool_run(a, p, hwnd, "pencil"@).and_next(
                |u: (), p: nat|
                    Run::of(canvas_to_client(start_x, start_y), p).and_next(
                        |from: (i32, i32), p: nat|
                            Run::of(canvas_to_client(end_x, end_y), p).and_next(
                                |to: (i32, i32), p: nat| line_stroke_run(a, p, hwnd, from, to),
                            ),
                    ),
            ),
    )
}

/// The second half of [`draw_line_at`], from the conversion to the screen on.
pub open spec fn line_stroke_run(
    a: Seq<Answer>,
    p: nat,
    hwnd: isize,
    from: (i32, i32),
    to: (i32, i32),
) -> Trace<()> {
    client_to_screen_run(a, p, hwnd, from.0, from.1).and_next(
        |start: (i32, i32), p: nat|
            client_to_screen_run(a, p, hwnd, to.0, to.1).and_next(
                |end: (i32, i32), p: nat|
                    stroke_run(a, p, start, end, 500, Some(300), 50, 300).and_next(
                        |u: (), p: nat| ask_done(a, p, Action::Sleep { millis: 300 }),
                    ),
            ),
    )
}

/// Draws a line on the canvas with the pencil.
pub fn draw_line_at(
    t: &mut Transcript,
    hwnd: isize,
    start_x: i32,
    start_y: i32,
    end_x: i32,
    end_y: i32,
) -> (r: Outcome<()>)
    ensures
        replayed(
            *old(t),
            *final(t),
            r,
            draw_line_at_run(
                old(t).answers@,
                old(t).pos as nat,
                hwnd,
                start_x,
                start_y,
                end_x,
                end_y,
            ),
        ),
{
    activate_paint_window(t, hwnd)?;
    select_tool(t, hwnd, "pencil")?;
    let (client_start_x, client_start_y) = client_point(start_x, start_y)?;
    let (client_end_x, client_end_y) = client_point(end_x, end_y)?;
    let start = client_to_screen(t, hwnd, client_start_x, client_start_y)?;
    let end = client_to_screen(t, hwnd, client_end_x, client_end_y)?;
    stroke(t, start, end, 500, Some(300), 50, 300)?;
    t.sleep(300)
}

/// A drag in one move, between two points of the client area: both are
/// converted to the screen; the pointer goes to the first and waits 300 ms,
/// the button goes down, the pointer goes to the second and waits 300 ms, and
/// the button goes up.
pub open spec fn sweep_run(
    a: Seq<Answer>,
    p: nat,
    hwnd: isize,
    start_x: i32,
    start_y: i32,
    end_x: i32,
    end_y: i32,
) -> Trace<()> {
    client_to_screen_run(a, p, hwnd, start_x, start_y).and_next(
        |start: (i32, i32), p: nat|
            client_to_screen_run(a, p, hwnd, end_x, end_y).and_next(
                |end: (i32, i32), p: nat|
                    move_mouse_to_run(a, p, start.0, start.1).and_next(
                        |u: (), p: nat|
                            ask_done(a, p, Action::Sleep { millis: 300 }).and_next(
                                |u: (), p: nat|
                                    send_mouse_down_run(a, p).and_next(
                                        |u: (), p: nat| sweep_end_run(a, p, end),
                                    ),
                            ),
                    ),
            ),
    )
}

/// The second half of a drag in one move.
pub open spec fn sweep_end_run(a: Seq<Answer>, p: nat, end: (i32, i32)) -> Trace<()> {
    move_mouse_to_run(a, p, end.0, end.1).and_next(
        |u: (), p: nat|
            ask_done(a, p, Action::Sleep { millis: 300 }).and_next(
                |u: (), p: nat| send_mouse_up_run(a, p),
            ),
    )
}

/// Drags in one move between two points of the client area.
pub fn sweep(t: &mut Transcript, hwnd: isize, start_x: i32, start_y: i32, end_x: i32, end_y: i32) -> (r:
    Outcome<()>)
    ensures
        replayed(
            *old(t),
            *final(t),
            r,
            sweep_run(old(t).answers@, old(t).pos as nat, hwnd, start_x, start_y, end_x, end_y),
        ),
{
    let (start_screen_x, start_screen_y) = client_to_screen(t, hwnd, start_x, start_y)?;
    let (end_screen_x, end_screen_y) = client_to_screen(t, hwnd, end_x, end_y)?;
    move_mouse_to(t, start_screen_x, start_screen_y)?;
    t.sleep(300)?;
    send_mouse_down(t)?;
    move_mouse_to(t, end_screen_x, end_screen_y)?;
    t.sleep(300)?;
    send_mouse_up(t)
}

/// The moves of a polyline from the point at `i` on: each point is converted
/// to the screen, the pointer goes there and waits 50 ms.
pub open spec fn polyline_moves_run(
    a: Seq<Answer>,
    p: nat,
    hwnd: isize,
    points: Seq<(i32, i32)>,
    i: int,
) -> Trace<()>
    decreases points.len() - i,
{
    if i < 0 || i >= points.len() {
        Run::value((), p)
    } else {
        client_to_screen_run(a, p, hwnd, points[i].0, points[i].1).and_next(
            |s: (i32, i32), p: nat|
                move_mouse_to_run(a, p, s.0, s.1).and_next(
                    |u: (), p: nat|
                        ask_done(a, p, Action::Sleep { millis: 50 }).and_next(
                            |u: (), p: nat| polyline_moves_run(a, p, hwnd, points, i + 1),
                        ),
                ),
        )
    }
}

/// [`draw_polyline`]: refuses fewer than two points. Else activates the
/// window, selects the pencil and waits 300 ms; goes to the first point,
/// waits 300 ms and presses the button; goes through the other points; and
/// releases the button.
pub open spec fn draw_polyline_run(a: Seq<Answer>, p: nat, hwnd: isize, points: Seq<(i32, i32)>) -> Trace<
    (),
> {
    if points.len() < 2 {
        Run::fail(MspMcpErrorModel::InvalidParameters("Polyline requires at least 2 points"@), p)
    } else {
        activate_paint_window_run(a, p, hwnd).and_next(
            |u: (), p: nat|
                select_tool_run(a, p, hwnd, "pencil"@).and_next(
                    |u: (), p: nat|
                        ask_done(a, p, Action::Sleep { millis: 300 }).and_next(
                            |u: (), p: nat| polyline_stroke_run(a, p, hwnd, points),
                        ),
                ),
        )
    }
}

/// The second half of [`draw_polyline`], from the first point on.
pub open spec fn polyline_stroke_run(
    a: Seq<Answer>,
    p: nat,
    hwnd: isize,
    points: Seq<(i32, i32)>,
) -> Trace<()> {
    client_to_screen_run(a, p, hwnd, points[0].0, points[0].1).and_next(
        |start: (i32, i32), p: nat|
            move_mouse_to_run(a, p, start.0, start.1).and_next(
                |u: (), p: nat|
                    ask_done(a, p, Action::Sleep { millis: 300 }).and_next(
                        |u: (), p: nat|
                            send_mouse_down_run(a, p).and_next(
                                |u: (), p: nat|
                                    polyline_moves_run(a, p, hwnd, points, 1).and_next(
                                        |u: (), p: nat| send_mouse_up_run(a, p),
                                    ),
                            ),
                    ),
            ),
    )
}

/// Goes through the points of a polyline from the second on.
fn polyline_moves(t: &mut Transcript, hwnd: isize, points: &[(i32, i32)]) -> (r: Outcome<()>)
    requires
        points@.len() >= 1,
    ensures
        replayed(
            *old(t),
            *final(t),
            r,
            polyline_moves_run(old(t).answers@, old(t).pos as nat, hwnd, points@, 1),
        ),
{
    let mut i: usize = 1;
    while i < points.len()
        invariant
            1 <= i <= points.len(),
            t.answers == old(t).answers,
            polyline_moves_run(old(t).answers@, old(t).pos as nat, hwnd, points@, 1)
                == polyline_moves_run(t.answers@, t.pos as nat, hwnd, points@, i as int),
        decreases points.len() - i,
    {
        let (screen_x, screen_y) = client_to_screen(t, hwnd, points[i].0, points[i].1)?;
        move_mouse_to(t, screen_x, screen_y)?;
        t.sleep(50)?;
        i = i + 1;
    }
    Ok(())
}

/// Draws a line through a series of points with the pencil.
pub fn draw_polyline(t: &mut Transcript, hwnd: isize, points: &[(i32, i32)]) -> (r: Outcome<()>)
    ensures
        replayed(
            *old(t),
            *final(t),
            r,
            draw_polyline_run(old(t).answers@, old(t).pos as nat, hwnd, points@),
        ),
{
    if points.len() < 2 {
        return Err(Halt::Failed(invalid_parameters("Polyline requires at least 2 points")));
    }
    activate_paint_window(t, hwnd)?;
    select_tool(t, hwnd, "pencil")?;
    t.sleep(300)?;
    let (start_screen_x, start_screen_y) = client_to_screen(t, hwnd, points[0].0, points[0].1)?;
    move_mouse_to(t, start_screen_x, start_screen_y)?;
    t.sleep(300)?;
    send_mouse_down(t)?;
    polyline_moves(t, hwnd, points)?;
    send_mouse_up(t)
}

/// [`clear_canvas`]: activates the window, presses Ctrl+A, waits 300 ms and
/// presses Delete.
pub open spec fn clear_canvas_run(a: Seq<Answer>, p: nat, hwnd: isize) -> Trace<()> {
    activate_paint_window_run(a, p, hwnd).and_next(
        |u: (), p: nat|
            chord_run(a, p, VK_CONTROL, VK_A).and_next(
                |u: (), p: nat|
                    ask_done(a, p, Action::Sleep { millis: 300 }).and_next(
                        |u: (), p: nat| press_key_run(a, p, VK_DELETE),
                    ),
            ),
    )
}

/// Clears the canvas.
pub fn clear_canvas(t: &mut Transcript, hwnd: isize) -> (r: Outcome<()>)
    ensures
        replayed(*old(t), *final(t), r, clear_canvas_run(old(t).answers@, old(t).pos as nat, hwnd)),
{
    activate_paint_window(t, hwnd)?;
    press_ctrl_a(t)?;
    t.sleep(300)?;
    press_delete(t)
}

/// [`select_region`]: activates the window, selects the selection tool, waits
/// 300 ms and drags from the one corner to the other.
pub open spec fn select_region_run(
    a: Seq<Answer>,
    p: nat,
    hwnd: isize,
    start_x: i32,
    start_y: i32,
    end_x: i32,
    end_y: i32,
) -> Trace<()> {
    activate_paint_window_run(a, p, hwnd).and_next(
        |u: (), p: nat|
            select_tool_run(a, p, hwnd, "select"@).and_next(
                |u: (), p: nat|
                    ask_done(a, p, Action::Sleep { millis: 300 }).and_next(
                        |u: (), p: nat| sweep_run(a, p, hwnd, start_x, start_y, end_x, end_y),
                    ),
            ),
    )
}

/// Selects a rectangular region of the canvas.
pub fn select_region(
    t: &mut Transcript,
    hwnd: isize,
    start_x: i32,
    start_y: i32,
    end_x: i32,
    end_y: i32,
) -> (r: Outcome<()>)
    ensures
        replayed(
            *old(t),
            *final(t),
            r,
            select_region_run(
                old(t).answers@,
                old(t).pos as nat,
                hwnd,
                start_x,
                start_y,
                end_x,
                end_y,
            ),
        ),
{
    activate_paint_window(t, hwnd)?;
    select_tool(t, hwnd, "select")?;
    t.sleep(300)?;
    sweep(t, hwnd, start_x, start_y, end_x, end_y)
}

/// [`copy_selection`]: activates the window and presses Ctrl+C.
pub open spec fn copy_selection_run(a: Seq<Answer>, p: nat, hwnd: isize) -> Trace<()> {
    activate_paint_window_run(a, p, hwnd).and_next(
        |u: (), p: nat| chord_run(a, p, VK_CONTROL, VK_C),
    )
}

/// Copies the selection to the clipboard.
pub fn copy_selection(t: &mut Transcript, hwnd: isize) -> (r: Outcome<()>)
    ensures
        replayed(
            *old(t),
            *final(t),
            r,
            copy_selection_run(old(t).answers@, old(t).pos as nat, hwnd),
        ),
{
    activate_paint_window(t, hwnd)?;
    press_ctrl_c(t)
}

/// [`paste_at`]: activates the window, clicks on the point, waits 300 ms and
/// presses Ctrl+V.
pub open spec fn paste_at_run(a: Seq<Answer>, p: nat, hwnd: isize, x: i32, y: i32) -> Trace<()> {
    activate_paint_window_run(a, p, hwnd).and_next(
        |u: (), p: nat|
            click_at_client_position_run(a, p, hwnd, x, y).and_next(
                |u: (), p: nat|
                    ask_done(a, p, Action::Sleep { millis: 300 }).and_next(
                        |u: (), p: nat| chord_run(a, p, VK_CONTROL, VK_V),
                    ),
            ),
    )
}

/// Pastes the clipboard at a point.
pub fn paste_at(t: &mut Transcript, hwnd: isize, x: i32, y: i32) -> (r: Outcome<()>)
    ensures
        replayed(*old(t), *final(t), r, paste_at_run(old(t).answers@, old(t).pos as nat, hwnd, x, y)),
{
    activate_paint_window(t, hwnd)?;
    let (screen_x, screen_y) = client_to_screen(t, hwnd, x, y)?;
    click_at_position(t, screen_x, screen_y)?;
    t.sleep(300)?;
    press_ctrl_v(t)
}

/// [`add_text`]: activates the window, selects the text tool and waits
/// 300 ms; sets the colour, if one is given; clicks on the point and waits
/// 300 ms; types the text; and clicks 300 to the right of the point and 300
/// below it, which ends the text.
pub open spec fn add_text_run(
    a: Seq<Answer>,
    p: nat,
    hwnd: isize,
    x: i32,
    y: i32,
    text: Seq<char>,
    color: Option<Seq<char>>,
) -> Trace<()> {
    activate_paint_window_run(a, p, hwnd).and_next(
        |u: (), p: nat|
            select_tool_run(a, p, hwnd, "text"@).and_next(
                |u: (), p: nat|
                    ask_done(a, p, Action::Sleep { millis: 300 }).and_next(
                        |u: (), p: nat|
                            (match color {
                                Some(color) => set_color_run(a, p, hwnd, color),
                                None => Run::value((), p),
                            }).and_next(|u: (), p: nat| place_text_run(a, p, hwnd, x, y, text)),
                    ),
            ),
    )
}

/// The second half of [`add_text`], from the click on the point on.
pub open spec fn place_text_run(a: Seq<Answer>, p: nat, hwnd: isize, x: i32, y: i32, text: Seq<char>) -> Trace<
    (),
> {
    client_to_screen_run(a, p, hwnd, x, y).and_next(
        |s: (i32, i32), p: nat|
            click_at_position_run(a, p, s.0, s.1).and_next(
                |u: (), p: nat|
                    ask_done(a, p, Action::Sleep { millis: 300 }).and_next(
                        |u: (), p: nat|
                            type_text_run(a, p, text, 0).and_next(
                                |u: (), p: nat|
                                    Run::of(fit_i32(s.0 + 300), p).and_next(
                                        |away_x: i32, p: nat|
                                            Run::of(fit_i32(s.1 + 300), p).and_next(
                                                |away_y: i32, p: nat|
                                                    click_at_position_run(a, p, away_x, away_y),
                                            ),
                                    ),
                            ),
                    ),
            ),
    )
}

/// Adds a text to the canvas at a point. The font is left as it is.
pub fn add_text(
    t: &mut Transcript,
    hwnd: isize,
    x: i32,
    y: i32,
    text: &str,
    color: Option<&str>,
    font_name: Option<&str>,
    font_size: Option<u32>,
    font_style: Option<&str>,
) -> (r: Outcome<()>)
    ensures
        replayed(
            *old(t),
            *final(t),
            r,
            add_text_run(old(t).answers@, old(t).pos as nat, hwnd, x, y, text@, text_view(color)),
        ),
{
    activate_paint_window(t, hwnd)?;
    select_tool(t, hwnd, "text")?;
    t.sleep(300)?;
    if let Some(color_str) = color {
        set_color(t, hwnd, color_str)?;
    }
    let (screen_x, screen_y) = client_to_screen(t, hwnd, x, y)?;
    click_at_position(t, screen_x, screen_y)?;
    t.sleep(300)?;
    type_text(t, text)?;
    let away_x = plus(screen_x, 300)?;
    let away_y = plus(screen_y, 300)?;
    click_at_position(t, away_x, away_y)
}

/// [`create_canvas`]: activates the window, presses Ctrl+N, waits 500 ms and
/// presses Enter.
pub open spec fn create_canvas_run(a: Seq<Answer>, p: nat, hwnd: isize) -> Trace<()> {
    activate_paint_window_run(a, p, hwnd).and_next(
        |u: (), p: nat|
            chord_run(a, p, VK_CONTROL, VK_N).and_next(
                |u: (), p: nat|
                    ask_done(a, p, Action::Sleep { millis: 500 }).and_next(
                        |u: (), p: nat| press_key_run(a, p, VK_RETURN),
                    ),
            ),
    )
}

/// Creates a new canvas. The size and the background are left as the dialog
/// offers them.
pub fn create_canvas(
    t: &mut Transcript,
    hwnd: isize,
    width: u32,
    height: u32,
    background_color: Option<&str>,
) -> (r: Outcome<()>)
    ensures
        replayed(
            *old(t),
            *final(t),
            r,
            create_canvas_run(old(t).answers@, old(t).pos as nat, hwnd),
        ),
{
    activate_paint_window(t, hwnd)?;
    press_ctrl_n(t)?;
    t.sleep(500)?;
    press_enter(t)
}


/// What the title of the server's own window contains.
pub const SERVER_TITLE: &'static str = "mcp-server-microsoft-paint";

/// The class name by which a window is judged: its own, or a stand-in where
/// it has none.
pub open spec fn class_text(w: WindowInfo) -> Seq<char> {
    match w.class_name {
        Some(s) => s@,
        None => "<Unknown Class>"@,
    }
}

/// The title by which a window is judged: its own, or a stand-in where it
/// has none.
pub open spec fn title_text(w: WindowInfo) -> Seq<char> {
    match w.title {
        Some(s) => s@,
        None => "<Unknown Title>"@,
    }
}

/// Whether a search takes this window. The window is visible and not the
/// server's own; and its class name contains the class that is looked for,
/// or its title contains the title that is looked for, whatever the case of
/// letters. An empty class or title is not looked for.
pub open spec fn window_matches(w: WindowInfo, target_class: Seq<char>, target_title: Seq<char>) -> bool {
    &&& w.visible
    &&& !has_substring(title_text(w), SERVER_TITLE@)
    &&& ({
        ||| target_class.len() > 0 && has_substring(class_text(w), target_class)
        ||| target_title.len() > 0 && has_substring(
            lowercase(title_text(w)),
            lowercase(target_title),
        )
    })
}

/// Whether a search for this class and title takes this window. It is the
/// decision that `EnumWindows` asks of its callback, window by window.
pub fn enum_window_proc(window: &WindowInfo, target_class: &str, target_title_substring: &str) -> (found:
    bool)
    ensures
        found == window_matches(*window, target_class@, target_title_substring@),
{
    if !window.visible {
        return false;
    }
    let class_name_str = match &window.class_name {
        Some(s) => s.as_str(),
        None => "<Unknown Class>",
    };
    let window_title_str = match &window.title {
        Some(s) => s.as_str(),
        None => "<Unknown Title>",
    };
    if contains(window_title_str, SERVER_TITLE) {
        return false;
    }
    let mut found = false;
    if target_class.unicode_len() > 0 {
        if contains(class_name_str, target_class) {
            found = true;
        }
    }
    if !found && target_title_substring.unicode_len() > 0 {
        let title_lower = to_lowercase(window_title_str);
        let target_lower = to_lowercase(target_title_substring);
        if contains(title_lower.as_str(), target_lower.as_str()) {
            found = true;
        }
    }
    found
}

/// The first window from index `i` on that `take` accepts.
pub open spec fn first_window(
    windows: Seq<WindowInfo>,
    take: spec_fn(WindowInfo) -> bool,
    i: int,
) -> Option<isize>
    decreases windows.len() - i,
{
    if i < 0 || i >= windows.len() {
        None
    } else if take(windows[i]) {
        Some(windows[i].hwnd)
    } else {
        first_window(windows, take, i + 1)
    }
}

/// [`first_window`] returns the handle of a window that is accepted and that
/// no accepted window precedes; it returns none only where no window is accepted.
pub proof fn lemma_first_window(
    windows: Seq<WindowInfo>,
    take: spec_fn(WindowInfo) -> bool,
    i: int,
)
    requires
        0 <= i,
    ensures
        match first_window(windows, take, i) {
            Some(hwnd) => exists|k: int|
                i <= k < windows.len() && take(windows[k]) && windows[k].hwnd == hwnd && forall|
                    j: int,
                |
                    i <= j < k ==> !take(windows[j]),
            None => forall|k: int| i <= k < windows.len() ==> !take(windows[k]),
        },
    decreases windows.len() - i,
{
    if i < windows.len() && !take(windows[i]) {
        lemma_first_window(windows, take, i + 1);
        match first_window(windows, take, i + 1) {
            Some(hwnd) => {
                let k = choose|k: int|
                    i + 1 <= k < windows.len() && take(windows[k]) && windows[k].hwnd == hwnd
                        && forall|j: int| i + 1 <= j < k ==> !take(windows[j]);
                assert(i <= k < windows.len() && take(windows[k]) && windows[k].hwnd == hwnd
                    && forall|j: int| i <= j < k ==> !take(windows[j]));
            },
            None => {},
        }
    } else if i < windows.len() {
        assert(i <= i < windows.len() && take(windows[i]) && windows[i].hwnd == windows[i].hwnd
            && forall|j: int| i <= j < i ==> !take(windows[j]));
    }
}

/// The window that a search for this class and title finds among `windows`:
/// the first that [`window_matches`].
pub open spec fn found_window(
    windows: Seq<WindowInfo>,
    target_class: Seq<char>,
    target_title: Seq<char>,
) -> Option<isize> {
    first_window(windows, |w: WindowInfo| window_matches(w, target_class, target_title), 0)
}

/// The first of `windows`, in their order, that a search for this class and
/// title takes.
pub fn find_window(windows: &Vec<WindowInfo>, target_class: &str, target_title_substring: &str) -> (r:
    Option<isize>)
    ensures
        r == found_window(windows@, target_class@, target_title_substring@),
{
    let ghost take = |w: WindowInfo| window_matches(w, target_class@, target_title_substring@);
    let mut i: usize = 0;
    while i < windows.len()
        invariant
            i <= windows.len(),
            take == |w: WindowInfo| window_matches(w, target_class@, target_title_substring@),
            first_window(windows@, take, 0) == first_window(windows@, take, i as int),
        decreases windows.len() - i,
    {
        if enum_window_proc(&windows[i], target_class, target_title_substring) {
            return Some(windows[i].hwnd);
        }
        i = i + 1;
    }
    None
}

/// Lists the windows and searches them for this class and title.
pub open spec fn enum_windows_run(
    a: Seq<Answer>,
    p: nat,
    target_class: Seq<char>,
    target_title: Seq<char>,
) -> Trace<Option<isize>> {
    ask_windows(a, p, Action::ListWindows).and_next(
        |windows: Seq<WindowInfo>, p: nat|
            Run::value(found_window(windows, target_class, target_title), p),
    )
}

/// Lists the windows and searches them for this class and title.
pub fn enum_windows(t: &mut Transcript, target_class: &str, target_title_substring: &str) -> (r:
    Outcome<Option<isize>>)
    ensures
        replayed(
            *old(t),
            *final(t),
            r,
            enum_windows_run(
                old(t).answers@,
                old(t).pos as nat,
                target_class@,
                target_title_substring@,
            ),
        ),
{
    match t.windows(Action::ListWindows)? {
        Some(windows) => Ok(find_window(windows, target_class, target_title_substring)),
        None => {
            assert(found_window(Seq::empty(), target_class@, target_title_substring@) is None);
            Ok(None)
        },
    }
}


/// How many class names a Paint window may have.
pub const CLASS_NAMES: usize = 4;

/// How many pieces of a title a Paint window may be known by.
pub const TITLE_PARTS: usize = 8;

/// The class names that a Paint window may have, in the order in which they
/// are tried.
pub open spec fn possible_class_name(k: int) -> Seq<char> {
    if k == 0 {
        "MSPaintApp"@
    } else if k == 1 {
        "Afx:1000000:8"@
    } else if k == 2 {
        "ApplicationFrameWindow"@
    } else {
        "MSPaintDesktop::CMainWindow"@
    }
}

/// The class names that a Paint window may have, in the order in which they
/// are tried.
pub fn class_name_at(k: usize) -> (r: &'static str)
    ensures
        r@ == possible_class_name(k as int),
{
    if k == 0 {
        "MSPaintApp"
    } else if k == 1 {
        "Afx:1000000:8"
    } else if k == 2 {
        "ApplicationFrameWindow"
    } else {
        "MSPaintDesktop::CMainWindow"
    }
}

/// The pieces of a title by which a Paint window may be known, in the order
/// in which they are tried. The last is empty, and an empty piece is not
/// looked for.
pub open spec fn possible_title_part(k: int) -> Seq<char> {
    if k == 0 {
        "Paint"@
    } else if k == 1 {
        "paint"@
    } else if k == 2 {
        "Untitled - Paint"@
    } else if k == 3 {
        "Bez tytu\u{142}u - Paint"@
    } else if k == 4 {
        "Paint 3D"@
    } else if k == 5 {
        "Malov\u{e1}n\u{ed}"@
    } else if k == 6 {
        "Drawing"@
    } else {
        ""@
    }
}

/// The pieces of a title by which a Paint window may be known, in the order
/// in which they are tried.
pub fn title_part_at(k: usize) -> (r: &'static str)
    ensures
        r@ == possible_title_part(k as int),
{
    if k == 0 {
        "Paint"
    } else if k == 1 {
        "paint"
    } else if k == 2 {
        "Untitled - Paint"
    } else if k == 3 {
        "Bez tytu\u{142}u - Paint"
    } else if k == 4 {
        "Paint 3D"
    } else if k == 5 {
        "Malov\u{e1}n\u{ed}"
    } else if k == 6 {
        "Drawing"
    } else {
        ""
    }
}

/// Whether a class name contains one of the class names of Paint.
pub open spec fn is_paint_class(class_name: Seq<char>) -> bool {
    exists|k: int| 0 <= k < CLASS_NAMES && has_substring(class_name, possible_class_name(k))
}

/// Whether a class name contains one of the class names of Paint.
pub fn names_paint_class(class_name: &str) -> (r: bool)
    ensures
        r == is_paint_class(class_name@),
{
    let mut k: usize = 0;
    while k < CLASS_NAMES
        invariant
            k <= CLASS_NAMES,
            forall|j: int| 0 <= j < k ==> !has_substring(class_name@, possible_class_name(j)),
        decreases CLASS_NAMES - k,
    {
        if contains(class_name, class_name_at(k)) {
            return true;
        }
        k = k + 1;
    }
    false
}

/// Whether a title is that of the server's own window.
pub open spec fn is_prohibited(title: Option<Seq<char>>) -> bool {
    match title {
        Some(title) => has_substring(title, SERVER_TITLE@),
        None => false,
    }
}

/// Whether a title is that of the server's own window.
pub fn prohibited(title: Option<&str>) -> (r: bool)
    ensures
        r == is_prohibited(text_view(title)),
{
    match title {
        Some(title) => contains(title, SERVER_TITLE),
        None => false,
    }
}

/// The first search of [`find_paint_window`]: for a title that contains
/// `paint`. What it finds counts only where the window has a title, and not
/// that of the server.
pub open spec fn search_manually_run(a: Seq<Answer>, p: nat) -> Trace<Option<isize>> {
    enum_windows_run(a, p, ""@, "paint"@).and_next(
        |found: Option<isize>, p: nat|
            match found {
                None => Run::value(None, p),
                Some(hwnd) => ask_text(a, p, Action::WindowTitle { hwnd }).and_next(
                    |title: Option<Seq<char>>, p: nat|
                        if title is Some && !is_prohibited(title) {
                            Run::value(Some(hwnd), p)
                        } else {
                            Run::value(None, p)
                        },
                ),
            },
    )
}

/// Searches for a window whose title contains `paint`.
pub fn search_manually(t: &mut Transcript) -> (r: Outcome<Option<isize>>)
    ensures
        replayed(*old(t), *final(t), r, search_manually_run(old(t).answers@, old(t).pos as nat)),
{
    match enum_windows(t, "", "paint")? {
        None => Ok(None),
        Some(hwnd) => {
            let title = t.text(Action::WindowTitle { hwnd })?;
            if title.is_some() && !prohibited(title) {
                Ok(Some(hwnd))
            } else {
                Ok(None)
            }
        },
    }
}

/// One search by class name: what it finds counts unless the window has the
/// title of the server.
pub open spec fn class_step_run(a: Seq<Answer>, p: nat, k: int) -> Trace<Option<isize>> {
    enum_windows_run(a, p, possible_class_name(k), ""@).and_next(
        |found: Option<isize>, p: nat|
            match found {
                None => Run::value(None, p),
                Some(hwnd) => ask_text(a, p, Action::WindowTitle { hwnd }).and_next(
                    |title: Option<Seq<char>>, p: nat|
                        if is_prohibited(title) {
                            Run::value(None, p)
                        } else {
                            Run::value(Some(hwnd), p)
                        },
                ),
            },
    )
}

/// The searches by class name from the `k`-th on, until one finds a window.
pub open spec fn search_by_class_run(a: Seq<Answer>, p: nat, k: int) -> Trace<Option<isize>>
    decreases CLASS_NAMES - k,
{
    if k < 0 || k >= CLASS_NAMES {
        Run::value(None, p)
    } else {
        class_step_run(a, p, k).and_next(
            |found: Option<isize>, p: nat|
                match found {
                    Some(hwnd) => Run::value(Some(hwnd), p),
                    None => search_by_class_run(a, p, k + 1),
                },
        )
    }
}

/// Searches for a window by each class name of Paint in turn.
pub fn search_by_class(t: &mut Transcript) -> (r: Outcome<Option<isize>>)
    ensures
        replayed(*old(t), *final(t), r, search_by_class_run(old(t).answers@, old(t).pos as nat, 0)),
{
    let mut k: usize = 0;
    while k < CLASS_NAMES
        invariant
            k <= CLASS_NAMES,
            t.answers == old(t).answers,
            search_by_class_run(old(t).answers@, old(t).pos as nat, 0) == search_by_class_run(
                t.answers@,
                t.pos as nat,
                k as int,
            ),
        decreases CLASS_NAMES - k,
    {
        if let Some(hwnd) = enum_windows(t, class_name_at(k), "")? {
            let title = t.text(Action::WindowTitle { hwnd })?;
            if !prohibited(title) {
                return Ok(Some(hwnd));
            }
        }
        k = k + 1;
    }
    Ok(None)
}

/// One search by a piece of the title: what it finds counts unless the window
/// has the title of the server; and, where the piece is empty and the window
/// has a title, unless it has a class name that is none of Paint's.
pub open spec fn title_step_run(a: Seq<Answer>, p: nat, k: int) -> Trace<Option<isize>> {
    enum_windows_run(a, p, ""@, possible_title_part(k)).and_next(
        |found: Option<isize>, p: nat|
            match found {
                None => Run::value(None, p),
                Some(hwnd) => ask_text(a, p, Action::WindowTitle { hwnd }).and_next(
                    |title: Option<Seq<char>>, p: nat|
                        if is_prohibited(title) {
                            Run::value(None, p)
                        } else if title is Some && possible_title_part(k).len() == 0 {
                            ask_text(a, p, Action::WindowClass { hwnd }).and_next(
                                |class_name: Option<Seq<char>>, p: nat|
                                    match class_name {
                                        Some(c) => if is_paint_class(c) {
                                            Run::value(Some(hwnd), p)
                                        } else {
                                            Run::value(None, p)
                                        },
                                        None => Run::value(Some(hwnd), p),
                                    },
                            )
                        } else {
                            Run::value(Some(hwnd), p)
                        },
                ),
            },
    )
}

/// One search by a piece of the title.
pub fn title_step(t: &mut Transcript, k: usize) -> (r: Outcome<Option<isize>>)
    ensures
        replayed(*old(t), *final(t), r, title_step_run(old(t).answers@, old(t).pos as nat, k as int)),
{
    let part = title_part_at(k);
    match enum_windows(t, "", part)? {
        None => Ok(None),
        Some(hwnd) => {
            let title = t.text(Action::WindowTitle { hwnd })?;
            if prohibited(title) {
                Ok(None)
            } else if title.is_some() && part.unicode_len() == 0 {
                match t.text(Action::WindowClass { hwnd })? {
                    Some(class_str) => if names_paint_class(class_str) {
                        Ok(Some(hwnd))
                    } else {
                        Ok(None)
                    },
                    None => Ok(Some(hwnd)),
                }
            } else {
                Ok(Some(hwnd))
            }
        },
    }
}

/// The searches by a piece of the title from the `k`-th on, until one finds a
/// window.
pub open spec fn search_by_title_run(a: Seq<Answer>, p: nat, k: int) -> Trace<Option<isize>>
    decreases TITLE_PARTS - k,
{
    if k < 0 || k >= TITLE_PARTS {
        Run::value(None, p)
    } else {
        title_step_run(a, p, k).and_next(
            |found: Option<isize>, p: nat|
                match found {
                    Some(hwnd) => Run::value(Some(hwnd), p),
                    None => search_by_title_run(a, p, k + 1),
                },
        )
    }
}

/// Searches for a window by each known piece of a Paint title in turn.
pub fn search_by_title(t: &mut Transcript) -> (r: Outcome<Option<isize>>)
    ensures
        replayed(*old(t), *final(t), r, search_by_title_run(old(t).answers@, old(t).pos as nat, 0)),
{
    let mut k: usize = 0;
    while k < TITLE_PARTS
        invariant
            k <= TITLE_PARTS,
            t.answers == old(t).answers,
            search_by_title_run(old(t).answers@, old(t).pos as nat, 0) == search_by_title_run(
                t.answers@,
                t.pos as nat,
                k as int,
            ),
        decreases TITLE_PARTS - k,
    {
        if let Some(hwnd) = title_step(t, k)? {
            return Ok(Some(hwnd));
        }
        k = k + 1;
    }
    Ok(None)
}

/// [`find_paint_window`]: the search for a title with `paint`, then the
/// searches by class name, then those by a piece of the title; the first
/// window that one of them finds is returned. Where none finds one, the
/// command lines of the Paint processes are reported and the window is not
/// found.
pub open spec fn find_paint_window_run(a: Seq<Answer>, p: nat) -> Trace<isize> {
    search_manually_run(a, p).and_next(
        |found: Option<isize>, p: nat|
            match found {
                Some(hwnd) => Run::value(hwnd, p),
                None => search_by_class_run(a, p, 0).and_next(
                    |found: Option<isize>, p: nat|
                        match found {
                            Some(hwnd) => Run::value(hwnd, p),
                            None => search_by_title_run(a, p, 0).and_next(
                                |found: Option<isize>, p: nat|
                                    match found {
                                        Some(hwnd) => Run::value(hwnd, p),
                                        None => ask_done(
                                            a,
                                            p,
                                            Action::Run(Report::ProcessCommandLines),
                                        ).and_next(
                                            |u: (), p: nat|
                                                Run::fail(MspMcpErrorModel::WindowNotFound, p),
                                        ),
                                    },
                            ),
                        },
                ),
            },
    )
}

/// Finds the window of a running Paint.
pub fn find_paint_window(t: &mut Transcript) -> (r: Outcome<isize>)
    ensures
        replayed(*old(t), *final(t), r, find_paint_window_run(old(t).answers@, old(t).pos as nat)),
{
    if let Some(hwnd) = search_manually(t)? {
        return Ok(hwnd);
    }
    if let Some(hwnd) = search_by_class(t)? {
        return Ok(hwnd);
    }
    if let Some(hwnd) = search_by_title(t)? {
        return Ok(hwnd);
    }
    t.done(Action::Run(Report::ProcessCommandLines))?;
    Err(Halt::Failed(MspMcpError::WindowNotFound))
}

/// The largest value of `ShellExecuteW` that tells of a failure.
pub const SHELL_EXECUTE_FAILED: isize = 32;

/// [`launch_paint`]: opens `mspaint.exe` through the shell; a result of 32 or
/// less is its error. Else waits 3 s.
pub open spec fn launch_paint_run(a: Seq<Answer>, p: nat) -> Trace<()> {
    ask_handle(a, p, Action::ShellOpenPaint).and_next(
        |result: isize, p: nat|
            if result <= SHELL_EXECUTE_FAILED {
                Run::fail(
                    MspMcpErrorModel::WindowsApiError(
                        "ShellExecuteW failed for mspaint.exe with error code "@ + decimal(
                            result as int,
                        ),
                    ),
                    p,
                )
            } else {
                ask_done(a, p, Action::Sleep { millis: 3000 })
            },
    )
}

/// Launches Paint.
pub fn launch_paint(t: &mut Transcript) -> (r: Outcome<()>)
    ensures
        replayed(*old(t), *final(t), r, launch_paint_run(old(t).answers@, old(t).pos as nat)),
{
    let result = t.handle(Action::ShellOpenPaint)?;
    if result <= SHELL_EXECUTE_FAILED {
        let code = integer_text(result as i64);
        return Err(
            Halt::Failed(
                MspMcpError::WindowsApiError(
                    joined("ShellExecuteW failed for mspaint.exe with error code ", code.as_str()),
                ),
            ),
        );
    }
    t.sleep(3000)
}

/// Whether a task list tells of a running Paint: it names both `mspaint.exe`
/// and the column `Image Name`.
pub open spec fn lists_mspaint(tasklist: Option<Seq<char>>) -> bool {
    match tasklist {
        Some(text) => has_substring(text, "mspaint.exe"@) && has_substring(text, "Image Name"@),
        None => false,
    }
}

/// [`is_mspaint_running`]: reads the task list and looks for Paint in it.
pub open spec fn is_mspaint_running_run(a: Seq<Answer>, p: nat) -> Trace<bool> {
    ask_text(a, p, Action::TaskList).and_next(
        |tasklist: Option<Seq<char>>, p: nat| Run::value(lists_mspaint(tasklist), p),
    )
}

/// Whether a process of Paint is running.
pub fn is_mspaint_running(t: &mut Transcript) -> (r: Outcome<bool>)
    ensures
        replayed(*old(t), *final(t), r, is_mspaint_running_run(old(t).answers@, old(t).pos as nat)),
{
    match t.text(Action::TaskList)? {
        Some(tasklist) => Ok(contains(tasklist, "mspaint.exe") && contains(tasklist, "Image Name")),
        None => Ok(false),
    }
}

/// Whether the last-resort search takes this window: it is visible and has
/// not the title of the server; and its title contains `paint` in any case of
/// letters, or its class name contains `Paint` or `Afx`.
pub open spec fn may_be_paint(w: WindowInfo) -> bool {
    &&& w.visible
    &&& !(w.title matches Some(title) && has_substring(title@, SERVER_TITLE@))
    &&& ({
        ||| w.title matches Some(title) && has_substring(lowercase(title@), "paint"@)
        ||| w.class_name matches Some(class_name) && (has_substring(class_name@, "Paint"@)
            || has_substring(class_name@, "Afx"@))
    })
}

/// Whether the last-resort search takes this window.
pub fn find_any_paint_proc(window: &WindowInfo) -> (found: bool)
    ensures
        found == may_be_paint(*window),
{
    if !window.visible {
        return false;
    }
    if let Some(title) = &window.title {
        if contains(title.as_str(), SERVER_TITLE) {
            return false;
        }
        let lowered = to_lowercase(title.as_str());
        if contains(lowered.as_str(), "paint") {
            return true;
        }
    }
    if let Some(class_name) = &window.class_name {
        if contains(class_name.as_str(), "Paint") || contains(class_name.as_str(), "Afx") {
            return true;
        }
    }
    false
}

/// The first of `windows` that the last-resort search takes.
pub fn find_any_window(windows: &Vec<WindowInfo>) -> (r: Option<isize>)
    ensures
        r == first_window(windows@, |w: WindowInfo| may_be_paint(w), 0),
{
    let ghost take = |w: WindowInfo| may_be_paint(w);
    let mut i: usize = 0;
    while i < windows.len()
        invariant
            i <= windows.len(),
            take == |w: WindowInfo| may_be_paint(w),
            first_window(windows@, take, 0) == first_window(windows@, take, i as int),
        decreases windows.len() - i,
    {
        if find_any_paint_proc(&windows[i]) {
            return Some(windows[i].hwnd);
        }
        i = i + 1;
    }
    None
}

/// The window that a parsed output names: none for no number and for zero.
pub open spec fn named_window(parsed: Option<i32>) -> Option<isize> {
    match parsed {
        Some(n) => if n != 0 {
            Some(n as isize)
        } else {
            None
        },
        None => None,
    }
}

/// The window that a parsed output names.
pub fn window_named(parsed: Option<i32>) -> (r: Option<isize>)
    ensures
        r == named_window(parsed),
{
    match parsed {
        Some(n) => if n != 0 {
            Some(n as isize)
        } else {
            None
        },
        None => None,
    }
}

/// The window that the output of the PowerShell search names: the number
/// that it prints between white space.
pub open spec fn powershell_window(output: Option<Seq<char>>) -> Option<isize> {
    match output {
        Some(text) => named_window(parsed_i32(trimmed(text))),
        None => None,
    }
}

/// [`find_any_paint_window`]: asks PowerShell for the window titled
/// `Untitled - Paint`; where it names none, lists the windows and takes the
/// first that [`may_be_paint`].
pub open spec fn find_any_paint_window_run(a: Seq<Answer>, p: nat) -> Trace<isize> {
    ask_text(a, p, Action::FindWindowWithPowershell).and_next(
        |output: Option<Seq<char>>, p: nat|
            match powershell_window(output) {
                Some(hwnd) => Run::value(hwnd, p),
                None => ask_windows(a, p, Action::ListWindows).and_next(
                    |windows: Seq<WindowInfo>, p: nat|
                        match first_window(windows, |w: WindowInfo| may_be_paint(w), 0) {
                            Some(hwnd) => Run::value(hwnd, p),
                            None => Run::fail(MspMcpErrorModel::WindowNotFound, p),
                        },
                ),
            },
    )
}

/// Finds any window that may be Paint's, when Paint is known to run.
pub fn find_any_paint_window(t: &mut Transcript) -> (r: Outcome<isize>)
    ensures
        replayed(
            *old(t),
            *final(t),
            r,
            find_any_paint_window_run(old(t).answers@, old(t).pos as nat),
        ),
{
    if let Some(output_str) = t.text(Action::FindWindowWithPowershell)? {
        if let Some(hwnd) = window_named(parse_i32(trim(output_str))) {
            return Ok(hwnd);
        }
    }
    let found = match t.windows(Action::ListWindows)? {
        Some(windows) => find_any_window(windows),
        None => {
            assert(first_window(Seq::empty(), |w: WindowInfo| may_be_paint(w), 0) is None);
            None
        },
    };
    match found {
        Some(found_hwnd) => Ok(found_hwnd),
        None => Err(Halt::Failed(MspMcpError::WindowNotFound)),
    }
}


/// How often [`get_paint_hwnd`] looks for the window after a launch.
pub const LAUNCH_RETRIES: u32 = 20;

/// The launch that is tried where the shell did not open Paint: `cmd /C start
/// mspaint.exe`, then `mspaint.exe` itself, each followed by a wait of 3 s
/// where it started. Where neither starts, the error has the text of the last.
pub open spec fn fallback_launch_run(a: Seq<Answer>, p: nat) -> Trace<()> {
    ask_failure(a, p, Action::StartPaintWithCmd).and_next(
        |failed: Option<Seq<char>>, p: nat|
            match failed {
                None => ask_done(a, p, Action::Sleep { millis: 3000 }),
                Some(_) => ask_failure(a, p, Action::SpawnPaint).and_next(
                    |failed: Option<Seq<char>>, p: nat|
                        match failed {
                            None => ask_done(a, p, Action::Sleep { millis: 3000 }),
                            Some(text) => Run::fail(
                                MspMcpErrorModel::WindowsApiError(
                                    "Failed to launch Paint after multiple attempts: "@ + text,
                                ),
                                p,
                            ),
                        },
                ),
            },
    )
}

/// Launches Paint through a command, where the shell did not open it.
pub fn fallback_launch(t: &mut Transcript) -> (r: Outcome<()>)
    ensures
        replayed(*old(t), *final(t), r, fallback_launch_run(old(t).answers@, old(t).pos as nat)),
{
    match t.failure(Action::StartPaintWithCmd)? {
        None => t.sleep(3000),
        Some(_) => match t.failure(Action::SpawnPaint)? {
            None => t.sleep(3000),
            Some(e) => Err(
                Halt::Failed(
                    MspMcpError::WindowsApiError(
                        joined("Failed to launch Paint after multiple attempts: ", e),
                    ),
                ),
            ),
        },
    }
}

/// The last-resort search that every third attempt makes first: its window,
/// or none where it fails.
pub open spec fn early_find_run(a: Seq<Answer>, p: nat, attempt: int) -> Trace<Option<isize>> {
    if attempt % 3 == 0 {
        find_any_paint_window_run(a, p).and_next(
            |hwnd: isize, p: nat| Run::value(Some(hwnd), p),
        ).recover(|e: MspMcpErrorModel, p: nat| Run::value(None, p))
    } else {
        Run::value(None, p)
    }
}

/// The window that was found after a launch: it is activated, and returned
/// whether or not that succeeded.
pub open spec fn found_after_launch_run(a: Seq<Answer>, p: nat, hwnd: isize) -> Trace<isize> {
    activate_paint_window_run(a, p, hwnd).recover(
        |e: MspMcpErrorModel, p: nat| Run::value((), p),
    ).and_next(|u: (), p: nat| Run::value(hwnd, p))
}

/// The attempts to find the window after a launch, from this attempt on: each
/// waits 1 s; every third makes the last-resort search first; then the window
/// is looked for, and the next attempt follows where it is not found. After
/// the twentieth the window is not found.
pub open spec fn retry_find_run(a: Seq<Answer>, p: nat, attempt: int) -> Trace<isize>
    decreases LAUNCH_RETRIES + 1 - attempt,
{
    if attempt < 1 || attempt > LAUNCH_RETRIES {
        Run::fail(MspMcpErrorModel::WindowNotFound, p)
    } else {
        ask_done(a, p, Action::Sleep { millis: 1000 }).and_next(
            |u: (), p: nat|
                early_find_run(a, p, attempt).and_next(
                    |early: Option<isize>, p: nat|
                        match early {
                            Some(hwnd) => Run::value(hwnd, p),
                            None => find_paint_window_run(a, p).and_next(
                                |hwnd: isize, p: nat| found_after_launch_run(a, p, hwnd),
                            ).recover(
                                |e: MspMcpErrorModel, p: nat|
                                    match e {
                                        MspMcpErrorModel::WindowNotFound => retry_find_run(
                                            a,
                                            p,
                                            attempt + 1,
                                        ),
                                        _ => Run::fail(e, p),
                                    },
                            ),
                        },
                ),
        )
    }
}

/// Looks for the window after a launch, up to twenty times.
pub fn retry_find(t: &mut Transcript) -> (r: Outcome<isize>)
    ensures
        replayed(*old(t), *final(t), r, retry_find_run(old(t).answers@, old(t).pos as nat, 1)),
{
    let mut attempt: u32 = 1;
    while attempt <= LAUNCH_RETRIES
        invariant
            1 <= attempt <= LAUNCH_RETRIES + 1,
            t.answers == old(t).answers,
            retry_find_run(old(t).answers@, old(t).pos as nat, 1) == retry_find_run(
                t.answers@,
                t.pos as nat,
                attempt as int,
            ),
        decreases LAUNCH_RETRIES + 1 - attempt,
    {
        t.sleep(1000)?;
        if attempt % 3 == 0 {
            match find_any_paint_window(t) {
                Ok(hwnd) => {
                    return Ok(hwnd);
                },
                Err(Halt::Failed(_)) => {},
                Err(h) => {
                    return Err(h);
                },
            }
        }
        match find_paint_window(t) {
            Ok(hwnd) => {
                match activate_paint_window(t, hwnd) {
                    Ok(_) => {},
                    Err(Halt::Failed(_)) => {},
                    Err(h) => {
                        return Err(h);
                    },
                }
                return Ok(hwnd);
            },
            Err(Halt::Failed(MspMcpError::WindowNotFound)) => {},
            Err(h) => {
                return Err(h);
            },
        }
        attempt = attempt + 1;
    }
    Err(Halt::Failed(MspMcpError::WindowNotFound))
}

/// Launches Paint, by the shell or else by a command, and looks for its window.
pub open spec fn launch_and_find_run(a: Seq<Answer>, p: nat) -> Trace<isize> {
    launch_paint_run(a, p).recover(
        |e: MspMcpErrorModel, p: nat| fallback_launch_run(a, p),
    ).and_next(|u: (), p: nat| retry_find_run(a, p, 1))
}

/// What [`get_paint_hwnd`] does where no window was found at first: where
/// the task list tells of a running Paint, it makes the last-resort search
/// and returns what that finds. Else, and where that finds nothing, it
/// launches Paint and looks for its window.
pub open spec fn find_or_launch_run(a: Seq<Answer>, p: nat) -> Trace<isize> {
    is_mspaint_running_run(a, p).and_next(
        |running: bool, p: nat|
            if running {
                find_any_paint_window_run(a, p).recover(
                    |e: MspMcpErrorModel, p: nat| launch_and_find_run(a, p),
                )
            } else {
                launch_and_find_run(a, p)
            },
    )
}

/// [`get_paint_hwnd`]: the window that [`find_paint_window`] finds; where it
/// finds none, what [`find_or_launch_run`] comes to.
pub open spec fn get_paint_hwnd_run(a: Seq<Answer>, p: nat) -> Trace<isize> {
    find_paint_window_run(a, p).recover(
        |e: MspMcpErrorModel, p: nat|
            match e {
                MspMcpErrorModel::WindowNotFound => find_or_launch_run(a, p),
                _ => Run::fail(e, p),
            },
    )
}

/// The window of Paint: that of a running Paint, or of one that is launched
/// for the purpose.
pub fn get_paint_hwnd(t: &mut Transcript) -> (r: Outcome<isize>)
    ensures
        replayed(*old(t), *final(t), r, get_paint_hwnd_run(old(t).answers@, old(t).pos as nat)),
{
    match find_paint_window(t) {
        Ok(hwnd) => {
            return Ok(hwnd);
        },
        Err(Halt::Failed(MspMcpError::WindowNotFound)) => {},
        Err(h) => {
            return Err(h);
        },
    }
    let mspaint_running = is_mspaint_running(t)?;
    if mspaint_running {
        match find_any_paint_window(t) {
            Ok(hwnd) => {
                return Ok(hwnd);
            },
            Err(Halt::Failed(_)) => {},
            Err(h) => {
                return Err(h);
            },
        }
    }
    match launch_paint(t) {
        Ok(_) => {},
        Err(Halt::Failed(_)) => {
            fallback_launch(t)?;
        },
        Err(h) => {
            return Err(h);
        },
    }
    retry_find(t)
}

/// The window of Paint, as [`get_paint_hwnd`] finds it.
pub fn get_direct_paint_hwnd(t: &mut Transcript) -> (r: Outcome<isize>)
    ensures
        replayed(*old(t), *final(t), r, get_paint_hwnd_run(old(t).answers@, old(t).pos as nat)),
{
    get_paint_hwnd(t)
}


/// How [`draw_shape`] draws where the accessibility tree did not serve:
/// activates the window and selects the shape tool; refuses a text that
/// names no shape; and drags from the one corner to the other.
pub open spec fn legacy_shape_run(
    a: Seq<Answer>,
    p: nat,
    hwnd: isize,
    shape_type: Seq<char>,
    start_x: i32,
    start_y: i32,
    end_x: i32,
    end_y: i32,
) -> Trace<()> {
    activate_paint_window_run(a, p, hwnd).and_next(
        |u: (), p: nat|
            select_tool_run(a, p, hwnd, "shape"@).and_next(
                |u: (), p: nat|
                    if !is_shape(lowercase(shape_type)) {
                        Run::fail(invalid_shape(shape_type), p)
                    } else {
                        sweep_run(a, p, hwnd, start_x, start_y, end_x, end_y)
                    },
            ),
    )
}

/// [`draw_shape`]: draws the shape through the accessibility tree; where
/// that fails, whatever the error, it draws by the toolbar and the mouse.
pub open spec fn draw_shape_run(
    a: Seq<Answer>,
    p: nat,
    hwnd: isize,
    shape_type: Seq<char>,
    start_x: i32,
    start_y: i32,
    end_x: i32,
    end_y: i32,
) -> Trace<()> {
    draw_shape_uia_run(a, p, hwnd, shape_type, start_x, start_y, end_x, end_y).recover(
        |e: MspMcpErrorModel, p: nat|
            legacy_shape_run(a, p, hwnd, shape_type, start_x, start_y, end_x, end_y),
    )
}

/// Draws a shape between two corners.
pub fn draw_shape(
    t: &mut Transcript,
    hwnd: isize,
    shape_type: &str,
    start_x: i32,
    start_y: i32,
    end_x: i32,
    end_y: i32,
) -> (r: Outcome<()>)
    ensures
        replayed(
            *old(t),
            *final(t),
            r,
            draw_shape_run(
                old(t).answers@,
                old(t).pos as nat,
                hwnd,
                shape_type@,
                start_x,
                start_y,
                end_x,
                end_y,
            ),
        ),
{
    match draw_shape_uia(t, hwnd, shape_type, start_x, start_y, end_x, end_y) {
        Ok(_) => {
            return Ok(());
        },
        Err(Halt::Failed(_)) => {},
        Err(h) => {
            return Err(h);
        },
    }
    activate_paint_window(t, hwnd)?;
    select_tool(t, hwnd, "shape")?;
    let lowered = to_lowercase(shape_type);
    if !names_shape(lowered.as_str()) {
        return Err(Halt::Failed(shape_error(shape_type)));
    }
    sweep(t, hwnd, start_x, start_y, end_x, end_y)
}

} // verus!
