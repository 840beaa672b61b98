//! Automation of Microsoft Paint on Windows 11: finding its window, choosing
//! tools and colours, and drawing with synthetic mouse and keyboard input.
//!
//! The library decides; it performs nothing itself. Each operation is a
//! function over a [`desktop::Transcript`] of the answers that the desktop has
//! given so far. Where it needs a call it has no answer for, it halts with the
//! [`desktop::Action`] to perform; the caller performs it, appends the answer
//! and runs the operation again. Every contract states which actions an
//! operation asks for, in which order, and what it returns for each answer.
use vstd::prelude::*;

use crate::desktop::{replayed, Answer, Halt, Run, Transcript};
use crate::error::{MspMcpError, MspMcpErrorModel};
use crate::handlers::{
    call_connect, call_connect_run, call_draw_line, call_draw_line_run, call_draw_pixel,
    call_draw_pixel_run, handle_activate_window, handle_activate_window_run, handle_disconnect,
    handle_get_canvas_dimensions, handle_get_canvas_dimensions_run, handle_get_version,
};
use crate::protocol::{Params, Reply};
use crate::text::{joined, joined3, same_text};
use crate::windows::{get_paint_hwnd, get_paint_hwnd_run, Outcome, Trace};

pub mod codec;
pub mod desktop;
pub mod error;
pub mod handlers;
pub mod jsonrpc;
pub mod models;
pub mod paint_integration;
pub mod prompts;
pub mod protocol;
pub mod text;
pub mod uia;
pub mod windows;

verus! {

/// What the server remembers between calls: the window of Paint, once it is
/// found.
#[derive(Clone, Copy, Debug)]
pub struct PaintServerState {
    paint_hwnd: Option<isize>,
}

impl PaintServerState {
    /// The window that the state remembers.
    pub closed spec fn window(self) -> Option<isize> {
        self.paint_hwnd
    }

    /// A state that remembers no window.
    pub fn new() -> (state: Self)
        ensures
            state.window() is None,
    {
        PaintServerState { paint_hwnd: None }
    }

    /// The window that the state remembers.
    pub fn hwnd(&self) -> (r: Option<isize>)
        ensures
            r == self.window(),
    {
        self.paint_hwnd
    }

    /// The state remembers this window from now on.
    pub fn remember(&mut self, hwnd: isize)
        ensures
            final(self).window() == Some(hwnd),
    {
        self.paint_hwnd = Some(hwnd);
    }

    /// The state forgets its window.
    pub fn forget(&mut self)
        ensures
            final(self).window() is None,
    {
        self.paint_hwnd = None;
    }

    /// Initializes the server: finds the window of Paint, launching Paint
    /// where none runs, and remembers it.
    pub fn initialize(&mut self, t: &mut Transcript) -> (r: Result<(), Halt<String>>)
        ensures
            replayed(*old(t), *final(t), r, initialize_run(old(t).answers@, old(t).pos as nat)),
            final(self).window() == match get_paint_hwnd_run(
                old(t).answers@,
                old(t).pos as nat,
            ).result {
                Ok(hwnd) => Some(hwnd),
                Err(_) => old(self).window(),
            },
    {
        match get_paint_hwnd(t) {
            Ok(hwnd) => {
                self.paint_hwnd = Some(hwnd);
                Ok(())
            },
            Err(e) => Err(
                explain(e, "Failed to find or launch Paint during initialization: "),
            ),
        }
    }

    /// Shuts the server down. Nothing is left to release.
    pub fn shutdown(&self) -> (r: Result<(), String>)
        ensures
            r is Ok,
    {
        Ok(())
    }

    /// Routes a method to its handler, with the parameters read as its own.
    pub fn route(&mut self, t: &mut Transcript, method: &str, params: Params) -> (r: Outcome<Reply>)
        ensures
            replayed(
                *old(t),
                *final(t),
                r,
                routed_run(*old(self), method@, params, old(t).answers@, old(t).pos as nat),
            ),
            final(self).window() == if method@ == "disconnect"@ {
                None
            } else {
                old(self).window()
            },
    {
        proof {
            reveal_strlit("connect");
            reveal_strlit("disconnect");
            assert("connect"@.len() != "disconnect"@.len());
        }
        if same_text(method, "connect") {
            call_connect(t, self, params)
        } else if same_text(method, "disconnect") {
            crate::handlers::lift(handle_disconnect(self))
        } else if same_text(method, "get_version") {
            crate::handlers::lift(handle_get_version(self))
        } else if same_text(method, "activate_window") {
            handle_activate_window(t, self)
        } else if same_text(method, "get_canvas_dimensions") {
            handle_get_canvas_dimensions(t, self)
        } else if same_text(method, "draw_pixel") {
            call_draw_pixel(t, self, params)
        } else if same_text(method, "draw_line") {
            call_draw_line(t, self, params)
        } else {
            Err(
                Halt::Failed(
                    MspMcpError::OperationNotSupported(
                        joined3("Method '", method, "' not implemented"),
                    ),
                ),
            )
        }
    }

    /// Serves the method of this name with these parameters.
    pub fn handle_method(&mut self, t: &mut Transcript, method: &str, params: Params) -> (r: Result<
        Reply,
        Halt<String>,
    >)
        ensures
            replayed(
                *old(t),
                *final(t),
                r,
                handle_method_run(*old(self), method@, params, old(t).answers@, old(t).pos as nat),
            ),
            final(self).window() == if method@ == "disconnect"@ {
                None
            } else {
                old(self).window()
            },
    {
        match self.route(t, method, params) {
            Ok(value) => Ok(value),
            Err(e) => Err(report(e)),
        }
    }
}

/// A halt with its error, if it has one, turned into the line that it prints.
pub fn report(h: Halt<MspMcpError>) -> (r: Halt<String>)
    ensures
        r@ == match h@ {
            Halt::Pending(action) => Halt::<Seq<char>>::Pending(action),
            Halt::Failed(e) => Halt::Failed(e.text()),
            Halt::Fault(fault) => Halt::Fault(fault),
        },
{
    match h {
        Halt::Pending(action) => Halt::Pending(action),
        Halt::Failed(e) => Halt::Failed(e.to_string()),
        Halt::Fault(fault) => Halt::Fault(fault),
    }
}

/// A halt with its error, if it has one, turned into the line that it prints
/// after `prefix`.
pub fn explain(h: Halt<MspMcpError>, prefix: &str) -> (r: Halt<String>)
    ensures
        r@ == match h@ {
            Halt::Pending(action) => Halt::<Seq<char>>::Pending(action),
            Halt::Failed(e) => Halt::Failed(prefix@ + e.text()),
            Halt::Fault(fault) => Halt::Fault(fault),
        },
{
    match h {
        Halt::Pending(action) => Halt::Pending(action),
        Halt::Failed(e) => {
            let text = e.to_string();
            Halt::Failed(joined(prefix, text.as_str()))
        },
        Halt::Fault(fault) => Halt::Fault(fault),
    }
}

/// [`PaintServerState::initialize`]: the window is found as
/// [`get_paint_hwnd`] finds it; an error is reported as a failure of the
/// initialization.
pub open spec fn initialize_run(a: Seq<Answer>, p: nat) -> Run<(), Seq<char>> {
    get_paint_hwnd_run(a, p).with_error(
        |e: MspMcpErrorModel|
            "Failed to find or launch Paint during initialization: "@ + e.text(),
    ).and_next(|hwnd: isize, p: nat| Run::value((), p))
}

/// The handler that [`PaintServerState::handle_method`] routes a method to,
/// with the parameters read as those of the method. A method that is not
/// routed is not supported.
pub open spec fn routed_run(
    state: PaintServerState,
    method: Seq<char>,
    params: Params,
    a: Seq<Answer>,
    p: nat,
) -> Trace<Reply> {
    if method == "connect"@ {
        call_connect_run(state, params, a, p)
    } else if method == "disconnect"@ {
        Run::value(Reply::Success, p)
    } else if method == "get_version"@ {
        Run::value(Reply::Version, p)
    } else if method == "activate_window"@ {
        handle_activate_window_run(state, a, p)
    } else if method == "get_canvas_dimensions"@ {
        handle_get_canvas_dimensions_run(state, a, p)
    } else if method == "draw_pixel"@ {
        call_draw_pixel_run(state, params, a, p)
    } else if method == "draw_line"@ {
        call_draw_line_run(state, params, a, p)
    } else {
        Run::fail(
            MspMcpErrorModel::OperationNotSupported("Method '"@ + method + "' not implemented"@),
            p,
        )
    }
}

/// [`PaintServerState::handle_method`]: what the handler of the method
/// comes to, with an error reported as the line that it prints.
pub open spec fn handle_method_run(
    state: PaintServerState,
    method: Seq<char>,
    params: Params,
    a: Seq<Answer>,
    p: nat,
) -> Run<Reply, Seq<char>> {
    routed_run(state, method, params, a, p).with_error(|e: MspMcpErrorModel| e.text())
}

} // verus!
