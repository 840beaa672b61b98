//! The handlers of the methods of the protocol.
use vstd::prelude::*;

use crate::desktop::{ask_done, replayed, text_view, Action, Answer, Halt, Report, Run, Transcript};
use crate::error::{MspMcpError, MspMcpErrorModel};
use crate::protocol::{
    AddTextParams, ConnectParams, CreateCanvasParams, DrawLineParams, DrawPixelParams,
    DrawPolylineParams, DrawShapeParams, MethodHandler, Params, Parsed, Point, Reply,
    SelectToolParams, SetBrushSizeParams, SetColorParams, SetFillParams, SetThicknessParams,
    WRONG_PARAMS,
};
use crate::uia::name_view;
use crate::windows::{
    activate_paint_window, activate_paint_window_run, add_text, add_text_run, clear_canvas,
    clear_canvas_run, copy_selection, copy_selection_run, create_canvas, create_canvas_run,
    draw_line_at, draw_line_at_run, draw_pixel_at, draw_pixel_at_run, draw_polyline,
    draw_polyline_run, draw_shape, draw_shape_run, get_canvas_dimensions,
    get_canvas_dimensions_run, get_direct_paint_hwnd, get_initial_canvas_dimensions,
    get_initial_canvas_dimensions_run, get_paint_hwnd, get_paint_hwnd_run, paste_at, paste_at_run,
    select_region, select_region_run, select_tool, select_tool_run, set_brush_size,
    set_brush_size_run, set_color, set_color_run, set_fill, set_fill_run, set_thickness,
    set_thickness_run, Outcome, Trace,
};
use crate::PaintServerState;

verus! {

/// The parameters of a call, or the error that they are missing or cannot be read.
pub open spec fn parsed_run<T>(params: Parsed<T>, p: nat, missing: Seq<char>) -> Trace<T> {
    match params {
        Parsed::Missing => Run::fail(MspMcpErrorModel::InvalidParameters(missing), p),
        Parsed::Invalid(text) => Run::fail(MspMcpErrorModel::JsonError(text@), p),
        Parsed::Valid(v) => Run::value(v, p),
    }
}

/// The parameters of a call, or the error that they are missing or cannot be read.
pub fn parsed<T>(params: Parsed<T>, missing: &str) -> (r: Result<T, MspMcpError>)
    ensures
        match params {
            Parsed::Missing => r matches Err(e) && e@ == MspMcpErrorModel::InvalidParameters(
                missing@,
            ),
            Parsed::Invalid(text) => r matches Err(e) && e@ == MspMcpErrorModel::JsonError(text@),
            Parsed::Valid(v) => r == Ok::<T, MspMcpError>(v),
        },
{
    match params {
        Parsed::Missing => Err(MspMcpError::InvalidParameters(String::from_str(missing))),
        Parsed::Invalid(text) => Err(MspMcpError::JsonError(text)),
        Parsed::Valid(v) => Ok(v),
    }
}

/// A result of the server as the outcome of an operation.
pub fn lift<T>(r: Result<T, MspMcpError>) -> (o: Outcome<T>)
    ensures
        match r {
            Ok(v) => o == Ok::<T, Halt<MspMcpError>>(v),
            Err(e) => o matches Err(Halt::Failed(x)) && x == e,
        },
{
    match r {
        Ok(v) => Ok(v),
        Err(e) => Err(Halt::Failed(e)),
    }
}

/// The window of the state, or this error where it has none.
pub open spec fn window_or(state: PaintServerState, p: nat, error: MspMcpErrorModel) -> Trace<isize> {
    match state.window() {
        Some(hwnd) => Run::value(hwnd, p),
        None => Run::fail(error, p),
    }
}

/// The error of the handlers that need a window and find none.
pub open spec fn no_window() -> MspMcpErrorModel {
    MspMcpErrorModel::OperationNotSupported("No Paint window available. Call connect first."@)
}

/// The window of the state, or the error that none is available.
pub fn available_window(state: &PaintServerState) -> (r: Outcome<isize>)
    ensures
        forall|p: nat|
            crate::desktop::seen(r) == (#[trigger] window_or(*state, p, no_window())).result,
{
    match state.hwnd() {
        Some(hwnd) => Ok(hwnd),
        None => Err(
            Halt::Failed(
                MspMcpError::OperationNotSupported(
                    String::from_str("No Paint window available. Call connect first."),
                ),
            ),
        ),
    }
}

/// The window of the state, or the error that it was not found.
pub fn found_window(state: &PaintServerState) -> (r: Outcome<isize>)
    ensures
        forall|p: nat|
            crate::desktop::seen(r) == (#[trigger] window_or(
                *state,
                p,
                MspMcpErrorModel::WindowNotFound,
            )).result,
{
    match state.hwnd() {
        Some(hwnd) => Ok(hwnd),
        None => Err(Halt::Failed(MspMcpError::WindowNotFound)),
    }
}

/// [`handle_connect`]: reads the parameters; takes the window of the state;
/// and answers with the size of the window.
pub open spec fn handle_connect_run(
    state: PaintServerState,
    params: Parsed<ConnectParams>,
    a: Seq<Answer>,
    p: nat,
) -> Trace<Reply> {
    parsed_run(params, p, "Missing params for connect"@).and_next(
        |connect_params: ConnectParams, p: nat|
            window_or(
                state,
                p,
                MspMcpErrorModel::General("Paint HWND not found in state after initialize"@),
            ).and_next(
                |hwnd: isize, p: nat|
                    get_initial_canvas_dimensions_run(a, p, hwnd).and_next(
                        |size: (u32, u32), p: nat|
                            Run::value(
                                Reply::Connected { canvas_width: size.0, canvas_height: size.1 },
                                p,
                            ),
                    ),
            ),
    )
}

/// Serves `connect`.
pub fn handle_connect(t: &mut Transcript, state: &PaintServerState, params: Parsed<ConnectParams>) -> (r:
    Outcome<Reply>)
    ensures
        replayed(
            *old(t),
            *final(t),
            r,
            handle_connect_run(*state, params, old(t).answers@, old(t).pos as nat),
        ),
{
    let connect_params = lift(parsed(params, "Missing params for connect"))?;
    let hwnd = match state.hwnd() {
        Some(h) => h,
        None => {
            return Err(
                Halt::Failed(
                    MspMcpError::General(
                        String::from_str("Paint HWND not found in state after initialize"),
                    ),
                ),
            );
        },
    };
    let (width, height) = get_initial_canvas_dimensions(t, hwnd)?;
    Ok(Reply::Connected { canvas_width: width, canvas_height: height })
}

/// [`handle_activate_window`]: activates the window of the state.
pub open spec fn handle_activate_window_run(state: PaintServerState, a: Seq<Answer>, p: nat) -> Trace<
    Reply,
> {
    window_or(state, p, no_window()).and_next(
        |hwnd: isize, p: nat|
            activate_paint_window_run(a, p, hwnd).and_next(
                |u: (), p: nat| Run::value(Reply::Success, p),
            ),
    )
}

/// Serves `activate_window`.
pub fn handle_activate_window(t: &mut Transcript, state: &PaintServerState) -> (r: Outcome<Reply>)
    ensures
        replayed(
            *old(t),
            *final(t),
            r,
            handle_activate_window_run(*state, old(t).answers@, old(t).pos as nat),
        ),
{
    let hwnd = available_window(state)?;
    activate_paint_window(t, hwnd)?;
    Ok(Reply::Success)
}

/// [`handle_get_canvas_dimensions`]: answers with the size of the canvas in
/// the window of the state.
pub open spec fn handle_get_canvas_dimensions_run(state: PaintServerState, a: Seq<Answer>, p: nat) -> Trace<
    Reply,
> {
    window_or(state, p, no_window()).and_next(
        |hwnd: isize, p: nat|
            get_canvas_dimensions_run(a, p, hwnd).and_next(
                |size: (u32, u32), p: nat|
                    Run::value(Reply::Dimensions { width: size.0, height: size.1 }, p),
            ),
    )
}

/// Serves `get_canvas_dimensions`.
pub fn handle_get_canvas_dimensions(t: &mut Transcript, state: &PaintServerState) -> (r: Outcome<
    Reply,
>)
    ensures
        replayed(
            *old(t),
            *final(t),
            r,
            handle_get_canvas_dimensions_run(*state, old(t).answers@, old(t).pos as nat),
        ),
{
    let hwnd = available_window(state)?;
    let (width, height) = get_canvas_dimensions(t, hwnd)?;
    Ok(Reply::Dimensions { width, height })
}

/// Serves `disconnect`: the state forgets its window. Paint stays open.
pub fn handle_disconnect(state: &mut PaintServerState) -> (r: Result<Reply, MspMcpError>)
    ensures
        r == Ok::<Reply, MspMcpError>(Reply::Success),
        final(state).window() is None,
{
    state.forget();
    Ok(Reply::Success)
}

/// Serves `get_version`.
pub fn handle_get_version(state: &PaintServerState) -> (r: Result<Reply, MspMcpError>)
    ensures
        r == Ok::<Reply, MspMcpError>(Reply::Version),
{
    Ok(Reply::Version)
}

/// The optional setting of a colour, followed by a wait where it was set.
pub open spec fn color_then_wait_run(a: Seq<Answer>, p: nat, hwnd: isize, color: Option<Seq<char>>) -> Trace<
    (),
> {
    match color {
        Some(color) => set_color_run(a, p, hwnd, color).and_next(
            |u: (), p: nat| ask_done(a, p, Action::Sleep { millis: 50 }),
        ),
        None => Run::value((), p),
    }
}

/// [`handle_draw_pixel`]: reads the parameters; takes the window of the
/// state; selects the pencil and waits 50 ms; sets the colour, if one is
/// given, and waits 50 ms; and draws the pixel.
pub open spec fn handle_draw_pixel_run(
    state: PaintServerState,
    params: Parsed<DrawPixelParams>,
    a: Seq<Answer>,
    p: nat,
) -> Trace<Reply> {
    parsed_run(params, p, "Missing params for draw_pixel"@).and_next(
        |draw_params: DrawPixelParams, p: nat|
            window_or(state, p, MspMcpErrorModel::WindowNotFound).and_next(
                |hwnd: isize, p: nat|
                    select_tool_run(a, p, hwnd, "pencil"@).and_next(
                        |u: (), p: nat|
                            ask_done(a, p, Action::Sleep { millis: 50 }).and_next(
                                |u: (), p: nat|
                                    color_then_wait_run(
                                        a,
                                        p,
                                        hwnd,
                                        name_view(draw_params.color),
                                    ).and_next(
                                        |u: (), p: nat|
                                            draw_pixel_at_run(
                                                a,
                                                p,
                                                hwnd,
                                                draw_params.x,
                                                draw_params.y,
                                            ).and_next(
                                                |u: (), p: nat| Run::value(Reply::Success, p),
                                            ),
                                    ),
                            ),
                    ),
            ),
    )
}

/// An optional text as an optional slice.
pub fn as_deref(text: &Option<String>) -> (r: Option<&str>)
    ensures
        text_view(r) == name_view(*text),
{
    match text {
        Some(s) => Some(s.as_str()),
        None => None,
    }
}

/// Serves `draw_pixel`.
pub fn handle_draw_pixel(t: &mut Transcript, state: &PaintServerState, params: Parsed<DrawPixelParams>) -> (r:
    Outcome<Reply>)
    ensures
        replayed(
            *old(t),
            *final(t),
            r,
            handle_draw_pixel_run(*state, params, old(t).answers@, old(t).pos as nat),
        ),
{
    let draw_params = lift(parsed(params, "Missing params for draw_pixel"))?;
    let hwnd = found_window(state)?;
    select_tool(t, hwnd, "pencil")?;
    t.sleep(50)?;
    if let Some(color) = &draw_params.color {
        set_color(t, hwnd, color.as_str())?;
        t.sleep(50)?;
    }
    draw_pixel_at(t, hwnd, draw_params.x, draw_params.y)?;
    Ok(Reply::Success)
}

/// [`handle_draw_line`]: reads the parameters, takes the window of the state
/// and draws the line. The colour and the thickness are not applied.
pub open spec fn handle_draw_line_run(
    state: PaintServerState,
    params: Parsed<DrawLineParams>,
    a: Seq<Answer>,
    p: nat,
) -> Trace<Reply> {
    parsed_run(params, p, "Missing params for draw_line"@).and_next(
        |draw_params: DrawLineParams, p: nat|
            window_or(state, p, MspMcpErrorModel::WindowNotFound).and_next(
                |hwnd: isize, p: nat|
                    draw_line_at_run(
                        a,
                        p,
                        hwnd,
                        draw_params.start_x,
                        draw_params.start_y,
                        draw_params.end_x,
                        draw_params.end_y,
                    ).and_next(|u: (), p: nat| Run::value(Reply::Success, p)),
            ),
    )
}

/// Serves `draw_line`.
pub fn handle_draw_line(t: &mut Transcript, state: &PaintServerState, params: Parsed<DrawLineParams>) -> (r:
    Outcome<Reply>)
    ensures
        replayed(
            *old(t),
            *final(t),
            r,
            handle_draw_line_run(*state, params, old(t).answers@, old(t).pos as nat),
        ),
{
    let draw_params = lift(parsed(params, "Missing params for draw_line"))?;
    let hwnd = found_window(state)?;
    draw_line_at(
        t,
        hwnd,
        draw_params.start_x,
        draw_params.start_y,
        draw_params.end_x,
        draw_params.end_y,
    )?;
    Ok(Reply::Success)
}


/// [`handle_select_tool`]: reads the parameters, takes the window of the
/// state and selects the tool. The shape type is not applied.
pub open spec fn handle_select_tool_run(
    state: PaintServerState,
    params: Parsed<SelectToolParams>,
    a: Seq<Answer>,
    p: nat,
) -> Trace<Reply> {
    parsed_run(params, p, "Missing params for select_tool"@).and_next(
        |tool_params: SelectToolParams, p: nat|
            window_or(state, p, MspMcpErrorModel::WindowNotFound).and_next(
                |hwnd: isize, p: nat|
                    select_tool_run(a, p, hwnd, tool_params.tool@).and_next(
                        |u: (), p: nat| Run::value(Reply::Success, p),
                    ),
            ),
    )
}

/// Serves `select_tool`.
pub fn handle_select_tool(t: &mut Transcript, state: &PaintServerState, params: Parsed<SelectToolParams>) -> (r:
    Outcome<Reply>)
    ensures
        replayed(
            *old(t),
            *final(t),
            r,
            handle_select_tool_run(*state, params, old(t).answers@, old(t).pos as nat),
        ),
{
    let tool_params = lift(parsed(params, "Missing params for select_tool"))?;
    let hwnd = found_window(state)?;
    select_tool(t, hwnd, tool_params.tool.as_str())?;
    Ok(Reply::Success)
}

/// [`handle_set_color`]: reads the parameters, takes the window of the state
/// and sets the colour.
pub open spec fn handle_set_color_run(
    state: PaintServerState,
    params: Parsed<SetColorParams>,
    a: Seq<Answer>,
    p: nat,
) -> Trace<Reply> {
    parsed_run(params, p, "Missing params for set_color"@).and_next(
        |color_params: SetColorParams, p: nat|
            window_or(state, p, MspMcpErrorModel::WindowNotFound).and_next(
                |hwnd: isize, p: nat|
                    set_color_run(a, p, hwnd, color_params.color@).and_next(
                        |u: (), p: nat| Run::value(Reply::Success, p),
                    ),
            ),
    )
}

/// Serves `set_color`.
pub fn handle_set_color(t: &mut Transcript, state: &PaintServerState, params: Parsed<SetColorParams>) -> (r:
    Outcome<Reply>)
    ensures
        replayed(
            *old(t),
            *final(t),
            r,
            handle_set_color_run(*state, params, old(t).answers@, old(t).pos as nat),
        ),
{
    let color_params = lift(parsed(params, "Missing params for set_color"))?;
    let hwnd = found_window(state)?;
    set_color(t, hwnd, color_params.color.as_str())?;
    Ok(Reply::Success)
}

/// [`handle_set_thickness`]: reads the parameters, takes the window of the
/// state and sets the thickness.
pub open spec fn handle_set_thickness_run(
    state: PaintServerState,
    params: Parsed<SetThicknessParams>,
    a: Seq<Answer>,
    p: nat,
) -> Trace<Reply> {
    parsed_run(params, p, "Missing params for set_thickness"@).and_next(
        |thickness_params: SetThicknessParams, p: nat|
            window_or(state, p, MspMcpErrorModel::WindowNotFound).and_next(
                |hwnd: isize, p: nat|
                    set_thickness_run(a, p, hwnd, thickness_params.level).and_next(
                        |u: (), p: nat| Run::value(Reply::Success, p),
                    ),
            ),
    )
}

/// Serves `set_thickness`.
pub fn handle_set_thickness(
    t: &mut Transcript,
    state: &PaintServerState,
    params: Parsed<SetThicknessParams>,
) -> (r: Outcome<Reply>)
    ensures
        replayed(
            *old(t),
            *final(t),
            r,
            handle_set_thickness_run(*state, params, old(t).answers@, old(t).pos as nat),
        ),
{
    let thickness_params = lift(parsed(params, "Missing params for set_thickness"))?;
    let hwnd = found_window(state)?;
    set_thickness(t, hwnd, thickness_params.level)?;
    Ok(Reply::Success)
}

/// [`handle_set_brush_size`]: reads the parameters, takes the window of the
/// state and sets the size of the brush.
pub open spec fn handle_set_brush_size_run(
    state: PaintServerState,
    params: Parsed<SetBrushSizeParams>,
    a: Seq<Answer>,
    p: nat,
) -> Trace<Reply> {
    parsed_run(params, p, "Missing params for set_brush_size"@).and_next(
        |brush_params: SetBrushSizeParams, p: nat|
            window_or(state, p, MspMcpErrorModel::WindowNotFound).and_next(
                |hwnd: isize, p: nat|
                    set_brush_size_run(
                        a,
                        p,
                        hwnd,
                        brush_params.size,
                        name_view(brush_params.tool),
                    ).and_next(|u: (), p: nat| Run::value(Reply::Success, p)),
            ),
    )
}

/// Serves `set_brush_size`.
pub fn handle_set_brush_size(
    t: &mut Transcript,
    state: &PaintServerState,
    params: Parsed<SetBrushSizeParams>,
) -> (r: Outcome<Reply>)
    ensures
        replayed(
            *old(t),
            *final(t),
            r,
            handle_set_brush_size_run(*state, params, old(t).answers@, old(t).pos as nat),
        ),
{
    let brush_params = lift(parsed(params, "Missing params for set_brush_size"))?;
    let hwnd = found_window(state)?;
    set_brush_size(t, hwnd, brush_params.size, as_deref(&brush_params.tool))?;
    Ok(Reply::Success)
}

/// [`handle_set_fill`]: reads the parameters, takes the window of the state
/// and sets the fill type.
pub open spec fn handle_set_fill_run(
    state: PaintServerState,
    params: Parsed<SetFillParams>,
    a: Seq<Answer>,
    p: nat,
) -> Trace<Reply> {
    parsed_run(params, p, "Missing params for set_fill"@).and_next(
        |fill_params: SetFillParams, p: nat|
            window_or(state, p, MspMcpErrorModel::WindowNotFound).and_next(
                |hwnd: isize, p: nat|
                    set_fill_run(a, p, hwnd, fill_params.fill_type@).and_next(
                        |u: (), p: nat| Run::value(Reply::Success, p),
                    ),
            ),
    )
}

/// Serves `set_fill`.
pub fn handle_set_fill(t: &mut Transcript, state: &PaintServerState, params: Parsed<SetFillParams>) -> (r:
    Outcome<Reply>)
    ensures
        replayed(
            *old(t),
            *final(t),
            r,
            handle_set_fill_run(*state, params, old(t).answers@, old(t).pos as nat),
        ),
{
    let fill_params = lift(parsed(params, "Missing params for set_fill"))?;
    let hwnd = found_window(state)?;
    set_fill(t, hwnd, fill_params.fill_type.as_str())?;
    Ok(Reply::Success)
}

/// The optional setting of a colour.
pub open spec fn maybe_color_run(a: Seq<Answer>, p: nat, hwnd: isize, color: Option<Seq<char>>) -> Trace<
    (),
> {
    match color {
        Some(color) => set_color_run(a, p, hwnd, color),
        None => Run::value((), p),
    }
}

/// The optional setting of a thickness.
pub open spec fn maybe_thickness_run(a: Seq<Answer>, p: nat, hwnd: isize, thickness: Option<u32>) -> Trace<
    (),
> {
    match thickness {
        Some(level) => set_thickness_run(a, p, hwnd, level),
        None => Run::value((), p),
    }
}

/// The optional setting of a fill type.
pub open spec fn maybe_fill_run(a: Seq<Answer>, p: nat, hwnd: isize, fill_type: Option<Seq<char>>) -> Trace<
    (),
> {
    match fill_type {
        Some(fill_type) => set_fill_run(a, p, hwnd, fill_type),
        None => Run::value((), p),
    }
}

/// [`handle_draw_shape`]: reads the parameters and takes the window of the
/// state; sets the colour, the thickness and the fill type, as far as they
/// are given; and draws the shape.
pub open spec fn handle_draw_shape_run(
    state: PaintServerState,
    params: Parsed<DrawShapeParams>,
    a: Seq<Answer>,
    p: nat,
) -> Trace<Reply> {
    parsed_run(params, p, "Missing params for draw_shape"@).and_next(
        |shape_params: DrawShapeParams, p: nat|
            window_or(state, p, MspMcpErrorModel::WindowNotFound).and_next(
                |hwnd: isize, p: nat|
                    maybe_color_run(a, p, hwnd, name_view(shape_params.color)).and_next(
                        |u: (), p: nat|
                            maybe_thickness_run(a, p, hwnd, shape_params.thickness).and_next(
                                |u: (), p: nat|
                                    maybe_fill_run(
                                        a,
                                        p,
                                        hwnd,
                                        name_view(shape_params.fill_type),
                                    ).and_next(
                                        |u: (), p: nat|
                                            draw_shape_run(
                                                a,
                                                p,
                                                hwnd,
                                                shape_params.shape_type@,
                                                shape_params.start_x,
                                                shape_params.start_y,
                                                shape_params.end_x,
                                                shape_params.end_y,
                                            ).and_next(
                                                |u: (), p: nat| Run::value(Reply::Success, p),
                                            ),
                                    ),
                            ),
                    ),
            ),
    )
}

/// Serves `draw_shape`.
pub fn handle_draw_shape(t: &mut Transcript, state: &PaintServerState, params: Parsed<DrawShapeParams>) -> (r:
    Outcome<Reply>)
    ensures
        replayed(
            *old(t),
            *final(t),
            r,
            handle_draw_shape_run(*state, params, old(t).answers@, old(t).pos as nat),
        ),
{
    let shape_params = lift(parsed(params, "Missing params for draw_shape"))?;
    let hwnd = found_window(state)?;
    if let Some(color) = &shape_params.color {
        set_color(t, hwnd, color.as_str())?;
    }
    if let Some(thickness) = shape_params.thickness {
        set_thickness(t, hwnd, thickness)?;
    }
    if let Some(fill_type) = &shape_params.fill_type {
        set_fill(t, hwnd, fill_type.as_str())?;
    }
    draw_shape(
        t,
        hwnd,
        shape_params.shape_type.as_str(),
        shape_params.start_x,
        shape_params.start_y,
        shape_params.end_x,
        shape_params.end_y,
    )?;
    Ok(Reply::Success)
}

/// Points as pairs of coordinates.
pub open spec fn pairs_of(points: Seq<Point>) -> Seq<(i32, i32)> {
    Seq::new(points.len(), |i: int| (points[i].x, points[i].y))
}

/// Points as pairs of coordinates.
pub fn point_tuples(points: &Vec<Point>) -> (r: Vec<(i32, i32)>)
    ensures
        r@ == pairs_of(points@),
{
    let mut r: Vec<(i32, i32)> = Vec::new();
    let mut i: usize = 0;
    while i < points.len()
        invariant
            i <= points.len(),
            r@.len() == i,
            forall|k: int| 0 <= k < i ==> r@[k] == (points@[k].x, points@[k].y),
        decreases points.len() - i,
    {
        r.push((points[i].x, points[i].y));
        i = i + 1;
    }
    assert(r@ =~= pairs_of(points@));
    r
}

/// The tool that a polyline is drawn with: the one that is given, or the pencil.
pub open spec fn polyline_tool(tool: Option<Seq<char>>) -> Seq<char> {
    match tool {
        Some(tool) => tool,
        None => "pencil"@,
    }
}

/// [`handle_draw_polyline`]: reads the parameters and takes the window of
/// the state; selects the tool that is given, or the pencil; sets the colour
/// and the thickness, as far as they are given; and draws the polyline.
pub open spec fn handle_draw_polyline_run(
    state: PaintServerState,
    params: Parsed<DrawPolylineParams>,
    a: Seq<Answer>,
    p: nat,
) -> Trace<Reply> {
    parsed_run(params, p, "Missing params for draw_polyline"@).and_next(
        |polyline_params: DrawPolylineParams, p: nat|
            window_or(state, p, MspMcpErrorModel::WindowNotFound).and_next(
                |hwnd: isize, p: nat|
                    select_tool_run(
                        a,
                        p,
                        hwnd,
                        polyline_tool(name_view(polyline_params.tool)),
                    ).and_next(
                        |u: (), p: nat|
                            maybe_color_run(a, p, hwnd, name_view(polyline_params.color)).and_next(
                                |u: (), p: nat|
                                    maybe_thickness_run(
                                        a,
                                        p,
                                        hwnd,
                                        polyline_params.thickness,
                                    ).and_next(
                                        |u: (), p: nat|
                                            draw_polyline_run(
                                                a,
                                                p,
                                                hwnd,
                                                pairs_of(polyline_params.points@),
                                            ).and_next(
                                                |u: (), p: nat| Run::value(Reply::Success, p),
                                            ),
                                    ),
                            ),
                    ),
            ),
    )
}

/// Serves `draw_polyline`.
pub fn handle_draw_polyline(
    t: &mut Transcript,
    state: &PaintServerState,
    params: Parsed<DrawPolylineParams>,
) -> (r: Outcome<Reply>)
    ensures
        replayed(
            *old(t),
            *final(t),
            r,
            handle_draw_polyline_run(*state, params, old(t).answers@, old(t).pos as nat),
        ),
{
    let polyline_params = lift(parsed(params, "Missing params for draw_polyline"))?;
    let hwnd = found_window(state)?;
    if let Some(tool) = &polyline_params.tool {
        select_tool(t, hwnd, tool.as_str())?;
    } else {
        select_tool(t, hwnd, "pencil")?;
    }
    if let Some(color) = &polyline_params.color {
        set_color(t, hwnd, color.as_str())?;
    }
    if let Some(thickness) = polyline_params.thickness {
        set_thickness(t, hwnd, thickness)?;
    }
    let tuples = point_tuples(&polyline_params.points);
    draw_polyline(t, hwnd, tuples.as_slice())?;
    Ok(Reply::Success)
}

/// [`handle_clear_canvas`]: clears the canvas in the window of the state.
pub open spec fn handle_clear_canvas_run(state: PaintServerState, a: Seq<Answer>, p: nat) -> Trace<
    Reply,
> {
    window_or(state, p, MspMcpErrorModel::WindowNotFound).and_next(
        |hwnd: isize, p: nat|
            clear_canvas_run(a, p, hwnd).and_next(|u: (), p: nat| Run::value(Reply::Success, p)),
    )
}

/// Serves `clear_canvas`.
pub fn handle_clear_canvas(t: &mut Transcript, state: &PaintServerState) -> (r: Outcome<Reply>)
    ensures
        replayed(
            *old(t),
            *final(t),
            r,
            handle_clear_canvas_run(*state, old(t).answers@, old(t).pos as nat),
        ),
{
    let hwnd = found_window(state)?;
    clear_canvas(t, hwnd)?;
    Ok(Reply::Success)
}

/// [`handle_select_region`]: reads the parameters, which are those of a
/// line; takes the window of the state; and selects the region between the
/// two points.
pub open spec fn handle_select_region_run(
    state: PaintServerState,
    params: Parsed<DrawLineParams>,
    a: Seq<Answer>,
    p: nat,
) -> Trace<Reply> {
    parsed_run(params, p, "Missing params for select_region"@).and_next(
        |select_params: DrawLineParams, p: nat|
            window_or(state, p, MspMcpErrorModel::WindowNotFound).and_next(
                |hwnd: isize, p: nat|
                    select_region_run(
                        a,
                        p,
                        hwnd,
                        select_params.start_x,
                        select_params.start_y,
                        select_params.end_x,
                        select_params.end_y,
                    ).and_next(|u: (), p: nat| Run::value(Reply::Success, p)),
            ),
    )
}

/// Serves `select_region`.
pub fn handle_select_region(t: &mut Transcript, state: &PaintServerState, params: Parsed<DrawLineParams>) -> (r:
    Outcome<Reply>)
    ensures
        replayed(
            *old(t),
            *final(t),
            r,
            handle_select_region_run(*state, params, old(t).answers@, old(t).pos as nat),
        ),
{
    let select_params = lift(parsed(params, "Missing params for select_region"))?;
    let hwnd = found_window(state)?;
    select_region(
        t,
        hwnd,
        select_params.start_x,
        select_params.start_y,
        select_params.end_x,
        select_params.end_y,
    )?;
    Ok(Reply::Success)
}

/// [`handle_copy_selection`]: copies the selection in the window of the state.
pub open spec fn handle_copy_selection_run(state: PaintServerState, a: Seq<Answer>, p: nat) -> Trace<
    Reply,
> {
    window_or(state, p, MspMcpErrorModel::WindowNotFound).and_next(
        |hwnd: isize, p: nat|
            copy_selection_run(a, p, hwnd).and_next(
                |u: (), p: nat| Run::value(Reply::Success, p),
            ),
    )
}

/// Serves `copy_selection`.
pub fn handle_copy_selection(t: &mut Transcript, state: &PaintServerState) -> (r: Outcome<Reply>)
    ensures
        replayed(
            *old(t),
            *final(t),
            r,
            handle_copy_selection_run(*state, old(t).answers@, old(t).pos as nat),
        ),
{
    let hwnd = found_window(state)?;
    copy_selection(t, hwnd)?;
    Ok(Reply::Success)
}

/// [`handle_paste`]: reads the parameters, which are those of a pixel; takes
/// the window of the state; and pastes at the point.
pub open spec fn handle_paste_run(
    state: PaintServerState,
    params: Parsed<DrawPixelParams>,
    a: Seq<Answer>,
    p: nat,
) -> Trace<Reply> {
    parsed_run(params, p, "Missing params for paste"@).and_next(
        |paste_params: DrawPixelParams, p: nat|
            window_or(state, p, MspMcpErrorModel::WindowNotFound).and_next(
                |hwnd: isize, p: nat|
                    paste_at_run(a, p, hwnd, paste_params.x, paste_params.y).and_next(
                        |u: (), p: nat| Run::value(Reply::Success, p),
                    ),
            ),
    )
}

/// Serves `paste`.
pub fn handle_paste(t: &mut Transcript, state: &PaintServerState, params: Parsed<DrawPixelParams>) -> (r:
    Outcome<Reply>)
    ensures
        replayed(
            *old(t),
            *final(t),
            r,
            handle_paste_run(*state, params, old(t).answers@, old(t).pos as nat),
        ),
{
    let paste_params = lift(parsed(params, "Missing params for paste"))?;
    let hwnd = found_window(state)?;
    paste_at(t, hwnd, paste_params.x, paste_params.y)?;
    Ok(Reply::Success)
}

/// [`handle_add_text`]: reads the parameters, takes the window of the state
/// and adds the text.
pub open spec fn handle_add_text_run(
    state: PaintServerState,
    params: Parsed<AddTextParams>,
    a: Seq<Answer>,
    p: nat,
) -> Trace<Reply> {
    parsed_run(params, p, "Missing params for add_text"@).and_next(
        |text_params: AddTextParams, p: nat|
            window_or(state, p, MspMcpErrorModel::WindowNotFound).and_next(
                |hwnd: isize, p: nat|
                    add_text_run(
                        a,
                        p,
                        hwnd,
                        text_params.x,
                        text_params.y,
                        text_params.text@,
                        name_view(text_params.color),
                    ).and_next(|u: (), p: nat| Run::value(Reply::Success, p)),
            ),
    )
}

/// Serves `add_text`.
pub fn handle_add_text(t: &mut Transcript, state: &PaintServerState, params: Parsed<AddTextParams>) -> (r:
    Outcome<Reply>)
    ensures
        replayed(
            *old(t),
            *final(t),
            r,
            handle_add_text_run(*state, params, old(t).answers@, old(t).pos as nat),
        ),
{
    let text_params = lift(parsed(params, "Missing params for add_text"))?;
    let hwnd = found_window(state)?;
    add_text(
        t,
        hwnd,
        text_params.x,
        text_params.y,
        text_params.text.as_str(),
        as_deref(&text_params.color),
        as_deref(&text_params.font_name),
        text_params.font_size,
        as_deref(&text_params.font_style),
    )?;
    Ok(Reply::Success)
}

/// [`handle_create_canvas`]: reads the parameters and takes the window of
/// the state; creates the canvas; and answers with the size of the canvas.
pub open spec fn handle_create_canvas_run(
    state: PaintServerState,
    params: Parsed<CreateCanvasParams>,
    a: Seq<Answer>,
    p: nat,
) -> Trace<Reply> {
    parsed_run(params, p, "Missing params for create_canvas"@).and_next(
        |canvas_params: CreateCanvasParams, p: nat|
            window_or(state, p, MspMcpErrorModel::WindowNotFound).and_next(
                |hwnd: isize, p: nat|
                    create_canvas_run(a, p, hwnd).and_next(
                        |u: (), p: nat|
                            get_canvas_dimensions_run(a, p, hwnd).and_next(
                                |size: (u32, u32), p: nat|
                                    Run::value(
                                        Reply::CanvasCreated {
                                            canvas_width: size.0,
                                            canvas_height: size.1,
                                        },
                                        p,
                                    ),
                            ),
                    ),
            ),
    )
}

/// Serves `create_canvas`.
pub fn handle_create_canvas(
    t: &mut Transcript,
    state: &PaintServerState,
    params: Parsed<CreateCanvasParams>,
) -> (r: Outcome<Reply>)
    ensures
        replayed(
            *old(t),
            *final(t),
            r,
            handle_create_canvas_run(*state, params, old(t).answers@, old(t).pos as nat),
        ),
{
    let canvas_params = lift(parsed(params, "Missing params for create_canvas"))?;
    let hwnd = found_window(state)?;
    create_canvas(
        t,
        hwnd,
        canvas_params.width,
        canvas_params.height,
        as_deref(&canvas_params.background_color),
    )?;
    let (width, height) = get_canvas_dimensions(t, hwnd)?;
    Ok(Reply::CanvasCreated { canvas_width: width, canvas_height: height })
}

/// The launch of Paint through PowerShell, with which `initialize` ends its
/// search: where PowerShell runs, 3 s are waited and the window is looked
/// for once more, and is not found where that fails, whatever its error.
pub open spec fn powershell_launch_run(a: Seq<Answer>, p: nat) -> Trace<isize> {
    crate::desktop::ask_failure(a, p, Action::StartPaintWithPowershell).and_next(
        |failed: Option<Seq<char>>, p: nat|
            match failed {
                Some(text) => Run::fail(
                    MspMcpErrorModel::WindowsApiError("Failed to launch Paint: "@ + text),
                    p,
                ),
                None => ask_done(a, p, Action::Sleep { millis: 3000 }).and_next(
                    |u: (), p: nat|
                        get_paint_hwnd_run(a, p).recover(
                            |e: MspMcpErrorModel, p: nat|
                                Run::fail(MspMcpErrorModel::WindowNotFound, p),
                        ),
                ),
            },
    )
}

/// The search of `initialize` for the window: twice as [`get_paint_hwnd`]
/// makes it, then by a launch through PowerShell.
pub open spec fn locate_run(a: Seq<Answer>, p: nat) -> Trace<isize> {
    get_paint_hwnd_run(a, p).recover(
        |e: MspMcpErrorModel, p: nat|
            get_paint_hwnd_run(a, p).recover(
                |e: MspMcpErrorModel, p: nat| powershell_launch_run(a, p),
            ),
    )
}

/// Finds the window of Paint for `initialize`.
pub fn locate(t: &mut Transcript) -> (r: Outcome<isize>)
    ensures
        replayed(*old(t), *final(t), r, locate_run(old(t).answers@, old(t).pos as nat)),
{
    match get_direct_paint_hwnd(t) {
        Ok(hwnd) => {
            return Ok(hwnd);
        },
        Err(Halt::Failed(_)) => {},
        Err(h) => {
            return Err(h);
        },
    }
    match get_paint_hwnd(t) {
        Ok(hwnd) => {
            return Ok(hwnd);
        },
        Err(Halt::Failed(_)) => {},
        Err(h) => {
            return Err(h);
        },
    }
    match t.failure(Action::StartPaintWithPowershell)? {
        Some(e) => Err(
            Halt::Failed(
                MspMcpError::WindowsApiError(crate::text::joined("Failed to launch Paint: ", e)),
            ),
        ),
        None => {
            t.sleep(3000)?;
            match get_direct_paint_hwnd(t) {
                Ok(hwnd) => Ok(hwnd),
                Err(Halt::Failed(_)) => Err(Halt::Failed(MspMcpError::WindowNotFound)),
                Err(h) => Err(h),
            }
        },
    }
}

/// The first part of [`handle_initialize`], up to the activated window: the
/// processes of Paint and the task list are reported; the window is
/// searched for; and it is activated, whether or not that succeeds.
pub open spec fn found_and_activated_run(a: Seq<Answer>, p: nat) -> Trace<isize> {
    ask_done(a, p, Action::Run(Report::PaintProcesses)).and_next(
        |u: (), p: nat|
            ask_done(a, p, Action::Run(Report::TaskList)).and_next(
                |u: (), p: nat|
                    locate_run(a, p).and_next(
                        |paint_hwnd: isize, p: nat|
                            activate_paint_window_run(a, p, paint_hwnd).recover(
                                |e: MspMcpErrorModel, p: nat| Run::value((), p),
                            ).and_next(|u: (), p: nat| Run::value(paint_hwnd, p)),
                    ),
            ),
    )
}

/// [`handle_initialize`]: finds and activates the window; reads its size,
/// whether or not that succeeds; and answers with what the server is.
pub open spec fn handle_initialize_run(a: Seq<Answer>, p: nat) -> Trace<Reply> {
    found_and_activated_run(a, p).and_next(
        |paint_hwnd: isize, p: nat|
            get_initial_canvas_dimensions_run(a, p, paint_hwnd).and_next(
                |size: (u32, u32), p: nat| Run::value((), p),
            ).recover(|e: MspMcpErrorModel, p: nat| Run::value((), p)).and_next(
                |u: (), p: nat| Run::value(Reply::Initialized, p),
            ),
    )
}

/// The window that the state remembers after [`handle_initialize`]: the one
/// that was found and activated, or the one before where the run did not
/// come that far.
pub open spec fn initialized_window(before: Option<isize>, a: Seq<Answer>, p: nat) -> Option<isize> {
    match found_and_activated_run(a, p).result {
        Ok(paint_hwnd) => Some(paint_hwnd),
        Err(_) => before,
    }
}

/// Serves `initialize`: finds the window of Paint, launching Paint where it
/// must, and remembers it in the state.
pub fn handle_initialize(t: &mut Transcript, state: &mut PaintServerState) -> (r: Outcome<Reply>)
    ensures
        replayed(*old(t), *final(t), r, handle_initialize_run(old(t).answers@, old(t).pos as nat)),
        final(state).window() == initialized_window(
            old(state).window(),
            old(t).answers@,
            old(t).pos as nat,
        ),
{
    t.done(Action::Run(Report::PaintProcesses))?;
    t.done(Action::Run(Report::TaskList))?;
    let paint_hwnd = locate(t)?;
    match activate_paint_window(t, paint_hwnd) {
        Ok(_) => {},
        Err(Halt::Failed(_)) => {},
        Err(h) => {
            return Err(h);
        },
    }
    state.remember(paint_hwnd);
    match get_initial_canvas_dimensions(t, paint_hwnd) {
        Ok(_) => {},
        Err(Halt::Failed(_)) => {},
        Err(h) => {
            return Err(h);
        },
    }
    Ok(Reply::Initialized)
}

/// `connect` with the parameters of a call: those of another method are an
/// error of the reader.
pub open spec fn call_connect_run(
    state: PaintServerState,
    params: Params,
    a: Seq<Answer>,
    p: nat,
) -> Trace<Reply> {
    match params {
        Params::Missing => handle_connect_run(state, Parsed::Missing, a, p),
        Params::Invalid(text) => handle_connect_run(state, Parsed::Invalid(text), a, p),
        Params::Connect(v) => handle_connect_run(state, Parsed::Valid(v), a, p),
        _ => Run::fail(MspMcpErrorModel::JsonError(WRONG_PARAMS@), p),
    }
}

/// Serves `connect` with the parameters of a call.
pub fn call_connect(t: &mut Transcript, state: &PaintServerState, params: Params) -> (r: Outcome<Reply>)
    ensures
        replayed(
            *old(t),
            *final(t),
            r,
            call_connect_run(*state, params, old(t).answers@, old(t).pos as nat),
        ),
{
    handle_connect(t, state, params.connect())
}

/// `draw_pixel` with the parameters of a call: those of another method are an
/// error of the reader.
pub open spec fn call_draw_pixel_run(
    state: PaintServerState,
    params: Params,
    a: Seq<Answer>,
    p: nat,
) -> Trace<Reply> {
    match params {
        Params::Missing => handle_draw_pixel_run(state, Parsed::Missing, a, p),
        Params::Invalid(text) => handle_draw_pixel_run(state, Parsed::Invalid(text), a, p),
        Params::DrawPixel(v) => handle_draw_pixel_run(state, Parsed::Valid(v), a, p),
        _ => Run::fail(MspMcpErrorModel::JsonError(WRONG_PARAMS@), p),
    }
}

/// Serves `draw_pixel` with the parameters of a call.
pub fn call_draw_pixel(t: &mut Transcript, state: &PaintServerState, params: Params) -> (r: Outcome<Reply>)
    ensures
        replayed(
            *old(t),
            *final(t),
            r,
            call_draw_pixel_run(*state, params, old(t).answers@, old(t).pos as nat),
        ),
{
    handle_draw_pixel(t, state, params.draw_pixel())
}

/// `draw_line` with the parameters of a call: those of another method are an
/// error of the reader.
pub open spec fn call_draw_line_run(
    state: PaintServerState,
    params: Params,
    a: Seq<Answer>,
    p: nat,
) -> Trace<Reply> {
    match params {
        Params::Missing => handle_draw_line_run(state, Parsed::Missing, a, p),
        Params::Invalid(text) => handle_draw_line_run(state, Parsed::Invalid(text), a, p),
        Params::DrawLine(v) => handle_draw_line_run(state, Parsed::Valid(v), a, p),
        _ => Run::fail(MspMcpErrorModel::JsonError(WRONG_PARAMS@), p),
    }
}

/// Serves `draw_line` with the parameters of a call.
pub fn call_draw_line(t: &mut Transcript, state: &PaintServerState, params: Params) -> (r: Outcome<Reply>)
    ensures
        replayed(
            *old(t),
            *final(t),
            r,
            call_draw_line_run(*state, params, old(t).answers@, old(t).pos as nat),
        ),
{
    handle_draw_line(t, state, params.draw_line())
}

/// `draw_shape` with the parameters of a call: those of another method are an
/// error of the reader.
pub open spec fn call_draw_shape_run(
    state: PaintServerState,
    params: Params,
    a: Seq<Answer>,
    p: nat,
) -> Trace<Reply> {
    match params {
        Params::Missing => handle_draw_shape_run(state, Parsed::Missing, a, p),
        Params::Invalid(text) => handle_draw_shape_run(state, Parsed::Invalid(text), a, p),
        Params::DrawShape(v) => handle_draw_shape_run(state, Parsed::Valid(v), a, p),
        _ => Run::fail(MspMcpErrorModel::JsonError(WRONG_PARAMS@), p),
    }
}

/// Serves `draw_shape` with the parameters of a call.
pub fn call_draw_shape(t: &mut Transcript, state: &PaintServerState, params: Params) -> (r: Outcome<Reply>)
    ensures
        replayed(
            *old(t),
            *final(t),
            r,
            call_draw_shape_run(*state, params, old(t).answers@, old(t).pos as nat),
        ),
{
    handle_draw_shape(t, state, params.draw_shape())
}

/// `draw_polyline` with the parameters of a call: those of another method are an
/// error of the reader.
pub open spec fn call_draw_polyline_run(
    state: PaintServerState,
    params: Params,
    a: Seq<Answer>,
    p: nat,
) -> Trace<Reply> {
    match params {
        Params::Missing => handle_draw_polyline_run(state, Parsed::Missing, a, p),
        Params::Invalid(text) => handle_draw_polyline_run(state, Parsed::Invalid(text), a, p),
        Params::DrawPolyline(v) => handle_draw_polyline_run(state, Parsed::Valid(v), a, p),
        _ => Run::fail(MspMcpErrorModel::JsonError(WRONG_PARAMS@), p),
    }
}

/// Serves `draw_polyline` with the parameters of a call.
pub fn call_draw_polyline(t: &mut Transcript, state: &PaintServerState, params: Params) -> (r: Outcome<Reply>)
    ensures
        replayed(
            *old(t),
            *final(t),
            r,
            call_draw_polyline_run(*state, params, old(t).answers@, old(t).pos as nat),
        ),
{
    handle_draw_polyline(t, state, params.draw_polyline())
}

/// `add_text` with the parameters of a call: those of another method are an
/// error of the reader.
pub open spec fn call_add_text_run(
    state: PaintServerState,
    params: Params,
    a: Seq<Answer>,
    p: nat,
) -> Trace<Reply> {
    match params {
        Params::Missing => handle_add_text_run(state, Parsed::Missing, a, p),
        Params::Invalid(text) => handle_add_text_run(state, Parsed::Invalid(text), a, p),
        Params::AddText(v) => handle_add_text_run(state, Parsed::Valid(v), a, p),
        _ => Run::fail(MspMcpErrorModel::JsonError(WRONG_PARAMS@), p),
    }
}

/// Serves `add_text` with the parameters of a call.
pub fn call_add_text(t: &mut Transcript, state: &PaintServerState, params: Params) -> (r: Outcome<Reply>)
    ensures
        replayed(
            *old(t),
            *final(t),
            r,
            call_add_text_run(*state, params, old(t).answers@, old(t).pos as nat),
        ),
{
    handle_add_text(t, state, params.add_text())
}

/// `select_region` with the parameters of a call: those of another method are an
/// error of the reader.
pub open spec fn call_select_region_run(
    state: PaintServerState,
    params: Params,
    a: Seq<Answer>,
    p: nat,
) -> Trace<Reply> {
    match params {
        Params::Missing => handle_select_region_run(state, Parsed::Missing, a, p),
        Params::Invalid(text) => handle_select_region_run(state, Parsed::Invalid(text), a, p),
        Params::DrawLine(v) => handle_select_region_run(state, Parsed::Valid(v), a, p),
        _ => Run::fail(MspMcpErrorModel::JsonError(WRONG_PARAMS@), p),
    }
}

/// Serves `select_region` with the parameters of a call.
pub fn call_select_region(t: &mut Transcript, state: &PaintServerState, params: Params) -> (r: Outcome<Reply>)
    ensures
        replayed(
            *old(t),
            *final(t),
            r,
            call_select_region_run(*state, params, old(t).answers@, old(t).pos as nat),
        ),
{
    handle_select_region(t, state, params.draw_line())
}

/// `paste` with the parameters of a call: those of another method are an
/// error of the reader.
pub open spec fn call_paste_run(
    state: PaintServerState,
    params: Params,
    a: Seq<Answer>,
    p: nat,
) -> Trace<Reply> {
    match params {
        Params::Missing => handle_paste_run(state, Parsed::Missing, a, p),
        Params::Invalid(text) => handle_paste_run(state, Parsed::Invalid(text), a, p),
        Params::DrawPixel(v) => handle_paste_run(state, Parsed::Valid(v), a, p),
        _ => Run::fail(MspMcpErrorModel::JsonError(WRONG_PARAMS@), p),
    }
}

/// Serves `paste` with the parameters of a call.
pub fn call_paste(t: &mut Transcript, state: &PaintServerState, params: Params) -> (r: Outcome<Reply>)
    ensures
        replayed(
            *old(t),
            *final(t),
            r,
            call_paste_run(*state, params, old(t).answers@, old(t).pos as nat),
        ),
{
    handle_paste(t, state, params.draw_pixel())
}

/// `create_canvas` with the parameters of a call: those of another method are an
/// error of the reader.
pub open spec fn call_create_canvas_run(
    state: PaintServerState,
    params: Params,
    a: Seq<Answer>,
    p: nat,
) -> Trace<Reply> {
    match params {
        Params::Missing => handle_create_canvas_run(state, Parsed::Missing, a, p),
        Params::Invalid(text) => handle_create_canvas_run(state, Parsed::Invalid(text), a, p),
        Params::CreateCanvas(v) => handle_create_canvas_run(state, Parsed::Valid(v), a, p),
        _ => Run::fail(MspMcpErrorModel::JsonError(WRONG_PARAMS@), p),
    }
}

/// Serves `create_canvas` with the parameters of a call.
pub fn call_create_canvas(t: &mut Transcript, state: &PaintServerState, params: Params) -> (r: Outcome<Reply>)
    ensures
        replayed(
            *old(t),
            *final(t),
            r,
            call_create_canvas_run(*state, params, old(t).answers@, old(t).pos as nat),
        ),
{
    handle_create_canvas(t, state, params.create_canvas())
}

/// `select_tool` with the parameters of a call: those of another method are an
/// error of the reader.
pub open spec fn call_select_tool_run(
    state: PaintServerState,
    params: Params,
    a: Seq<Answer>,
    p: nat,
) -> Trace<Reply> {
    match params {
        Params::Missing => handle_select_tool_run(state, Parsed::Missing, a, p),
        Params::Invalid(text) => handle_select_tool_run(state, Parsed::Invalid(text), a, p),
        Params::SelectTool(v) => handle_select_tool_run(state, Parsed::Valid(v), a, p),
        _ => Run::fail(MspMcpErrorModel::JsonError(WRONG_PARAMS@), p),
    }
}

/// Serves `select_tool` with the parameters of a call.
pub fn call_select_tool(t: &mut Transcript, state: &PaintServerState, params: Params) -> (r: Outcome<Reply>)
    ensures
        replayed(
            *old(t),
            *final(t),
            r,
            call_select_tool_run(*state, params, old(t).answers@, old(t).pos as nat),
        ),
{
    handle_select_tool(t, state, params.select_tool())
}

/// `set_color` with the parameters of a call: those of another method are an
/// error of the reader.
pub open spec fn call_set_color_run(
    state: PaintServerState,
    params: Params,
    a: Seq<Answer>,
    p: nat,
) -> Trace<Reply> {
    match params {
        Params::Missing => handle_set_color_run(state, Parsed::Missing, a, p),
        Params::Invalid(text) => handle_set_color_run(state, Parsed::Invalid(text), a, p),
        Params::SetColor(v) => handle_set_color_run(state, Parsed::Valid(v), a, p),
        _ => Run::fail(MspMcpErrorModel::JsonError(WRONG_PARAMS@), p),
    }
}

/// Serves `set_color` with the parameters of a call.
pub fn call_set_color(t: &mut Transcript, state: &PaintServerState, params: Params) -> (r: Outcome<Reply>)
    ensures
        replayed(
            *old(t),
            *final(t),
            r,
            call_set_color_run(*state, params, old(t).answers@, old(t).pos as nat),
        ),
{
    handle_set_color(t, state, params.set_color())
}

/// `set_thickness` with the parameters of a call: those of another method are an
/// error of the reader.
pub open spec fn call_set_thickness_run(
    state: PaintServerState,
    params: Params,
    a: Seq<Answer>,
    p: nat,
) -> Trace<Reply> {
    match params {
        Params::Missing => handle_set_thickness_run(state, Parsed::Missing, a, p),
        Params::Invalid(text) => handle_set_thickness_run(state, Parsed::Invalid(text), a, p),
        Params::SetThickness(v) => handle_set_thickness_run(state, Parsed::Valid(v), a, p),
        _ => Run::fail(MspMcpErrorModel::JsonError(WRONG_PARAMS@), p),
    }
}

/// Serves `set_thickness` with the parameters of a call.
pub fn call_set_thickness(t: &mut Transcript, state: &PaintServerState, params: Params) -> (r: Outcome<Reply>)
    ensures
        replayed(
            *old(t),
            *final(t),
            r,
            call_set_thickness_run(*state, params, old(t).answers@, old(t).pos as nat),
        ),
{
    handle_set_thickness(t, state, params.set_thickness())
}

/// `set_brush_size` with the parameters of a call: those of another method are an
/// error of the reader.
pub open spec fn call_set_brush_size_run(
    state: PaintServerState,
    params: Params,
    a: Seq<Answer>,
    p: nat,
) -> Trace<Reply> {
    match params {
        Params::Missing => handle_set_brush_size_run(state, Parsed::Missing, a, p),
        Params::Invalid(text) => handle_set_brush_size_run(state, Parsed::Invalid(text), a, p),
        Params::SetBrushSize(v) => handle_set_brush_size_run(state, Parsed::Valid(v), a, p),
        _ => Run::fail(MspMcpErrorModel::JsonError(WRONG_PARAMS@), p),
    }
}

/// Serves `set_brush_size` with the parameters of a call.
pub fn call_set_brush_size(t: &mut Transcript, state: &PaintServerState, params: Params) -> (r: Outcome<Reply>)
    ensures
        replayed(
            *old(t),
            *final(t),
            r,
            call_set_brush_size_run(*state, params, old(t).answers@, old(t).pos as nat),
        ),
{
    handle_set_brush_size(t, state, params.set_brush_size())
}

/// `set_fill` with the parameters of a call: those of another method are an
/// error of the reader.
pub open spec fn call_set_fill_run(
    state: PaintServerState,
    params: Params,
    a: Seq<Answer>,
    p: nat,
) -> Trace<Reply> {
    match params {
        Params::Missing => handle_set_fill_run(state, Parsed::Missing, a, p),
        Params::Invalid(text) => handle_set_fill_run(state, Parsed::Invalid(text), a, p),
        Params::SetFill(v) => handle_set_fill_run(state, Parsed::Valid(v), a, p),
        _ => Run::fail(MspMcpErrorModel::JsonError(WRONG_PARAMS@), p),
    }
}

/// Serves `set_fill` with the parameters of a call.
pub fn call_set_fill(t: &mut Transcript, state: &PaintServerState, params: Params) -> (r: Outcome<Reply>)
    ensures
        replayed(
            *old(t),
            *final(t),
            r,
            call_set_fill_run(*state, params, old(t).answers@, old(t).pos as nat),
        ),
{
    handle_set_fill(t, state, params.set_fill())
}

/// What a handler comes to when it is called with a state and the
/// parameters of a call: each handler reads the parameters as its own.
pub open spec fn served_run(
    handler: MethodHandler,
    state: PaintServerState,
    params: Params,
    a: Seq<Answer>,
    p: nat,
) -> Trace<Reply> {
    match handler {
        MethodHandler::Initialize => handle_initialize_run(a, p),
        MethodHandler::Connect => call_connect_run(state, params, a, p),
        MethodHandler::ActivateWindow => handle_activate_window_run(state, a, p),
        MethodHandler::GetCanvasDimensions => handle_get_canvas_dimensions_run(state, a, p),
        MethodHandler::Disconnect => Run::value(Reply::Success, p),
        MethodHandler::GetVersion => Run::value(Reply::Version, p),
        MethodHandler::DrawPixel => call_draw_pixel_run(state, params, a, p),
        MethodHandler::DrawLine => call_draw_line_run(state, params, a, p),
        MethodHandler::DrawShape => call_draw_shape_run(state, params, a, p),
        MethodHandler::DrawPolyline => call_draw_polyline_run(state, params, a, p),
        MethodHandler::AddText => call_add_text_run(state, params, a, p),
        MethodHandler::SelectRegion => call_select_region_run(state, params, a, p),
        MethodHandler::CopySelection => handle_copy_selection_run(state, a, p),
        MethodHandler::Paste => call_paste_run(state, params, a, p),
        MethodHandler::ClearCanvas => handle_clear_canvas_run(state, a, p),
        MethodHandler::CreateCanvas => call_create_canvas_run(state, params, a, p),
        MethodHandler::SelectTool => call_select_tool_run(state, params, a, p),
        MethodHandler::SetColor => call_set_color_run(state, params, a, p),
        MethodHandler::SetThickness => call_set_thickness_run(state, params, a, p),
        MethodHandler::SetBrushSize => call_set_brush_size_run(state, params, a, p),
        MethodHandler::SetFill => call_set_fill_run(state, params, a, p),
    }
}

/// The window that the state remembers after a handler was called:
/// `initialize` remembers the window that it found, `disconnect` forgets the
/// window, and no other handler touches the state.
pub open spec fn served_window(
    handler: MethodHandler,
    before: Option<isize>,
    a: Seq<Answer>,
    p: nat,
) -> Option<isize> {
    match handler {
        MethodHandler::Initialize => initialized_window(before, a, p),
        MethodHandler::Disconnect => None,
        _ => before,
    }
}

/// Calls a handler with the state and the parameters of a call.
pub fn serve(
    handler: MethodHandler,
    t: &mut Transcript,
    state: &mut PaintServerState,
    params: Params,
) -> (r: Outcome<Reply>)
    ensures
        replayed(
            *old(t),
            *final(t),
            r,
            served_run(handler, *old(state), params, old(t).answers@, old(t).pos as nat),
        ),
        final(state).window() == served_window(
            handler,
            old(state).window(),
            old(t).answers@,
            old(t).pos as nat,
        ),
{
    match handler {
        MethodHandler::Initialize => handle_initialize(t, state),
        MethodHandler::Connect => call_connect(t, state, params),
        MethodHandler::ActivateWindow => handle_activate_window(t, state),
        MethodHandler::GetCanvasDimensions => handle_get_canvas_dimensions(t, state),
        MethodHandler::Disconnect => lift(handle_disconnect(state)),
        MethodHandler::GetVersion => lift(handle_get_version(state)),
        MethodHandler::DrawPixel => call_draw_pixel(t, state, params),
        MethodHandler::DrawLine => call_draw_line(t, state, params),
        MethodHandler::DrawShape => call_draw_shape(t, state, params),
        MethodHandler::DrawPolyline => call_draw_polyline(t, state, params),
        MethodHandler::AddText => call_add_text(t, state, params),
        MethodHandler::SelectRegion => call_select_region(t, state, params),
        MethodHandler::CopySelection => handle_copy_selection(t, state),
        MethodHandler::Paste => call_paste(t, state, params),
        MethodHandler::ClearCanvas => handle_clear_canvas(t, state),
        MethodHandler::CreateCanvas => call_create_canvas(t, state, params),
        MethodHandler::SelectTool => call_select_tool(t, state, params),
        MethodHandler::SetColor => call_set_color(t, state, params),
        MethodHandler::SetThickness => call_set_thickness(t, state, params),
        MethodHandler::SetBrushSize => call_set_brush_size(t, state, params),
        MethodHandler::SetFill => call_set_fill(t, state, params),
    }
}

} // verus!
