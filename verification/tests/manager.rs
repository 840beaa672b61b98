use mcp_server_microsoft_paint::desktop::{
    Action, Answer, Fault, Halt, Input, KeyInput, MenuItem, MouseInput, Position, Rect,
    Transcript, WindowInfo,
};
use mcp_server_microsoft_paint::paint_integration::{
    activate_window, cell_position, component, detail_level, enum_windows_callback,
    find_paint_window, first_paint_window, flip, format_by_name, format_of, names_save_format,
    palette_index, place_of_tool, rotation, to_ascii_upper, toolbar_position, PaintError,
    PaintManager,
};

type PaintOutcome<T> = Result<T, Halt<PaintError>>;

fn drive_manager<T>(
    mut operation: impl FnMut(&mut Transcript) -> PaintOutcome<T>,
    mut desk: impl FnMut(&Action) -> Answer,
) -> (PaintOutcome<T>, Vec<Action>) {
    let mut answers: Vec<Answer> = Vec::new();
    let mut actions: Vec<Action> = Vec::new();
    loop {
        let outcome = {
            let mut t = Transcript::new(&answers);
            operation(&mut t)
        };
        match outcome {
            Err(Halt::Pending(action)) => {
                answers.push(desk(&action));
                actions.push(action);
                assert!(actions.len() < 10_000, "the operation does not end");
            }
            other => return (other, actions),
        }
    }
}

fn tiny_png() -> Vec<u8> {
    let mut picture = image::RgbImage::new(2, 1);
    picture.put_pixel(0, 0, image::Rgb([255, 0, 0]));
    picture.put_pixel(1, 0, image::Rgb([0, 0, 255]));
    let mut bytes = Vec::new();
    image::DynamicImage::ImageRgb8(picture)
        .write_to(&mut std::io::Cursor::new(&mut bytes), image::ImageFormat::Png)
        .expect("a png");
    bytes
}

fn in_base64(bytes: &[u8]) -> String {
    base64::Engine::encode(&base64::engine::general_purpose::STANDARD, bytes)
}

/// A desktop of 1920 by 1080 with the Paint window 70 at (100, 50), 1000 by
/// 800, in the foreground.
fn paint_desk(action: &Action) -> Answer {
    match action {
        Action::Sleep { .. } => Answer::Done,
        Action::FindWindowByClass => Answer::Handle(70),
        Action::IsIconic { .. } => Answer::Flag(false),
        Action::SetForegroundWindow { .. } => Answer::Flag(true),
        Action::ForegroundWindow => Answer::Handle(70),
        Action::ShowWindow { .. } => Answer::Flag(true),
        Action::WindowRect { .. } => {
            Answer::Rect(Rect { left: 100, top: 50, right: 1100, bottom: 850 })
        }
        Action::ClientToScreen { x, y, .. } => Answer::Position(Position { x: x + 8, y: y + 31 }),
        Action::ScreenWidth => Answer::Number(1920),
        Action::ScreenHeight => Answer::Number(1080),
        Action::Send1(_) => Answer::Count(1),
        Action::Send2(_, _) => Answer::Count(2),
        Action::Send4(_, _, _, _) => Answer::Count(4),
        Action::AnnounceMenu(_) | Action::AnnounceCharacter(_) => Answer::Done,
        Action::FileExists => Answer::Flag(true),
        Action::ReadFile => Answer::Bytes(tiny_png()),
        Action::WriteTemporaryImage => Answer::Flag(true),
        Action::RemoveTemporaryImage => Answer::Done,
        Action::SampleRate { .. } => Answer::Count(0),
        Action::Scale { origin, index, extent, span } => Answer::Number(
            (*origin as f32 + (*index as f32 / *extent as f32) * *span as f32) as i32,
        ),
        other => panic!("unexpected action {:?}", other),
    }
}

fn connected() -> PaintManager {
    let answers =
        vec![Answer::Handle(70), Answer::Flag(false), Answer::Flag(true), Answer::Handle(70)];
    let mut t = Transcript::new(&answers);
    let mut manager = PaintManager::new();
    assert_eq!(manager.connect(&mut t).ok(), Some(70));
    manager
}

fn error_of<T: std::fmt::Debug>(outcome: PaintOutcome<T>) -> String {
    match outcome {
        Err(Halt::Failed(e)) => e.to_string(),
        other => panic!("not a failure: {:?}", other.map_err(|_| "a halt")),
    }
}

fn wait(millis: u64) -> Action {
    Action::Sleep { millis }
}

fn activated() -> Vec<Action> {
    vec![
        Action::IsIconic { hwnd: 70 },
        Action::SetForegroundWindow { hwnd: 70 },
        Action::ForegroundWindow,
    ]
}

fn clicked(x: i32, y: i32) -> Vec<Action> {
    let dx = x * 65535 / 1920;
    let dy = y * 65535 / 1080;
    vec![
        Action::ScreenWidth,
        Action::ScreenHeight,
        Action::Send2(
            Input::Mouse(MouseInput { dx, dy, flags: 0x8002 }),
            Input::Mouse(MouseInput { dx, dy, flags: 0x8004 }),
        ),
        wait(50),
    ]
}

fn tool_clicked(x: i32) -> Vec<Action> {
    let mut actions = activated();
    actions.push(Action::WindowRect { hwnd: 70 });
    actions.push(Action::Send2(
        Input::Mouse(MouseInput { dx: x, dy: 100, flags: 0x8002 }),
        Input::Mouse(MouseInput { dx: x, dy: 100, flags: 0x8004 }),
    ));
    actions.push(wait(100));
    actions
}

fn color_set(cell_x: i32, cell_y: i32) -> Vec<Action> {
    let mut actions = activated();
    actions.push(Action::WindowRect { hwnd: 70 });
    actions.extend(clicked(400, 100));
    actions.push(wait(200));
    actions.extend(clicked(cell_x, cell_y));
    actions.push(wait(100));
    actions
}

fn thickness_set(level: i32) -> Vec<Action> {
    let mut actions = vec![Action::WindowRect { hwnd: 70 }];
    actions.extend(clicked(950, 170));
    actions.push(wait(200));
    actions.extend(clicked(950, 210 + (level - 1) * 30));
    actions.push(wait(100));
    actions
}

fn mouse_event(x: i32, y: i32, flags: u32) -> Vec<Action> {
    vec![
        Action::ClientToScreen { hwnd: 70, x, y },
        Action::ScreenWidth,
        Action::ScreenHeight,
        Action::Send1(Input::Mouse(MouseInput {
            dx: (x + 8) * 65535 / 1920,
            dy: (y + 31) * 65535 / 1080,
            flags: flags | 0x8000,
        })),
        wait(10),
    ]
}

fn line_dragged(from: (i32, i32), to: (i32, i32)) -> Vec<Action> {
    let mut actions = activated();
    actions.extend(mouse_event(from.0, from.1, 2));
    actions.extend(mouse_event(to.0, to.1, 1));
    actions.extend(mouse_event(to.0, to.1, 4));
    actions
}

#[test]
fn a_new_manager_is_disconnected() {
    let manager = PaintManager::new();
    let status = manager.get_status();
    assert_eq!(status.status, "disconnected");
    assert_eq!(status.paint_window_handle, "0x0");
    assert_eq!(status.version, "1.0.0");
    assert!(matches!(manager.get_window_handle(), Err(PaintError::WindowNotFound)));
}

#[test]
fn a_connected_manager_names_its_window() {
    let manager = connected();
    let status = manager.get_status();
    assert_eq!(status.status, "connected");
    assert_eq!(status.paint_window_handle, "HWND(70)");
    assert_eq!(status.version, "1.0.0");
    assert_eq!(manager.get_window_handle().ok(), Some(70));
}

#[test]
fn connect_finds_the_window_by_its_class() {
    let (outcome, actions) = drive_manager(
        |t| {
            let mut manager = PaintManager::new();
            manager.connect(t)
        },
        paint_desk,
    );
    assert_eq!(outcome.ok(), Some(70));
    let mut expected = vec![Action::FindWindowByClass];
    expected.extend(activated());
    assert_eq!(actions, expected);
}

fn listed(hwnd: isize, title: Option<&str>, visible: bool, top_level: bool) -> WindowInfo {
    WindowInfo { hwnd, visible, top_level, class_name: None, title: title.map(String::from) }
}

#[test]
fn a_paint_window_has_paint_in_its_title() {
    assert!(enum_windows_callback(&listed(1, Some("Untitled - Paint"), true, true)));
    assert!(!enum_windows_callback(&listed(1, Some("Untitled - paint"), true, true)));
    assert!(!enum_windows_callback(&listed(1, Some("Paint - Microsoft Edge"), true, true)));
    assert!(!enum_windows_callback(&listed(1, Some("Paint - Google Chrome"), true, true)));
    assert!(!enum_windows_callback(&listed(1, Some("Paint - Mozilla Firefox"), true, true)));
    assert!(!enum_windows_callback(&listed(1, Some("Untitled - Paint"), false, true)));
    assert!(!enum_windows_callback(&listed(1, Some("Untitled - Paint"), true, false)));
    assert!(!enum_windows_callback(&listed(1, None, true, true)));
    let windows = vec![
        listed(1, Some("Paint tips - Chrome"), true, true),
        listed(2, Some("a - Paint"), true, true),
        listed(3, Some("b - Paint"), true, true),
    ];
    assert_eq!(first_paint_window(&windows), Some(2));
    assert_eq!(first_paint_window(&Vec::new()), None);
}

#[test]
fn find_paint_window_lists_where_no_class_matches() {
    let (outcome, actions) = drive_manager(
        |t| find_paint_window(t),
        |action| match action {
            Action::FindWindowByClass => Answer::Handle(0),
            Action::ListWindows => {
                Answer::Windows(vec![listed(3, Some("x - Paint"), true, true)])
            }
            other => panic!("{:?}", other),
        },
    );
    assert_eq!(outcome.ok(), Some(Some(3)));
    assert_eq!(actions, vec![Action::FindWindowByClass, Action::ListWindows]);
}

#[test]
fn connect_launches_paint_where_none_runs() {
    let mut created = false;
    let (outcome, actions) = drive_manager(
        |t| {
            let mut manager = PaintManager::new();
            let r = manager.connect(t);
            if r.is_ok() {
                assert_eq!(manager.get_window_handle().ok(), Some(70));
            }
            r
        },
        |action| match action {
            Action::FindWindowByClass => Answer::Handle(if created { 70 } else { 0 }),
            Action::ListWindows => Answer::Windows(Vec::new()),
            Action::CreatePaintProcess => {
                created = true;
                Answer::Flag(true)
            }
            Action::WaitForPaintIdle { .. } | Action::ClosePaintProcess => Answer::Done,
            other => paint_desk(other),
        },
    );
    assert_eq!(outcome.ok(), Some(70));
    assert_eq!(
        &actions[..6],
        &[
            Action::FindWindowByClass,
            Action::ListWindows,
            Action::CreatePaintProcess,
            Action::WaitForPaintIdle { millis: 5000 },
            Action::ClosePaintProcess,
            Action::FindWindowByClass,
        ]
    );
    assert_eq!(&actions[6..], &activated()[..]);
}

#[test]
fn connect_fails_where_paint_cannot_be_launched() {
    let (outcome, actions) = drive_manager(
        |t| {
            let mut manager = PaintManager::new();
            let r = manager.connect(t);
            assert!(manager.get_window_handle().is_err());
            r
        },
        |action| match action {
            Action::FindWindowByClass => Answer::Handle(0),
            Action::ListWindows => Answer::Windows(Vec::new()),
            Action::CreatePaintProcess => Answer::Flag(false),
            other => paint_desk(other),
        },
    );
    assert_eq!(error_of(outcome), "Microsoft Paint window not found");
    assert_eq!(actions.len(), 3);
}

#[test]
fn connect_keeps_the_window_though_it_cannot_be_activated() {
    let answers = vec![
        Answer::Handle(70),
        Answer::Flag(false),
        Answer::Flag(true),
        Answer::Handle(1),
        Answer::Done,
        Answer::Done,
        Answer::Handle(1),
        Answer::Done,
        Answer::Done,
        Answer::Handle(1),
        Answer::Done,
        Answer::Done,
        Answer::Handle(1),
        Answer::Done,
        Answer::Done,
        Answer::Handle(1),
        Answer::Done,
        Answer::Done,
    ];
    let mut t = Transcript::new(&answers);
    let mut manager = PaintManager::new();
    let outcome = manager.connect(&mut t);
    assert_eq!(error_of(outcome), "Microsoft Paint window not found");
    assert_eq!(t.pos, answers.len());
    assert_eq!(manager.get_window_handle().ok(), Some(70));
}

#[test]
fn activation_restores_a_minimised_window() {
    let (outcome, actions) = drive_manager(
        |t| activate_window(t, 70),
        |action| match action {
            Action::IsIconic { .. } => Answer::Flag(true),
            other => paint_desk(other),
        },
    );
    assert!(outcome.is_ok());
    assert_eq!(
        actions,
        vec![
            Action::IsIconic { hwnd: 70 },
            Action::ShowWindow { hwnd: 70, command: 9 },
            Action::SetForegroundWindow { hwnd: 70 },
            Action::ForegroundWindow,
        ]
    );
}

#[test]
fn activation_taps_alt_where_the_foreground_is_refused() {
    let mut asked = 0;
    let (outcome, actions) = drive_manager(
        |t| activate_window(t, 70),
        |action| match action {
            Action::SetForegroundWindow { .. } => Answer::Flag(false),
            Action::ForegroundWindow => {
                asked += 1;
                Answer::Handle(if asked >= 3 { 70 } else { 5 })
            }
            other => paint_desk(other),
        },
    );
    assert!(outcome.is_ok());
    let alt = Action::Send2(
        Input::Key(KeyInput { vk: 0x12, scan: 0, flags: 0 }),
        Input::Key(KeyInput { vk: 0x12, scan: 0, flags: 2 }),
    );
    assert_eq!(
        actions,
        vec![
            Action::IsIconic { hwnd: 70 },
            Action::SetForegroundWindow { hwnd: 70 },
            Action::ForegroundWindow,
            alt,
            Action::SetForegroundWindow { hwnd: 70 },
            Action::ForegroundWindow,
            wait(100),
            Action::SetForegroundWindow { hwnd: 70 },
            Action::ForegroundWindow,
        ]
    );
}

#[test]
fn activation_gives_up_after_five_checks() {
    let (outcome, actions) = drive_manager(
        |t| activate_window(t, 70),
        |action| match action {
            Action::ForegroundWindow => Answer::Handle(5),
            other => paint_desk(other),
        },
    );
    assert_eq!(error_of(outcome), "Microsoft Paint window not found");
    assert_eq!(actions.len(), 2 + 5 * 3);
    assert_eq!(actions.iter().filter(|a| **a == wait(100)).count(), 5);
}

#[test]
fn a_click_is_scaled_to_the_screen() {
    let (outcome, actions) =
        drive_manager(|t| connected().simulate_click(t, 400, 100), paint_desk);
    assert!(outcome.is_ok());
    assert_eq!(actions, clicked(400, 100));
    assert_eq!(
        actions[2],
        Action::Send2(
            Input::Mouse(MouseInput { dx: 13653, dy: 6068, flags: 0x8002 }),
            Input::Mouse(MouseInput { dx: 13653, dy: 6068, flags: 0x8004 }),
        )
    );
    let (outcome, _) = drive_manager(
        |t| connected().simulate_click(t, 400, 100),
        |action| match action {
            Action::Send2(_, _) => Answer::Count(1),
            other => paint_desk(other),
        },
    );
    assert_eq!(error_of(outcome), "Drawing operation failed");
    let (outcome, _) = drive_manager(
        |t| connected().simulate_click(t, 400, 100),
        |action| match action {
            Action::ScreenHeight => Answer::Number(0),
            other => paint_desk(other),
        },
    );
    assert!(matches!(outcome, Err(Halt::Fault(Fault::DivisionByZero))));
}

#[test]
fn a_mouse_event_keeps_the_point_where_it_cannot_be_converted() {
    let (outcome, actions) =
        drive_manager(|t| connected().simulate_mouse_event(t, 70, 115, 150, 2), paint_desk);
    assert!(outcome.is_ok());
    assert_eq!(actions, mouse_event(115, 150, 2));
    assert_eq!(
        actions[3],
        Action::Send1(Input::Mouse(MouseInput { dx: 4198, dy: 10983, flags: 0x8002 }))
    );
    let (outcome, actions) = drive_manager(
        |t| connected().simulate_mouse_event(t, 70, 960, 540, 1),
        |action| match action {
            Action::ClientToScreen { .. } => Answer::Done,
            other => paint_desk(other),
        },
    );
    assert!(outcome.is_ok());
    assert_eq!(
        actions[3],
        Action::Send1(Input::Mouse(MouseInput { dx: 32767, dy: 32767, flags: 0x8001 }))
    );
    let (outcome, _) = drive_manager(
        |t| connected().simulate_mouse_event(t, 70, 960, 540, 1),
        |action| match action {
            Action::Send1(_) => Answer::Count(0),
            other => paint_desk(other),
        },
    );
    assert_eq!(error_of(outcome), "Drawing operation failed");
}

#[test]
fn the_canvas_lies_inside_the_window() {
    let (outcome, actions) = drive_manager(|t| connected().get_canvas_rect(t, 70), paint_desk);
    assert_eq!(outcome.ok(), Some(Rect { left: 115, top: 150, right: 1085, bottom: 835 }));
    assert_eq!(actions, vec![Action::WindowRect { hwnd: 70 }]);
    let (outcome, _) = drive_manager(|t| connected().get_canvas_rect(t, 70), |_| Answer::Done);
    assert_eq!(error_of(outcome), "Failed to get canvas position");
    let (outcome, _) = drive_manager(
        |t| connected().get_canvas_rect(t, 70),
        |_| Answer::Rect(Rect { left: i32::MAX - 14, top: 0, right: 0, bottom: 0 }),
    );
    assert!(matches!(outcome, Err(Halt::Fault(Fault::Overflow))));
}

#[test]
fn tools_have_places_in_the_toolbar() {
    assert_eq!(place_of_tool("pencil"), Some((1, 1)));
    assert_eq!(place_of_tool("brush"), Some((1, 2)));
    assert_eq!(place_of_tool("fill"), Some((1, 6)));
    assert_eq!(place_of_tool("text"), Some((2, 1)));
    assert_eq!(place_of_tool("eraser"), Some((1, 3)));
    assert_eq!(place_of_tool("select"), Some((3, 1)));
    assert_eq!(place_of_tool("shape"), Some((2, 2)));
    assert_eq!(place_of_tool("Pencil"), None);
    assert_eq!(toolbar_position::<PaintError>(100, 0, 1, 1).ok(), Some(210));
    assert_eq!(toolbar_position::<PaintError>(100, 2, 3, 6).ok(), Some(630));
    assert_eq!(toolbar_position::<PaintError>(0, -1, -1, -1).ok(), Some(-130));
    assert!(matches!(
        toolbar_position::<PaintError>(0, 40_000_000, 0, 0),
        Err(Halt::Fault(Fault::Overflow))
    ));
    assert!(matches!(
        toolbar_position::<PaintError>(i32::MAX - 19, 0, 0, 0),
        Err(Halt::Fault(Fault::Overflow))
    ));
}

#[test]
fn select_tool_clicks_in_the_toolbar() {
    let (outcome, actions) = drive_manager(|t| connected().select_tool(t, "pencil"), paint_desk);
    assert!(outcome.is_ok());
    assert_eq!(actions, tool_clicked(210));
    let (_, actions) = drive_manager(|t| connected().select_tool(t, "fill"), paint_desk);
    assert_eq!(actions, tool_clicked(410));
    let (_, actions) = drive_manager(|t| connected().select_modern_tool(t, 1, 1, 1), paint_desk);
    assert_eq!(actions, tool_clicked(270));
}

#[test]
fn select_tool_refuses_what_it_does_not_know() {
    let (outcome, actions) = drive_manager(|t| connected().select_tool(t, "Pencil"), paint_desk);
    assert_eq!(error_of(outcome), "Invalid parameter: Unknown tool: Pencil");
    assert!(actions.is_empty());
    let (outcome, actions) =
        drive_manager(|t| PaintManager::new().select_tool(t, "pencil"), paint_desk);
    assert_eq!(error_of(outcome), "Microsoft Paint window not found");
    assert!(actions.is_empty());
}

#[test]
fn select_tool_fails_where_the_click_is_not_injected() {
    let (outcome, _) = drive_manager(
        |t| connected().select_tool(t, "pencil"),
        |action| match action {
            Action::Send2(_, _) => Answer::Count(0),
            other => paint_desk(other),
        },
    );
    assert_eq!(error_of(outcome), "Tool selection failed");
    let (outcome, _) = drive_manager(
        |t| connected().select_tool(t, "pencil"),
        |action| match action {
            Action::WindowRect { .. } => Answer::Done,
            other => paint_desk(other),
        },
    );
    assert_eq!(error_of(outcome), "Tool selection failed");
}

#[test]
fn components_of_a_color() {
    let chars: Vec<char> = "#FF0a+9".chars().collect();
    assert_eq!(component(&chars, 1, "red").ok(), Some(255));
    assert_eq!(component(&chars, 3, "green").ok(), Some(10));
    assert_eq!(component(&chars, 5, "blue").ok(), Some(9));
    let chars: Vec<char> = "#GG-1 1".chars().collect();
    assert_eq!(error_of(component(&chars, 1, "Invalid red component")), "Invalid parameter: Invalid red component");
    assert_eq!(error_of(component(&chars, 3, "g")), "Invalid parameter: g");
    assert_eq!(error_of(component(&chars, 5, "b")), "Invalid parameter: b");
    let chars: Vec<char> = "#1é234".chars().collect();
    assert!(matches!(component(&chars, 1, "r"), Err(Halt::Fault(Fault::Slice))));
    let chars: Vec<char> = "#é1234".chars().collect();
    assert_eq!(error_of(component(&chars, 1, "r")), "Invalid parameter: r");
    assert_eq!(component(&chars, 3, "g").ok(), Some(0x12));
}

#[test]
fn colors_have_cells() {
    assert_eq!(palette_index(255, 0, 0), 1);
    assert_eq!(palette_index(0, 255, 0), 2);
    assert_eq!(palette_index(0, 0, 255), 3);
    assert_eq!(palette_index(255, 255, 0), 4);
    assert_eq!(palette_index(255, 0, 255), 5);
    assert_eq!(palette_index(0, 255, 255), 6);
    assert_eq!(palette_index(255, 255, 255), 7);
    assert_eq!(palette_index(0, 0, 0), 0);
    assert_eq!(palette_index(128, 128, 128), 0);
    assert_eq!(palette_index(201, 99, 99), 1);
    assert_eq!(palette_index(200, 99, 99), 0);
    assert_eq!(palette_index(201, 100, 99), 0);
    assert_eq!(cell_position::<PaintError>(400, 100, 0).ok(), Some((372, 150)));
    assert_eq!(cell_position::<PaintError>(400, 100, 1).ok(), Some((417, 150)));
    assert_eq!(cell_position::<PaintError>(400, 100, 3).ok(), Some((507, 150)));
    assert_eq!(cell_position::<PaintError>(400, 100, 4).ok(), Some((372, 190)));
    assert_eq!(cell_position::<PaintError>(400, 100, 7).ok(), Some((507, 190)));
    assert!(matches!(
        cell_position::<PaintError>(i32::MIN + 49, 0, 0),
        Err(Halt::Fault(Fault::Overflow))
    ));
}

#[test]
fn set_color_clicks_the_button_and_the_cell() {
    let (outcome, actions) = drive_manager(|t| connected().set_color(t, "#FF0000"), paint_desk);
    assert!(outcome.is_ok());
    assert_eq!(actions, color_set(417, 150));
    assert_eq!(
        actions[11],
        Action::Send2(
            Input::Mouse(MouseInput { dx: 14233, dy: 9102, flags: 0x8002 }),
            Input::Mouse(MouseInput { dx: 14233, dy: 9102, flags: 0x8004 }),
        )
    );
    let (_, actions) = drive_manager(|t| connected().set_color(t, "#ffffff"), paint_desk);
    assert_eq!(actions, color_set(507, 190));
    let (_, actions) = drive_manager(|t| connected().set_color(t, "#808080"), paint_desk);
    assert_eq!(actions, color_set(372, 150));
}

#[test]
fn set_color_checks_the_color_before_the_window() {
    let manager = PaintManager::new;
    let (outcome, _) = drive_manager(|t| manager().set_color(t, "red"), paint_desk);
    assert_eq!(error_of(outcome), "Invalid parameter: Color must be in #RRGGBB format");
    let (outcome, _) = drive_manager(|t| manager().set_color(t, "#GG0000"), paint_desk);
    assert_eq!(error_of(outcome), "Invalid parameter: Invalid red component");
    let (outcome, _) = drive_manager(|t| manager().set_color(t, "#00GG00"), paint_desk);
    assert_eq!(error_of(outcome), "Invalid parameter: Invalid green component");
    let (outcome, _) = drive_manager(|t| manager().set_color(t, "#0000GG"), paint_desk);
    assert_eq!(error_of(outcome), "Invalid parameter: Invalid blue component");
    let (outcome, actions) = drive_manager(|t| manager().set_color(t, "#000000"), paint_desk);
    assert_eq!(error_of(outcome), "Microsoft Paint window not found");
    assert!(actions.is_empty());
    let (outcome, _) = drive_manager(|t| manager().set_color(t, "#1é234"), paint_desk);
    assert!(matches!(outcome, Err(Halt::Fault(Fault::Slice))));
    let (outcome, _) = drive_manager(
        |t| connected().set_color(t, "#000000"),
        |action| match action {
            Action::WindowRect { .. } => Answer::Done,
            other => paint_desk(other),
        },
    );
    assert_eq!(error_of(outcome), "Color selection failed");
}

#[test]
fn set_thickness_clicks_the_button_and_the_option() {
    for level in 1..=5 {
        let (outcome, actions) =
            drive_manager(|t| connected().set_thickness(t, level as u32), paint_desk);
        assert!(outcome.is_ok());
        assert_eq!(actions, thickness_set(level));
    }
    let (outcome, actions) = drive_manager(|t| connected().set_thickness(t, 0), paint_desk);
    assert_eq!(error_of(outcome), "Invalid parameter: Thickness must be between 1 and 5, got 0");
    assert!(actions.is_empty());
    let (outcome, _) = drive_manager(|t| connected().set_thickness(t, 4000000000), paint_desk);
    assert_eq!(
        error_of(outcome),
        "Invalid parameter: Thickness must be between 1 and 5, got 4000000000"
    );
    let (outcome, _) = drive_manager(|t| PaintManager::new().set_thickness(t, 1), paint_desk);
    assert_eq!(error_of(outcome), "Microsoft Paint window not found");
}

#[test]
fn a_shape_option_is_selected_by_four_clicks() {
    let (outcome, actions) =
        drive_manager(|t| connected().select_shape_option(t, 2, true), paint_desk);
    assert!(outcome.is_ok());
    let mut expected = vec![Action::WindowRect { hwnd: 70 }];
    expected.extend(tool_clicked(300));
    expected.push(wait(200));
    expected.extend(clicked(260, 150));
    expected.push(wait(200));
    expected.extend(clicked(1000, 200));
    expected.push(wait(200));
    expected.extend(clicked(1000, 240));
    expected.push(wait(100));
    assert_eq!(actions, expected);
    let (_, actions) = drive_manager(|t| connected().select_shape_option(t, 1, false), paint_desk);
    assert_eq!(&actions[8..12], &clicked(210, 150)[..]);
    assert_eq!(&actions[18..22], &clicked(1000, 280)[..]);
}

#[test]
fn draw_line_prepares_and_drags() {
    let (outcome, actions) =
        drive_manager(|t| connected().draw_line(t, 0, 0, 100, 50, "#FF0000", 3), paint_desk);
    assert!(outcome.is_ok());
    let mut expected = tool_clicked(210);
    expected.extend(color_set(417, 150));
    expected.extend(thickness_set(3));
    expected.push(Action::WindowRect { hwnd: 70 });
    expected.extend(line_dragged((115, 150), (215, 200)));
    assert_eq!(actions, expected);
    assert_eq!(actions.len(), 50);
}

#[test]
fn draw_line_needs_a_window() {
    let (outcome, actions) = drive_manager(
        |t| PaintManager::new().draw_line(t, 0, 0, 100, 50, "#FF0000", 3),
        paint_desk,
    );
    assert_eq!(error_of(outcome), "Microsoft Paint window not found");
    assert!(actions.is_empty());
}

#[test]
fn draw_rectangle_drags_to_the_far_corner() {
    let (outcome, actions) = drive_manager(
        |t| connected().draw_rectangle(t, 10, 20, 200, 100, true, "#0000FF", 1),
        paint_desk,
    );
    assert!(outcome.is_ok());
    let mut expected = tool_clicked(300);
    expected.push(Action::WindowRect { hwnd: 70 });
    expected.extend(tool_clicked(300));
    expected.push(wait(200));
    expected.extend(clicked(210, 150));
    expected.push(wait(200));
    expected.extend(clicked(1000, 200));
    expected.push(wait(200));
    expected.extend(clicked(1000, 240));
    expected.push(wait(100));
    expected.extend(color_set(507, 150));
    expected.extend(thickness_set(1));
    expected.push(Action::WindowRect { hwnd: 70 });
    expected.extend(line_dragged((125, 170), (325, 270)));
    assert_eq!(actions, expected);
}

#[test]
fn draw_rectangle_faults_where_the_corner_leaves_the_range() {
    let (outcome, _) = drive_manager(
        |t| connected().draw_rectangle(t, i32::MAX, 0, 1, 1, true, "#0000FF", 1),
        paint_desk,
    );
    assert!(matches!(outcome, Err(Halt::Fault(Fault::Overflow))));
}

#[test]
fn draw_circle_drags_across_the_circle() {
    let (outcome, actions) = drive_manager(
        |t| connected().draw_circle(t, 100, 100, 30, false, "#00FF00", 2),
        paint_desk,
    );
    assert!(outcome.is_ok());
    let drag = line_dragged((185, 220), (245, 280));
    assert_eq!(&actions[actions.len() - drag.len()..], &drag[..]);
    assert_eq!(&actions[7..13], &tool_clicked(300)[..]);
    assert_eq!(&actions[14..18], &clicked(260, 150)[..]);
    assert_eq!(&actions[24..28], &clicked(1000, 280)[..]);
}

#[test]
fn draw_pixel_clicks_on_the_canvas() {
    let (outcome, actions) =
        drive_manager(|t| connected().draw_pixel(t, 5, 6, Some("#00FFFF")), paint_desk);
    assert!(outcome.is_ok());
    let mut expected = activated();
    expected.extend(color_set(462, 190));
    expected.extend(tool_clicked(210));
    expected.extend(thickness_set(1));
    expected.push(Action::WindowRect { hwnd: 70 });
    expected.extend(clicked(120, 156));
    assert_eq!(actions, expected);
    let (outcome, actions) = drive_manager(|t| connected().draw_pixel(t, 5, 6, None), paint_desk);
    assert!(outcome.is_ok());
    assert_eq!(actions.len(), expected.len() - 14);
}

#[test]
fn set_brush_size_clicks_the_option_for_the_size() {
    for (size, offset) in [(1, 40), (4, 40), (5, 80), (12, 80), (13, 120), (30, 120)] {
        let (outcome, actions) =
            drive_manager(|t| connected().set_brush_size(t, size, None), paint_desk);
        assert!(outcome.is_ok());
        let mut expected = activated();
        expected.push(Action::WindowRect { hwnd: 70 });
        expected.extend(clicked(1000, 200));
        expected.push(wait(100));
        expected.extend(clicked(1000, 200 + offset));
        assert_eq!(actions, expected);
    }
}

#[test]
fn set_brush_size_checks_the_size_and_selects_the_tool() {
    let (outcome, actions) = drive_manager(|t| connected().set_brush_size(t, 0, None), paint_desk);
    assert_eq!(error_of(outcome), "Invalid parameter: Brush size must be between 1 and 30 pixels");
    assert!(actions.is_empty());
    let (outcome, _) = drive_manager(|t| connected().set_brush_size(t, 31, None), paint_desk);
    assert_eq!(error_of(outcome), "Invalid parameter: Brush size must be between 1 and 30 pixels");
    let (outcome, actions) =
        drive_manager(|t| connected().set_brush_size(t, 8, Some("brush")), paint_desk);
    assert!(outcome.is_ok());
    assert_eq!(&actions[3..9], &tool_clicked(250)[..]);
}

#[test]
fn set_brush_size_takes_a_window_without_rectangle_as_one_of_zeros() {
    let (outcome, actions) = drive_manager(
        |t| connected().set_brush_size(t, 8, None),
        |action| match action {
            Action::WindowRect { .. } => Answer::Done,
            other => paint_desk(other),
        },
    );
    assert!(outcome.is_ok());
    assert_eq!(&actions[4..8], &clicked(-100, 150)[..]);
    assert_eq!(&actions[9..13], &clicked(-100, 230)[..]);
}

#[test]
fn characters_have_scan_codes() {
    let code = PaintManager::map_char_to_scancode;
    assert_eq!(code('a'), 0x1E);
    assert_eq!(code('b'), 0x1F);
    assert_eq!(code('z'), 0x37);
    assert_eq!(code('A'), 0x1E);
    assert_eq!(code('Z'), 0x37);
    assert_eq!(code('0'), 0x02);
    assert_eq!(code('9'), 0x0B);
    assert_eq!(code('.'), 0x34);
    assert_eq!(code('/'), 0x35);
    assert_eq!(code('\\'), 0x2B);
    assert_eq!(code(' '), 0x39);
    assert_eq!(code('-'), 0);
    assert_eq!(code('é'), 0);
    assert_eq!(code(':'), 0);
}

#[test]
fn save_types_the_name_into_the_dialog() {
    let (outcome, actions) = drive_manager(|t| connected().save(t, "a.b", "PNG"), paint_desk);
    assert!(outcome.is_ok());
    let tap = |scan: u16| {
        Action::Send2(
            Input::Key(KeyInput { vk: 0, scan, flags: 8 }),
            Input::Key(KeyInput { vk: 0, scan, flags: 10 }),
        )
    };
    let mut expected = activated();
    expected.push(Action::Send4(
        Input::Key(KeyInput { vk: 0x11, scan: 0, flags: 0 }),
        Input::Key(KeyInput { vk: 0x53, scan: 0, flags: 0 }),
        Input::Key(KeyInput { vk: 0x53, scan: 0, flags: 2 }),
        Input::Key(KeyInput { vk: 0x11, scan: 0, flags: 2 }),
    ));
    expected.push(wait(500));
    expected.extend(vec![tap(0x1E), wait(10), tap(0x34), wait(10), tap(0x1F), wait(10)]);
    expected.push(Action::Send2(
        Input::Key(KeyInput { vk: 0x0D, scan: 0, flags: 0 }),
        Input::Key(KeyInput { vk: 0x0D, scan: 0, flags: 2 }),
    ));
    expected.push(wait(500));
    assert_eq!(actions, expected);
}

#[test]
fn save_goes_on_where_a_key_is_not_injected() {
    let (outcome, actions) = drive_manager(
        |t| connected().save(t, "ab", "gif"),
        |action| match action {
            Action::Send2(_, _) => Answer::Count(0),
            other => paint_desk(other),
        },
    );
    assert!(outcome.is_ok());
    assert_eq!(actions.len(), 3 + 2 + 4 + 2);
}

#[test]
fn save_refuses_a_format_and_a_failed_chord() {
    assert!(names_save_format("png") && names_save_format("jpeg"));
    assert!(names_save_format("bmp") && names_save_format("gif"));
    assert!(!names_save_format("jpg") && !names_save_format("PNG") && !names_save_format(""));
    let (outcome, actions) = drive_manager(|t| connected().save(t, "a", "tiff"), paint_desk);
    assert_eq!(
        error_of(outcome),
        "Invalid parameter: Invalid format: tiff. Must be one of: png, jpeg, bmp, gif"
    );
    assert_eq!(actions, activated());
    let (outcome, _) = drive_manager(
        |t| connected().save(t, "a", "png"),
        |action| match action {
            Action::Send4(_, _, _, _) => Answer::Count(3),
            other => paint_desk(other),
        },
    );
    assert_eq!(error_of(outcome), "Save operation failed");
}

#[test]
fn a_shortcut_sends_four_events_at_once() {
    assert_eq!(to_ascii_upper('n'), 'N');
    assert_eq!(to_ascii_upper('N'), 'N');
    assert_eq!(to_ascii_upper('é'), 'é');
    assert_eq!(to_ascii_upper('1'), '1');
    let (outcome, actions) = drive_manager(
        |t| connected().simulate_keyboard_shortcut(t, 70, 0x11, 'n'),
        paint_desk,
    );
    assert!(outcome.is_ok());
    assert_eq!(
        actions,
        vec![
            Action::Send4(
                Input::Key(KeyInput { vk: 0x11, scan: 0, flags: 0 }),
                Input::Key(KeyInput { vk: 0x4E, scan: 0, flags: 0 }),
                Input::Key(KeyInput { vk: 0x4E, scan: 0, flags: 2 }),
                Input::Key(KeyInput { vk: 0x11, scan: 0, flags: 2 }),
            ),
            wait(100)
        ]
    );
    let (outcome, _) = drive_manager(
        |t| connected().simulate_keyboard_shortcut(t, 70, 0x11, 'S'),
        |_| Answer::Count(1),
    );
    assert!(outcome.is_err() || outcome.is_ok());
    let (outcome, _) = drive_manager(
        |t| connected().simulate_keyboard_shortcut(t, 70, 0x11, 'S'),
        |_| Answer::Count(0),
    );
    assert_eq!(error_of(outcome), "Drawing operation failed");
    let (_, actions) = drive_manager(
        |t| connected().simulate_keyboard_shortcut(t, 70, 0x12, '😀'),
        paint_desk,
    );
    assert_eq!(
        actions[0],
        Action::Send4(
            Input::Key(KeyInput { vk: 0x12, scan: 0, flags: 0 }),
            Input::Key(KeyInput { vk: 0xF600, scan: 0, flags: 0 }),
            Input::Key(KeyInput { vk: 0xF600, scan: 0, flags: 2 }),
            Input::Key(KeyInput { vk: 0x12, scan: 0, flags: 2 }),
        )
    );
}

#[test]
fn keys_that_are_not_sent_yet_succeed() {
    let manager = connected();
    assert!(manager.press_key(0x41).is_ok());
    assert!(manager.release_key(0x41).is_ok());
    assert!(manager.send_key(&0x0D).is_ok());
    assert!(manager.send_key_combo(&[0x11, 0x10], &[b'A', b'B']).is_ok());
    assert!(manager.send_key_combo(&[], &[]).is_ok());
    assert!(manager.click_at(1, 2).is_ok());
    assert!(manager.drag_to(3, 4).is_ok());
}

#[test]
fn add_text_announces_the_characters() {
    let (outcome, actions) = drive_manager(
        |t| connected().add_text(t, 10, 20, "hi", None, None, None, None),
        paint_desk,
    );
    assert!(outcome.is_ok());
    let mut expected = activated();
    expected.extend(tool_clicked(260));
    expected.push(Action::AnnounceCharacter('h'));
    expected.push(Action::AnnounceCharacter('i'));
    assert_eq!(actions, expected);
}

#[test]
fn add_text_waits_for_the_font_dialog_and_sets_the_color() {
    let (outcome, actions) = drive_manager(
        |t| connected().add_text(t, 10, 20, "x", Some("Arial"), None, None, Some("#FFFF00")),
        paint_desk,
    );
    assert!(outcome.is_ok());
    let mut expected = activated();
    expected.extend(tool_clicked(260));
    expected.extend(color_set(372, 190));
    expected.push(wait(500));
    expected.push(wait(300));
    expected.push(Action::AnnounceCharacter('x'));
    assert_eq!(actions, expected);
}

#[test]
fn add_text_connects_first_where_it_must() {
    let (outcome, actions) = drive_manager(
        |t| {
            let mut manager = PaintManager::new();
            let r = manager.add_text(t, 10, 20, "a", None, None, None, None);
            if r.is_ok() {
                assert_eq!(manager.get_window_handle().ok(), Some(70));
            }
            r
        },
        paint_desk,
    );
    assert!(outcome.is_ok());
    let mut expected = vec![Action::FindWindowByClass];
    expected.extend(activated());
    expected.extend(activated());
    expected.extend(tool_clicked(260));
    expected.push(Action::AnnounceCharacter('a'));
    assert_eq!(actions, expected);
}

#[test]
fn rotations_and_flips_have_menu_entries() {
    assert_eq!(rotation(90, true), Some(MenuItem::RotateRight));
    assert_eq!(rotation(90, false), Some(MenuItem::RotateLeft));
    assert_eq!(rotation(180, true), Some(MenuItem::Rotate180));
    assert_eq!(rotation(180, false), Some(MenuItem::Rotate180));
    assert_eq!(rotation(270, true), None);
    assert_eq!(rotation(0, true), None);
    assert_eq!(rotation(-90, true), None);
    assert_eq!(flip("horizontal"), Some(MenuItem::FlipHorizontal));
    assert_eq!(flip("vertical"), Some(MenuItem::FlipVertical));
    assert_eq!(flip("Horizontal"), None);
    assert_eq!(flip("diagonal"), None);
}

fn menu(item: MenuItem) -> Vec<Action> {
    let mut actions = activated();
    actions.push(Action::AnnounceMenu(item));
    actions.push(wait(300));
    actions.push(wait(500));
    actions
}

#[test]
fn the_image_is_rotated_and_flipped_through_the_menu() {
    let (outcome, actions) =
        drive_manager(|t| connected().rotate_image(t, 90, false), paint_desk);
    assert!(outcome.is_ok());
    assert_eq!(actions, menu(MenuItem::RotateLeft));
    let (outcome, actions) = drive_manager(|t| connected().rotate_image(t, 270, true), paint_desk);
    assert_eq!(
        error_of(outcome),
        "Invalid parameter: Only 90, 180, and 270 degree rotations are supported"
    );
    assert_eq!(actions, activated());
    let (outcome, actions) = drive_manager(|t| connected().flip_image(t, "VERTICAL"), paint_desk);
    assert!(outcome.is_ok());
    assert_eq!(actions, menu(MenuItem::FlipVertical));
    let (outcome, _) = drive_manager(|t| connected().flip_image(t, "both"), paint_desk);
    assert_eq!(error_of(outcome), "Invalid parameter: Direction must be 'horizontal' or 'vertical'");
    let (outcome, actions) = drive_manager(
        |t| connected().access_menu_item(t, MenuItem::Crop),
        paint_desk,
    );
    assert!(outcome.is_ok());
    assert_eq!(actions, vec![Action::AnnounceMenu(MenuItem::Crop), wait(300)]);
}

#[test]
fn the_image_is_scaled_and_cropped_through_the_menu() {
    let (outcome, actions) =
        drive_manager(|t| connected().scale_image(t, Some(10), None, Some(true)), paint_desk);
    assert!(outcome.is_ok());
    let mut expected = menu(MenuItem::Resize);
    expected.push(wait(500));
    assert_eq!(actions, expected);
    let (outcome, actions) =
        drive_manager(|t| connected().crop_image(t, 1, 2, 30, 40), paint_desk);
    assert!(outcome.is_ok());
    let mut expected = activated();
    expected.extend(tool_clicked(310));
    expected.push(Action::AnnounceMenu(MenuItem::Crop));
    expected.push(wait(300));
    expected.push(wait(500));
    assert_eq!(actions, expected);
    let (outcome, _) =
        drive_manager(|t| connected().crop_image(t, i32::MAX, 2, 30, 40), paint_desk);
    assert!(matches!(outcome, Err(Halt::Fault(Fault::Overflow))));
}

#[test]
fn a_canvas_is_filled_unless_it_is_white() {
    let (outcome, actions) =
        drive_manager(|t| connected().create_canvas(t, 800, 600, None), paint_desk);
    assert!(outcome.is_ok());
    let mut plain = activated();
    plain.push(wait(500));
    assert_eq!(actions, plain);
    let (_, actions) =
        drive_manager(|t| connected().create_canvas(t, 800, 600, Some("#ffffff")), paint_desk);
    assert_eq!(actions, plain);
    let (_, actions) =
        drive_manager(|t| connected().create_canvas(t, 800, 600, Some("#FFFFFF")), paint_desk);
    assert_eq!(actions, plain);
    let (outcome, actions) =
        drive_manager(|t| connected().create_canvas(t, 800, 600, Some("#ff0000")), paint_desk);
    assert!(outcome.is_ok());
    let mut filled = plain.clone();
    filled.extend(color_set(417, 150));
    filled.extend(tool_clicked(410));
    assert_eq!(actions, filled);
    let (outcome, _) =
        drive_manager(|t| connected().create_canvas(t, 800, 600, Some("white")), paint_desk);
    assert_eq!(error_of(outcome), "Invalid parameter: Color must be in #RRGGBB format");
}

#[test]
fn a_file_is_fetched() {
    let (outcome, actions) = drive_manager(|t| connected().fetch_image(t, "a.png"), paint_desk);
    assert_eq!(outcome.ok(), Some(tiny_png()));
    assert_eq!(actions, vec![Action::FileExists, Action::ReadFile]);
    let (outcome, actions) =
        drive_manager(|t| PaintManager::new().fetch_image(t, "a.png"), |_| Answer::Flag(false));
    assert_eq!(error_of(outcome), "File not found");
    assert_eq!(actions, vec![Action::FileExists]);
    let (outcome, _) = drive_manager(
        |t| connected().fetch_image(t, "a.png"),
        |action| match action {
            Action::ReadFile => Answer::Denied,
            other => paint_desk(other),
        },
    );
    assert_eq!(error_of(outcome), "Permission denied accessing file");
    let (outcome, _) = drive_manager(
        |t| connected().fetch_image(t, "a.png"),
        |action| match action {
            Action::ReadFile => Answer::Failed("disk".to_string()),
            other => paint_desk(other),
        },
    );
    assert_eq!(error_of(outcome), "Error reading file");
}

#[test]
fn formats_by_extension_and_name() {
    assert_eq!(format_of(Some("png")), Some("png"));
    assert_eq!(format_of(Some("jpg")), Some("jpeg"));
    assert_eq!(format_of(Some("jpeg")), Some("jpeg"));
    assert_eq!(format_of(Some("bmp")), Some("bmp"));
    assert_eq!(format_of(Some("PNG")), None);
    assert_eq!(format_of(Some("gif")), None);
    assert_eq!(format_of(None), None);
    assert_eq!(format_by_name("a.png"), "png");
    assert_eq!(format_by_name("a.jpg"), "jpeg");
    assert_eq!(format_by_name("a.jpeg"), "jpeg");
    assert_eq!(format_by_name("a.bmp"), "bmp");
    assert_eq!(format_by_name("a.gif"), "png");
    assert_eq!(format_by_name("png"), "png");
    assert_eq!(format_by_name(""), "png");
}

#[test]
fn a_file_is_fetched_with_what_is_known_of_it() {
    let (outcome, actions) =
        drive_manager(|t| connected().fetch_image_with_metadata(t, "C:/pictures/a.png"), paint_desk);
    let metadata = outcome.ok().expect("metadata");
    assert_eq!(metadata.format, "png");
    assert_eq!((metadata.width, metadata.height), (2, 1));
    assert_eq!(metadata.data, in_base64(&tiny_png()));
    assert!(metadata.data.starts_with("iVBORw0KGgo"));
    assert_eq!(actions, vec![Action::FileExists, Action::ReadFile]);
    let (outcome, _) =
        drive_manager(|t| connected().fetch_image_with_metadata(t, "a.jpg"), paint_desk);
    assert_eq!(outcome.ok().map(|m| m.format), Some("jpeg".to_string()));
}

#[test]
fn a_file_that_is_no_image_is_refused() {
    let (outcome, _) =
        drive_manager(|t| connected().fetch_image_with_metadata(t, "a.PNG"), paint_desk);
    assert_eq!(error_of(outcome.map(|_| ())), "Invalid image format");
    let (outcome, _) =
        drive_manager(|t| connected().fetch_image_with_metadata(t, "a.gif"), paint_desk);
    assert_eq!(error_of(outcome.map(|_| ())), "Invalid image format");
    let (outcome, _) = drive_manager(|t| connected().fetch_image_with_metadata(t, "png"), paint_desk);
    assert_eq!(error_of(outcome.map(|_| ())), "Invalid image format");
    let (outcome, _) = drive_manager(
        |t| connected().fetch_image_with_metadata(t, "a.png"),
        |action| match action {
            Action::ReadFile => Answer::Bytes(b"not an image".to_vec()),
            other => paint_desk(other),
        },
    );
    assert_eq!(error_of(outcome.map(|_| ())), "Invalid image format");
    let (outcome, _) = drive_manager(
        |t| connected().fetch_image_with_metadata(t, "a.png"),
        |_| Answer::Flag(false),
    );
    assert_eq!(error_of(outcome.map(|_| ())), "File not found");
}

#[test]
fn the_detail_is_capped() {
    assert_eq!(detail_level(None), 100);
    assert_eq!(detail_level(Some(0)), 0);
    assert_eq!(detail_level(Some(50)), 50);
    assert_eq!(detail_level(Some(200)), 200);
    assert_eq!(detail_level(Some(201)), 200);
    assert_eq!(detail_level(Some(u32::MAX)), 200);
}

#[test]
fn an_image_is_made_ready() {
    let picture = in_base64(&tiny_png());
    let (outcome, actions) =
        drive_manager(|t| connected().recreate_image_begin(t, &picture, Some(300)), paint_desk);
    let sketch = outcome.ok().expect("a sketch");
    assert_eq!((sketch.hwnd, sketch.width, sketch.height), (70, 2, 1));
    assert_eq!(sketch.rgb, vec![255, 0, 0, 0, 0, 255]);
    assert_eq!(sketch.canvas, Rect { left: 115, top: 150, right: 1085, bottom: 835 });
    assert_eq!(sketch.sample_rate, 1);
    assert_eq!(PaintManager::pixel_color(&sketch, 0, 0), "#FF0000");
    assert_eq!(PaintManager::pixel_color(&sketch, 1, 0), "#0000FF");
    let mut expected = vec![Action::WriteTemporaryImage];
    expected.extend(activated());
    expected.push(Action::Send4(
        Input::Key(KeyInput { vk: 0x11, scan: 0, flags: 0 }),
        Input::Key(KeyInput { vk: 0x4E, scan: 0, flags: 0 }),
        Input::Key(KeyInput { vk: 0x4E, scan: 0, flags: 2 }),
        Input::Key(KeyInput { vk: 0x11, scan: 0, flags: 2 }),
    ));
    expected.push(wait(100));
    expected.push(wait(300));
    expected.push(Action::WindowRect { hwnd: 70 });
    expected.extend(tool_clicked(210));
    expected.push(Action::SampleRate { width: 2, height: 1, detail: 200 });
    assert_eq!(actions, expected);
}

#[test]
fn an_image_that_cannot_be_read_is_refused() {
    let (outcome, actions) =
        drive_manager(|t| connected().recreate_image_begin(t, "not base64!", None), paint_desk);
    assert_eq!(error_of(outcome.map(|_| ())), "Invalid parameter: Invalid base64 image data");
    assert!(actions.is_empty());
    let text = in_base64(b"not a png");
    let (outcome, actions) =
        drive_manager(|t| connected().recreate_image_begin(t, &text, None), paint_desk);
    assert_eq!(error_of(outcome.map(|_| ())), "Invalid image format");
    assert_eq!(actions, vec![Action::WriteTemporaryImage]);
    let picture = in_base64(&tiny_png());
    let (outcome, _) = drive_manager(
        |t| connected().recreate_image_begin(t, &picture, None),
        |_| Answer::Flag(false),
    );
    assert_eq!(error_of(outcome.map(|_| ())), "Error reading file");
    let (outcome, _) = drive_manager(
        |t| PaintManager::new().recreate_image_begin(t, &picture, None),
        paint_desk,
    );
    assert_eq!(error_of(outcome.map(|_| ())), "Microsoft Paint window not found");
}

#[test]
fn an_image_is_drawn_again() {
    let picture = in_base64(&tiny_png());
    let (outcome, actions) = drive_manager(
        |t| connected().recreate_image(t, &picture, None, None),
        paint_desk,
    );
    assert!(outcome.is_ok());
    assert_eq!(actions.len(), 69);
    let mut first = color_set(417, 150);
    first.push(Action::Scale { origin: 115, index: 0, extent: 2, span: 970 });
    first.push(Action::Scale { origin: 150, index: 0, extent: 1, span: 685 });
    first.extend(mouse_event(115, 150, 2));
    first.extend(mouse_event(115, 150, 4));
    assert_eq!(&actions[15..41], &first[..]);
    let mut second = color_set(507, 150);
    second.push(Action::Scale { origin: 115, index: 1, extent: 2, span: 970 });
    second.push(Action::Scale { origin: 150, index: 0, extent: 1, span: 685 });
    second.extend(mouse_event(600, 150, 2));
    second.extend(mouse_event(600, 150, 4));
    assert_eq!(&actions[41..67], &second[..]);
    assert_eq!(&actions[67..], &[wait(10), Action::RemoveTemporaryImage]);
}

#[test]
fn an_image_is_drawn_coarsely_and_saved() {
    let picture = in_base64(&tiny_png());
    let (outcome, actions) = drive_manager(
        |t| connected().recreate_image(t, &picture, Some("o.JPG"), Some(10)),
        |action| match action {
            Action::SampleRate { .. } => Answer::Count(2),
            other => paint_desk(other),
        },
    );
    assert!(outcome.is_ok());
    assert_eq!(actions.len(), 15 + 26 + 1 + (3 + 2 + 10 + 2) + 1);
    assert_eq!(actions[14], Action::SampleRate { width: 2, height: 1, detail: 10 });
    assert_eq!(actions.last(), Some(&Action::RemoveTemporaryImage));
}

#[test]
fn the_same_color_is_not_set_twice() {
    let picture = in_base64(&tiny_png());
    let (sketch, _) =
        drive_manager(|t| connected().recreate_image_begin(t, &picture, None), paint_desk);
    let sketch = sketch.ok().expect("a sketch");
    let (outcome, actions) = drive_manager(
        |t| connected().recreate_image_sample(t, &sketch, 1, 0, "#0000FF"),
        paint_desk,
    );
    assert_eq!(outcome.ok(), Some("#0000FF".to_string()));
    assert_eq!(actions.len(), 12);
    let (outcome, actions) = drive_manager(
        |t| connected().recreate_image_sample(t, &sketch, 1, 0, "#0000ff"),
        paint_desk,
    );
    assert_eq!(outcome.ok(), Some("#0000FF".to_string()));
    assert_eq!(actions.len(), 26);
    let (outcome, actions) =
        drive_manager(|t| connected().recreate_image_row_end(t, &sketch, 10), paint_desk);
    assert!(outcome.is_ok());
    assert_eq!(actions, vec![wait(10)]);
    let (_, actions) =
        drive_manager(|t| connected().recreate_image_row_end(t, &sketch, 5), paint_desk);
    assert!(actions.is_empty());
}
