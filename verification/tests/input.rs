use mcp_server_microsoft_paint::desktop::{
    Action, Answer, Fault, Halt, Input, KeyInput, MouseInput, Position, Rect, Transcript,
};
use mcp_server_microsoft_paint::error::MspMcpError;
use mcp_server_microsoft_paint::windows::{
    activate_paint_window, activation_error, chord, click_at_client_position, click_at_position,
    click_left_mouse_button, click_right_mouse_button, client_point, client_to_screen, drag_mouse,
    get_canvas_dimensions, get_drawing_area_offset, get_initial_canvas_dimensions, glide,
    key_down, key_up, keystroke, keystroke_for, move_mouse_to, normalize, press_ctrl_a,
    press_ctrl_c, press_ctrl_n, press_ctrl_s, press_ctrl_v, press_delete, press_enter,
    press_escape, press_key, press_key_scan, press_tab, rect_extent, screen_to_normalized,
    send_mouse_down, send_mouse_up, type_text, Keystroke,
};

type Outcome<T> = Result<T, Halt<MspMcpError>>;

fn drive_input<T>(
    mut operation: impl FnMut(&mut Transcript) -> Outcome<T>,
    mut desk: impl FnMut(&Action) -> Answer,
) -> (Outcome<T>, Vec<Action>) {
    let mut answers: Vec<Answer> = Vec::new();
    let mut actions: Vec<Action> = Vec::new();
    loop {
        let outcome = {
            let mut t = Transcript::new(&answers);
            operation(&mut t)
        };
        match outcome {
            Err(Halt::Pending(action)) => {
                answers.push(desk(&action));
                actions.push(action);
                assert!(actions.len() < 10_000, "the operation does not end");
            }
            other => return (other, actions),
        }
    }
}

/// A desktop of 1920 by 1080 on which every call succeeds; the client area
/// of every window begins at (100, 50) of the screen.
fn willing_desk(action: &Action) -> Answer {
    match action {
        Action::Sleep { .. } => Answer::Done,
        Action::IsWindowVisible { .. } => Answer::Flag(true),
        Action::WindowStyle { .. } => Answer::Number(0),
        Action::ShowWindow { .. } => Answer::Flag(true),
        Action::SetForegroundWindow { .. } => Answer::Flag(true),
        Action::RaiseWindow { .. } => Answer::Flag(true),
        Action::WindowRect { .. } => {
            Answer::Rect(Rect { left: 10, top: 20, right: 1010, bottom: 820 })
        }
        Action::ClientToScreen { x, y, .. } => Answer::Position(Position { x: x + 100, y: y + 50 }),
        Action::ScreenWidth => Answer::Number(1920),
        Action::ScreenHeight => Answer::Number(1080),
        Action::Send1(_) => Answer::Count(1),
        Action::Send2(_, _) => Answer::Count(2),
        Action::Send4(_, _, _, _) => Answer::Count(4),
        Action::Fraction { delta, step, steps } => {
            Answer::Number(((*delta as f32 / *steps as f32) * *step as f32) as i32)
        }
        other => panic!("unexpected action {:?}", other),
    }
}

fn failed_text<T: std::fmt::Debug>(outcome: Outcome<T>) -> String {
    match outcome {
        Err(Halt::Failed(e)) => e.to_string(),
        other => panic!("not a failure: {:?}", other.map_err(|_| "a halt")),
    }
}

fn fault_of<T: std::fmt::Debug>(outcome: Outcome<T>) -> Fault {
    match outcome {
        Err(Halt::Fault(f)) => f,
        other => panic!("not a fault: {:?}", other.map_err(|_| "a halt")),
    }
}

fn mouse(dx: i32, dy: i32, flags: u32) -> Input {
    Input::Mouse(MouseInput { dx, dy, flags })
}

fn key(vk: u16, flags: u32) -> Input {
    Input::Key(KeyInput { vk, scan: 0, flags })
}

fn sleep(millis: u64) -> Action {
    Action::Sleep { millis }
}

fn moved(dx: i32, dy: i32) -> Vec<Action> {
    vec![
        Action::ScreenWidth,
        Action::ScreenHeight,
        Action::Send1(mouse(dx, dy, 0x8001)),
        sleep(5),
    ]
}

#[test]
fn a_transcript_without_answers_asks_for_the_first_action() {
    let answers = Vec::new();
    let mut t = Transcript::new(&answers);
    match press_key(&mut t, 0x41) {
        Err(Halt::Pending(action)) => {
            assert_eq!(action, Action::Send2(key(0x41, 0), key(0x41, 2)))
        }
        _ => panic!("not pending"),
    }
    assert_eq!(t.pos, 0);
}

#[test]
fn a_transcript_is_read_in_order() {
    let answers = vec![Answer::Count(2), Answer::Done, Answer::Flag(true)];
    let mut t = Transcript::new(&answers);
    assert!(press_key(&mut t, 0x41).is_ok());
    assert_eq!(t.pos, 2);
}

#[test]
fn normalize_scales_to_65535() {
    assert_eq!(normalize::<MspMcpError>(960, 1920).ok(), Some(32767));
    assert_eq!(normalize::<MspMcpError>(0, 1920).ok(), Some(0));
    assert_eq!(normalize::<MspMcpError>(1920, 1920).ok(), Some(65535));
    assert_eq!(normalize::<MspMcpError>(1, 1920).ok(), Some(34));
    assert_eq!(normalize::<MspMcpError>(-1, 1920).ok(), Some(-34));
    assert_eq!(normalize::<MspMcpError>(100, -3).ok(), Some(-2184500));
    assert_eq!(normalize::<MspMcpError>(32767, 1).ok(), Some(2147385345));
}

#[test]
fn normalize_faults_on_overflow_and_zero() {
    assert!(matches!(normalize::<MspMcpError>(32769, 1920), Err(Halt::Fault(Fault::Overflow))));
    assert!(matches!(normalize::<MspMcpError>(-32769, 1920), Err(Halt::Fault(Fault::Overflow))));
    assert!(matches!(normalize::<MspMcpError>(5, 0), Err(Halt::Fault(Fault::DivisionByZero))));
    assert!(matches!(normalize::<MspMcpError>(40000, 0), Err(Halt::Fault(Fault::Overflow))));
}

#[test]
fn screen_to_normalized_asks_for_both_extents() {
    let (outcome, actions) = drive_input(|t| screen_to_normalized(t, 960, 540), willing_desk);
    assert_eq!(outcome.ok(), Some((32767, 32767)));
    assert_eq!(actions, vec![Action::ScreenWidth, Action::ScreenHeight]);
}

#[test]
fn screen_to_normalized_faults_on_a_screen_without_width() {
    let (outcome, actions) = drive_input(
        |t| screen_to_normalized(t, 10, 10),
        |action| match action {
            Action::ScreenWidth => Answer::Number(0),
            other => willing_desk(other),
        },
    );
    assert_eq!(fault_of(outcome), Fault::DivisionByZero);
    assert_eq!(actions.len(), 2);
}

#[test]
fn an_answer_of_another_kind_counts_as_zero() {
    let (outcome, _) = drive_input(
        |t| screen_to_normalized(t, 10, 10),
        |action| match action {
            Action::ScreenWidth => Answer::Flag(true),
            other => willing_desk(other),
        },
    );
    assert_eq!(fault_of(outcome), Fault::DivisionByZero);
}

#[test]
fn client_to_screen_returns_the_position() {
    let (outcome, actions) = drive_input(|t| client_to_screen(t, 7, 5, 6), willing_desk);
    assert_eq!(outcome.ok(), Some((105, 56)));
    assert_eq!(actions, vec![Action::ClientToScreen { hwnd: 7, x: 5, y: 6 }]);
}

#[test]
fn client_to_screen_fails_where_the_call_fails() {
    let (outcome, _) = drive_input(|t| client_to_screen(t, 7, 5, 6), |_| Answer::Done);
    assert_eq!(failed_text(outcome), "Windows API error: ClientToScreen failed");
}

#[test]
fn move_mouse_to_sends_one_absolute_move() {
    let (outcome, actions) = drive_input(|t| move_mouse_to(t, 960, 540), willing_desk);
    assert!(outcome.is_ok());
    assert_eq!(actions, moved(32767, 32767));
}

#[test]
fn move_mouse_to_fails_where_nothing_is_injected() {
    let (outcome, actions) = drive_input(
        |t| move_mouse_to(t, 960, 540),
        |action| match action {
            Action::Send1(_) => Answer::Count(0),
            other => willing_desk(other),
        },
    );
    assert_eq!(failed_text(outcome), "Windows API error: Failed to send mouse movement input");
    assert_eq!(actions.len(), 3);
}

#[test]
fn left_click_sends_down_and_up() {
    let (outcome, actions) = drive_input(|t| click_left_mouse_button(t), willing_desk);
    assert!(outcome.is_ok());
    assert_eq!(actions, vec![Action::Send2(mouse(0, 0, 2), mouse(0, 0, 4)), sleep(10)]);
}

#[test]
fn left_click_fails_unless_both_are_injected() {
    let (outcome, actions) = drive_input(|t| click_left_mouse_button(t), |_| Answer::Count(1));
    assert_eq!(failed_text(outcome), "Windows API error: Failed to send mouse click input");
    assert_eq!(actions.len(), 1);
}

#[test]
fn right_click_sends_down_and_up() {
    let (outcome, actions) = drive_input(|t| click_right_mouse_button(t), willing_desk);
    assert!(outcome.is_ok());
    assert_eq!(actions, vec![Action::Send2(mouse(0, 0, 8), mouse(0, 0, 16)), sleep(10)]);
    let (outcome, _) = drive_input(|t| click_right_mouse_button(t), |_| Answer::Count(3));
    assert_eq!(failed_text(outcome), "Windows API error: Failed to send mouse right-click input");
}

#[test]
fn mouse_button_goes_down_and_up() {
    let (outcome, actions) = drive_input(|t| send_mouse_down(t), willing_desk);
    assert!(outcome.is_ok());
    assert_eq!(actions, vec![Action::Send1(mouse(0, 0, 2))]);
    let (outcome, actions) = drive_input(|t| send_mouse_up(t), willing_desk);
    assert!(outcome.is_ok());
    assert_eq!(actions, vec![Action::Send1(mouse(0, 0, 4))]);
    let (outcome, _) = drive_input(|t| send_mouse_down(t), |_| Answer::Count(0));
    assert_eq!(failed_text(outcome), "Windows API error: Failed to send mouse down input");
    let (outcome, _) = drive_input(|t| send_mouse_up(t), |_| Answer::Count(0));
    assert_eq!(failed_text(outcome), "Windows API error: Failed to send mouse up input");
}

#[test]
fn click_at_position_moves_then_clicks() {
    let (outcome, actions) = drive_input(|t| click_at_position(t, 1920, 0), willing_desk);
    assert!(outcome.is_ok());
    let mut expected = moved(65535, 0);
    expected.push(Action::Send2(mouse(0, 0, 2), mouse(0, 0, 4)));
    expected.push(sleep(10));
    assert_eq!(actions, expected);
}

#[test]
fn click_at_client_position_converts_first() {
    let (outcome, actions) = drive_input(|t| click_at_client_position(t, 3, 860, 490), willing_desk);
    assert!(outcome.is_ok());
    assert_eq!(actions[0], Action::ClientToScreen { hwnd: 3, x: 860, y: 490 });
    assert_eq!(actions[3], Action::Send1(mouse(32767, 32767, 0x8001)));
    assert_eq!(actions.len(), 7);
}

#[test]
fn the_drawing_area_begins_at_5_120() {
    assert_eq!(get_drawing_area_offset(1).ok(), Some((5, 120)));
    assert_eq!(get_drawing_area_offset(0).ok(), Some((5, 120)));
    assert_eq!(client_point::<MspMcpError>(10, 20).ok(), Some((15, 140)));
    assert!(matches!(
        client_point::<MspMcpError>(i32::MAX - 4, 0),
        Err(Halt::Fault(Fault::Overflow))
    ));
    assert!(matches!(
        client_point::<MspMcpError>(0, i32::MAX - 119),
        Err(Halt::Fault(Fault::Overflow))
    ));
    assert_eq!(
        client_point::<MspMcpError>(i32::MAX - 5, i32::MAX - 120).ok(),
        Some((i32::MAX, i32::MAX))
    );
}

#[test]
fn press_key_sends_down_and_up_and_waits() {
    let (outcome, actions) = drive_input(|t| press_key(t, 0x2E), willing_desk);
    assert!(outcome.is_ok());
    assert_eq!(actions, vec![Action::Send2(key(0x2E, 0), key(0x2E, 2)), sleep(10)]);
}

#[test]
fn press_key_fails_unless_both_are_injected() {
    let (outcome, actions) = drive_input(|t| press_key(t, 0x2E), |_| Answer::Count(1));
    assert_eq!(failed_text(outcome), "Windows API error: Failed to send key press input");
    assert_eq!(actions.len(), 1);
}

#[test]
fn press_key_scan_sends_scan_codes() {
    let (outcome, actions) = drive_input(|t| press_key_scan(t, 0x1E), willing_desk);
    assert!(outcome.is_ok());
    assert_eq!(
        actions,
        vec![
            Action::Send2(
                Input::Key(KeyInput { vk: 0, scan: 0x1E, flags: 8 }),
                Input::Key(KeyInput { vk: 0, scan: 0x1E, flags: 10 })
            ),
            sleep(10)
        ]
    );
    let (outcome, _) = drive_input(|t| press_key_scan(t, 0x1E), |_| Answer::Count(0));
    assert_eq!(failed_text(outcome), "Windows API error: Failed to send key press scan code input");
}

#[test]
fn key_down_and_up_send_one_event_each() {
    let (outcome, actions) = drive_input(|t| key_down(t, 0x11), willing_desk);
    assert!(outcome.is_ok());
    assert_eq!(actions, vec![Action::Send1(key(0x11, 0)), sleep(5)]);
    let (outcome, actions) = drive_input(|t| key_up(t, 0x11), willing_desk);
    assert!(outcome.is_ok());
    assert_eq!(actions, vec![Action::Send1(key(0x11, 2)), sleep(5)]);
    let (outcome, _) = drive_input(|t| key_down(t, 0x11), |_| Answer::Count(2));
    assert_eq!(failed_text(outcome), "Windows API error: Failed to send key down input");
    let (outcome, _) = drive_input(|t| key_up(t, 0x11), |_| Answer::Count(2));
    assert_eq!(failed_text(outcome), "Windows API error: Failed to send key up input");
}

fn chord_actions(modifier: u16, code: u16) -> Vec<Action> {
    vec![
        Action::Send1(key(modifier, 0)),
        sleep(5),
        Action::Send2(key(code, 0), key(code, 2)),
        sleep(10),
        Action::Send1(key(modifier, 2)),
        sleep(5),
    ]
}

#[test]
fn control_chords_hold_control() {
    let (outcome, actions) = drive_input(|t| press_ctrl_a(t), willing_desk);
    assert!(outcome.is_ok());
    assert_eq!(actions, chord_actions(0x11, 0x41));
    assert_eq!(drive_input(|t| press_ctrl_c(t), willing_desk).1, chord_actions(0x11, 0x43));
    assert_eq!(drive_input(|t| press_ctrl_v(t), willing_desk).1, chord_actions(0x11, 0x56));
    assert_eq!(drive_input(|t| press_ctrl_n(t), willing_desk).1, chord_actions(0x11, 0x4E));
    assert_eq!(drive_input(|t| press_ctrl_s(t), willing_desk).1, chord_actions(0x11, 0x53));
    assert_eq!(drive_input(|t| chord(t, 0x10, 0x42), willing_desk).1, chord_actions(0x10, 0x42));
}

#[test]
fn a_chord_leaves_the_modifier_down_where_the_key_fails() {
    let (outcome, actions) = drive_input(
        |t| press_ctrl_a(t),
        |action| match action {
            Action::Send2(_, _) => Answer::Count(0),
            other => willing_desk(other),
        },
    );
    assert_eq!(failed_text(outcome), "Windows API error: Failed to send key press input");
    assert_eq!(actions.len(), 3);
}

#[test]
fn single_keys() {
    assert_eq!(
        drive_input(|t| press_delete(t), willing_desk).1[0],
        Action::Send2(key(0x2E, 0), key(0x2E, 2))
    );
    assert_eq!(
        drive_input(|t| press_enter(t), willing_desk).1[0],
        Action::Send2(key(0x0D, 0), key(0x0D, 2))
    );
    assert_eq!(
        drive_input(|t| press_tab(t), willing_desk).1[0],
        Action::Send2(key(0x09, 0), key(0x09, 2))
    );
    assert_eq!(
        drive_input(|t| press_escape(t), willing_desk).1[0],
        Action::Send2(key(0x1B, 0), key(0x1B, 2))
    );
}

#[test]
fn keystrokes_of_characters() {
    assert_eq!(keystroke_for('a'), Keystroke::Press(0x41));
    assert_eq!(keystroke_for('z'), Keystroke::Press(0x5A));
    assert_eq!(keystroke_for('A'), Keystroke::ShiftPress(0x41));
    assert_eq!(keystroke_for('Z'), Keystroke::ShiftPress(0x5A));
    assert_eq!(keystroke_for('0'), Keystroke::Press(0x30));
    assert_eq!(keystroke_for('9'), Keystroke::Press(0x39));
    assert_eq!(keystroke_for(' '), Keystroke::Press(0x20));
    assert_eq!(keystroke_for('\t'), Keystroke::Press(0x09));
    assert_eq!(keystroke_for('\n'), Keystroke::Press(0x0D));
    assert_eq!(keystroke_for('\r'), Keystroke::Press(0x0D));
    assert_eq!(keystroke_for('!'), Keystroke::Skip);
    assert_eq!(keystroke_for('é'), Keystroke::Skip);
    assert_eq!(keystroke_for('-'), Keystroke::Skip);
}

#[test]
fn keystrokes_of_characters_whose_capital_is_ascii() {
    assert_eq!(keystroke_for('ß'), Keystroke::Press(0x53));
    assert_eq!(keystroke_for('ı'), Keystroke::Press(0x49));
    assert_eq!(keystroke_for('ſ'), Keystroke::Press(0x53));
}

#[test]
fn keystroke_by_capital() {
    assert_eq!(keystroke('Q', true), Keystroke::ShiftPress(0x51));
    assert_eq!(keystroke('Q', false), Keystroke::Press(0x51));
    assert_eq!(keystroke('5', true), Keystroke::ShiftPress(0x35));
    assert_eq!(keystroke(' ', true), Keystroke::Press(0x20));
    assert_eq!(keystroke('q', false), Keystroke::Skip);
    assert_eq!(keystroke('@', false), Keystroke::Skip);
    assert_eq!(keystroke('[', false), Keystroke::Skip);
    assert_eq!(keystroke('/', false), Keystroke::Skip);
    assert_eq!(keystroke(':', false), Keystroke::Skip);
}

#[test]
fn type_text_presses_each_key() {
    let (outcome, actions) = drive_input(|t| type_text(t, "aB 1?"), willing_desk);
    assert!(outcome.is_ok());
    let mut expected = vec![Action::Send2(key(0x41, 0), key(0x41, 2)), sleep(10), sleep(5)];
    expected.extend(chord_actions(0x10, 0x42));
    expected.push(sleep(5));
    expected.extend(vec![Action::Send2(key(0x20, 0), key(0x20, 2)), sleep(10), sleep(5)]);
    expected.extend(vec![Action::Send2(key(0x31, 0), key(0x31, 2)), sleep(10), sleep(5)]);
    expected.push(sleep(5));
    assert_eq!(actions, expected);
}

#[test]
fn type_text_of_nothing_does_nothing() {
    let (outcome, actions) = drive_input(|t| type_text(t, ""), willing_desk);
    assert!(outcome.is_ok());
    assert!(actions.is_empty());
}

#[test]
fn type_text_stops_at_the_first_failure() {
    let mut sent = 0;
    let (outcome, actions) = drive_input(
        |t| type_text(t, "abc"),
        |action| match action {
            Action::Send2(_, _) => {
                sent += 1;
                Answer::Count(if sent == 2 { 0 } else { 2 })
            }
            other => willing_desk(other),
        },
    );
    assert_eq!(failed_text(outcome), "Windows API error: Failed to send key press input");
    assert_eq!(actions.len(), 4);
}

#[test]
fn activation_errors_by_what_failed() {
    assert_eq!(activation_error(true, true, true), None);
    assert_eq!(activation_error(true, true, false), None);
    assert_eq!(activation_error(false, true, true), Some("ShowWindow failed".to_string()));
    assert_eq!(activation_error(true, false, true), None);
    assert_eq!(activation_error(false, false, true), None);
    assert_eq!(
        activation_error(true, false, false),
        Some("SetForegroundWindow failed, SetWindowPos also failed".to_string())
    );
    assert_eq!(
        activation_error(false, false, false),
        Some("ShowWindow failed, SetWindowPos also failed".to_string())
    );
}

#[test]
fn activation_of_a_willing_window() {
    let (outcome, actions) = drive_input(|t| activate_paint_window(t, 42), willing_desk);
    assert!(outcome.is_ok());
    assert_eq!(
        actions,
        vec![
            Action::IsWindowVisible { hwnd: 42 },
            sleep(200),
            Action::WindowStyle { hwnd: 42 },
            Action::ShowWindow { hwnd: 42, command: 9 },
            sleep(300),
            Action::SetForegroundWindow { hwnd: 42 },
            sleep(500),
        ]
    );
}

#[test]
fn activation_keeps_a_maximised_window_maximised() {
    let (_, actions) = drive_input(
        |t| activate_paint_window(t, 42),
        |action| match action {
            Action::WindowStyle { .. } => Answer::Number(0x0100_0000 | 0x1000_0000),
            other => willing_desk(other),
        },
    );
    assert_eq!(actions[3], Action::ShowWindow { hwnd: 42, command: 3 });
}

#[test]
fn activation_of_an_invisible_window_fails_at_once() {
    let (outcome, actions) = drive_input(|t| activate_paint_window(t, 42), |_| Answer::Flag(false));
    assert!(matches!(outcome, Err(Halt::Failed(MspMcpError::WindowNotFound))));
    assert_eq!(actions, vec![Action::IsWindowVisible { hwnd: 42 }]);
}

#[test]
fn activation_falls_back_to_raising_the_window() {
    let (outcome, actions) = drive_input(
        |t| activate_paint_window(t, 42),
        |action| match action {
            Action::SetForegroundWindow { .. } => Answer::Flag(false),
            other => willing_desk(other),
        },
    );
    assert!(outcome.is_ok());
    assert_eq!(
        &actions[5..],
        &[
            Action::SetForegroundWindow { hwnd: 42 },
            sleep(200),
            Action::RaiseWindow { hwnd: 42 },
            sleep(500)
        ]
    );
}

#[test]
fn activation_fails_where_nothing_brings_the_window_up() {
    let (outcome, actions) = drive_input(
        |t| activate_paint_window(t, 42),
        |action| match action {
            Action::SetForegroundWindow { .. } | Action::RaiseWindow { .. } => Answer::Flag(false),
            other => willing_desk(other),
        },
    );
    assert_eq!(
        failed_text(outcome),
        "Window activation failed: SetForegroundWindow failed, SetWindowPos also failed"
    );
    assert_eq!(actions.len(), 8);
}

#[test]
fn activation_fails_where_show_window_fails() {
    let (outcome, actions) = drive_input(
        |t| activate_paint_window(t, 42),
        |action| match action {
            Action::ShowWindow { .. } => Answer::Flag(false),
            other => willing_desk(other),
        },
    );
    assert_eq!(failed_text(outcome), "Window activation failed: ShowWindow failed");
    assert_eq!(actions.len(), 6);
}

#[test]
fn canvas_dimensions_leave_out_panel_and_bars() {
    let (outcome, actions) = drive_input(|t| get_canvas_dimensions(t, 42), willing_desk);
    assert_eq!(outcome.ok(), Some((730, 633)));
    assert_eq!(actions.len(), 8);
    assert_eq!(actions[7], Action::WindowRect { hwnd: 42 });
}

#[test]
fn canvas_dimensions_of_a_small_window_are_zero() {
    let (outcome, _) = drive_input(
        |t| get_canvas_dimensions(t, 42),
        |action| match action {
            Action::WindowRect { .. } => {
                Answer::Rect(Rect { left: 0, top: 0, right: 270, bottom: 166 })
            }
            other => willing_desk(other),
        },
    );
    assert_eq!(outcome.ok(), Some((0, 0)));
}

#[test]
fn canvas_dimensions_fail_without_a_rectangle() {
    let (outcome, _) = drive_input(
        |t| get_canvas_dimensions(t, 42),
        |action| match action {
            Action::WindowRect { .. } => Answer::Done,
            other => willing_desk(other),
        },
    );
    assert_eq!(failed_text(outcome), "Windows API error: GetWindowRect failed");
}

#[test]
fn initial_canvas_dimensions_are_those_of_the_window() {
    let (outcome, actions) = drive_input(|t| get_initial_canvas_dimensions(t, 42), willing_desk);
    assert_eq!(outcome.ok(), Some((1000, 800)));
    assert_eq!(actions, vec![Action::WindowRect { hwnd: 42 }]);
}

#[test]
fn extents_wrap_and_fault() {
    let inverted = Rect { left: 10, top: 10, right: 0, bottom: 5 };
    assert_eq!(rect_extent::<MspMcpError>(inverted).ok(), Some((4294967286, 4294967291)));
    let huge = Rect { left: i32::MIN, top: 0, right: 1, bottom: 0 };
    assert!(matches!(rect_extent::<MspMcpError>(huge), Err(Halt::Fault(Fault::Overflow))));
    let minimised = Rect { left: -32000, top: -32000, right: -31840, bottom: -31972 };
    assert_eq!(rect_extent::<MspMcpError>(minimised).ok(), Some((160, 28)));
}

#[test]
fn glide_moves_in_ten_steps() {
    let (outcome, actions) = drive_input(|t| glide(t, 0, 0, 1920, 1080, 7), willing_desk);
    assert!(outcome.is_ok());
    assert_eq!(actions.len(), 10 * 7);
    assert_eq!(actions[0], Action::Fraction { delta: 1920, step: 1, steps: 10 });
    assert_eq!(actions[1], Action::Fraction { delta: 1080, step: 1, steps: 10 });
    assert_eq!(actions[4], Action::Send1(mouse(6553, 6553, 0x8001)));
    assert_eq!(actions[6], sleep(7));
    assert_eq!(actions[63], Action::Fraction { delta: 1920, step: 10, steps: 10 });
    assert_eq!(actions[67], Action::Send1(mouse(65535, 65535, 0x8001)));
}

#[test]
fn glide_faults_where_a_step_leaves_the_range() {
    let (outcome, actions) = drive_input(
        |t| glide(t, i32::MAX, 0, 10, 10, 5),
        |action| match action {
            Action::Fraction { .. } => Answer::Number(1),
            other => willing_desk(other),
        },
    );
    assert_eq!(fault_of(outcome), Fault::Overflow);
    assert_eq!(actions.len(), 1);
}

#[test]
fn drag_mouse_presses_glides_and_releases() {
    let (outcome, actions) = drive_input(|t| drag_mouse(t, 192, 108, 1920, 1080), willing_desk);
    assert!(outcome.is_ok());
    let mut expected = moved(6553, 6553);
    expected.push(sleep(50));
    expected.push(Action::Send1(mouse(0, 0, 2)));
    assert_eq!(&actions[..6], &expected[..]);
    assert_eq!(actions[6], Action::Fraction { delta: 1728, step: 1, steps: 10 });
    assert_eq!(actions.len(), 6 + 70 + 4 + 2);
    assert_eq!(actions[76..80], moved(65535, 65535)[..]);
    assert_eq!(actions[80], sleep(50));
    assert_eq!(actions[81], Action::Send1(mouse(0, 0, 4)));
}

#[test]
fn drag_mouse_faults_where_the_distance_leaves_the_range() {
    let (outcome, actions) = drive_input(|t| drag_mouse(t, -10, 0, i32::MAX, 0), willing_desk);
    assert_eq!(fault_of(outcome), Fault::Overflow);
    assert_eq!(actions.len(), 6);
}
