use mcp_server_microsoft_paint::desktop::{Action, Answer, Halt, Report, Transcript, WindowInfo};
use mcp_server_microsoft_paint::error::MspMcpError;
use mcp_server_microsoft_paint::windows::{
    class_name_at, enum_window_proc, enum_windows, fallback_launch, find_any_paint_proc,
    find_any_paint_window, find_any_window, find_paint_window, find_window,
    get_direct_paint_hwnd, get_paint_hwnd, is_mspaint_running, launch_paint, names_paint_class,
    prohibited, retry_find, search_by_class, search_by_title, search_manually, title_part_at,
    title_step, window_named,
};

type Outcome<T> = Result<T, Halt<MspMcpError>>;

fn drive_finding<T>(
    mut operation: impl FnMut(&mut Transcript) -> Outcome<T>,
    mut desk: impl FnMut(&Action) -> Answer,
) -> (Outcome<T>, Vec<Action>) {
    let mut answers: Vec<Answer> = Vec::new();
    let mut actions: Vec<Action> = Vec::new();
    loop {
        let outcome = {
            let mut t = Transcript::new(&answers);
            operation(&mut t)
        };
        match outcome {
            Err(Halt::Pending(action)) => {
                answers.push(desk(&action));
                actions.push(action);
                assert!(actions.len() < 10_000, "the operation does not end");
            }
            other => return (other, actions),
        }
    }
}

fn window(hwnd: isize, visible: bool, class_name: Option<&str>, title: Option<&str>) -> WindowInfo {
    WindowInfo {
        hwnd,
        visible,
        top_level: true,
        class_name: class_name.map(String::from),
        title: title.map(String::from),
    }
}

fn some_windows() -> Vec<WindowInfo> {
    vec![
        window(1, true, Some("Shell_TrayWnd"), None),
        window(2, false, Some("MSPaintApp"), Some("Hidden - Paint")),
        window(3, true, Some("ConsoleWindowClass"), Some("mcp-server-microsoft-paint.exe")),
        window(4, true, Some("Chrome_WidgetWin_1"), Some("How to PAINT a wall - Chrome")),
        window(5, true, Some("MSPaintApp"), Some("Untitled - Paint")),
        window(6, true, Some("Notepad"), Some("notes.txt")),
    ]
}

fn title_of(hwnd: isize) -> Answer {
    match some_windows().into_iter().find(|w| w.hwnd == hwnd).and_then(|w| w.title) {
        Some(title) => Answer::Text(title),
        None => Answer::Done,
    }
}

fn failure_line<T: std::fmt::Debug>(outcome: Outcome<T>) -> String {
    match outcome {
        Err(Halt::Failed(e)) => e.to_string(),
        other => panic!("not a failure: {:?}", other.map_err(|_| "a halt")),
    }
}

fn count(actions: &[Action], wanted: &Action) -> usize {
    actions.iter().filter(|a| *a == wanted).count()
}

#[test]
fn a_window_is_taken_by_its_class() {
    let paint = window(5, true, Some("MSPaintApp"), Some("Untitled"));
    assert!(enum_window_proc(&paint, "MSPaintApp", ""));
    assert!(enum_window_proc(&paint, "Paint", ""));
    assert!(!enum_window_proc(&paint, "mspaintapp", ""));
    assert!(!enum_window_proc(&paint, "Afx", ""));
}

#[test]
fn a_window_is_taken_by_its_title_in_any_case() {
    let paint = window(5, true, Some("X"), Some("Untitled - PAINT"));
    assert!(enum_window_proc(&paint, "", "paint"));
    assert!(enum_window_proc(&paint, "", "Paint"));
    assert!(enum_window_proc(&paint, "", "UNTITLED - paint"));
    assert!(!enum_window_proc(&paint, "", "Paint 3D"));
}

#[test]
fn nothing_is_taken_where_nothing_is_looked_for() {
    let paint = window(5, true, Some("MSPaintApp"), Some("Untitled - Paint"));
    assert!(!enum_window_proc(&paint, "", ""));
}

#[test]
fn an_invisible_window_is_never_taken() {
    let hidden = window(5, false, Some("MSPaintApp"), Some("Untitled - Paint"));
    assert!(!enum_window_proc(&hidden, "MSPaintApp", "paint"));
}

#[test]
fn the_server_itself_is_never_taken() {
    let server = window(3, true, Some("MSPaintApp"), Some("C:\\mcp-server-microsoft-paint.exe"));
    assert!(!enum_window_proc(&server, "MSPaintApp", "paint"));
}

#[test]
fn a_window_without_names_is_judged_by_its_stand_ins() {
    let bare = window(7, true, None, None);
    assert!(enum_window_proc(&bare, "Unknown Class", ""));
    assert!(enum_window_proc(&bare, "", "unknown title"));
    assert!(!enum_window_proc(&bare, "MSPaintApp", "paint"));
}

#[test]
fn the_first_window_in_order_is_found() {
    let windows = some_windows();
    assert_eq!(find_window(&windows, "", "paint"), Some(4));
    assert_eq!(find_window(&windows, "MSPaintApp", ""), Some(5));
    assert_eq!(find_window(&windows, "Notepad", "paint"), Some(4));
    assert_eq!(find_window(&windows, "", "notes"), Some(6));
    assert_eq!(find_window(&windows, "", "Paint 3D"), None);
    assert_eq!(find_window(&windows, "", ""), None);
    assert_eq!(find_window(&Vec::new(), "MSPaintApp", "paint"), None);
}

#[test]
fn enum_windows_lists_once() {
    let (outcome, actions) =
        drive_finding(|t| enum_windows(t, "MSPaintApp", ""), |_| Answer::Windows(some_windows()));
    assert_eq!(outcome.ok(), Some(Some(5)));
    assert_eq!(actions, vec![Action::ListWindows]);
    let (outcome, _) = drive_finding(|t| enum_windows(t, "MSPaintApp", ""), |_| Answer::Done);
    assert_eq!(outcome.ok(), Some(None));
}

#[test]
fn class_names_and_title_parts_in_order() {
    assert_eq!(class_name_at(0), "MSPaintApp");
    assert_eq!(class_name_at(1), "Afx:1000000:8");
    assert_eq!(class_name_at(2), "ApplicationFrameWindow");
    assert_eq!(class_name_at(3), "MSPaintDesktop::CMainWindow");
    assert_eq!(title_part_at(0), "Paint");
    assert_eq!(title_part_at(1), "paint");
    assert_eq!(title_part_at(2), "Untitled - Paint");
    assert_eq!(title_part_at(3), "Bez tytułu - Paint");
    assert_eq!(title_part_at(4), "Paint 3D");
    assert_eq!(title_part_at(5), "Malování");
    assert_eq!(title_part_at(6), "Drawing");
    assert_eq!(title_part_at(7), "");
}

#[test]
fn paint_classes_and_prohibited_titles() {
    assert!(names_paint_class("MSPaintApp"));
    assert!(names_paint_class("xxAfx:1000000:8yy"));
    assert!(names_paint_class("ApplicationFrameWindow"));
    assert!(!names_paint_class("Notepad"));
    assert!(!names_paint_class(""));
    assert!(prohibited(Some("x mcp-server-microsoft-paint y")));
    assert!(!prohibited(Some("Untitled - Paint")));
    assert!(!prohibited(None));
}

#[test]
fn the_manual_search_needs_a_title() {
    let (outcome, actions) = drive_finding(
        |t| search_manually(t),
        |action| match action {
            Action::ListWindows => Answer::Windows(some_windows()),
            Action::WindowTitle { hwnd } => title_of(*hwnd),
            other => panic!("{:?}", other),
        },
    );
    assert_eq!(outcome.ok(), Some(Some(4)));
    assert_eq!(actions, vec![Action::ListWindows, Action::WindowTitle { hwnd: 4 }]);
    let (outcome, _) = drive_finding(
        |t| search_manually(t),
        |action| match action {
            Action::ListWindows => Answer::Windows(some_windows()),
            _ => Answer::Done,
        },
    );
    assert_eq!(outcome.ok(), Some(None));
}

#[test]
fn find_paint_window_takes_the_first_title_with_paint() {
    let (outcome, actions) = drive_finding(
        |t| find_paint_window(t),
        |action| match action {
            Action::ListWindows => Answer::Windows(some_windows()),
            Action::WindowTitle { hwnd } => title_of(*hwnd),
            other => panic!("{:?}", other),
        },
    );
    assert_eq!(outcome.ok(), Some(4));
    assert_eq!(actions.len(), 2);
}

#[test]
fn find_paint_window_falls_back_to_the_class() {
    let windows = || {
        vec![
            window(8, true, Some("Notepad"), Some("notes")),
            window(9, true, Some("MSPaintDesktop::CMainWindow"), Some("Zeichnung")),
        ]
    };
    let (outcome, actions) = drive_finding(
        |t| find_paint_window(t),
        |action| match action {
            Action::ListWindows => Answer::Windows(windows()),
            Action::WindowTitle { .. } => Answer::Text("Zeichnung".to_string()),
            other => panic!("{:?}", other),
        },
    );
    assert_eq!(outcome.ok(), Some(9));
    assert_eq!(count(&actions, &Action::ListWindows), 5);
    assert_eq!(actions.last(), Some(&Action::WindowTitle { hwnd: 9 }));
}

#[test]
fn a_class_match_without_title_counts() {
    let windows = || vec![window(9, true, Some("MSPaintApp"), None)];
    let (outcome, actions) = drive_finding(
        |t| search_by_class(t),
        |action| match action {
            Action::ListWindows => Answer::Windows(windows()),
            _ => Answer::Done,
        },
    );
    assert_eq!(outcome.ok(), Some(Some(9)));
    assert_eq!(actions, vec![Action::ListWindows, Action::WindowTitle { hwnd: 9 }]);
}

#[test]
fn a_class_match_that_became_the_server_is_passed_over() {
    let windows = || vec![window(9, true, Some("MSPaintApp"), Some("Paint"))];
    let (outcome, actions) = drive_finding(
        |t| search_by_class(t),
        |action| match action {
            Action::ListWindows => Answer::Windows(windows()),
            _ => Answer::Text("mcp-server-microsoft-paint".to_string()),
        },
    );
    assert_eq!(outcome.ok(), Some(None));
    assert_eq!(actions.len(), 5);
    assert_eq!(actions[1], Action::WindowTitle { hwnd: 9 });
    assert_eq!(count(&actions, &Action::ListWindows), 4);
}

#[test]
fn the_title_search_finds_a_localised_paint() {
    let windows = || vec![window(9, true, Some("X"), Some("Bez názvu - MALOVÁNÍ"))];
    let (outcome, actions) = drive_finding(
        |t| search_by_title(t),
        |action| match action {
            Action::ListWindows => Answer::Windows(windows()),
            _ => Answer::Text("Bez názvu - MALOVÁNÍ".to_string()),
        },
    );
    assert_eq!(outcome.ok(), Some(Some(9)));
    assert_eq!(count(&actions, &Action::ListWindows), 6);
}

#[test]
fn the_empty_title_part_finds_nothing() {
    let (outcome, actions) =
        drive_finding(|t| title_step(t, 7), |_| Answer::Windows(some_windows()));
    assert_eq!(outcome.ok(), Some(None));
    assert_eq!(actions, vec![Action::ListWindows]);
}

#[test]
fn find_paint_window_reports_and_fails_where_nothing_is_found() {
    let (outcome, actions) = drive_finding(
        |t| find_paint_window(t),
        |action| match action {
            Action::ListWindows => Answer::Windows(vec![window(6, true, Some("Notepad"), None)]),
            Action::Run(_) => Answer::Done,
            other => panic!("{:?}", other),
        },
    );
    assert!(matches!(outcome, Err(Halt::Failed(MspMcpError::WindowNotFound))));
    assert_eq!(actions.len(), 14);
    assert_eq!(count(&actions, &Action::ListWindows), 13);
    assert_eq!(actions[13], Action::Run(Report::ProcessCommandLines));
}

#[test]
fn launch_paint_waits_after_a_launch() {
    let (outcome, actions) = drive_finding(
        |t| launch_paint(t),
        |action| match action {
            Action::ShellOpenPaint => Answer::Handle(33),
            _ => Answer::Done,
        },
    );
    assert!(outcome.is_ok());
    assert_eq!(actions, vec![Action::ShellOpenPaint, Action::Sleep { millis: 3000 }]);
}

#[test]
fn launch_paint_fails_with_the_code() {
    let (outcome, actions) = drive_finding(|t| launch_paint(t), |_| Answer::Handle(32));
    assert_eq!(
        failure_line(outcome),
        "Windows API error: ShellExecuteW failed for mspaint.exe with error code 32"
    );
    assert_eq!(actions.len(), 1);
    let (outcome, _) = drive_finding(|t| launch_paint(t), |_| Answer::Handle(2));
    assert_eq!(
        failure_line(outcome),
        "Windows API error: ShellExecuteW failed for mspaint.exe with error code 2"
    );
    let (outcome, _) = drive_finding(|t| launch_paint(t), |_| Answer::Handle(-5));
    assert_eq!(
        failure_line(outcome),
        "Windows API error: ShellExecuteW failed for mspaint.exe with error code -5"
    );
    let (outcome, _) = drive_finding(|t| launch_paint(t), |_| Answer::Done);
    assert_eq!(
        failure_line(outcome),
        "Windows API error: ShellExecuteW failed for mspaint.exe with error code 0"
    );
}

#[test]
fn paint_runs_where_the_task_list_names_it() {
    let listed = "\nImage Name:   mspaint.exe\nPID:          4242\n";
    let (outcome, actions) =
        drive_finding(|t| is_mspaint_running(t), |_| Answer::Text(listed.to_string()));
    assert_eq!(outcome.ok(), Some(true));
    assert_eq!(actions, vec![Action::TaskList]);
    let none = "INFO: No tasks are running which match the specified criteria.";
    let (outcome, _) = drive_finding(|t| is_mspaint_running(t), |_| Answer::Text(none.to_string()));
    assert_eq!(outcome.ok(), Some(false));
    let half = "mspaint.exe";
    let (outcome, _) = drive_finding(|t| is_mspaint_running(t), |_| Answer::Text(half.to_string()));
    assert_eq!(outcome.ok(), Some(false));
    let (outcome, _) = drive_finding(|t| is_mspaint_running(t), |_| Answer::Done);
    assert_eq!(outcome.ok(), Some(false));
}

#[test]
fn the_last_resort_takes_titles_and_classes() {
    assert!(find_any_paint_proc(&window(1, true, None, Some("my PAINTing"))));
    assert!(find_any_paint_proc(&window(1, true, Some("MSPaintApp"), None)));
    assert!(find_any_paint_proc(&window(1, true, Some("Afx:400000"), Some("x"))));
    assert!(!find_any_paint_proc(&window(1, true, Some("mspaintapp"), Some("x"))));
    assert!(!find_any_paint_proc(&window(1, false, Some("MSPaintApp"), Some("Paint"))));
    assert!(!find_any_paint_proc(&window(
        1,
        true,
        Some("MSPaintApp"),
        Some("mcp-server-microsoft-paint")
    )));
    assert!(!find_any_paint_proc(&window(1, true, None, None)));
    assert_eq!(find_any_window(&some_windows()), Some(4));
    assert_eq!(find_any_window(&vec![window(6, true, Some("Notepad"), None)]), None);
}

#[test]
fn a_window_is_named_by_a_number_other_than_zero() {
    assert_eq!(window_named(Some(1234)), Some(1234));
    assert_eq!(window_named(Some(-1)), Some(-1));
    assert_eq!(window_named(Some(0)), None);
    assert_eq!(window_named(None), None);
}

#[test]
fn find_any_paint_window_trusts_powershell_first() {
    let (outcome, actions) =
        drive_finding(|t| find_any_paint_window(t), |_| Answer::Text("  1234\r\n".to_string()));
    assert_eq!(outcome.ok(), Some(1234));
    assert_eq!(actions, vec![Action::FindWindowWithPowershell]);
}

#[test]
fn find_any_paint_window_lists_where_powershell_names_nothing() {
    for printed in ["0\r\n", "", "none", "12 34", "99999999999"] {
        let (outcome, actions) = drive_finding(
            |t| find_any_paint_window(t),
            |action| match action {
                Action::FindWindowWithPowershell => Answer::Text(printed.to_string()),
                Action::ListWindows => Answer::Windows(some_windows()),
                other => panic!("{:?}", other),
            },
        );
        assert_eq!(outcome.ok(), Some(4), "{:?}", printed);
        assert_eq!(actions, vec![Action::FindWindowWithPowershell, Action::ListWindows]);
    }
}

#[test]
fn find_any_paint_window_fails_where_nothing_may_be_paint() {
    let (outcome, actions) = drive_finding(|t| find_any_paint_window(t), |_| Answer::Done);
    assert!(matches!(outcome, Err(Halt::Failed(MspMcpError::WindowNotFound))));
    assert_eq!(actions.len(), 2);
}

#[test]
fn the_fallback_launch_tries_two_commands() {
    let (outcome, actions) = drive_finding(|t| fallback_launch(t), |_| Answer::Done);
    assert!(outcome.is_ok());
    assert_eq!(actions, vec![Action::StartPaintWithCmd, Action::Sleep { millis: 3000 }]);
    let (outcome, actions) = drive_finding(
        |t| fallback_launch(t),
        |action| match action {
            Action::StartPaintWithCmd => Answer::Failed("no cmd".to_string()),
            _ => Answer::Done,
        },
    );
    assert!(outcome.is_ok());
    assert_eq!(
        actions,
        vec![Action::StartPaintWithCmd, Action::SpawnPaint, Action::Sleep { millis: 3000 }]
    );
    let (outcome, actions) = drive_finding(
        |t| fallback_launch(t),
        |action| match action {
            Action::StartPaintWithCmd => Answer::Failed("no cmd".to_string()),
            Action::SpawnPaint => Answer::Failed("program not found".to_string()),
            _ => Answer::Done,
        },
    );
    assert_eq!(
        failure_line(outcome),
        "Windows API error: Failed to launch Paint after multiple attempts: program not found"
    );
    assert_eq!(actions.len(), 2);
}

/// A desktop on which Paint is not running until it is launched, and shows
/// its window at the given listing after the launch.
fn launching_desk(shell_result: isize, appears_at: usize) -> impl FnMut(&Action) -> Answer {
    let mut launched = false;
    let mut listings = 0;
    move |action| match action {
        Action::ListWindows => {
            if launched {
                listings += 1;
            }
            if launched && listings >= appears_at {
                Answer::Windows(vec![window(77, true, Some("MSPaintApp"), Some("Untitled - Paint"))])
            } else {
                Answer::Windows(vec![window(6, true, Some("Notepad"), Some("notes"))])
            }
        }
        Action::WindowTitle { .. } => Answer::Text("Untitled - Paint".to_string()),
        Action::TaskList => Answer::Text("INFO: No tasks are running".to_string()),
        Action::ShellOpenPaint => {
            launched = shell_result > 32;
            Answer::Handle(shell_result)
        }
        Action::StartPaintWithCmd => {
            launched = true;
            Answer::Done
        }
        Action::FindWindowWithPowershell => Answer::Text("0".to_string()),
        Action::IsWindowVisible { .. } => Answer::Flag(true),
        Action::ShowWindow { .. } | Action::SetForegroundWindow { .. } => Answer::Flag(true),
        Action::WindowStyle { .. } => Answer::Number(0),
        Action::Sleep { .. } | Action::Run(_) => Answer::Done,
        other => panic!("{:?}", other),
    }
}

#[test]
fn get_paint_hwnd_returns_a_running_paint() {
    let (outcome, actions) = drive_finding(
        |t| get_paint_hwnd(t),
        |action| match action {
            Action::ListWindows => Answer::Windows(some_windows()),
            Action::WindowTitle { hwnd } => title_of(*hwnd),
            other => panic!("{:?}", other),
        },
    );
    assert_eq!(outcome.ok(), Some(4));
    assert_eq!(actions.len(), 2);
}

#[test]
fn get_paint_hwnd_launches_and_finds() {
    let (outcome, actions) = drive_finding(|t| get_paint_hwnd(t), launching_desk(42, 1));
    assert_eq!(outcome.ok(), Some(77));
    assert_eq!(actions[13], Action::Run(Report::ProcessCommandLines));
    assert_eq!(
        &actions[14..18],
        &[
            Action::TaskList,
            Action::ShellOpenPaint,
            Action::Sleep { millis: 3000 },
            Action::Sleep { millis: 1000 }
        ]
    );
    assert_eq!(&actions[18..20], &[Action::ListWindows, Action::WindowTitle { hwnd: 77 }]);
    assert_eq!(actions[20], Action::IsWindowVisible { hwnd: 77 });
    assert_eq!(actions.len(), 27);
}

#[test]
fn get_paint_hwnd_returns_the_window_though_it_cannot_be_activated() {
    let mut desk = launching_desk(42, 1);
    let (outcome, actions) = drive_finding(
        |t| get_paint_hwnd(t),
        |action| match action {
            Action::IsWindowVisible { .. } => Answer::Flag(false),
            other => desk(other),
        },
    );
    assert_eq!(outcome.ok(), Some(77));
    assert_eq!(actions.len(), 21);
}

#[test]
fn get_paint_hwnd_uses_the_fallback_launch() {
    let (outcome, actions) = drive_finding(|t| get_paint_hwnd(t), launching_desk(5, 1));
    assert_eq!(outcome.ok(), Some(77));
    assert_eq!(
        &actions[15..19],
        &[
            Action::ShellOpenPaint,
            Action::StartPaintWithCmd,
            Action::Sleep { millis: 3000 },
            Action::Sleep { millis: 1000 }
        ]
    );
}

#[test]
fn get_paint_hwnd_asks_the_last_resort_where_paint_runs() {
    let (outcome, actions) = drive_finding(
        |t| get_paint_hwnd(t),
        |action| match action {
            Action::ListWindows => Answer::Windows(vec![window(6, true, Some("Notepad"), None)]),
            Action::TaskList => Answer::Text("Image Name: mspaint.exe".to_string()),
            Action::FindWindowWithPowershell => Answer::Text("4711".to_string()),
            Action::Run(_) => Answer::Done,
            other => panic!("{:?}", other),
        },
    );
    assert_eq!(outcome.ok(), Some(4711));
    assert_eq!(actions.len(), 16);
}

#[test]
fn get_paint_hwnd_waits_for_the_window() {
    let (outcome, actions) = drive_finding(|t| get_paint_hwnd(t), launching_desk(42, 27));
    assert_eq!(outcome.ok(), Some(77));
    let sleeps = count(&actions, &Action::Sleep { millis: 1000 });
    assert_eq!(sleeps, 3);
    assert_eq!(count(&actions, &Action::FindWindowWithPowershell), 1);
}

#[test]
fn get_paint_hwnd_gives_up_after_twenty_attempts() {
    let (outcome, actions) = drive_finding(|t| get_direct_paint_hwnd(t), launching_desk(42, 100_000));
    assert!(matches!(outcome, Err(Halt::Failed(MspMcpError::WindowNotFound))));
    assert_eq!(count(&actions, &Action::Sleep { millis: 1000 }), 20);
    assert_eq!(count(&actions, &Action::FindWindowWithPowershell), 6);
    assert_eq!(count(&actions, &Action::Run(Report::ProcessCommandLines)), 21);
    assert_eq!(actions.len(), 17 + 20 * 15 + 6 * 2);
}

#[test]
fn get_paint_hwnd_fails_where_nothing_launches() {
    let (outcome, _) = drive_finding(
        |t| get_paint_hwnd(t),
        |action| match action {
            Action::ListWindows => Answer::Windows(Vec::new()),
            Action::ShellOpenPaint => Answer::Handle(2),
            Action::StartPaintWithCmd => Answer::Failed("a".to_string()),
            Action::SpawnPaint => Answer::Failed("b".to_string()),
            _ => Answer::Done,
        },
    );
    assert_eq!(
        failure_line(outcome),
        "Windows API error: Failed to launch Paint after multiple attempts: b"
    );
}

#[test]
fn retry_find_makes_the_last_resort_search_every_third_time() {
    let (outcome, actions) = drive_finding(
        |t| retry_find(t),
        |action| match action {
            Action::ListWindows => Answer::Windows(Vec::new()),
            Action::FindWindowWithPowershell => Answer::Text("88".to_string()),
            _ => Answer::Done,
        },
    );
    assert_eq!(outcome.ok(), Some(88));
    assert_eq!(count(&actions, &Action::Sleep { millis: 1000 }), 3);
    assert_eq!(actions.len(), 2 * 15 + 2);
}
