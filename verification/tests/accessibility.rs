use mcp_server_microsoft_paint::desktop::{
    Action, Answer, ClassName, ControlKind, ElementInfo, Fault, Filter, Halt, Input, Keys,
    MouseInput, NamePart, Rect, Transcript,
};
use mcp_server_microsoft_paint::error::MspMcpError;
use mcp_server_microsoft_paint::uia::{
    alias_count_at, build_tool_mapping, buttons, canvas_bounds, choose_shape, draw_shape_uia,
    element_area, fill_button, find_button, find_canvas, find_tool_button, get_paint_ribbon,
    get_tool_mapping, get_tools_container, id_matches_tool, initialize_uia, mapping_from,
    name_matches_tool, names_shape, select_tool_uia, set_color_uia, set_fill_uia,
    set_thickness_uia, shape_index, tool_alias_at, tool_id_at, tool_of_id, tool_of_name,
    ToolMapping,
};
use mcp_server_microsoft_paint::windows::draw_shape;

type Outcome<T> = Result<T, Halt<MspMcpError>>;

fn drive_tree<T>(
    mut operation: impl FnMut(&mut Transcript) -> Outcome<T>,
    mut desk: impl FnMut(&Action) -> Answer,
) -> (Outcome<T>, Vec<Action>) {
    let mut answers: Vec<Answer> = Vec::new();
    let mut actions: Vec<Action> = Vec::new();
    loop {
        let outcome = {
            let mut t = Transcript::new(&answers);
            operation(&mut t)
        };
        match outcome {
            Err(Halt::Pending(action)) => {
                answers.push(desk(&action));
                actions.push(action);
                assert!(actions.len() < 10_000, "the operation does not end");
            }
            other => return (other, actions),
        }
    }
}

fn element(id: u32, control: ControlKind, name: Option<&str>, automation_id: Option<&str>) -> ElementInfo {
    ElementInfo {
        id,
        control: Some(control),
        name: name.map(String::from),
        automation_id: automation_id.map(String::from),
        bounds: None,
    }
}

fn pane(id: u32, name: Option<&str>, bounds: Option<Rect>) -> ElementInfo {
    ElementInfo { id, control: Some(ControlKind::Pane), name: name.map(String::from), automation_id: None, bounds }
}

fn ribbon_elements() -> Vec<ElementInfo> {
    vec![
        element(10, ControlKind::Pane, Some("Tools"), None),
        element(11, ControlKind::Button, Some("Pencil"), Some("PencilBtn")),
        element(12, ControlKind::Button, Some("Fill"), Some("")),
        element(13, ControlKind::Other, Some("Brush"), None),
        element(14, ControlKind::Button, Some("Zoom"), None),
        element(15, ControlKind::Button, None, Some("SelectionTool")),
        element(16, ControlKind::Button, Some("Shapes"), None),
        element(17, ControlKind::Button, Some("Edit colors"), None),
        element(18, ControlKind::Button, Some("Solid color"), None),
    ]
}

/// A tree in which the window is 1, its ribbon 2 and the tool bar 3.
fn tree_desk(action: &Action) -> Answer {
    match action {
        Action::StartAutomation | Action::TrueCondition | Action::Sleep { .. } => Answer::Done,
        Action::ElementOfWindow { .. } => Answer::Element(1),
        Action::FindFirst { root: 1, filter: Filter::Control(ControlKind::Pane), .. } => {
            Answer::Element(2)
        }
        Action::FindFirst { root: 2, filter: Filter::Control(ControlKind::ToolBar), .. } => {
            Answer::Element(3)
        }
        Action::FindFirst { root: 1, filter: Filter::NameContains(_), .. } => Answer::Element(4),
        Action::FindFirst { .. } => Answer::Failed("timeout".to_string()),
        Action::Descendants { .. } | Action::MatchAll { .. } => Answer::Elements(ribbon_elements()),
        Action::InvokePattern { .. } => Answer::Flag(true),
        Action::Invoke { .. } | Action::SendKeys { .. } => Answer::Done,
        Action::BoundingRectangle { .. } => {
            Answer::Rect(Rect { left: 200, top: 300, right: 1000, bottom: 900 })
        }
        Action::IsWindowVisible { .. } => Answer::Flag(true),
        Action::WindowStyle { .. } => Answer::Number(0),
        Action::ShowWindow { .. } | Action::SetForegroundWindow { .. } => Answer::Flag(true),
        Action::ScreenWidth => Answer::Number(1920),
        Action::ScreenHeight => Answer::Number(1080),
        Action::Send1(_) => Answer::Count(1),
        other => panic!("unexpected action {:?}", other),
    }
}

fn failure<T: std::fmt::Debug>(outcome: Outcome<T>) -> String {
    match outcome {
        Err(Halt::Failed(e)) => e.to_string(),
        other => panic!("not a failure: {:?}", other.map_err(|_| "a halt")),
    }
}

fn search(root: u32, filter: Filter) -> Action {
    Action::FindFirst { root, filter, timeout: 2000 }
}

#[test]
fn the_table_of_tools() {
    let ids: Vec<&str> = (0..15).map(tool_id_at).collect();
    assert_eq!(
        ids,
        vec![
            "pencil",
            "brush",
            "fill",
            "text",
            "eraser",
            "color_picker",
            "magnifier",
            "select",
            "free_select",
            "rectangle",
            "ellipse",
            "line",
            "curve",
            "polygon",
            "rounded_rect"
        ]
    );
    let counts: Vec<usize> = (0..15).map(alias_count_at).collect();
    assert_eq!(counts, vec![3, 3, 4, 3, 3, 4, 3, 3, 3, 3, 4, 3, 3, 2, 2]);
    assert_eq!(tool_alias_at(0, 2), "Crayon");
    assert_eq!(tool_alias_at(2, 2), "Paint Bucket");
    assert_eq!(tool_alias_at(3, 2), "A");
    assert_eq!(tool_alias_at(5, 3), "ColorPickerTool");
    assert_eq!(tool_alias_at(8, 0), "Free-Form Select");
    assert_eq!(tool_alias_at(10, 3), "Oval");
    assert_eq!(tool_alias_at(14, 1), "RoundedRectTool");
}

#[test]
fn a_name_tells_of_a_tool() {
    assert!(name_matches_tool("the pencil tool", 0));
    assert!(name_matches_tool("crayon", 0));
    assert!(!name_matches_tool("Pencil", 0));
    assert!(!name_matches_tool("pen", 0));
    assert!(id_matches_tool("my_rounded_rect", 14));
    assert!(!name_matches_tool("my_rounded_rect", 14));
    assert!(id_matches_tool("roundedrecttool", 14));
}

#[test]
fn the_first_tool_in_the_table_wins() {
    assert_eq!(tool_of_name("Pencil"), Some(0));
    assert_eq!(tool_of_name("Paintbrush"), Some(1));
    assert_eq!(tool_of_name("Fill with color"), Some(2));
    assert_eq!(tool_of_name("Zoom"), Some(6));
    assert_eq!(tool_of_name("Select"), Some(7));
    assert_eq!(tool_of_name("Line"), Some(11));
    assert_eq!(tool_of_name("Undo"), None);
    assert_eq!(tool_of_name(""), None);
}

#[test]
fn every_name_with_an_a_tells_of_the_text_tool() {
    assert_eq!(tool_of_name("Eraser"), Some(3));
    assert_eq!(tool_of_name("Rectangle"), Some(3));
    assert_eq!(tool_of_name("Save"), Some(3));
}

#[test]
fn an_id_tells_of_a_tool_by_its_name_too() {
    assert_eq!(tool_of_id("SelectionTool"), Some(7));
    assert_eq!(tool_of_id("btn_free_select"), Some(7));
    assert_eq!(tool_of_id("btn_curve"), Some(12));
    assert_eq!(tool_of_id("btn_color_picker"), Some(5));
    assert_eq!(tool_of_id("btn_undo"), None);
}

#[test]
fn a_mapping_notes_buttons_in_order() {
    let mapping = mapping_from(&ribbon_elements());
    assert_eq!(mapping.get(0), Some("PencilBtn"));
    assert_eq!(mapping.get(1), None);
    assert_eq!(mapping.get(2), Some("Fill"));
    assert_eq!(mapping.get(6), Some("Zoom"));
    assert_eq!(mapping.get(7), Some("SelectionTool"));
    assert_eq!(mapping.get(3), Some("Shapes"));
    assert!(!mapping.is_empty());
    assert!(ToolMapping::new().is_empty());
    assert!(mapping_from(&Vec::new()).is_empty());
}

#[test]
fn a_later_button_replaces_an_earlier_one() {
    let elements = vec![
        element(1, ControlKind::Button, Some("Pencil"), None),
        element(2, ControlKind::Button, Some("Crayon"), None),
    ];
    let mapping = mapping_from(&elements);
    assert_eq!(mapping.get(0), Some("Crayon"));
    let mut mapping = ToolMapping::new();
    mapping.insert(4, "Rubber");
    mapping.insert(4, "Eraser");
    assert_eq!(mapping.get(4), Some("Eraser"));
}

#[test]
fn a_mapping_looks_names_up() {
    let mut mapping = ToolMapping::new();
    mapping.insert(7, "Select");
    mapping.insert(8, "Free-form");
    mapping.insert(0, "Pencil tool");
    assert_eq!(mapping.lookup("select"), "Select");
    assert_eq!(mapping.lookup("free_select"), "Free-form");
    assert_eq!(mapping.lookup("free"), "Free-form");
    assert_eq!(mapping.lookup("pencils"), "Pencil tool");
    assert_eq!(mapping.lookup("sel"), "Select");
    assert_eq!(mapping.lookup("eraser"), "eraser");
    assert_eq!(mapping.lookup("brush"), "brush");
    assert_eq!(ToolMapping::new().lookup("pencil"), "pencil");
}

#[test]
fn the_button_of_a_tool_is_found_by_name_or_id() {
    let elements = ribbon_elements();
    assert_eq!(find_button(&elements, "Pencil", "pencil"), Some(11));
    assert_eq!(find_button(&elements, "zoom", "magnifier"), Some(14));
    assert_eq!(find_button(&elements, "nothing", "selection"), Some(15));
    assert_eq!(find_button(&elements, "Brush", "brush"), None);
    assert_eq!(find_button(&elements, "the fill bucket", "x"), Some(12));
    assert_eq!(buttons(&elements), vec![11, 12, 14, 15, 16, 17, 18]);
}

#[test]
fn initialize_reports_the_error() {
    let (outcome, actions) = drive_tree(|t| initialize_uia(t), tree_desk);
    assert!(outcome.is_ok());
    assert_eq!(actions, vec![Action::StartAutomation]);
    let (outcome, _) = drive_tree(|t| initialize_uia(t), |_| Answer::Failed("0x80040154".to_string()));
    assert_eq!(
        failure(outcome),
        "Windows API error: Failed to initialize UI Automation: 0x80040154"
    );
}

#[test]
fn the_ribbon_is_the_first_pane_of_the_window() {
    let (outcome, actions) = drive_tree(|t| get_paint_ribbon(t, 5), tree_desk);
    assert_eq!(outcome.ok(), Some(2));
    assert_eq!(
        actions,
        vec![Action::ElementOfWindow { hwnd: 5 }, search(1, Filter::Control(ControlKind::Pane))]
    );
    let (outcome, _) = drive_tree(|t| get_paint_ribbon(t, 5), |_| Answer::Failed("gone".to_string()));
    assert_eq!(failure(outcome), "Windows API error: Failed to get Paint window element: gone");
    let (outcome, _) = drive_tree(
        |t| get_paint_ribbon(t, 5),
        |action| match action {
            Action::FindFirst { .. } => Answer::Failed("timeout".to_string()),
            other => tree_desk(other),
        },
    );
    assert_eq!(failure(outcome), "UI element not found: Paint ribbon");
}

#[test]
fn the_tools_are_in_the_tool_bar_or_a_pane() {
    let (outcome, actions) = drive_tree(|t| get_tools_container(t, 5), tree_desk);
    assert_eq!(outcome.ok(), Some(3));
    assert_eq!(actions.len(), 3);
    let (outcome, actions) = drive_tree(
        |t| get_tools_container(t, 5),
        |action| match action {
            Action::FindFirst { root: 2, filter: Filter::Control(ControlKind::ToolBar), .. } => {
                Answer::Failed("timeout".to_string())
            }
            Action::FindFirst { root: 2, .. } => Answer::Element(9),
            other => tree_desk(other),
        },
    );
    assert_eq!(outcome.ok(), Some(9));
    assert_eq!(actions[3], search(2, Filter::Control(ControlKind::Pane)));
    let (outcome, _) = drive_tree(
        |t| get_tools_container(t, 5),
        |action| match action {
            Action::FindFirst { root: 2, .. } => Answer::Failed("timeout".to_string()),
            other => tree_desk(other),
        },
    );
    assert_eq!(failure(outcome), "UI element not found: Paint tools container");
}

#[test]
fn the_mapping_is_built_from_the_tool_bar() {
    let (outcome, actions) = drive_tree(|t| build_tool_mapping(t, 5), tree_desk);
    let mapping = outcome.ok().expect("a mapping");
    assert_eq!(mapping.get(0), Some("PencilBtn"));
    assert_eq!(actions.len(), 5);
    assert_eq!(&actions[3..], &[Action::TrueCondition, Action::Descendants { root: 3 }]);
}

#[test]
fn the_mapping_is_built_from_the_window_where_there_is_no_ribbon() {
    let (outcome, actions) = drive_tree(
        |t| build_tool_mapping(t, 5),
        |action| match action {
            Action::FindFirst { .. } => Answer::Failed("timeout".to_string()),
            other => tree_desk(other),
        },
    );
    assert!(outcome.is_ok());
    assert_eq!(
        actions,
        vec![
            Action::ElementOfWindow { hwnd: 5 },
            search(1, Filter::Control(ControlKind::Pane)),
            Action::ElementOfWindow { hwnd: 5 },
            Action::TrueCondition,
            Action::Descendants { root: 1 }
        ]
    );
}

#[test]
fn the_mapping_reports_what_fails() {
    let (outcome, _) = drive_tree(
        |t| build_tool_mapping(t, 5),
        |action| match action {
            Action::TrueCondition => Answer::Failed("no".to_string()),
            other => tree_desk(other),
        },
    );
    assert_eq!(failure(outcome.map(|_| ())), "Windows API error: Failed to create UICondition: no");
    let (outcome, _) = drive_tree(
        |t| build_tool_mapping(t, 5),
        |action| match action {
            Action::Descendants { .. } => Answer::Failed("no".to_string()),
            other => tree_desk(other),
        },
    );
    assert_eq!(failure(outcome.map(|_| ())), "Windows API error: Error finding elements: no");
    let (outcome, _) = drive_tree(
        |t| build_tool_mapping(t, 5),
        |action| match action {
            Action::ElementOfWindow { .. } => Answer::Failed("no".to_string()),
            other => tree_desk(other),
        },
    );
    assert_eq!(
        failure(outcome.map(|_| ())),
        "Windows API error: Failed to get Paint window element for tool mapping: no"
    );
}

#[test]
fn a_kept_mapping_is_used_again() {
    let (outcome, actions) = drive_tree(
        |t| {
            let mut cache = Some(mapping_from(&ribbon_elements()));
            get_tool_mapping(&mut cache, t, 5)
        },
        tree_desk,
    );
    assert!(outcome.is_ok());
    assert!(actions.is_empty());
    let (outcome, actions) = drive_tree(
        |t| {
            let mut cache = Some(ToolMapping::new());
            let r = get_tool_mapping(&mut cache, t, 5);
            if r.is_ok() {
                assert_eq!(cache.as_ref().and_then(|m| m.get(2)), Some("Fill"));
            }
            r
        },
        tree_desk,
    );
    assert!(outcome.is_ok());
    assert_eq!(actions.len(), 5);
}

#[test]
fn the_button_of_a_tool_is_found_in_the_tree() {
    let (outcome, actions) = drive_tree(
        |t| {
            let mut cache = None;
            find_tool_button(&mut cache, t, 5, "pencil")
        },
        tree_desk,
    );
    assert_eq!(outcome.ok(), Some(11));
    assert_eq!(actions.len(), 10);
    let (outcome, _) = drive_tree(
        |t| {
            let mut cache = None;
            find_tool_button(&mut cache, t, 5, "curve")
        },
        tree_desk,
    );
    assert_eq!(failure(outcome), "UI element not found: Tool button 'curve'");
}

#[test]
fn a_tool_is_selected_by_its_invoke_pattern() {
    let (outcome, actions) = drive_tree(
        |t| {
            let mut cache = None;
            select_tool_uia(&mut cache, t, 5, "fill")
        },
        tree_desk,
    );
    assert!(outcome.is_ok());
    assert_eq!(actions.len(), 13);
    assert_eq!(actions[0], Action::StartAutomation);
    assert_eq!(
        &actions[11..],
        &[Action::InvokePattern { element: 12 }, Action::Invoke { element: 12 }]
    );
}

#[test]
fn a_tool_without_invoke_pattern_gets_a_space() {
    let (outcome, actions) = drive_tree(
        |t| {
            let mut cache = None;
            select_tool_uia(&mut cache, t, 5, "fill")
        },
        |action| match action {
            Action::InvokePattern { .. } => Answer::Flag(false),
            other => tree_desk(other),
        },
    );
    assert!(outcome.is_ok());
    assert_eq!(
        actions[12],
        Action::SendKeys { element: 12, keys: Keys::Space, interval: 10 }
    );
}

#[test]
fn a_tool_reports_what_fails() {
    let (outcome, _) = drive_tree(
        |t| {
            let mut cache = None;
            select_tool_uia(&mut cache, t, 5, "fill")
        },
        |action| match action {
            Action::Invoke { .. } => Answer::Failed("E_FAIL".to_string()),
            other => tree_desk(other),
        },
    );
    assert_eq!(failure(outcome), "Windows API error: Error invoking tool button 'fill': E_FAIL");
    let (outcome, _) = drive_tree(
        |t| {
            let mut cache = None;
            select_tool_uia(&mut cache, t, 5, "fill")
        },
        |action| match action {
            Action::InvokePattern { .. } => Answer::Flag(false),
            Action::SendKeys { .. } => Answer::Failed("E_FAIL".to_string()),
            other => tree_desk(other),
        },
    );
    assert_eq!(failure(outcome), "Windows API error: Failed to activate tool button 'fill': E_FAIL");
}

#[test]
fn set_color_opens_and_closes_the_dialog_and_fails() {
    let (outcome, actions) = drive_tree(|t| set_color_uia(t, 5, "#FF0000"), tree_desk);
    assert_eq!(
        failure(outcome),
        "Operation not supported in Windows 11 Paint: Full color selection via UI Automation not implemented yet"
    );
    assert_eq!(
        actions,
        vec![
            Action::StartAutomation,
            Action::ElementOfWindow { hwnd: 5 },
            search(1, Filter::NameContains(NamePart::Colors)),
            Action::TrueCondition,
            Action::Descendants { root: 4 },
            Action::InvokePattern { element: 17 },
            Action::Invoke { element: 17 },
            Action::Sleep { millis: 500 },
            Action::ElementOfWindow { hwnd: 5 },
            Action::SendKeys { element: 1, keys: Keys::Escape, interval: 10 },
        ]
    );
}

#[test]
fn set_color_looks_for_the_section_by_class_too() {
    let (outcome, actions) = drive_tree(
        |t| set_color_uia(t, 5, "#FF0000"),
        |action| match action {
            Action::FindFirst { .. } => Answer::Failed("timeout".to_string()),
            other => tree_desk(other),
        },
    );
    assert_eq!(failure(outcome), "UI element not found: Color picker section");
    assert_eq!(actions[3], search(1, Filter::Class(ClassName::ColorPicker)));
    assert_eq!(actions.len(), 4);
}

#[test]
fn set_color_needs_the_button_for_more_colors() {
    let (outcome, _) = drive_tree(
        |t| set_color_uia(t, 5, "#FF0000"),
        |action| match action {
            Action::Descendants { .. } => {
                Answer::Elements(vec![element(1, ControlKind::Button, Some("Red"), None)])
            }
            other => tree_desk(other),
        },
    );
    assert_eq!(failure(outcome), "UI element not found: More colors button");
}

#[test]
fn set_thickness_presses_the_button_of_the_level() {
    let (outcome, actions) = drive_tree(|t| set_thickness_uia(t, 5, 3), tree_desk);
    assert!(outcome.is_ok());
    assert_eq!(actions[2], search(1, Filter::NameContains(NamePart::Size)));
    assert_eq!(&actions[5..], &[Action::InvokePattern { element: 14 }, Action::Invoke { element: 14 }]);
    let (outcome, _) = drive_tree(|t| set_thickness_uia(t, 5, 7), tree_desk);
    assert!(outcome.is_ok());
    let (outcome, actions) = drive_tree(|t| set_thickness_uia(t, 5, 8), tree_desk);
    assert_eq!(failure(outcome), "UI element not found: Thickness button for level 8");
    assert_eq!(actions.len(), 5);
    let (outcome, _) = drive_tree(
        |t| set_thickness_uia(t, 5, 1),
        |action| match action {
            Action::FindFirst { .. } => Answer::Failed("timeout".to_string()),
            other => tree_desk(other),
        },
    );
    assert_eq!(failure(outcome), "UI element not found: Thickness/size section");
}

#[test]
fn set_thickness_of_level_zero_is_a_fault() {
    let (outcome, actions) = drive_tree(|t| set_thickness_uia(t, 5, 0), tree_desk);
    assert!(matches!(outcome, Err(Halt::Fault(Fault::Overflow))));
    assert_eq!(actions.len(), 5);
}

#[test]
fn fill_types_have_buttons() {
    assert_eq!(fill_button("none"), Some("No fill"));
    assert_eq!(fill_button("solid"), Some("Solid color"));
    assert_eq!(fill_button("outline"), Some("Outline"));
    assert_eq!(fill_button("Solid"), None);
    assert_eq!(fill_button(""), None);
}

#[test]
fn set_fill_presses_the_button_of_the_type() {
    let (outcome, actions) = drive_tree(|t| set_fill_uia(t, 5, "SOLID"), tree_desk);
    assert!(outcome.is_ok());
    assert_eq!(actions[2], search(1, Filter::NameContains(NamePart::Fill)));
    assert_eq!(&actions[5..], &[Action::InvokePattern { element: 18 }, Action::Invoke { element: 18 }]);
    let (outcome, _) = drive_tree(|t| set_fill_uia(t, 5, "outline"), tree_desk);
    assert_eq!(failure(outcome), "UI element not found: Button for fill type 'outline'");
    let (outcome, actions) = drive_tree(|t| set_fill_uia(t, 5, "Dotted"), tree_desk);
    assert_eq!(
        failure(outcome),
        "Invalid parameters: Invalid fill type: 'Dotted'. Must be 'none', 'solid', or 'outline'"
    );
    assert_eq!(actions.len(), 5);
    let (outcome, _) = drive_tree(
        |t| set_fill_uia(t, 5, "solid"),
        |action| match action {
            Action::Invoke { .. } => Answer::Failed("x".to_string()),
            other => tree_desk(other),
        },
    );
    assert_eq!(failure(outcome), "Windows API error: Error invoking fill button: x");
}

#[test]
fn shapes_have_names_and_places() {
    for shape in ["rectangle", "ellipse", "line", "arrow", "triangle", "pentagon", "hexagon"] {
        assert!(names_shape(shape));
    }
    assert!(!names_shape("circle"));
    assert!(!names_shape("Rectangle"));
    assert_eq!(shape_index("rectangle"), 0);
    assert_eq!(shape_index("ellipse"), 1);
    assert_eq!(shape_index("line"), 7);
    assert_eq!(shape_index("arrow"), 9);
    assert_eq!(shape_index("hexagon"), 0);
}

#[test]
fn the_canvas_is_the_last_of_the_largest_panes() {
    let square = |side: i32| Some(Rect { left: 0, top: 0, right: side, bottom: side });
    let elements = vec![
        pane(1, Some("Toolbar"), square(900)),
        pane(2, Some("Canvas"), square(10)),
        pane(3, None, square(20)),
        pane(4, Some("Drawing area"), square(20)),
        pane(5, Some("Canvas"), None),
        element(6, ControlKind::Button, Some("Canvas"), None),
    ];
    assert_eq!(find_canvas(&elements), Ok(Some(4)));
    assert_eq!(find_canvas(&Vec::new()), Ok(None));
    assert_eq!(find_canvas(&vec![pane(5, Some("Canvas"), None)]), Ok(Some(5)));
    assert_eq!(find_canvas(&vec![pane(1, Some("Toolbar"), square(900))]), Ok(None));
    let inverted = Some(Rect { left: 10, top: 0, right: 0, bottom: 10 });
    assert_eq!(find_canvas(&vec![pane(1, None, inverted), pane(2, None, None)]), Ok(Some(2)));
}

#[test]
fn the_area_of_an_element() {
    let rect = |l, t, r, b| Some(Rect { left: l, top: t, right: r, bottom: b });
    assert_eq!(element_area(&pane(1, None, rect(10, 20, 110, 70))), Ok(5000));
    assert_eq!(element_area(&pane(1, None, None)), Ok(0));
    assert_eq!(element_area(&pane(1, None, rect(0, 0, -10, 10))), Ok(-100));
    assert_eq!(element_area(&pane(1, None, rect(0, 0, 65536, 32768))), Err(Fault::Overflow));
    assert_eq!(element_area(&pane(1, None, rect(0, 0, 46340, 46340))), Ok(2147395600));
    assert_eq!(element_area(&pane(1, None, rect(i32::MIN, 0, 1, 1))), Err(Fault::Overflow));
    assert_eq!(
        find_canvas(&vec![pane(1, None, rect(0, 0, 65536, 32768)), pane(2, None, None)]),
        Err(Fault::Overflow)
    );
}

#[test]
fn canvas_bounds_fall_back_to_the_window() {
    let (outcome, actions) = drive_tree(
        |t| canvas_bounds(t, 1),
        |action| match action {
            Action::MatchAll { .. } => Answer::Elements(vec![
                pane(10, Some("Tools"), None),
                pane(20, Some("Canvas"), None),
            ]),
            other => tree_desk(other),
        },
    );
    assert_eq!(outcome.ok(), Some(Rect { left: 200, top: 300, right: 1000, bottom: 900 }));
    assert_eq!(
        actions,
        vec![
            Action::MatchAll { root: 1, timeout: 3000 },
            Action::BoundingRectangle { element: 20 }
        ]
    );
    let (_, actions) = drive_tree(
        |t| canvas_bounds(t, 1),
        |action| match action {
            Action::MatchAll { .. } => Answer::Elements(Vec::new()),
            other => tree_desk(other),
        },
    );
    assert_eq!(actions[1], Action::BoundingRectangle { element: 1 });
    let (outcome, _) = drive_tree(|t| canvas_bounds(t, 1), |_| Answer::Failed("x".to_string()));
    assert_eq!(failure(outcome), "Windows API error: Failed to find elements: x");
    let (outcome, _) = drive_tree(
        |t| canvas_bounds(t, 1),
        |action| match action {
            Action::BoundingRectangle { .. } => Answer::Failed("x".to_string()),
            other => tree_desk(other),
        },
    );
    assert_eq!(failure(outcome), "Windows API error: Failed to get canvas bounds: x");
}

#[test]
fn a_shape_is_chosen_by_steps_down() {
    let (outcome, actions) = drive_tree(|t| choose_shape(t, 1, 2), tree_desk);
    assert!(outcome.is_ok());
    let down = Action::SendKeys { element: 1, keys: Keys::Down, interval: 50 };
    assert_eq!(
        actions,
        vec![
            down,
            Action::Sleep { millis: 100 },
            down,
            Action::Sleep { millis: 100 },
            Action::SendKeys { element: 1, keys: Keys::Enter, interval: 100 },
            Action::Sleep { millis: 300 },
        ]
    );
    let (outcome, _) = drive_tree(|t| choose_shape(t, 1, 2), |_| Answer::Failed("busy".to_string()));
    assert_eq!(failure(outcome), "Windows API error: busy");
}

fn activation_of(hwnd: isize) -> Vec<Action> {
    vec![
        Action::IsWindowVisible { hwnd },
        Action::Sleep { millis: 200 },
        Action::WindowStyle { hwnd },
        Action::ShowWindow { hwnd, command: 9 },
        Action::Sleep { millis: 300 },
        Action::SetForegroundWindow { hwnd },
        Action::Sleep { millis: 500 },
    ]
}

#[test]
fn a_shape_is_drawn_through_the_tree() {
    let (outcome, actions) = drive_tree(|t| draw_shape_uia(t, 5, "Ellipse", 10, 20, 110, 220), tree_desk);
    assert!(outcome.is_ok());
    let mut expected = vec![Action::StartAutomation, Action::ElementOfWindow { hwnd: 5 }];
    expected.extend(activation_of(5));
    expected.extend(vec![
        search(1, Filter::Control(ControlKind::Pane)),
        Action::TrueCondition,
        Action::Descendants { root: 2 },
        Action::InvokePattern { element: 16 },
        Action::Invoke { element: 16 },
        Action::Sleep { millis: 500 },
        Action::SendKeys { element: 1, keys: Keys::Down, interval: 50 },
        Action::Sleep { millis: 100 },
        Action::SendKeys { element: 1, keys: Keys::Enter, interval: 100 },
        Action::Sleep { millis: 300 },
        Action::MatchAll { root: 1, timeout: 3000 },
        Action::BoundingRectangle { element: 1 },
        Action::ScreenWidth,
        Action::ScreenHeight,
        Action::Send1(Input::Mouse(MouseInput { dx: 7167, dy: 19417, flags: 0x8001 })),
        Action::Sleep { millis: 5 },
        Action::Sleep { millis: 300 },
        Action::Send1(Input::Mouse(MouseInput { dx: 0, dy: 0, flags: 2 })),
        Action::Sleep { millis: 300 },
        Action::ScreenWidth,
        Action::ScreenHeight,
        Action::Send1(Input::Mouse(MouseInput { dx: 10581, dy: 31553, flags: 0x8001 })),
        Action::Sleep { millis: 5 },
        Action::Sleep { millis: 300 },
        Action::Send1(Input::Mouse(MouseInput { dx: 0, dy: 0, flags: 4 })),
    ]);
    assert_eq!(actions, expected);
}

#[test]
fn the_shapes_are_opened_by_keys_where_there_is_no_button() {
    let (outcome, actions) = drive_tree(
        |t| draw_shape_uia(t, 5, "rectangle", 0, 0, 1, 1),
        |action| match action {
            Action::Descendants { .. } => Answer::Elements(Vec::new()),
            other => tree_desk(other),
        },
    );
    assert!(outcome.is_ok());
    let mut expected = activation_of(5);
    expected.extend(vec![
        Action::SendKeys { element: 1, keys: Keys::AltH, interval: 100 },
        Action::Sleep { millis: 300 },
        Action::SendKeys { element: 1, keys: Keys::LetterS, interval: 100 },
        Action::Sleep { millis: 300 },
        Action::SendKeys { element: 1, keys: Keys::Enter, interval: 100 },
    ]);
    assert_eq!(&actions[12..12 + expected.len()], &expected[..]);
}

#[test]
fn an_unknown_shape_is_refused_after_the_window() {
    let (outcome, actions) = drive_tree(|t| draw_shape_uia(t, 5, "blob", 0, 0, 1, 1), tree_desk);
    assert_eq!(
        failure(outcome),
        "Invalid parameters: Invalid shape type: blob. Must be one of: rectangle, ellipse, line, arrow, triangle, pentagon, hexagon"
    );
    assert_eq!(actions.len(), 2);
}

#[test]
fn draw_shape_falls_back_to_the_mouse() {
    let (outcome, actions) = drive_tree(
        |t| draw_shape(t, 5, "line", 10, 20, 30, 40),
        |action| match action {
            Action::StartAutomation => Answer::Failed("no automation".to_string()),
            Action::WindowRect { .. } => {
                Answer::Rect(Rect { left: 0, top: 0, right: 1000, bottom: 800 })
            }
            Action::ClientToScreen { x, y, .. } => Answer::Position(
                mcp_server_microsoft_paint::desktop::Position { x: *x, y: *y },
            ),
            Action::Send2(_, _) => Answer::Count(2),
            other => tree_desk(other),
        },
    );
    assert!(outcome.is_ok());
    assert_eq!(actions[0], Action::StartAutomation);
    assert_eq!(&actions[1..8], &activation_of(5)[..]);
    assert_eq!(actions.len(), 1 + 7 + 16 + 14);
    assert_eq!(actions[24], Action::ClientToScreen { hwnd: 5, x: 10, y: 20 });
}

#[test]
fn draw_shape_is_done_where_the_tree_served() {
    let (outcome, actions) = drive_tree(|t| draw_shape(t, 5, "line", 10, 20, 30, 40), tree_desk);
    assert!(outcome.is_ok());
    assert_eq!(actions.len(), 2 + 7 + 6 + 14 + 2 + 2 + 13);
}

#[test]
fn draw_shape_refuses_an_unknown_shape_after_the_tool() {
    let (outcome, actions) = drive_tree(
        |t| draw_shape(t, 5, "blob", 10, 20, 30, 40),
        |action| match action {
            Action::WindowRect { .. } => {
                Answer::Rect(Rect { left: 0, top: 0, right: 1000, bottom: 800 })
            }
            Action::ClientToScreen { x, y, .. } => Answer::Position(
                mcp_server_microsoft_paint::desktop::Position { x: *x, y: *y },
            ),
            Action::Send2(_, _) => Answer::Count(2),
            other => tree_desk(other),
        },
    );
    assert_eq!(
        failure(outcome),
        "Invalid parameters: Invalid shape type: blob. Must be one of: rectangle, ellipse, line, arrow, triangle, pentagon, hexagon"
    );
    assert_eq!(actions.len(), 2 + 7 + 16);
}
