//! Driving Paint through the accessibility tree of its window: finding the
//! buttons of its tools by their names, and pressing them.
use vstd::prelude::*;

use crate::desktop::{
    ask_bounds, ask_done, ask_element, ask_elements, ask_failure, ask_flag, fit_i32, plus,
    replayed, replayed_as, Action, Answer, ClassName, ControlKind, ElementInfo, Fault, Filter,
    Halt, Keys, NamePart, Rect, Run, Transcript,
};
use crate::error::{MspMcpError, MspMcpErrorModel};
use crate::text::{
    contains, decimal, has_substring, integer_text, joined, joined3, lowercase, same_text,
    to_lowercase,
};
use crate::windows::{
    activate_paint_window, activate_paint_window_run, move_mouse_to, move_mouse_to_run,
    send_mouse_down, send_mouse_down_run, send_mouse_up, send_mouse_up_run, Outcome, Trace,
};

verus! {

/// The number of tools that the accessibility tree is searched for.
pub const TOOL_COUNT: usize = 15;

/// The names of the tools, in the order of the table.
pub open spec fn tool_id(i: int) -> Seq<char> {
    if i == 0 {
        "pencil"@
    } else if i == 1 {
        "brush"@
    } else if i == 2 {
        "fill"@
    } else if i == 3 {
        "text"@
    } else if i == 4 {
        "eraser"@
    } else if i == 5 {
        "color_picker"@
    } else if i == 6 {
        "magnifier"@
    } else if i == 7 {
        "select"@
    } else if i == 8 {
        "free_select"@
    } else if i == 9 {
        "rectangle"@
    } else if i == 10 {
        "ellipse"@
    } else if i == 11 {
        "line"@
    } else if i == 12 {
        "curve"@
    } else if i == 13 {
        "polygon"@
    } else {
        "rounded_rect"@
    }
}

/// The name of the `i`-th tool.
pub fn tool_id_at(i: usize) -> (r: &'static str)
    ensures
        r@ == tool_id(i as int),
{
    if i == 0 {
        "pencil"
    } else if i == 1 {
        "brush"
    } else if i == 2 {
        "fill"
    } else if i == 3 {
        "text"
    } else if i == 4 {
        "eraser"
    } else if i == 5 {
        "color_picker"
    } else if i == 6 {
        "magnifier"
    } else if i == 7 {
        "select"
    } else if i == 8 {
        "free_select"
    } else if i == 9 {
        "rectangle"
    } else if i == 10 {
        "ellipse"
    } else if i == 11 {
        "line"
    } else if i == 12 {
        "curve"
    } else if i == 13 {
        "polygon"
    } else {
        "rounded_rect"
    }
}

/// The number of names under which the buttons of the `i`-th tool are known.
pub open spec fn alias_count(i: int) -> int {
    if i == 0 {
        3
    } else if i == 1 {
        3
    } else if i == 2 {
        4
    } else if i == 3 {
        3
    } else if i == 4 {
        3
    } else if i == 5 {
        4
    } else if i == 6 {
        3
    } else if i == 7 {
        3
    } else if i == 8 {
        3
    } else if i == 9 {
        3
    } else if i == 10 {
        4
    } else if i == 11 {
        3
    } else if i == 12 {
        3
    } else if i == 13 {
        2
    } else {
        2
    }
}

/// The number of names under which the buttons of the `i`-th tool are known.
pub fn alias_count_at(i: usize) -> (r: usize)
    ensures
        r == alias_count(i as int),
        r <= 4,
{
    if i == 0 {
        3
    } else if i == 1 {
        3
    } else if i == 2 {
        4
    } else if i == 3 {
        3
    } else if i == 4 {
        3
    } else if i == 5 {
        4
    } else if i == 6 {
        3
    } else if i == 7 {
        3
    } else if i == 8 {
        3
    } else if i == 9 {
        3
    } else if i == 10 {
        4
    } else if i == 11 {
        3
    } else if i == 12 {
        3
    } else if i == 13 {
        2
    } else {
        2
    }
}

/// The `j`-th name under which the buttons of the `i`-th tool are known.
pub open spec fn tool_alias(i: int, j: int) -> Seq<char> {
    if i == 0 {
        if j == 0 {
            "Pencil"@
        } else if j == 1 {
            "PencilTool"@
        } else {
            "Crayon"@
        }
    } else if i == 1 {
        if j == 0 {
            "Brush"@
        } else if j == 1 {
            "BrushTool"@
        } else {
            "Paintbrush"@
        }
    } else if i == 2 {
        if j == 0 {
            "Fill"@
        } else if j == 1 {
            "FillTool"@
        } else if j == 2 {
            "Paint Bucket"@
        } else {
            "Bucket"@
        }
    } else if i == 3 {
        if j == 0 {
            "Text"@
        } else if j == 1 {
            "TextTool"@
        } else {
            "A"@
        }
    } else if i == 4 {
        if j == 0 {
            "Eraser"@
        } else if j == 1 {
            "EraserTool"@
        } else {
            "Rubber"@
        }
    } else if i == 5 {
        if j == 0 {
            "Color Picker"@
        } else if j == 1 {
            "Eyedropper"@
        } else if j == 2 {
            "Pick Color"@
        } else {
            "ColorPickerTool"@
        }
    } else if i == 6 {
        if j == 0 {
            "Magnifier"@
        } else if j == 1 {
            "ZoomTool"@
        } else {
            "Zoom"@
        }
    } else if i == 7 {
        if j == 0 {
            "Select"@
        } else if j == 1 {
            "Selection"@
        } else {
            "SelectionTool"@
        }
    } else if i == 8 {
        if j == 0 {
            "Free-Form Select"@
        } else if j == 1 {
            "Free Select"@
        } else {
            "FreeSelectTool"@
        }
    } else if i == 9 {
        if j == 0 {
            "Rectangle"@
        } else if j == 1 {
            "RectangleTool"@
        } else {
            "Square"@
        }
    } else if i == 10 {
        if j == 0 {
            "Ellipse"@
        } else if j == 1 {
            "EllipseTool"@
        } else if j == 2 {
            "Circle"@
        } else {
            "Oval"@
        }
    } else if i == 11 {
        if j == 0 {
            "Line"@
        } else if j == 1 {
            "LineTool"@
        } else {
            "Straight Line"@
        }
    } else if i == 12 {
        if j == 0 {
            "Curve"@
        } else if j == 1 {
            "CurveTool"@
        } else {
            "Curved Line"@
        }
    } else if i == 13 {
        if j == 0 {
            "Polygon"@
        } else {
            "PolygonTool"@
        }
    } else {
        if j == 0 {
            "Rounded Rectangle"@
        } else {
            "RoundedRectTool"@
        }
    }
}

/// The `j`-th name under which the buttons of the `i`-th tool are known.
pub fn tool_alias_at(i: usize, j: usize) -> (r: &'static str)
    ensures
        r@ == tool_alias(i as int, j as int),
{
    if i == 0 {
        if j == 0 {
            "Pencil"
        } else if j == 1 {
            "PencilTool"
        } else {
            "Crayon"
        }
    } else if i == 1 {
        if j == 0 {
            "Brush"
        } else if j == 1 {
            "BrushTool"
        } else {
            "Paintbrush"
        }
    } else if i == 2 {
        if j == 0 {
            "Fill"
        } else if j == 1 {
            "FillTool"
        } else if j == 2 {
            "Paint Bucket"
        } else {
            "Bucket"
        }
    } else if i == 3 {
        if j == 0 {
            "Text"
        } else if j == 1 {
            "TextTool"
        } else {
            "A"
        }
    } else if i == 4 {
        if j == 0 {
            "Eraser"
        } else if j == 1 {
            "EraserTool"
        } else {
            "Rubber"
        }
    } else if i == 5 {
        if j == 0 {
            "Color Picker"
        } else if j == 1 {
            "Eyedropper"
        } else if j == 2 {
            "Pick Color"
        } else {
            "ColorPickerTool"
        }
    } else if i == 6 {
        if j == 0 {
            "Magnifier"
        } else if j == 1 {
            "ZoomTool"
        } else {
            "Zoom"
        }
    } else if i == 7 {
        if j == 0 {
            "Select"
        } else if j == 1 {
            "Selection"
        } else {
            "SelectionTool"
        }
    } else if i == 8 {
        if j == 0 {
            "Free-Form Select"
        } else if j == 1 {
            "Free Select"
        } else {
            "FreeSelectTool"
        }
    } else if i == 9 {
        if j == 0 {
            "Rectangle"
        } else if j == 1 {
            "RectangleTool"
        } else {
            "Square"
        }
    } else if i == 10 {
        if j == 0 {
            "Ellipse"
        } else if j == 1 {
            "EllipseTool"
        } else if j == 2 {
            "Circle"
        } else {
            "Oval"
        }
    } else if i == 11 {
        if j == 0 {
            "Line"
        } else if j == 1 {
            "LineTool"
        } else {
            "Straight Line"
        }
    } else if i == 12 {
        if j == 0 {
            "Curve"
        } else if j == 1 {
            "CurveTool"
        } else {
            "Curved Line"
        }
    } else if i == 13 {
        if j == 0 {
            "Polygon"
        } else {
            "PolygonTool"
        }
    } else {
        if j == 0 {
            "Rounded Rectangle"
        } else {
            "RoundedRectTool"
        }
    }
}

/// Whether a name in lower case contains one of the names under which the
/// buttons of the `i`-th tool are known, whatever the case of letters.
pub open spec fn names_tool(lowered: Seq<char>, i: int) -> bool {
    exists|j: int| 0 <= j < alias_count(i) && has_substring(lowered, lowercase(tool_alias(i, j)))
}

/// Whether a name in lower case contains one of the names under which the
/// buttons of the `i`-th tool are known.
pub fn name_matches_tool(lowered: &str, i: usize) -> (r: bool)
    ensures
        r == names_tool(lowered@, i as int),
{
    let count = alias_count_at(i);
    let mut j: usize = 0;
    while j < count
        invariant
            j <= count,
            count == alias_count(i as int),
            forall|k: int| 0 <= k < j ==> !has_substring(lowered@, lowercase(tool_alias(i as int, k))),
        decreases count - j,
    {
        let alias = to_lowercase(tool_alias_at(i, j));
        if contains(lowered, alias.as_str()) {
            return true;
        }
        j = j + 1;
    }
    false
}

/// Whether an automation id in lower case tells of the `i`-th tool: it
/// contains one of the names of its buttons, or the name of the tool.
pub open spec fn id_names_tool(lowered: Seq<char>, i: int) -> bool {
    names_tool(lowered, i) || has_substring(lowered, lowercase(tool_id(i)))
}

/// Whether an automation id in lower case tells of the `i`-th tool.
pub fn id_matches_tool(lowered: &str, i: usize) -> (r: bool)
    ensures
        r == id_names_tool(lowered@, i as int),
{
    if name_matches_tool(lowered, i) {
        return true;
    }
    let id = to_lowercase(tool_id_at(i));
    contains(lowered, id.as_str())
}

/// The first tool from the `i`-th on that `tells` of.
pub open spec fn first_tool(tells: spec_fn(int) -> bool, i: int) -> Option<int>
    decreases TOOL_COUNT - i,
{
    if i < 0 || i >= TOOL_COUNT {
        None
    } else if tells(i) {
        Some(i)
    } else {
        first_tool(tells, i + 1)
    }
}

/// The tool that a button's name tells of: the first in the table that it names.
pub open spec fn tool_named(name: Seq<char>) -> Option<int> {
    first_tool(|i: int| names_tool(lowercase(name), i), 0)
}

/// The tool that a button's automation id tells of.
pub open spec fn tool_identified(id: Seq<char>) -> Option<int> {
    first_tool(|i: int| id_names_tool(lowercase(id), i), 0)
}

/// The tool that a button's name tells of.
pub fn tool_of_name(name: &str) -> (r: Option<usize>)
    ensures
        match r {
            Some(i) => tool_named(name@) == Some(i as int) && i < TOOL_COUNT,
            None => tool_named(name@) is None,
        },
{
    let lowered = to_lowercase(name);
    let ghost tells = |i: int| names_tool(lowercase(name@), i);
    let mut i: usize = 0;
    while i < TOOL_COUNT
        invariant
            i <= TOOL_COUNT,
            lowered@ == lowercase(name@),
            tells == |i: int| names_tool(lowercase(name@), i),
            first_tool(tells, 0) == first_tool(tells, i as int),
        decreases TOOL_COUNT - i,
    {
        if name_matches_tool(lowered.as_str(), i) {
            return Some(i);
        }
        i = i + 1;
    }
    None
}

/// The tool that a button's automation id tells of.
pub fn tool_of_id(id: &str) -> (r: Option<usize>)
    ensures
        match r {
            Some(i) => tool_identified(id@) == Some(i as int) && i < TOOL_COUNT,
            None => tool_identified(id@) is None,
        },
{
    let lowered = to_lowercase(id);
    let ghost tells = |i: int| id_names_tool(lowercase(id@), i);
    let mut i: usize = 0;
    while i < TOOL_COUNT
        invariant
            i <= TOOL_COUNT,
            lowered@ == lowercase(id@),
            tells == |i: int| id_names_tool(lowercase(id@), i),
            first_tool(tells, 0) == first_tool(tells, i as int),
        decreases TOOL_COUNT - i,
    {
        if id_matches_tool(lowered.as_str(), i) {
            return Some(i);
        }
        i = i + 1;
    }
    None
}

/// For each tool of the table, the name or automation id of its button in
/// the accessibility tree, as far as it is known.
pub struct ToolMapping {
    entries: Vec<Option<String>>,
}

/// The view of an optional name.
pub open spec fn name_view(name: Option<String>) -> Option<Seq<char>> {
    match name {
        Some(s) => Some(s@),
        None => None,
    }
}

/// A mapping that knows no button.
pub open spec fn no_entries() -> Seq<Option<Seq<char>>> {
    Seq::new(TOOL_COUNT as nat, |i: int| None::<Seq<char>>)
}

/// A mapping after a button is noted in it: where the button's name tells
/// of a tool, the tool is known by that name; and where the button has an
/// automation id that tells of a tool, that tool is known by the id. What was
/// known of these tools before is forgotten. An element that is no button
/// changes nothing.
pub open spec fn noted(entries: Seq<Option<Seq<char>>>, button: ElementInfo) -> Seq<
    Option<Seq<char>>,
> {
    if button.control != Some(ControlKind::Button) {
        entries
    } else {
        let by_name = match button.name {
            Some(name) => match tool_named(name@) {
                Some(i) => entries.update(i, Some(name@)),
                None => entries,
            },
            None => entries,
        };
        match button.automation_id {
            Some(id) => if id@.len() > 0 {
                match tool_identified(id@) {
                    Some(i) => by_name.update(i, Some(id@)),
                    None => by_name,
                }
            } else {
                by_name
            },
            None => by_name,
        }
    }
}

/// The mapping that the first `k` of these elements make, noted in their order.
pub open spec fn mapping_of(elements: Seq<ElementInfo>, k: int) -> Seq<Option<Seq<char>>>
    decreases k,
{
    if k <= 0 {
        no_entries()
    } else {
        noted(mapping_of(elements, k - 1), elements[k - 1])
    }
}

/// The tool that is listed under exactly this name, if it is known.
pub open spec fn exact_entry(entries: Seq<Option<Seq<char>>>, tool_name: Seq<char>) -> Option<int> {
    first_tool(|i: int| entries[i] is Some && tool_id(i) == tool_name, 0)
}

/// The first known tool whose name contains this name, or is contained in it.
pub open spec fn close_entry(entries: Seq<Option<Seq<char>>>, tool_name: Seq<char>) -> Option<int> {
    first_tool(
        |i: int|
            entries[i] is Some && (has_substring(tool_id(i), tool_name) || has_substring(
                tool_name,
                tool_id(i),
            )),
        0,
    )
}

/// The name by which the button of a tool is looked for: that of the tool
/// listed under exactly this name; else that of the first known tool whose
/// name contains this name or is contained in it; else the name itself.
pub open spec fn button_name(entries: Seq<Option<Seq<char>>>, tool_name: Seq<char>) -> Seq<char> {
    match exact_entry(entries, tool_name) {
        Some(i) => entries[i]->0,
        None => match close_entry(entries, tool_name) {
            Some(i) => entries[i]->0,
            None => tool_name,
        },
    }
}

impl View for ToolMapping {
    type V = Seq<Option<Seq<char>>>;

    closed spec fn view(&self) -> Seq<Option<Seq<char>>> {
        Seq::new(self.entries@.len(), |i: int| name_view(self.entries@[i]))
    }
}

impl ToolMapping {
    /// The mapping has an entry for each tool of the table.
    pub closed spec fn wf(self) -> bool {
        self.entries@.len() == TOOL_COUNT
    }

    /// A well-formed mapping has as many entries as the table has tools.
    pub proof fn lemma_wf_len(self)
        requires
            self.wf(),
        ensures
            self@.len() == TOOL_COUNT,
    {
    }

    /// A mapping that knows no button.
    pub fn new() -> (m: Self)
        ensures
            m.wf(),
            m@ == no_entries(),
    {
        let mut entries: Vec<Option<String>> = Vec::new();
        let mut i: usize = 0;
        while i < TOOL_COUNT
            invariant
                i <= TOOL_COUNT,
                entries@.len() == i,
                forall|k: int| 0 <= k < i ==> entries@[k] is None,
            decreases TOOL_COUNT - i,
        {
            entries.push(None);
            i = i + 1;
        }
        let m = ToolMapping { entries };
        assert(m@ =~= no_entries());
        m
    }

    /// Whether the mapping knows no button.
    pub fn is_empty(&self) -> (r: bool)
        requires
            self.wf(),
        ensures
            r == (forall|i: int| 0 <= i < TOOL_COUNT ==> self@[i] is None),
    {
        let mut i: usize = 0;
        while i < TOOL_COUNT
            invariant
                i <= TOOL_COUNT,
                self.entries@.len() == TOOL_COUNT,
                forall|k: int| 0 <= k < i ==> self@[k] is None,
            decreases TOOL_COUNT - i,
        {
            if self.entries[i].is_some() {
                assert(self@[i as int] is Some);
                return false;
            }
            i = i + 1;
        }
        true
    }

    /// Notes that the `i`-th tool is known by this name.
    pub fn insert(&mut self, i: usize, name: &str)
        requires
            old(self).wf(),
            i < TOOL_COUNT,
        ensures
            final(self).wf(),
            final(self)@ == old(self)@.update(i as int, Some(name@)),
    {
        self.entries.set(i, Some(String::from_str(name)));
        assert(self@ =~= old(self)@.update(i as int, Some(name@)));
    }

    /// The name by which the `i`-th tool is known.
    pub fn get(&self, i: usize) -> (r: Option<&str>)
        requires
            self.wf(),
            i < TOOL_COUNT,
        ensures
            crate::desktop::text_view(r) == self@[i as int],
    {
        match &self.entries[i] {
            Some(s) => Some(s.as_str()),
            None => None,
        }
    }

    /// Notes a button of the accessibility tree.
    pub fn note(&mut self, button: &ElementInfo)
        requires
            old(self).wf(),
        ensures
            final(self).wf(),
            final(self)@ == noted(old(self)@, *button),
    {
        match button.control {
            Some(ControlKind::Button) => {},
            _ => {
                return ;
            },
        }
        if let Some(name) = &button.name {
            if let Some(i) = tool_of_name(name.as_str()) {
                self.insert(i, name.as_str());
            }
        }
        if let Some(id) = &button.automation_id {
            if id.as_str().unicode_len() > 0 {
                if let Some(i) = tool_of_id(id.as_str()) {
                    self.insert(i, id.as_str());
                }
            }
        }
    }

    /// The name by which the button of a tool is looked for.
    pub fn lookup(&self, tool_name: &str) -> (r: String)
        requires
            self.wf(),
        ensures
            r@ == button_name(self@, tool_name@),
    {
        let ghost entries = self@;
        let ghost exact = |i: int| entries[i] is Some && tool_id(i) == tool_name@;
        let mut i: usize = 0;
        while i < TOOL_COUNT
            invariant
                i <= TOOL_COUNT,
                self.wf(),
                entries == self@,
                exact == |i: int| entries[i] is Some && tool_id(i) == tool_name@,
                first_tool(exact, 0) == first_tool(exact, i as int),
            decreases TOOL_COUNT - i,
        {
            if let Some(name) = self.get(i) {
                if same_text(tool_id_at(i), tool_name) {
                    return String::from_str(name);
                }
            }
            i = i + 1;
        }
        let ghost close = |i: int|
            entries[i] is Some && (has_substring(tool_id(i), tool_name@) || has_substring(
                tool_name@,
                tool_id(i),
            ));
        let mut k: usize = 0;
        while k < TOOL_COUNT
            invariant
                k <= TOOL_COUNT,
                self.wf(),
                entries == self@,
                close == |i: int|
                    entries[i] is Some && (has_substring(tool_id(i), tool_name@) || has_substring(
                        tool_name@,
                        tool_id(i),
                    )),
                first_tool(exact, 0) is None,
                exact == |i: int| entries[i] is Some && tool_id(i) == tool_name@,
                first_tool(close, 0) == first_tool(close, k as int),
            decreases TOOL_COUNT - k,
        {
            if let Some(name) = self.get(k) {
                if contains(tool_id_at(k), tool_name) || contains(tool_name, tool_id_at(k)) {
                    return String::from_str(name);
                }
            }
            k = k + 1;
        }
        String::from_str(tool_name)
    }
}

/// The mapping that these elements make.
pub fn mapping_from(elements: &Vec<ElementInfo>) -> (m: ToolMapping)
    ensures
        m.wf(),
        m@ == mapping_of(elements@, elements@.len() as int),
{
    let mut m = ToolMapping::new();
    let mut k: usize = 0;
    while k < elements.len()
        invariant
            k <= elements.len(),
            m.wf(),
            m@ == mapping_of(elements@, k as int),
        decreases elements.len() - k,
    {
        m.note(&elements[k]);
        k = k + 1;
    }
    m
}

/// The first element from index `i` on that `take` accepts.
pub open spec fn first_element(
    elements: Seq<ElementInfo>,
    take: spec_fn(ElementInfo) -> bool,
    i: int,
) -> Option<u32>
    decreases elements.len() - i,
{
    if i < 0 || i >= elements.len() {
        None
    } else if take(elements[i]) {
        Some(elements[i].id)
    } else {
        first_element(elements, take, i + 1)
    }
}

/// Whether an element is a button.
pub open spec fn is_button(e: ElementInfo) -> bool {
    e.control == Some(ControlKind::Button)
}

/// Whether an element is a button.
pub fn button(e: &ElementInfo) -> (r: bool)
    ensures
        r == is_button(*e),
{
    match e.control {
        Some(ControlKind::Button) => true,
        _ => false,
    }
}

/// Whether two names in lower case are alike: one contains the other.
pub open spec fn alike(x: Seq<char>, y: Seq<char>) -> bool {
    has_substring(x, y) || has_substring(y, x)
}

/// Whether an element is the button of a tool: it is a button, and its name
/// and `uia_name` are alike, or it has an automation id and that and
/// `tool_name` are alike, whatever the case of letters.
pub open spec fn is_tool_button(e: ElementInfo, uia_name: Seq<char>, tool_name: Seq<char>) -> bool {
    &&& is_button(e)
    &&& ({
        ||| e.name matches Some(name) && alike(lowercase(name@), lowercase(uia_name))
        ||| e.automation_id matches Some(id) && id@.len() > 0 && alike(
            lowercase(id@),
            lowercase(tool_name),
        )
    })
}

/// Whether an element is the button of a tool.
pub fn tool_button(e: &ElementInfo, uia_name: &str, tool_name: &str) -> (r: bool)
    ensures
        r == is_tool_button(*e, uia_name@, tool_name@),
{
    if !button(e) {
        return false;
    }
    if let Some(name) = &e.name {
        let name_lower = to_lowercase(name.as_str());
        let tool_lower = to_lowercase(uia_name);
        if contains(name_lower.as_str(), tool_lower.as_str()) || contains(
            tool_lower.as_str(),
            name_lower.as_str(),
        ) {
            return true;
        }
    }
    if let Some(id) = &e.automation_id {
        if id.as_str().unicode_len() > 0 {
            let id_lower = to_lowercase(id.as_str());
            let tool_lower = to_lowercase(tool_name);
            if contains(id_lower.as_str(), tool_lower.as_str()) || contains(
                tool_lower.as_str(),
                id_lower.as_str(),
            ) {
                return true;
            }
        }
    }
    false
}

/// The first of the elements that is the button of a tool.
pub fn find_button(elements: &Vec<ElementInfo>, uia_name: &str, tool_name: &str) -> (r: Option<u32>)
    ensures
        r == first_element(
            elements@,
            |e: ElementInfo| is_tool_button(e, uia_name@, tool_name@),
            0,
        ),
{
    let ghost take = |e: ElementInfo| is_tool_button(e, uia_name@, tool_name@);
    let mut i: usize = 0;
    while i < elements.len()
        invariant
            i <= elements.len(),
            take == |e: ElementInfo| is_tool_button(e, uia_name@, tool_name@),
            first_element(elements@, take, 0) == first_element(elements@, take, i as int),
        decreases elements.len() - i,
    {
        if tool_button(&elements[i], uia_name, tool_name) {
            return Some(elements[i].id);
        }
        i = i + 1;
    }
    None
}


/// The error of a call of the accessibility API: `prefix`, then what the
/// call's own error prints.
pub fn api_failure(prefix: &str, text: &str) -> (e: MspMcpError)
    ensures
        e@ == MspMcpErrorModel::WindowsApiError(prefix@ + text@),
{
    MspMcpError::WindowsApiError(joined(prefix, text))
}

/// The error of an element that was not found.
pub fn not_found(what: &str) -> (e: MspMcpError)
    ensures
        e@ == MspMcpErrorModel::ElementNotFound(what@),
{
    MspMcpError::ElementNotFound(String::from_str(what))
}

/// How long a search for one element may take, in milliseconds.
pub const SEARCH_TIMEOUT: u64 = 2000;

/// [`initialize_uia`]: one call that starts the accessibility client.
pub open spec fn initialize_uia_run(a: Seq<Answer>, p: nat) -> Trace<()> {
    ask_failure(a, p, Action::StartAutomation).and_next(
        |failed: Option<Seq<char>>, p: nat|
            match failed {
                Some(text) => Run::fail(
                    MspMcpErrorModel::WindowsApiError(
                        "Failed to initialize UI Automation: "@ + text,
                    ),
                    p,
                ),
                None => Run::value((), p),
            },
    )
}

/// Starts the accessibility client, which every other function here needs.
pub fn initialize_uia(t: &mut Transcript) -> (r: Outcome<()>)
    ensures
        replayed(*old(t), *final(t), r, initialize_uia_run(old(t).answers@, old(t).pos as nat)),
{
    match t.failure(Action::StartAutomation)? {
        Some(err) => Err(Halt::Failed(api_failure("Failed to initialize UI Automation: ", err))),
        None => Ok(()),
    }
}

/// The element of the window; where there is none, the error begins with `prefix`.
pub open spec fn window_element_run(a: Seq<Answer>, p: nat, hwnd: isize, prefix: Seq<char>) -> Trace<
    u32,
> {
    ask_element(a, p, Action::ElementOfWindow { hwnd }).and_next(
        |found: Result<u32, Seq<char>>, p: nat|
            match found {
                Ok(window) => Run::value(window, p),
                Err(text) => Run::fail(MspMcpErrorModel::WindowsApiError(prefix + text), p),
            },
    )
}

/// The element of the window in the accessibility tree.
pub fn window_element(t: &mut Transcript, hwnd: isize, prefix: &str) -> (r: Outcome<u32>)
    ensures
        replayed(
            *old(t),
            *final(t),
            r,
            window_element_run(old(t).answers@, old(t).pos as nat, hwnd, prefix@),
        ),
{
    match t.element(Action::ElementOfWindow { hwnd })? {
        Ok(window) => Ok(window),
        Err(err) => Err(Halt::Failed(api_failure(prefix, err))),
    }
}

/// The first element below `root` that passes `filter`, if one is found in time.
pub open spec fn find_first_run(a: Seq<Answer>, p: nat, root: u32, filter: Filter) -> Trace<
    Option<u32>,
> {
    ask_element(a, p, Action::FindFirst { root, filter, timeout: SEARCH_TIMEOUT }).and_next(
        |found: Result<u32, Seq<char>>, p: nat|
            match found {
                Ok(element) => Run::value(Some(element), p),
                Err(_) => Run::value(None, p),
            },
    )
}

/// The first element below `root` that passes `filter`.
pub fn find_first(t: &mut Transcript, root: u32, filter: Filter) -> (r: Outcome<Option<u32>>)
    ensures
        replayed(
            *old(t),
            *final(t),
            r,
            find_first_run(old(t).answers@, old(t).pos as nat, root, filter),
        ),
{
    match t.element(Action::FindFirst { root, filter, timeout: SEARCH_TIMEOUT })? {
        Ok(element) => Ok(Some(element)),
        Err(_) => Ok(None),
    }
}

/// [`get_paint_ribbon`]: the first pane below the element of the window.
pub open spec fn get_paint_ribbon_run(a: Seq<Answer>, p: nat, hwnd: isize) -> Trace<u32> {
    window_element_run(a, p, hwnd, "Failed to get Paint window element: "@).and_next(
        |window: u32, p: nat|
            find_first_run(a, p, window, Filter::Control(ControlKind::Pane)).and_next(
                |found: Option<u32>, p: nat|
                    match found {
                        Some(ribbon) => Run::value(ribbon, p),
                        None => Run::fail(MspMcpErrorModel::ElementNotFound("Paint ribbon"@), p),
                    },
            ),
    )
}

/// The ribbon of the Paint window.
pub fn get_paint_ribbon(t: &mut Transcript, hwnd: isize) -> (r: Outcome<u32>)
    ensures
        replayed(
            *old(t),
            *final(t),
            r,
            get_paint_ribbon_run(old(t).answers@, old(t).pos as nat, hwnd),
        ),
{
    let window = window_element(t, hwnd, "Failed to get Paint window element: ")?;
    match find_first(t, window, Filter::Control(ControlKind::Pane))? {
        Some(ribbon) => Ok(ribbon),
        None => Err(Halt::Failed(not_found("Paint ribbon"))),
    }
}

/// [`get_tools_container`]: the first tool bar below the ribbon, or else the
/// first pane below it.
pub open spec fn get_tools_container_run(a: Seq<Answer>, p: nat, hwnd: isize) -> Trace<u32> {
    get_paint_ribbon_run(a, p, hwnd).and_next(
        |ribbon: u32, p: nat|
            find_first_run(a, p, ribbon, Filter::Control(ControlKind::ToolBar)).and_next(
                |found: Option<u32>, p: nat|
                    match found {
                        Some(toolbar) => Run::value(toolbar, p),
                        None => find_first_run(
                            a,
                            p,
                            ribbon,
                            Filter::Control(ControlKind::Pane),
                        ).and_next(
                            |found: Option<u32>, p: nat|
                                match found {
                                    Some(pane) => Run::value(pane, p),
                                    None => Run::fail(
                                        MspMcpErrorModel::ElementNotFound(
                                            "Paint tools container"@,
                                        ),
                                        p,
                                    ),
                                },
                        ),
                    },
            ),
    )
}

/// The element that holds the buttons of the tools.
pub fn get_tools_container(t: &mut Transcript, hwnd: isize) -> (r: Outcome<u32>)
    ensures
        replayed(
            *old(t),
            *final(t),
            r,
            get_tools_container_run(old(t).answers@, old(t).pos as nat, hwnd),
        ),
{
    let ribbon = get_paint_ribbon(t, hwnd)?;
    match find_first(t, ribbon, Filter::Control(ControlKind::ToolBar))? {
        Some(toolbar) => Ok(toolbar),
        None => match find_first(t, ribbon, Filter::Control(ControlKind::Pane))? {
            Some(pane) => Ok(pane),
            None => Err(Halt::Failed(not_found("Paint tools container"))),
        },
    }
}

/// All elements below `root`: the condition that every element meets is
/// made, and the subtree is searched with it.
pub open spec fn descendants_run(a: Seq<Answer>, p: nat, root: u32) -> Trace<Seq<ElementInfo>> {
    ask_failure(a, p, Action::TrueCondition).and_next(
        |failed: Option<Seq<char>>, p: nat|
            match failed {
                Some(text) => Run::fail(
                    MspMcpErrorModel::WindowsApiError("Failed to create UICondition: "@ + text),
                    p,
                ),
                None => ask_elements(a, p, Action::Descendants { root }).and_next(
                    |found: Result<Seq<ElementInfo>, Seq<char>>, p: nat|
                        match found {
                            Ok(elements) => Run::value(elements, p),
                            Err(text) => Run::fail(
                                MspMcpErrorModel::WindowsApiError(
                                    "Error finding elements: "@ + text,
                                ),
                                p,
                            ),
                        },
                ),
            },
    )
}

/// All elements below `root`.
pub fn descendants<'a>(t: &mut Transcript<'a>, root: u32) -> (r: Outcome<&'a Vec<ElementInfo>>)
    ensures
        replayed_as(
            *old(t),
            *final(t),
            r,
            descendants_run(old(t).answers@, old(t).pos as nat, root),
            |v: &Vec<ElementInfo>| v@,
        ),
{
    if let Some(err) = t.failure(Action::TrueCondition)? {
        return Err(Halt::Failed(api_failure("Failed to create UICondition: ", err)));
    }
    match t.elements(Action::Descendants { root })? {
        Ok(elements) => Ok(elements),
        Err(err) => Err(Halt::Failed(api_failure("Error finding elements: ", err))),
    }
}

/// The element below which the buttons of the tools are looked for: the
/// container of the tools, or else the window itself.
pub open spec fn tools_root_run(a: Seq<Answer>, p: nat, hwnd: isize, prefix: Seq<char>) -> Trace<
    u32,
> {
    get_tools_container_run(a, p, hwnd).recover(
        |e: MspMcpErrorModel, p: nat| window_element_run(a, p, hwnd, prefix),
    )
}

/// The element below which the buttons of the tools are looked for.
pub fn tools_root(t: &mut Transcript, hwnd: isize, prefix: &str) -> (r: Outcome<u32>)
    ensures
        replayed(
            *old(t),
            *final(t),
            r,
            tools_root_run(old(t).answers@, old(t).pos as nat, hwnd, prefix@),
        ),
{
    match get_tools_container(t, hwnd) {
        Ok(container) => Ok(container),
        Err(Halt::Failed(_)) => window_element(t, hwnd, prefix),
        Err(h) => Err(h),
    }
}

/// [`build_tool_mapping`]: the mapping that the elements below the
/// container of the tools make.
pub open spec fn build_tool_mapping_run(a: Seq<Answer>, p: nat, hwnd: isize) -> Trace<
    Seq<Option<Seq<char>>>,
> {
    tools_root_run(
        a,
        p,
        hwnd,
        "Failed to get Paint window element for tool mapping: "@,
    ).and_next(
        |root: u32, p: nat|
            descendants_run(a, p, root).and_next(
                |elements: Seq<ElementInfo>, p: nat|
                    Run::value(mapping_of(elements, elements.len() as int), p),
            ),
    )
}

/// Finds out by what names the buttons of the tools are known in the
/// accessibility tree.
pub fn build_tool_mapping(t: &mut Transcript, hwnd: isize) -> (r: Outcome<ToolMapping>)
    ensures
        replayed_as(
            *old(t),
            *final(t),
            r,
            build_tool_mapping_run(old(t).answers@, old(t).pos as nat, hwnd),
            |m: ToolMapping| m@,
        ),
        r matches Ok(m) ==> m.wf(),
{
    let tools_container = tools_root(
        t,
        hwnd,
        "Failed to get Paint window element for tool mapping: ",
    )?;
    let all_elements = descendants(t, tools_container)?;
    Ok(mapping_from(all_elements))
}

/// Whether a mapping knows a button.
pub open spec fn knows_a_button(entries: Seq<Option<Seq<char>>>) -> bool {
    exists|i: int| 0 <= i < TOOL_COUNT && entries[i] is Some
}

/// [`get_tool_mapping`]: the mapping that is kept, if it knows a button;
/// else the mapping that is built.
pub open spec fn get_tool_mapping_run(
    kept: Option<Seq<Option<Seq<char>>>>,
    a: Seq<Answer>,
    p: nat,
    hwnd: isize,
) -> Trace<Seq<Option<Seq<char>>>> {
    match kept {
        Some(entries) => if knows_a_button(entries) {
            Run::value(entries, p)
        } else {
            build_tool_mapping_run(a, p, hwnd)
        },
        None => build_tool_mapping_run(a, p, hwnd),
    }
}

/// The view of a mapping that may be kept.
pub open spec fn kept_view(cache: Option<ToolMapping>) -> Option<Seq<Option<Seq<char>>>> {
    match cache {
        Some(m) => Some(m@),
        None => None,
    }
}

/// Whether a mapping that may be kept is well-formed.
pub open spec fn kept_wf(cache: Option<ToolMapping>) -> bool {
    match cache {
        Some(m) => m.wf(),
        None => true,
    }
}

/// Makes sure that `cache` holds a mapping that knows a button, or the one
/// that was built for want of one. Where none can be built, `cache` stays as
/// it is.
pub fn get_tool_mapping(cache: &mut Option<ToolMapping>, t: &mut Transcript, hwnd: isize) -> (r:
    Outcome<()>)
    requires
        kept_wf(*old(cache)),
    ensures
        kept_wf(*final(cache)),
        replayed_as(
            *old(t),
            *final(t),
            r,
            get_tool_mapping_run(kept_view(*old(cache)), old(t).answers@, old(t).pos as nat, hwnd),
            |u: ()| kept_view(*final(cache))->0,
        ),
        r is Ok ==> *final(cache) is Some,
        r is Err ==> *final(cache) == *old(cache),
{
    if let Some(mapping) = &*cache {
        if !mapping.is_empty() {
            proof {
                mapping.lemma_wf_len();
            }
            return Ok(());
        }
    }
    let mapping = build_tool_mapping(t, hwnd)?;
    *cache = Some(mapping);
    Ok(())
}

/// [`find_tool_button`]: gets the mapping and the name by which the button
/// is looked for; lists the elements below the container of the tools; and
/// returns the first that is the button of the tool.
pub open spec fn find_tool_button_run(
    kept: Option<Seq<Option<Seq<char>>>>,
    a: Seq<Answer>,
    p: nat,
    hwnd: isize,
    tool_name: Seq<char>,
) -> Trace<u32> {
    get_tool_mapping_run(kept, a, p, hwnd).and_next(
        |entries: Seq<Option<Seq<char>>>, p: nat|
            tools_root_run(a, p, hwnd, "Failed to get Paint window element: "@).and_next(
                |root: u32, p: nat|
                    descendants_run(a, p, root).and_next(
                        |elements: Seq<ElementInfo>, p: nat|
                            match first_element(
                                elements,
                                |e: ElementInfo|
                                    is_tool_button(e, button_name(entries, tool_name), tool_name),
                                0,
                            ) {
                                Some(button) => Run::value(button, p),
                                None => Run::fail(
                                    MspMcpErrorModel::ElementNotFound(
                                        "Tool button '"@ + tool_name + "'"@,
                                    ),
                                    p,
                                ),
                            },
                    ),
            ),
    )
}

/// The mapping that `cache` holds after [`get_tool_mapping`].
pub open spec fn kept_after(
    kept: Option<Seq<Option<Seq<char>>>>,
    a: Seq<Answer>,
    p: nat,
    hwnd: isize,
) -> Option<Seq<Option<Seq<char>>>> {
    match get_tool_mapping_run(kept, a, p, hwnd).result {
        Ok(entries) => Some(entries),
        Err(_) => kept,
    }
}

/// Finds the button of a tool in the accessibility tree.
pub fn find_tool_button(
    cache: &mut Option<ToolMapping>,
    t: &mut Transcript,
    hwnd: isize,
    tool_name: &str,
) -> (r: Outcome<u32>)
    requires
        kept_wf(*old(cache)),
    ensures
        kept_wf(*final(cache)),
        kept_view(*final(cache)) == kept_after(
            kept_view(*old(cache)),
            old(t).answers@,
            old(t).pos as nat,
            hwnd,
        ),
        replayed(
            *old(t),
            *final(t),
            r,
            find_tool_button_run(
                kept_view(*old(cache)),
                old(t).answers@,
                old(t).pos as nat,
                hwnd,
                tool_name@,
            ),
        ),
{
    get_tool_mapping(cache, t, hwnd)?;
    let tool_uia_name = match &*cache {
        Some(mapping) => mapping.lookup(tool_name),
        None => String::from_str(tool_name),
    };
    let container = tools_root(t, hwnd, "Failed to get Paint window element: ")?;
    let all_elements = descendants(t, container)?;
    match find_button(all_elements, tool_uia_name.as_str(), tool_name) {
        Some(button) => Ok(button),
        None => Err(
            Halt::Failed(
                MspMcpError::ElementNotFound(joined3("Tool button '", tool_name, "'")),
            ),
        ),
    }
}

/// A button is pressed: by its invoke pattern where it has one, else by a
/// space sent to it. The error of the one begins with `invoke_prefix`, that
/// of the other with `keys_prefix`.
pub open spec fn press_run(
    a: Seq<Answer>,
    p: nat,
    element: u32,
    invoke_prefix: Seq<char>,
    keys_prefix: Seq<char>,
) -> Trace<()> {
    ask_flag(a, p, Action::InvokePattern { element }).and_next(
        |invocable: bool, p: nat|
            if invocable {
                ask_failure(a, p, Action::Invoke { element }).and_next(
                    |failed: Option<Seq<char>>, p: nat|
                        match failed {
                            Some(text) => Run::fail(
                                MspMcpErrorModel::WindowsApiError(invoke_prefix + text),
                                p,
                            ),
                            None => Run::value((), p),
                        },
                )
            } else {
                ask_failure(
                    a,
                    p,
                    Action::SendKeys { element, keys: Keys::Space, interval: 10 },
                ).and_next(
                    |failed: Option<Seq<char>>, p: nat|
                        match failed {
                            Some(text) => Run::fail(
                                MspMcpErrorModel::WindowsApiError(keys_prefix + text),
                                p,
                            ),
                            None => Run::value((), p),
                        },
                )
            },
    )
}

/// Presses a button of the accessibility tree.
pub fn press(t: &mut Transcript, element: u32, invoke_prefix: &str, keys_prefix: &str) -> (r:
    Outcome<()>)
    ensures
        replayed(
            *old(t),
            *final(t),
            r,
            press_run(old(t).answers@, old(t).pos as nat, element, invoke_prefix@, keys_prefix@),
        ),
{
    let invocable = t.flag(Action::InvokePattern { element })?;
    if invocable {
        match t.failure(Action::Invoke { element })? {
            Some(err) => Err(Halt::Failed(api_failure(invoke_prefix, err))),
            None => Ok(()),
        }
    } else {
        match t.failure(Action::SendKeys { element, keys: Keys::Space, interval: 10 })? {
            Some(err) => Err(Halt::Failed(api_failure(keys_prefix, err))),
            None => Ok(()),
        }
    }
}

/// [`select_tool_uia`]: starts the client, finds the button of the tool and
/// presses it.
pub open spec fn select_tool_uia_run(
    kept: Option<Seq<Option<Seq<char>>>>,
    a: Seq<Answer>,
    p: nat,
    hwnd: isize,
    tool_name: Seq<char>,
) -> Trace<()> {
    initialize_uia_run(a, p).and_next(
        |u: (), p: nat|
            find_tool_button_run(kept, a, p, hwnd, tool_name).and_next(
                |button: u32, p: nat|
                    press_run(
                        a,
                        p,
                        button,
                        "Error invoking tool button '"@ + tool_name + "': "@,
                        "Failed to activate tool button '"@ + tool_name + "': "@,
                    ),
            ),
    )
}

/// The mapping that `cache` holds after [`select_tool_uia`].
pub open spec fn kept_after_select(
    kept: Option<Seq<Option<Seq<char>>>>,
    a: Seq<Answer>,
    p: nat,
    hwnd: isize,
) -> Option<Seq<Option<Seq<char>>>> {
    let started = initialize_uia_run(a, p);
    match started.result {
        Ok(_) => kept_after(kept, a, started.pos, hwnd),
        Err(_) => kept,
    }
}

/// Selects a tool by pressing its button in the accessibility tree.
pub fn select_tool_uia(
    cache: &mut Option<ToolMapping>,
    t: &mut Transcript,
    hwnd: isize,
    tool_name: &str,
) -> (r: Outcome<()>)
    requires
        kept_wf(*old(cache)),
    ensures
        kept_wf(*final(cache)),
        kept_view(*final(cache)) == kept_after_select(
            kept_view(*old(cache)),
            old(t).answers@,
            old(t).pos as nat,
            hwnd,
        ),
        replayed(
            *old(t),
            *final(t),
            r,
            select_tool_uia_run(
                kept_view(*old(cache)),
                old(t).answers@,
                old(t).pos as nat,
                hwnd,
                tool_name@,
            ),
        ),
{
    initialize_uia(t)?;
    let button = find_tool_button(cache, t, hwnd, tool_name)?;
    let invoke_prefix = joined3("Error invoking tool button '", tool_name, "': ");
    let keys_prefix = joined3("Failed to activate tool button '", tool_name, "': ");
    press(t, button, invoke_prefix.as_str(), keys_prefix.as_str())
}


/// A section of the window: the first element whose name contains `part`,
/// or else the first of the class `class`; where neither is found, `missing`
/// is not found.
pub open spec fn section_run(
    a: Seq<Answer>,
    p: nat,
    window: u32,
    part: NamePart,
    class: ClassName,
    missing: Seq<char>,
) -> Trace<u32> {
    find_first_run(a, p, window, Filter::NameContains(part)).and_next(
        |found: Option<u32>, p: nat|
            match found {
                Some(section) => Run::value(section, p),
                None => find_first_run(a, p, window, Filter::Class(class)).and_next(
                    |found: Option<u32>, p: nat|
                        match found {
                            Some(section) => Run::value(section, p),
                            None => Run::fail(MspMcpErrorModel::ElementNotFound(missing), p),
                        },
                ),
            },
    )
}

/// A section of the window, by a part of its name or else by its class.
pub fn section(t: &mut Transcript, window: u32, part: NamePart, class: ClassName, missing: &str) -> (r:
    Outcome<u32>)
    ensures
        replayed(
            *old(t),
            *final(t),
            r,
            section_run(old(t).answers@, old(t).pos as nat, window, part, class, missing@),
        ),
{
    match find_first(t, window, Filter::NameContains(part))? {
        Some(section) => Ok(section),
        None => match find_first(t, window, Filter::Class(class))? {
            Some(section) => Ok(section),
            None => Err(Halt::Failed(not_found(missing))),
        },
    }
}

/// What the functions that set something do first: they start the client,
/// take the element of the window, find the section and list what is in it.
pub open spec fn section_elements_run(
    a: Seq<Answer>,
    p: nat,
    hwnd: isize,
    part: NamePart,
    class: ClassName,
    missing: Seq<char>,
) -> Trace<Seq<ElementInfo>> {
    initialize_uia_run(a, p).and_next(
        |u: (), p: nat|
            window_element_run(a, p, hwnd, "Failed to get Paint window element: "@).and_next(
                |window: u32, p: nat|
                    section_run(a, p, window, part, class, missing).and_next(
                        |section: u32, p: nat| descendants_run(a, p, section),
                    ),
            ),
    )
}

/// The elements of a section of the window.
pub fn section_elements<'a>(
    t: &mut Transcript<'a>,
    hwnd: isize,
    part: NamePart,
    class: ClassName,
    missing: &str,
) -> (r: Outcome<&'a Vec<ElementInfo>>)
    ensures
        replayed_as(
            *old(t),
            *final(t),
            r,
            section_elements_run(old(t).answers@, old(t).pos as nat, hwnd, part, class, missing@),
            |v: &Vec<ElementInfo>| v@,
        ),
{
    initialize_uia(t)?;
    let window = window_element(t, hwnd, "Failed to get Paint window element: ")?;
    let found = section(t, window, part, class, missing)?;
    descendants(t, found)
}

/// Whether an element is the button that opens the colour dialog: a button
/// whose name contains `more color` or `edit color`, whatever the case of
/// letters.
pub open spec fn is_more_colors(e: ElementInfo) -> bool {
    &&& is_button(e)
    &&& e.name matches Some(name)
    &&& (has_substring(lowercase(name@), "more color"@) || has_substring(
        lowercase(name@),
        "edit color"@,
    ))
}

/// Whether an element is the button that opens the colour dialog.
pub fn more_colors(e: &ElementInfo) -> (r: bool)
    ensures
        r == is_more_colors(*e),
{
    if !button(e) {
        return false;
    }
    match &e.name {
        Some(name) => {
            let name_lower = to_lowercase(name.as_str());
            contains(name_lower.as_str(), "more color") || contains(
                name_lower.as_str(),
                "edit color",
            )
        },
        None => false,
    }
}

/// The first of the elements that opens the colour dialog.
pub fn find_more_colors(elements: &Vec<ElementInfo>) -> (r: Option<u32>)
    ensures
        r == first_element(elements@, |e: ElementInfo| is_more_colors(e), 0),
{
    let ghost take = |e: ElementInfo| is_more_colors(e);
    let mut i: usize = 0;
    while i < elements.len()
        invariant
            i <= elements.len(),
            take == |e: ElementInfo| is_more_colors(e),
            first_element(elements@, take, 0) == first_element(elements@, take, i as int),
        decreases elements.len() - i,
    {
        if more_colors(&elements[i]) {
            return Some(elements[i].id);
        }
        i = i + 1;
    }
    None
}

/// [`set_color_uia`]: lists the elements of the colour section and presses
/// the button that opens the colour dialog; waits 500 ms; sends Escape to
/// the window, which closes the dialog; and fails, because it cannot yet
/// choose the colour there.
pub open spec fn set_color_uia_run(a: Seq<Answer>, p: nat, hwnd: isize) -> Trace<()> {
    section_elements_run(
        a,
        p,
        hwnd,
        NamePart::Colors,
        ClassName::ColorPicker,
        "Color picker section"@,
    ).and_next(
        |elements: Seq<ElementInfo>, p: nat|
            match first_element(elements, |e: ElementInfo| is_more_colors(e), 0) {
                None => Run::fail(MspMcpErrorModel::ElementNotFound("More colors button"@), p),
                Some(button) => press_run(
                    a,
                    p,
                    button,
                    "Error invoking 'More colors' button: "@,
                    "Failed to activate 'More colors' button: "@,
                ).and_next(|u: (), p: nat| close_dialog_run(a, p, hwnd)),
            },
    )
}

/// The second half of [`set_color_uia`], from the open dialog on.
pub open spec fn close_dialog_run(a: Seq<Answer>, p: nat, hwnd: isize) -> Trace<()> {
    ask_done(a, p, Action::Sleep { millis: 500 }).and_next(
        |u: (), p: nat|
            window_element_run(a, p, hwnd, "Failed to get window element: "@).and_next(
                |window: u32, p: nat|
                    ask_failure(
                        a,
                        p,
                        Action::SendKeys { element: window, keys: Keys::Escape, interval: 10 },
                    ).and_next(
                        |failed: Option<Seq<char>>, p: nat|
                            match failed {
                                Some(text) => Run::fail(
                                    MspMcpErrorModel::WindowsApiError(
                                        "Failed to send Escape key: "@ + text,
                                    ),
                                    p,
                                ),
                                None => Run::fail(
                                    MspMcpErrorModel::OperationNotSupported(
                                        "Full color selection via UI Automation not implemented yet"@,
                                    ),
                                    p,
                                ),
                            },
                    ),
            ),
    )
}

/// Sets the colour through the colour dialog. The dialog is opened and
/// closed; the colour cannot yet be chosen in it, so this always fails.
pub fn set_color_uia(t: &mut Transcript, hwnd: isize, color_hex: &str) -> (r: Outcome<()>)
    ensures
        replayed(*old(t), *final(t), r, set_color_uia_run(old(t).answers@, old(t).pos as nat, hwnd)),
{
    let all_elements = section_elements(
        t,
        hwnd,
        NamePart::Colors,
        ClassName::ColorPicker,
        "Color picker section",
    )?;
    let more_colors_button = match find_more_colors(all_elements) {
        Some(button) => button,
        None => {
            return Err(Halt::Failed(not_found("More colors button")));
        },
    };
    press(
        t,
        more_colors_button,
        "Error invoking 'More colors' button: ",
        "Failed to activate 'More colors' button: ",
    )?;
    t.sleep(500)?;
    let window_element = window_element(t, hwnd, "Failed to get window element: ")?;
    if let Some(e) = t.failure(
        Action::SendKeys { element: window_element, keys: Keys::Escape, interval: 10 },
    )? {
        return Err(Halt::Failed(api_failure("Failed to send Escape key: ", e)));
    }
    Err(
        Halt::Failed(
            MspMcpError::OperationNotSupported(
                String::from_str("Full color selection via UI Automation not implemented yet"),
            ),
        ),
    )
}

/// The buttons among the first `k` elements, in their order.
pub open spec fn buttons_of(elements: Seq<ElementInfo>, k: int) -> Seq<u32>
    decreases k,
{
    if k <= 0 {
        Seq::empty()
    } else if is_button(elements[k - 1]) {
        buttons_of(elements, k - 1).push(elements[k - 1].id)
    } else {
        buttons_of(elements, k - 1)
    }
}

/// The buttons among the elements, in their order.
pub fn buttons(elements: &Vec<ElementInfo>) -> (r: Vec<u32>)
    ensures
        r@ == buttons_of(elements@, elements@.len() as int),
{
    let mut r: Vec<u32> = Vec::new();
    let mut k: usize = 0;
    while k < elements.len()
        invariant
            k <= elements.len(),
            r@ == buttons_of(elements@, k as int),
        decreases elements.len() - k,
    {
        if button(&elements[k]) {
            r.push(elements[k].id);
        }
        k = k + 1;
    }
    r
}

/// [`set_thickness_uia`]: lists the elements of the size section, and
/// presses the button of the level, counted from 1 among the buttons. A
/// level of zero is a fault.
pub open spec fn set_thickness_uia_run(a: Seq<Answer>, p: nat, hwnd: isize, level: u32) -> Trace<()> {
    section_elements_run(
        a,
        p,
        hwnd,
        NamePart::Size,
        ClassName::SizePanel,
        "Thickness/size section"@,
    ).and_next(
        |elements: Seq<ElementInfo>, p: nat|
            {
                let found = buttons_of(elements, elements.len() as int);
                if level == 0 {
                    Run::fault(Fault::Overflow, p)
                } else if found.len() <= level - 1 {
                    Run::fail(
                        MspMcpErrorModel::ElementNotFound(
                            "Thickness button for level "@ + decimal(level as int),
                        ),
                        p,
                    )
                } else {
                    press_run(
                        a,
                        p,
                        found[level - 1],
                        "Error invoking thickness button: "@,
                        "Failed to activate thickness button: "@,
                    )
                }
            },
    )
}

/// Sets the thickness of lines by pressing its button.
pub fn set_thickness_uia(t: &mut Transcript, hwnd: isize, level: u32) -> (r: Outcome<()>)
    ensures
        replayed(
            *old(t),
            *final(t),
            r,
            set_thickness_uia_run(old(t).answers@, old(t).pos as nat, hwnd, level),
        ),
{
    let all_elements = section_elements(
        t,
        hwnd,
        NamePart::Size,
        ClassName::SizePanel,
        "Thickness/size section",
    )?;
    let found = buttons(all_elements);
    if level == 0 {
        return Err(Halt::Fault(Fault::Overflow));
    }
    let level_index = (level - 1) as usize;
    if found.len() <= level_index {
        let number = integer_text(level as i64);
        return Err(
            Halt::Failed(
                MspMcpError::ElementNotFound(joined("Thickness button for level ", number.as_str())),
            ),
        );
    }
    press(
        t,
        found[level_index],
        "Error invoking thickness button: ",
        "Failed to activate thickness button: ",
    )
}

/// The name of the button that sets a fill type, given in lower case.
pub open spec fn fill_button_name(lowered: Seq<char>) -> Option<Seq<char>> {
    if lowered == "none"@ {
        Some("No fill"@)
    } else if lowered == "solid"@ {
        Some("Solid color"@)
    } else if lowered == "outline"@ {
        Some("Outline"@)
    } else {
        None
    }
}

/// The name of the button that sets a fill type, given in lower case.
pub fn fill_button(lowered: &str) -> (r: Option<&'static str>)
    ensures
        crate::desktop::text_view(r) == fill_button_name(lowered@),
{
    if same_text(lowered, "none") {
        Some("No fill")
    } else if same_text(lowered, "solid") {
        Some("Solid color")
    } else if same_text(lowered, "outline") {
        Some("Outline")
    } else {
        None
    }
}

/// Whether an element is the button of a fill type: a button whose name
/// contains `button_name`, or whose automation id, if it has one, contains
/// the fill type, whatever the case of letters.
pub open spec fn is_fill_button(e: ElementInfo, button_name: Seq<char>, fill_type: Seq<char>) -> bool {
    &&& is_button(e)
    &&& ({
        ||| e.name matches Some(name) && has_substring(lowercase(name@), lowercase(button_name))
        ||| e.automation_id matches Some(id) && id@.len() > 0 && has_substring(
            lowercase(id@),
            lowercase(fill_type),
        )
    })
}

/// Whether an element is the button of a fill type.
pub fn fill_button_matches(e: &ElementInfo, button_name: &str, fill_type: &str) -> (r: bool)
    ensures
        r == is_fill_button(*e, button_name@, fill_type@),
{
    if !button(e) {
        return false;
    }
    if let Some(name) = &e.name {
        let name_lower = to_lowercase(name.as_str());
        let button_name_lower = to_lowercase(button_name);
        if contains(name_lower.as_str(), button_name_lower.as_str()) {
            return true;
        }
    }
    if let Some(id) = &e.automation_id {
        if id.as_str().unicode_len() > 0 {
            let id_lower = to_lowercase(id.as_str());
            let fill_type_lower = to_lowercase(fill_type);
            if contains(id_lower.as_str(), fill_type_lower.as_str()) {
                return true;
            }
        }
    }
    false
}

/// The first of the elements that is the button of the fill type.
pub fn find_fill_button(elements: &Vec<ElementInfo>, button_name: &str, fill_type: &str) -> (r:
    Option<u32>)
    ensures
        r == first_element(
            elements@,
            |e: ElementInfo| is_fill_button(e, button_name@, fill_type@),
            0,
        ),
{
    let ghost take = |e: ElementInfo| is_fill_button(e, button_name@, fill_type@);
    let mut i: usize = 0;
    while i < elements.len()
        invariant
            i <= elements.len(),
            take == |e: ElementInfo| is_fill_button(e, button_name@, fill_type@),
            first_element(elements@, take, 0) == first_element(elements@, take, i as int),
        decreases elements.len() - i,
    {
        if fill_button_matches(&elements[i], button_name, fill_type) {
            return Some(elements[i].id);
        }
        i = i + 1;
    }
    None
}

/// [`set_fill_uia`]: lists the elements of the fill section; refuses a fill
/// type that is none of `none`, `solid` and `outline` in any case of
/// letters; and presses the first button of the fill type.
pub open spec fn set_fill_uia_run(a: Seq<Answer>, p: nat, hwnd: isize, fill_type: Seq<char>) -> Trace<
    (),
> {
    section_elements_run(
        a,
        p,
        hwnd,
        NamePart::Fill,
        ClassName::FillPanel,
        "Fill section"@,
    ).and_next(
        |elements: Seq<ElementInfo>, p: nat|
            match fill_button_name(lowercase(fill_type)) {
                None => Run::fail(
                    MspMcpErrorModel::InvalidParameters(
                        "Invalid fill type: '"@ + fill_type
                            + "'. Must be 'none', 'solid', or 'outline'"@,
                    ),
                    p,
                ),
                Some(button_name) => match first_element(
                    elements,
                    |e: ElementInfo| is_fill_button(e, button_name, fill_type),
                    0,
                ) {
                    Some(button) => press_run(
                        a,
                        p,
                        button,
                        "Error invoking fill button: "@,
                        "Failed to activate fill button: "@,
                    ),
                    None => Run::fail(
                        MspMcpErrorModel::ElementNotFound(
                            "Button for fill type '"@ + fill_type + "'"@,
                        ),
                        p,
                    ),
                },
            },
    )
}

/// Sets how shapes are filled by pressing the button of the fill type.
pub fn set_fill_uia(t: &mut Transcript, hwnd: isize, fill_type: &str) -> (r: Outcome<()>)
    ensures
        replayed(
            *old(t),
            *final(t),
            r,
            set_fill_uia_run(old(t).answers@, old(t).pos as nat, hwnd, fill_type@),
        ),
{
    let all_elements = section_elements(
        t,
        hwnd,
        NamePart::Fill,
        ClassName::FillPanel,
        "Fill section",
    )?;
    let lowered = to_lowercase(fill_type);
    let button_name = match fill_button(lowered.as_str()) {
        Some(name) => name,
        None => {
            return Err(
                Halt::Failed(
                    MspMcpError::InvalidParameters(
                        joined3(
                            "Invalid fill type: '",
                            fill_type,
                            "'. Must be 'none', 'solid', or 'outline'",
                        ),
                    ),
                ),
            );
        },
    };
    match find_fill_button(all_elements, button_name, fill_type) {
        Some(target_button) => press(
            t,
            target_button,
            "Error invoking fill button: ",
            "Failed to activate fill button: ",
        ),
        None => Err(
            Halt::Failed(
                MspMcpError::ElementNotFound(joined3("Button for fill type '", fill_type, "'")),
            ),
        ),
    }
}


/// Whether a text in lower case names a shape that Paint draws.
pub open spec fn is_shape(lowered: Seq<char>) -> bool {
    lowered == "rectangle"@ || lowered == "ellipse"@ || lowered == "line"@ || lowered == "arrow"@
        || lowered == "triangle"@ || lowered == "pentagon"@ || lowered == "hexagon"@
}

/// Whether a text in lower case names a shape that Paint draws.
pub fn names_shape(lowered: &str) -> (r: bool)
    ensures
        r == is_shape(lowered@),
{
    same_text(lowered, "rectangle") || same_text(lowered, "ellipse") || same_text(lowered, "line")
        || same_text(lowered, "arrow") || same_text(lowered, "triangle") || same_text(
        lowered,
        "pentagon",
    ) || same_text(lowered, "hexagon")
}

/// The error for a text that names no shape.
pub open spec fn invalid_shape(shape_type: Seq<char>) -> MspMcpErrorModel {
    MspMcpErrorModel::InvalidParameters(
        "Invalid shape type: "@ + shape_type
            + ". Must be one of: rectangle, ellipse, line, arrow, triangle, pentagon, hexagon"@,
    )
}

/// The error for a text that names no shape.
pub fn shape_error(shape_type: &str) -> (e: MspMcpError)
    ensures
        e@ == invalid_shape(shape_type@),
{
    MspMcpError::InvalidParameters(
        joined3(
            "Invalid shape type: ",
            shape_type,
            ". Must be one of: rectangle, ellipse, line, arrow, triangle, pentagon, hexagon",
        ),
    )
}

/// How many steps down the list of shapes a shape lies, given in lower case:
/// the ellipse one, the line seven, the arrow nine, and every other none.
pub open spec fn shape_steps(lowered: Seq<char>) -> int {
    if lowered == "rectangle"@ {
        0
    } else if lowered == "ellipse"@ {
        1
    } else if lowered == "line"@ {
        7
    } else if lowered == "arrow"@ {
        9
    } else {
        0
    }
}

/// How many steps down the list of shapes a shape lies, given in lower case.
pub fn shape_index(lowered: &str) -> (r: u32)
    ensures
        r == shape_steps(lowered@),
{
    if same_text(lowered, "rectangle") {
        0
    } else if same_text(lowered, "ellipse") {
        1
    } else if same_text(lowered, "line") {
        7
    } else if same_text(lowered, "arrow") {
        9
    } else {
        0
    }
}

/// Whether an element is the button that opens the shapes: a button whose
/// name or automation id contains `shape`, whatever the case of letters.
pub open spec fn is_shapes_button(e: ElementInfo) -> bool {
    &&& is_button(e)
    &&& ({
        ||| e.name matches Some(name) && has_substring(lowercase(name@), "shape"@)
        ||| e.automation_id matches Some(id) && has_substring(lowercase(id@), "shape"@)
    })
}

/// Whether an element is the button that opens the shapes.
pub fn shapes_button(e: &ElementInfo) -> (r: bool)
    ensures
        r == is_shapes_button(*e),
{
    if !button(e) {
        return false;
    }
    if let Some(name) = &e.name {
        let name_lower = to_lowercase(name.as_str());
        if contains(name_lower.as_str(), "shape") {
            return true;
        }
    }
    if let Some(id) = &e.automation_id {
        let id_lower = to_lowercase(id.as_str());
        if contains(id_lower.as_str(), "shape") {
            return true;
        }
    }
    false
}

/// The first of the elements that opens the shapes.
pub fn find_shapes_button(elements: &Vec<ElementInfo>) -> (r: Option<u32>)
    ensures
        r == first_element(elements@, |e: ElementInfo| is_shapes_button(e), 0),
{
    let ghost take = |e: ElementInfo| is_shapes_button(e);
    let mut i: usize = 0;
    while i < elements.len()
        invariant
            i <= elements.len(),
            take == |e: ElementInfo| is_shapes_button(e),
            first_element(elements@, take, 0) == first_element(elements@, take, i as int),
        decreases elements.len() - i,
    {
        if shapes_button(&elements[i]) {
            return Some(elements[i].id);
        }
        i = i + 1;
    }
    None
}

/// Whether an element may be the canvas: it is a pane, and its name, if it
/// has one, contains `Canvas` or `Drawing`.
pub open spec fn may_be_canvas(e: ElementInfo) -> bool {
    &&& e.control == Some(ControlKind::Pane)
    &&& (e.name matches Some(name) ==> has_substring(name@, "Canvas"@) || has_substring(
        name@,
        "Drawing"@,
    ))
}

/// Whether an element may be the canvas.
pub fn canvas_candidate(e: &ElementInfo) -> (r: bool)
    ensures
        r == may_be_canvas(*e),
{
    match e.control {
        Some(ControlKind::Pane) => {},
        _ => {
            return false;
        },
    }
    match &e.name {
        Some(name) => contains(name.as_str(), "Canvas") || contains(name.as_str(), "Drawing"),
        None => true,
    }
}

/// The area of an element, by which the canvas is chosen: that of its
/// rectangle, and zero where it has none. It is a fault where the width, the
/// height or their product leaves `i32`.
pub open spec fn area_of(e: ElementInfo) -> Result<i32, Fault> {
    match e.bounds {
        Some(rect) => {
            let width = rect.right - rect.left;
            let height = rect.bottom - rect.top;
            if !(i32::MIN <= width <= i32::MAX) || !(i32::MIN <= height <= i32::MAX) || !(i32::MIN
                <= width * height <= i32::MAX) {
                Err(Fault::Overflow)
            } else {
                Ok((width * height) as i32)
            }
        },
        None => Ok(0),
    }
}

/// The area of an element, by which the canvas is chosen.
pub fn element_area(e: &ElementInfo) -> (r: Result<i32, Fault>)
    ensures
        r == area_of(*e),
{
    match e.bounds {
        Some(rect) => {
            let width = match rect.right.checked_sub(rect.left) {
                Some(v) => v,
                None => {
                    return Err(Fault::Overflow);
                },
            };
            let height = match rect.bottom.checked_sub(rect.top) {
                Some(v) => v,
                None => {
                    return Err(Fault::Overflow);
                },
            };
            match width.checked_mul(height) {
                Some(v) => Ok(v),
                None => Err(Fault::Overflow),
            }
        },
        None => Ok(0),
    }
}

/// The canvas among the first `k` elements: of those that may be the canvas,
/// the one with the largest area, and the last of several such; with its
/// area. It is a fault where the area of one of them is.
pub open spec fn canvas_among(elements: Seq<ElementInfo>, k: int) -> Result<Option<(u32, i32)>, Fault>
    decreases k,
{
    if k <= 0 {
        Ok(None)
    } else {
        match canvas_among(elements, k - 1) {
            Err(f) => Err(f),
            Ok(best) => if !may_be_canvas(elements[k - 1]) {
                Ok(best)
            } else {
                match area_of(elements[k - 1]) {
                    Err(f) => Err(f),
                    Ok(area) => match best {
                        Some(b) => if area >= b.1 {
                            Ok(Some((elements[k - 1].id, area)))
                        } else {
                            Ok(best)
                        },
                        None => Ok(Some((elements[k - 1].id, area))),
                    },
                }
            },
        }
    }
}

/// The canvas among the elements, if one of them may be it.
pub open spec fn canvas_of(elements: Seq<ElementInfo>) -> Result<Option<u32>, Fault> {
    match canvas_among(elements, elements.len() as int) {
        Ok(Some(best)) => Ok(Some(best.0)),
        Ok(None) => Ok(None),
        Err(f) => Err(f),
    }
}

/// The canvas among the elements.
pub fn find_canvas(elements: &Vec<ElementInfo>) -> (r: Result<Option<u32>, Fault>)
    ensures
        r == canvas_of(elements@),
{
    let mut best: Option<(u32, i32)> = None;
    let mut k: usize = 0;
    while k < elements.len()
        invariant
            k <= elements.len(),
            canvas_among(elements@, k as int) == Ok::<Option<(u32, i32)>, Fault>(best),
        decreases elements.len() - k,
    {
        if canvas_candidate(&elements[k]) {
            match element_area(&elements[k]) {
                Err(f) => {
                    proof {
                        lemma_canvas_fault(elements@, k as int + 1, elements@.len() as int);
                    }
                    return Err(f);
                },
                Ok(area) => {
                    best = match best {
                        Some(b) => if area >= b.1 {
                            Some((elements[k].id, area))
                        } else {
                            Some(b)
                        },
                        None => Some((elements[k].id, area)),
                    };
                },
            }
        }
        k = k + 1;
    }
    match best {
        Some(b) => Ok(Some(b.0)),
        None => Ok(None),
    }
}

/// A fault in the choice of the canvas among the first elements is the fault
/// of the choice among more of them.
pub proof fn lemma_canvas_fault(elements: Seq<ElementInfo>, k: int, n: int)
    requires
        0 <= k <= n,
        canvas_among(elements, k) is Err,
    ensures
        canvas_among(elements, n) == canvas_among(elements, k),
    decreases n - k,
{
    if k < n {
        lemma_canvas_fault(elements, k, n - 1);
    }
}

/// The keys that are sent to an element with this pause; their failure is
/// the error.
pub open spec fn send_keys_run(a: Seq<Answer>, p: nat, element: u32, keys: Keys, interval: u64) -> Trace<
    (),
> {
    ask_failure(a, p, Action::SendKeys { element, keys, interval }).and_next(
        |failed: Option<Seq<char>>, p: nat|
            match failed {
                Some(text) => Run::fail(MspMcpErrorModel::WindowsApiError(text), p),
                None => Run::value((), p),
            },
    )
}

/// Sends keys to an element of the accessibility tree.
pub fn send_keys(t: &mut Transcript, element: u32, keys: Keys, interval: u64) -> (r: Outcome<()>)
    ensures
        replayed(
            *old(t),
            *final(t),
            r,
            send_keys_run(old(t).answers@, old(t).pos as nat, element, keys, interval),
        ),
{
    match t.failure(Action::SendKeys { element, keys, interval })? {
        Some(err) => Err(Halt::Failed(MspMcpError::WindowsApiError(String::from_str(err)))),
        None => Ok(()),
    }
}

/// The list of shapes is opened: by the button of the ribbon that opens it,
/// with a wait of 500 ms; or, where the ribbon has none, by the keys Alt+H
/// and S sent to the activated window, each with a wait of 300 ms.
pub open spec fn open_shapes_run(
    a: Seq<Answer>,
    p: nat,
    hwnd: isize,
    window: u32,
    elements: Seq<ElementInfo>,
) -> Trace<()> {
    match first_element(elements, |e: ElementInfo| is_shapes_button(e), 0) {
        Some(button) => press_run(
            a,
            p,
            button,
            "Error invoking Shapes button: "@,
            "Failed to activate Shapes button: "@,
        ).and_next(|u: (), p: nat| ask_done(a, p, Action::Sleep { millis: 500 })),
        None => activate_paint_window_run(a, p, hwnd).and_next(
            |u: (), p: nat|
                send_keys_run(a, p, window, Keys::AltH, 100).and_next(
                    |u: (), p: nat|
                        ask_done(a, p, Action::Sleep { millis: 300 }).and_next(
                            |u: (), p: nat|
                                send_keys_run(a, p, window, Keys::LetterS, 100).and_next(
                                    |u: (), p: nat| ask_done(a, p, Action::Sleep { millis: 300 }),
                                ),
                        ),
                ),
        ),
    }
}

/// Opens the list of shapes.
pub fn open_shapes(t: &mut Transcript, hwnd: isize, window: u32, elements: &Vec<ElementInfo>) -> (r:
    Outcome<()>)
    ensures
        replayed(
            *old(t),
            *final(t),
            r,
            open_shapes_run(old(t).answers@, old(t).pos as nat, hwnd, window, elements@),
        ),
{
    match find_shapes_button(elements) {
        Some(button) => {
            press(t, button, "Error invoking Shapes button: ", "Failed to activate Shapes button: ")?;
            t.sleep(500)
        },
        None => {
            activate_paint_window(t, hwnd)?;
            send_keys(t, window, Keys::AltH, 100)?;
            t.sleep(300)?;
            send_keys(t, window, Keys::LetterS, 100)?;
            t.sleep(300)
        },
    }
}

/// The remaining steps down the list of shapes: for each, the Down key with
/// a wait of 100 ms.
pub open spec fn step_down_run(a: Seq<Answer>, p: nat, window: u32, steps: int) -> Trace<()>
    decreases steps,
{
    if steps <= 0 {
        Run::value((), p)
    } else {
        send_keys_run(a, p, window, Keys::Down, 50).and_next(
            |u: (), p: nat|
                ask_done(a, p, Action::Sleep { millis: 100 }).and_next(
                    |u: (), p: nat| step_down_run(a, p, window, steps - 1),
                ),
        )
    }
}

/// A shape is chosen in the open list: so many steps down, then Enter, and
/// a wait of 300 ms.
pub open spec fn choose_shape_run(a: Seq<Answer>, p: nat, window: u32, steps: int) -> Trace<()> {
    step_down_run(a, p, window, steps).and_next(
        |u: (), p: nat|
            send_keys_run(a, p, window, Keys::Enter, 100).and_next(
                |u: (), p: nat| ask_done(a, p, Action::Sleep { millis: 300 }),
            ),
    )
}

/// Chooses a shape in the open list of shapes.
pub fn choose_shape(t: &mut Transcript, window: u32, steps: u32) -> (r: Outcome<()>)
    ensures
        replayed(
            *old(t),
            *final(t),
            r,
            choose_shape_run(old(t).answers@, old(t).pos as nat, window, steps as int),
        ),
{
    let mut left: u32 = steps;
    while left > 0
        invariant
            t.answers == old(t).answers,
            step_down_run(old(t).answers@, old(t).pos as nat, window, steps as int)
                == step_down_run(t.answers@, t.pos as nat, window, left as int),
        decreases left,
    {
        send_keys(t, window, Keys::Down, 50)?;
        t.sleep(100)?;
        left = left - 1;
    }
    send_keys(t, window, Keys::Enter, 100)?;
    t.sleep(300)
}

/// How long the search for the canvas may take, in milliseconds.
pub const CANVAS_TIMEOUT: u64 = 3000;

/// The rectangle of the canvas: all elements of the window are listed, and
/// the rectangle is read of the one that is taken for the canvas, or of the
/// window itself where none is.
pub open spec fn canvas_bounds_run(a: Seq<Answer>, p: nat, window: u32) -> Trace<Rect> {
    ask_elements(a, p, Action::MatchAll { root: window, timeout: CANVAS_TIMEOUT }).and_next(
        |found: Result<Seq<ElementInfo>, Seq<char>>, p: nat|
            match found {
                Err(text) => Run::fail(
                    MspMcpErrorModel::WindowsApiError("Failed to find elements: "@ + text),
                    p,
                ),
                Ok(elements) => match canvas_of(elements) {
                    Err(f) => Run::fault(f, p),
                    Ok(canvas) => ask_bounds(
                        a,
                        p,
                        Action::BoundingRectangle {
                            element: match canvas {
                                Some(canvas) => canvas,
                                None => window,
                            },
                        },
                    ).and_next(
                        |bounds: Result<Rect, Seq<char>>, p: nat|
                            match bounds {
                                Ok(rect) => Run::value(rect, p),
                                Err(text) => Run::fail(
                                    MspMcpErrorModel::WindowsApiError(
                                        "Failed to get canvas bounds: "@ + text,
                                    ),
                                    p,
                                ),
                            },
                    ),
                },
            },
    )
}

/// The rectangle of the canvas on the screen.
pub fn canvas_bounds(t: &mut Transcript, window: u32) -> (r: Outcome<Rect>)
    ensures
        replayed(
            *old(t),
            *final(t),
            r,
            canvas_bounds_run(old(t).answers@, old(t).pos as nat, window),
        ),
{
    let elements = match t.elements(Action::MatchAll { root: window, timeout: CANVAS_TIMEOUT })? {
        Ok(elements) => elements,
        Err(err) => {
            return Err(Halt::Failed(api_failure("Failed to find elements: ", err)));
        },
    };
    let canvas = match find_canvas(elements) {
        Ok(Some(canvas)) => canvas,
        Ok(None) => window,
        Err(f) => {
            return Err(Halt::Fault(f));
        },
    };
    match t.bounds(Action::BoundingRectangle { element: canvas })? {
        Ok(bounds) => Ok(bounds),
        Err(err) => Err(Halt::Failed(api_failure("Failed to get canvas bounds: ", err))),
    }
}

/// The drag that draws a shape on the canvas: between the two points, each
/// moved by the left and top of the canvas; the pointer goes to the first,
/// the button goes down, the pointer goes to the second, each followed by a
/// wait of 300 ms, and the button goes up.
pub open spec fn shape_drag_run(
    a: Seq<Answer>,
    p: nat,
    bounds: Rect,
    start_x: i32,
    start_y: i32,
    end_x: i32,
    end_y: i32,
) -> Trace<()> {
    Run::of(fit_i32(bounds.left + start_x), p).and_next(
        |from_x: i32, p: nat|
            Run::of(fit_i32(bounds.top + start_y), p).and_next(
                |from_y: i32, p: nat|
                    Run::of(fit_i32(bounds.left + end_x), p).and_next(
                        |to_x: i32, p: nat|
                            Run::of(fit_i32(bounds.top + end_y), p).and_next(
                                |to_y: i32, p: nat|
                                    dragged_run(a, p, (from_x, from_y), (to_x, to_y)),
                            ),
                    ),
            ),
    )
}

/// The second half of [`shape_drag_run`], between two points of the screen.
pub open spec fn dragged_run(a: Seq<Answer>, p: nat, from: (i32, i32), to: (i32, i32)) -> Trace<()> {
    move_mouse_to_run(a, p, from.0, from.1).and_next(
        |u: (), p: nat|
            ask_done(a, p, Action::Sleep { millis: 300 }).and_next(
                |u: (), p: nat|
                    send_mouse_down_run(a, p).and_next(
                        |u: (), p: nat|
                            ask_done(a, p, Action::Sleep { millis: 300 }).and_next(
                                |u: (), p: nat|
                                    move_mouse_to_run(a, p, to.0, to.1).and_next(
                                        |u: (), p: nat|
                                            ask_done(a, p, Action::Sleep { millis: 300 }).and_next(
                                                |u: (), p: nat| send_mouse_up_run(a, p),
                                            ),
                                    ),
                            ),
                    ),
            ),
    )
}

/// Draws a shape on the canvas by a drag.
pub fn shape_drag(t: &mut Transcript, bounds: Rect, start_x: i32, start_y: i32, end_x: i32, end_y: i32) -> (r:
    Outcome<()>)
    ensures
        replayed(
            *old(t),
            *final(t),
            r,
            shape_drag_run(old(t).answers@, old(t).pos as nat, bounds, start_x, start_y, end_x, end_y),
        ),
{
    let canvas_x = bounds.left;
    let canvas_y = bounds.top;
    let adjusted_start_x = plus(canvas_x, start_x)?;
    let adjusted_start_y = plus(canvas_y, start_y)?;
    let adjusted_end_x = plus(canvas_x, end_x)?;
    let adjusted_end_y = plus(canvas_y, end_y)?;
    move_mouse_to(t, adjusted_start_x, adjusted_start_y)?;
    t.sleep(300)?;
    send_mouse_down(t)?;
    t.sleep(300)?;
    move_mouse_to(t, adjusted_end_x, adjusted_end_y)?;
    t.sleep(300)?;
    send_mouse_up(t)
}

/// [`draw_shape_uia`]: starts the client and takes the element of the
/// window; refuses a text that names no shape; activates the window; finds
/// the ribbon and lists what is in it; opens the list of shapes and chooses
/// the shape; finds the canvas; and draws the shape by a drag on it.
pub open spec fn draw_shape_uia_run(
    a: Seq<Answer>,
    p: nat,
    hwnd: isize,
    shape_type: Seq<char>,
    start_x: i32,
    start_y: i32,
    end_x: i32,
    end_y: i32,
) -> Trace<()> {
    initialize_uia_run(a, p).and_next(
        |u: (), p: nat|
            window_element_run(a, p, hwnd, "Failed to get Paint window element: "@).and_next(
                |window: u32, p: nat|
                    if !is_shape(lowercase(shape_type)) {
                        Run::fail(invalid_shape(shape_type), p)
                    } else {
                        activate_paint_window_run(a, p, hwnd).and_next(
                            |u: (), p: nat|
                                shape_chosen_run(a, p, hwnd, window, shape_type).and_next(
                                    |u: (), p: nat|
                                        canvas_bounds_run(a, p, window).and_next(
                                            |bounds: Rect, p: nat|
                                                shape_drag_run(
                                                    a,
                                                    p,
                                                    bounds,
                                                    start_x,
                                                    start_y,
                                                    end_x,
                                                    end_y,
                                                ),
                                        ),
                                ),
                        )
                    },
            ),
    )
}

/// The middle of [`draw_shape_uia`]: from the ribbon to the chosen shape.
pub open spec fn shape_chosen_run(
    a: Seq<Answer>,
    p: nat,
    hwnd: isize,
    window: u32,
    shape_type: Seq<char>,
) -> Trace<()> {
    find_first_run(a, p, window, Filter::Control(ControlKind::Pane)).and_next(
        |found: Option<u32>, p: nat|
            match found {
                None => Run::fail(MspMcpErrorModel::ElementNotFound("Ribbon section"@), p),
                Some(ribbon) => descendants_run(a, p, ribbon).and_next(
                    |elements: Seq<ElementInfo>, p: nat|
                        open_shapes_run(a, p, hwnd, window, elements).and_next(
                            |u: (), p: nat|
                                choose_shape_run(a, p, window, shape_steps(lowercase(shape_type))),
                        ),
                ),
            },
    )
}

/// Draws a shape through the accessibility tree.
pub fn draw_shape_uia(
    t: &mut Transcript,
    hwnd: isize,
    shape_type: &str,
    start_x: i32,
    start_y: i32,
    end_x: i32,
    end_y: i32,
) -> (r: Outcome<()>)
    ensures
        replayed(
            *old(t),
            *final(t),
            r,
            draw_shape_uia_run(
                old(t).answers@,
                old(t).pos as nat,
                hwnd,
                shape_type@,
                start_x,
                start_y,
                end_x,
                end_y,
            ),
        ),
{
    initialize_uia(t)?;
    let window = window_element(t, hwnd, "Failed to get Paint window element: ")?;
    let lowered = to_lowercase(shape_type);
    if !names_shape(lowered.as_str()) {
        return Err(Halt::Failed(shape_error(shape_type)));
    }
    activate_paint_window(t, hwnd)?;
    let ribbon = match find_first(t, window, Filter::Control(ControlKind::Pane))? {
        Some(ribbon) => ribbon,
        None => {
            return Err(Halt::Failed(not_found("Ribbon section")));
        },
    };
    let all_elements = descendants(t, ribbon)?;
    open_shapes(t, hwnd, window, all_elements)?;
    choose_shape(t, window, shape_index(lowered.as_str()))?;
    let bounds = canvas_bounds(t, window)?;
    shape_drag(t, bounds, start_x, start_y, end_x, end_y)
}

} // verus!
