//! What the server tells a language model about its operations.
use vstd::prelude::*;

use crate::text::{same_text, trim, trimmed};

verus! {

/// The first part of the system prompt: what the assistant is for.
pub const INTRODUCTION: &'static str = "You are an AI assistant that helps users control Microsoft Paint on Windows 11 through the Paint MCP (Microsoft Paint Control Protocol) API. \nYour job is to understand user requests about drawing and creating images, then translate them into appropriate API calls.\n\nThe Paint MCP API provides the following operations:\n\n";

/// The second part of the system prompt: the operations of the API.
pub const OPERATIONS: &'static str = "1. **GET /status** - Check the current status of the Paint MCP server\n2. **POST /connect** - Connect to Windows 11 Paint or launch a new instance\n3. **POST /draw/line** - Draw a straight line between two points\n4. **POST /draw/rectangle** - Draw a rectangle with specified position and size\n5. **POST /draw/circle** - Draw a circle with specified center and radius\n6. **POST /draw/pixel** - Draw a single pixel at specific coordinates\n7. **POST /tool/select** - Select a specific drawing tool\n8. **POST /color/set** - Set the active color\n9. **POST /brush/size** - Set the brush or pencil size\n10. **POST /save** - Save the drawing to a file\n11. **POST /fetch** - Retrieve a saved image file with metadata\n12. **POST /recreate-image** - Recreate an uploaded image using Paint\n13. **POST /text/add** - Add text to the drawing with font settings\n14. **POST /image/rotate** - Rotate the image by specified degrees\n15. **POST /image/flip** - Flip the image horizontally or vertically\n16. **POST /image/scale** - Resize/scale the image to new dimensions\n17. **POST /image/crop** - Crop the image to the specified region\n18. **POST /canvas/create** - Create a new canvas with specified dimensions\n";

/// The third part of the system prompt: how to answer a request.
pub const INSTRUCTIONS: &'static str = "\nWhen a user describes what they want to draw, you should:\n1. Understand their request and break it down into a series of Paint MCP operations\n2. Generate the corresponding API calls with appropriate parameters\n3. Explain what each API call does in a clear and concise manner\n\nFor example, if a user asks \"Draw a red circle with a blue rectangle inside it\", you might suggest:\n1. Connect to Paint using POST /connect\n2. Set color to red using POST /color/set with {\"color\": \"#FF0000\"}\n3. Draw a circle using POST /draw/circle with appropriate parameters\n4. Set color to blue using POST /color/set with {\"color\": \"#0000FF\"}\n5. Draw a smaller rectangle inside the circle using POST /draw/rectangle\n\nIf a user wants to recreate an image in Paint, they can upload an image and use the POST /recreate-image endpoint with the base64-encoded image data.\n\nYou can request more detailed information about any of these operations using the GET /prompt endpoint.\n\nRemember: All coordinates are relative to the canvas, with (0,0) at the top-left corner.";

/// What the operation `status` does.
pub const STATUS_PROMPT: &'static str = "Gets the current status of the Paint MCP server, including whether it's connected to Paint, the window handle, and version information.";

/// A request that calls the operation `status`.
pub const STATUS_EXAMPLE: &'static str = "GET /status";

/// What the operation `connect` does.
pub const CONNECT_PROMPT: &'static str = "Connects to Windows 11 Paint or launches a new instance if not already running.";

/// A request that calls the operation `connect`.
pub const CONNECT_EXAMPLE: &'static str = "POST /connect";

/// What the operation `draw_line` does.
pub const DRAW_LINE_PROMPT: &'static str = "Draws a straight line between two points with the specified color and thickness.";

/// A request that calls the operation `draw_line`.
pub const DRAW_LINE_EXAMPLE: &'static str = "POST /draw/line\nContent-Type: application/json\n\n{\n  \"start_x\": 100,\n  \"start_y\": 100,\n  \"end_x\": 300,\n  \"end_y\": 200,\n  \"color\": \"#0000FF\",\n  \"thickness\": 2\n}";

/// What the operation `draw_rectangle` does.
pub const DRAW_RECTANGLE_PROMPT: &'static str = "Draws a rectangle with the specified position, size, color, and thickness. The filled parameter determines if the rectangle is filled or just outlined.";

/// A request that calls the operation `draw_rectangle`.
pub const DRAW_RECTANGLE_EXAMPLE: &'static str = "POST /draw/rectangle\nContent-Type: application/json\n\n{\n  \"start_x\": 50,\n  \"start_y\": 50,\n  \"width\": 200,\n  \"height\": 150,\n  \"filled\": true,\n  \"color\": \"#FF0000\",\n  \"thickness\": 1\n}";

/// What the operation `draw_circle` does.
pub const DRAW_CIRCLE_PROMPT: &'static str = "Draws a circle with the specified center point, radius, color, and thickness. The filled parameter determines if the circle is filled or just outlined.";

/// A request that calls the operation `draw_circle`.
pub const DRAW_CIRCLE_EXAMPLE: &'static str = "POST /draw/circle\nContent-Type: application/json\n\n{\n  \"center_x\": 200,\n  \"center_y\": 200,\n  \"radius\": 50,\n  \"filled\": false,\n  \"color\": \"#00FF00\",\n  \"thickness\": 2\n}";

/// What the operation `draw_pixel` does.
pub const DRAW_PIXEL_PROMPT: &'static str = "Draws a single pixel at the specified coordinates with the optional color.";

/// A request that calls the operation `draw_pixel`.
pub const DRAW_PIXEL_EXAMPLE: &'static str = "POST /draw/pixel\nContent-Type: application/json\n\n{\n  \"x\": 150,\n  \"y\": 150,\n  \"color\": \"#FF00FF\"\n}";

/// What the operation `select_tool` does.
pub const SELECT_TOOL_PROMPT: &'static str = "Selects a drawing tool in Paint. Valid tools include 'pencil', 'brush', 'fill', 'text', 'eraser', 'select', and shape names.";

/// A request that calls the operation `select_tool`.
pub const SELECT_TOOL_EXAMPLE: &'static str = "POST /tool/select\nContent-Type: application/json\n\n{\n  \"tool\": \"brush\"\n}";

/// What the operation `set_color` does.
pub const SET_COLOR_PROMPT: &'static str = "Sets the active color for drawing operations. Color should be provided as a hex value (e.g., #FF0000 for red).";

/// A request that calls the operation `set_color`.
pub const SET_COLOR_EXAMPLE: &'static str = "POST /color/set\nContent-Type: application/json\n\n{\n  \"color\": \"#00FFFF\"\n}";

/// What the operation `set_brush_size` does.
pub const SET_BRUSH_SIZE_PROMPT: &'static str = "Sets the brush or pencil size for drawing. Size ranges from 1-30 pixels depending on the tool.";

/// A request that calls the operation `set_brush_size`.
pub const SET_BRUSH_SIZE_EXAMPLE: &'static str = "POST /brush/size\nContent-Type: application/json\n\n{\n  \"size\": 8,\n  \"tool\": \"brush\"\n}";

/// What the operation `save` does.
pub const SAVE_PROMPT: &'static str = "Saves the current drawing to a file with the specified filename and format.";

/// A request that calls the operation `save`.
pub const SAVE_EXAMPLE: &'static str = "POST /save\nContent-Type: application/json\n\n{\n  \"filename\": \"C:\\\\drawings\\\\my_drawing.png\",\n  \"format\": \"png\"\n}";

/// What the operation `fetch_image` does.
pub const FETCH_IMAGE_PROMPT: &'static str = "Retrieves a saved image file with metadata, returning base64-encoded image data, format, and dimensions.";

/// A request that calls the operation `fetch_image`.
pub const FETCH_IMAGE_EXAMPLE: &'static str = "POST /fetch\nContent-Type: application/json\n\n{\n  \"path\": \"C:\\\\drawings\\\\my_drawing.png\"\n}";

/// What the operation `recreate_image` does.
pub const RECREATE_IMAGE_PROMPT: &'static str = "Recreates an uploaded image using Paint's drawing capabilities. Requires base64-encoded image data in the request. The max_detail_level parameter (1-200) controls the level of detail (higher values mean more detail but slower processing). An optional output_filename can be provided to save the result.";

/// A request that calls the operation `recreate_image`.
pub const RECREATE_IMAGE_EXAMPLE: &'static str = "POST /recreate-image\nContent-Type: application/json\n\n{\n  \"image_base64\": \"iVBORw0KGgoAAAANSUhEUgAAAAUAAAAFCAYAAACNbyblAAAAHElEQVQI12P4...\",\n  \"output_filename\": \"C:\\\\drawings\\\\recreated.png\",\n  \"max_detail_level\": 100\n}";

/// What the operation `add_text` does.
pub const ADD_TEXT_PROMPT: &'static str = "Add text to the drawing at the specified position. You can configure the font name, size, style, and color. Font styles include 'regular', 'bold', 'italic', and 'bold_italic'.";

/// A request that calls the operation `add_text`.
pub const ADD_TEXT_EXAMPLE: &'static str = "POST /text/add\nContent-Type: application/json\n\n{\n  \"x\": 100,\n  \"y\": 100,\n  \"text\": \"Hello, World!\",\n  \"font_name\": \"Arial\",\n  \"font_size\": 24,\n  \"font_style\": \"bold\",\n  \"color\": \"#000000\"\n}";

/// What the operation `rotate_image` does.
pub const ROTATE_IMAGE_PROMPT: &'static str = "Rotate the entire image by the specified degrees. Currently supports 90, 180, or 270 degree rotations. The 'clockwise' parameter determines the direction of rotation.";

/// A request that calls the operation `rotate_image`.
pub const ROTATE_IMAGE_EXAMPLE: &'static str = "POST /image/rotate\nContent-Type: application/json\n\n{\n  \"degrees\": 90,\n  \"clockwise\": true\n}";

/// What the operation `flip_image` does.
pub const FLIP_IMAGE_PROMPT: &'static str = "Flip the image either horizontally or vertically. The 'direction' parameter must be either 'horizontal' or 'vertical'.";

/// A request that calls the operation `flip_image`.
pub const FLIP_IMAGE_EXAMPLE: &'static str = "POST /image/flip\nContent-Type: application/json\n\n{\n  \"direction\": \"horizontal\"\n}";

/// What the operation `scale_image` does.
pub const SCALE_IMAGE_PROMPT: &'static str = "Resize the image to new dimensions. You can specify the width and height directly, or use a percentage scale. The 'maintain_aspect_ratio' parameter determines if the aspect ratio should be preserved.";

/// A request that calls the operation `scale_image`.
pub const SCALE_IMAGE_EXAMPLE: &'static str = "POST /image/scale\nContent-Type: application/json\n\n{\n  \"width\": 800,\n  \"height\": 600,\n  \"maintain_aspect_ratio\": true,\n  \"percentage\": null\n}";

/// What the operation `crop_image` does.
pub const CROP_IMAGE_PROMPT: &'static str = "Crop the image to the specified region defined by starting position, width, and height.";

/// A request that calls the operation `crop_image`.
pub const CROP_IMAGE_EXAMPLE: &'static str = "POST /image/crop\nContent-Type: application/json\n\n{\n  \"start_x\": 50,\n  \"start_y\": 50,\n  \"width\": 400,\n  \"height\": 300\n}";

/// What the operation `create_canvas` does.
pub const CREATE_CANVAS_PROMPT: &'static str = "Create a new canvas with the specified dimensions. You can optionally set a background color (default is white).";

/// A request that calls the operation `create_canvas`.
pub const CREATE_CANVAS_EXAMPLE: &'static str = "POST /canvas/create\nContent-Type: application/json\n\n{\n  \"width\": 1024,\n  \"height\": 768,\n  \"background_color\": \"#FFFFFF\"\n}";

/// The number of operations that have a prompt.
pub const OPERATION_COUNT: usize = 18;

/// The names of the operations, in the order in which they are listed.
pub open spec fn operation_name(i: int) -> Seq<char> {
    if i == 0 {
        "status"@
    } else if i == 1 {
        "connect"@
    } else if i == 2 {
        "draw_line"@
    } else if i == 3 {
        "draw_rectangle"@
    } else if i == 4 {
        "draw_circle"@
    } else if i == 5 {
        "draw_pixel"@
    } else if i == 6 {
        "select_tool"@
    } else if i == 7 {
        "set_color"@
    } else if i == 8 {
        "set_brush_size"@
    } else if i == 9 {
        "save"@
    } else if i == 10 {
        "fetch_image"@
    } else if i == 11 {
        "recreate_image"@
    } else if i == 12 {
        "add_text"@
    } else if i == 13 {
        "rotate_image"@
    } else if i == 14 {
        "flip_image"@
    } else if i == 15 {
        "scale_image"@
    } else if i == 16 {
        "crop_image"@
    } else {
        "create_canvas"@
    }
}

/// The name of the `i`-th operation.
pub fn operation_at(i: usize) -> (r: &'static str)
    ensures
        r@ == operation_name(i as int),
{
    if i == 0 {
        "status"
    } else if i == 1 {
        "connect"
    } else if i == 2 {
        "draw_line"
    } else if i == 3 {
        "draw_rectangle"
    } else if i == 4 {
        "draw_circle"
    } else if i == 5 {
        "draw_pixel"
    } else if i == 6 {
        "select_tool"
    } else if i == 7 {
        "set_color"
    } else if i == 8 {
        "set_brush_size"
    } else if i == 9 {
        "save"
    } else if i == 10 {
        "fetch_image"
    } else if i == 11 {
        "recreate_image"
    } else if i == 12 {
        "add_text"
    } else if i == 13 {
        "rotate_image"
    } else if i == 14 {
        "flip_image"
    } else if i == 15 {
        "scale_image"
    } else if i == 16 {
        "crop_image"
    } else {
        "create_canvas"
    }
}

/// What the `i`-th operation does.
pub open spec fn description(i: int) -> Seq<char> {
    if i == 0 {
        STATUS_PROMPT@
    } else if i == 1 {
        CONNECT_PROMPT@
    } else if i == 2 {
        DRAW_LINE_PROMPT@
    } else if i == 3 {
        DRAW_RECTANGLE_PROMPT@
    } else if i == 4 {
        DRAW_CIRCLE_PROMPT@
    } else if i == 5 {
        DRAW_PIXEL_PROMPT@
    } else if i == 6 {
        SELECT_TOOL_PROMPT@
    } else if i == 7 {
        SET_COLOR_PROMPT@
    } else if i == 8 {
        SET_BRUSH_SIZE_PROMPT@
    } else if i == 9 {
        SAVE_PROMPT@
    } else if i == 10 {
        FETCH_IMAGE_PROMPT@
    } else if i == 11 {
        RECREATE_IMAGE_PROMPT@
    } else if i == 12 {
        ADD_TEXT_PROMPT@
    } else if i == 13 {
        ROTATE_IMAGE_PROMPT@
    } else if i == 14 {
        FLIP_IMAGE_PROMPT@
    } else if i == 15 {
        SCALE_IMAGE_PROMPT@
    } else if i == 16 {
        CROP_IMAGE_PROMPT@
    } else {
        CREATE_CANVAS_PROMPT@
    }
}

/// What the `i`-th operation does.
pub fn description_at(i: usize) -> (r: &'static str)
    ensures
        r@ == description(i as int),
{
    if i == 0 {
        STATUS_PROMPT
    } else if i == 1 {
        CONNECT_PROMPT
    } else if i == 2 {
        DRAW_LINE_PROMPT
    } else if i == 3 {
        DRAW_RECTANGLE_PROMPT
    } else if i == 4 {
        DRAW_CIRCLE_PROMPT
    } else if i == 5 {
        DRAW_PIXEL_PROMPT
    } else if i == 6 {
        SELECT_TOOL_PROMPT
    } else if i == 7 {
        SET_COLOR_PROMPT
    } else if i == 8 {
        SET_BRUSH_SIZE_PROMPT
    } else if i == 9 {
        SAVE_PROMPT
    } else if i == 10 {
        FETCH_IMAGE_PROMPT
    } else if i == 11 {
        RECREATE_IMAGE_PROMPT
    } else if i == 12 {
        ADD_TEXT_PROMPT
    } else if i == 13 {
        ROTATE_IMAGE_PROMPT
    } else if i == 14 {
        FLIP_IMAGE_PROMPT
    } else if i == 15 {
        SCALE_IMAGE_PROMPT
    } else if i == 16 {
        CROP_IMAGE_PROMPT
    } else {
        CREATE_CANVAS_PROMPT
    }
}

/// A request that calls the `i`-th operation.
pub open spec fn example(i: int) -> Seq<char> {
    if i == 0 {
        STATUS_EXAMPLE@
    } else if i == 1 {
        CONNECT_EXAMPLE@
    } else if i == 2 {
        DRAW_LINE_EXAMPLE@
    } else if i == 3 {
        DRAW_RECTANGLE_EXAMPLE@
    } else if i == 4 {
        DRAW_CIRCLE_EXAMPLE@
    } else if i == 5 {
        DRAW_PIXEL_EXAMPLE@
    } else if i == 6 {
        SELECT_TOOL_EXAMPLE@
    } else if i == 7 {
        SET_COLOR_EXAMPLE@
    } else if i == 8 {
        SET_BRUSH_SIZE_EXAMPLE@
    } else if i == 9 {
        SAVE_EXAMPLE@
    } else if i == 10 {
        FETCH_IMAGE_EXAMPLE@
    } else if i == 11 {
        RECREATE_IMAGE_EXAMPLE@
    } else if i == 12 {
        ADD_TEXT_EXAMPLE@
    } else if i == 13 {
        ROTATE_IMAGE_EXAMPLE@
    } else if i == 14 {
        FLIP_IMAGE_EXAMPLE@
    } else if i == 15 {
        SCALE_IMAGE_EXAMPLE@
    } else if i == 16 {
        CROP_IMAGE_EXAMPLE@
    } else {
        CREATE_CANVAS_EXAMPLE@
    }
}

/// A request that calls the `i`-th operation.
pub fn example_at(i: usize) -> (r: &'static str)
    ensures
        r@ == example(i as int),
{
    if i == 0 {
        STATUS_EXAMPLE
    } else if i == 1 {
        CONNECT_EXAMPLE
    } else if i == 2 {
        DRAW_LINE_EXAMPLE
    } else if i == 3 {
        DRAW_RECTANGLE_EXAMPLE
    } else if i == 4 {
        DRAW_CIRCLE_EXAMPLE
    } else if i == 5 {
        DRAW_PIXEL_EXAMPLE
    } else if i == 6 {
        SELECT_TOOL_EXAMPLE
    } else if i == 7 {
        SET_COLOR_EXAMPLE
    } else if i == 8 {
        SET_BRUSH_SIZE_EXAMPLE
    } else if i == 9 {
        SAVE_EXAMPLE
    } else if i == 10 {
        FETCH_IMAGE_EXAMPLE
    } else if i == 11 {
        RECREATE_IMAGE_EXAMPLE
    } else if i == 12 {
        ADD_TEXT_EXAMPLE
    } else if i == 13 {
        ROTATE_IMAGE_EXAMPLE
    } else if i == 14 {
        FLIP_IMAGE_EXAMPLE
    } else if i == 15 {
        SCALE_IMAGE_EXAMPLE
    } else if i == 16 {
        CROP_IMAGE_EXAMPLE
    } else {
        CREATE_CANVAS_EXAMPLE
    }
}

/// The first index from `i` on at which `operation` is listed.
pub open spec fn operation_index_from(operation: Seq<char>, i: int) -> Option<int>
    decreases OPERATION_COUNT - i,
{
    if i < 0 || i >= OPERATION_COUNT {
        None
    } else if operation_name(i) == operation {
        Some(i)
    } else {
        operation_index_from(operation, i + 1)
    }
}

/// The index at which `operation` is listed, if it is.
pub open spec fn operation_index(operation: Seq<char>) -> Option<int> {
    operation_index_from(operation, 0)
}

/// The index at which `operation` is listed, if it is.
pub fn find_operation(operation: &str) -> (r: Option<usize>)
    ensures
        match r {
            Some(i) => operation_index(operation@) == Some(i as int) && i < OPERATION_COUNT,
            None => operation_index(operation@) is None,
        },
{
    let mut i: usize = 0;
    while i < OPERATION_COUNT
        invariant
            i <= OPERATION_COUNT,
            operation_index(operation@) == operation_index_from(operation@, i as int),
        decreases OPERATION_COUNT - i,
    {
        if same_text(operation_at(i), operation) {
            return Some(i);
        }
        i = i + 1;
    }
    None
}

/// The prompt of an operation: what it does; `None` for a name that is not listed.
pub open spec fn prompt_text(operation: Seq<char>) -> Option<Seq<char>> {
    match operation_index(operation) {
        Some(i) => Some(description(i)),
        None => None,
    }
}

/// The system prompt: the introduction, the operations and the instructions.
pub fn format_system_prompt() -> (r: String)
    ensures
        r@ == INTRODUCTION@ + OPERATIONS@ + INSTRUCTIONS@,
{
    let mut r = String::from_str(INTRODUCTION);
    r.append(OPERATIONS);
    r.append(INSTRUCTIONS);
    r
}

/// The text that shows an operation with an example: its name, what it does,
/// and a request that calls it.
pub open spec fn example_text(operation: Seq<char>, description: Seq<char>, example: Seq<char>) -> Seq<
    char,
> {
    "Operation: "@ + operation + "\n\n"@ + description + "\n\nExample API Call:\n\n"@ + example
        + "\n"@
}

/// The text that shows an operation with an example.
pub fn operation_example(operation: &str, description: &str, example: &str) -> (r: String)
    ensures
        r@ == example_text(operation@, description@, example@),
{
    let mut r = String::from_str("Operation: ");
    r.append(operation);
    r.append("\n\n");
    r.append(description);
    r.append("\n\nExample API Call:\n\n");
    r.append(example);
    r.append("\n");
    r
}

/// The prompt of an operation with an example request, for a listed
/// operation: its description stands in it without white space at its ends.
pub fn format_operation_example(operation: &str) -> (r: Option<String>)
    ensures
        match r {
            Some(text) => operation_index(operation@) matches Some(i) && text@ == example_text(
                operation@,
                trimmed(description(i)),
                example(i),
            ),
            None => operation_index(operation@) is None,
        },
{
    match find_operation(operation) {
        Some(i) => Some(operation_example(operation, trim(description_at(i)), example_at(i))),
        None => None,
    }
}

/// The prompt of an operation: what it does.
pub fn get_prompt(operation: &str) -> (r: Option<String>)
    ensures
        match r {
            Some(text) => prompt_text(operation@) == Some(text@),
            None => prompt_text(operation@) is None,
        },
{
    match find_operation(operation) {
        Some(i) => Some(String::from_str(description_at(i))),
        None => None,
    }
}

/// Every operation with its prompt, in the order in which they are listed.
pub fn get_all_prompts() -> (r: Vec<(String, String)>)
    ensures
        r@.len() == OPERATION_COUNT,
        forall|i: int|
            0 <= i < OPERATION_COUNT ==> (#[trigger] r@[i]).0@ == operation_name(i) && r@[i].1@
                == description(i),
{
    let mut r: Vec<(String, String)> = Vec::new();
    let mut i: usize = 0;
    while i < OPERATION_COUNT
        invariant
            i <= OPERATION_COUNT,
            r@.len() == i,
            forall|k: int|
                0 <= k < i ==> (#[trigger] r@[k]).0@ == operation_name(k) && r@[k].1@
                    == description(k),
        decreases OPERATION_COUNT - i,
    {
        r.push((String::from_str(operation_at(i)), String::from_str(description_at(i))));
        i = i + 1;
    }
    r
}

} // verus!
