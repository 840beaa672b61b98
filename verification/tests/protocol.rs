use mcp_server_microsoft_paint::protocol::{
    connect_response, error_response, get_method_handler, success_response, version_response,
    AddTextParams, ConnectParams, ConnectResponse, CreateCanvasParams, DrawLineParams,
    DrawPixelParams, DrawPolylineParams, DrawShapeParams, ErrorResponse, MethodHandler, Params,
    Parsed, Point, Reply, SaveCanvasParams, SelectToolParams, SetBrushSizeParams,
    SetColorParams, SetFillParams, SetThicknessParams,
};
use serde_json::{Number, Value};

fn member_text(value: &Value, key: &str) -> String {
    value.get(key).and_then(Value::as_str).expect("a string").to_string()
}

fn member_i32(value: &Value, key: &str) -> i32 {
    value.get(key).and_then(Value::as_i64).expect("a number") as i32
}

fn connect_params_from(value: &Value) -> ConnectParams {
    ConnectParams {
        client_id: member_text(value, "client_id"),
        client_name: member_text(value, "client_name"),
    }
}

fn polyline_params_from(value: &Value) -> DrawPolylineParams {
    let points = value
        .get("points")
        .and_then(Value::as_array)
        .expect("points")
        .iter()
        .map(|p| Point { x: member_i32(p, "x"), y: member_i32(p, "y") })
        .collect();
    DrawPolylineParams {
        points,
        color: value.get("color").and_then(Value::as_str).map(String::from),
        thickness: value.get("thickness").and_then(Value::as_u64).map(|n| n as u32),
        tool: value.get("tool").and_then(Value::as_str).map(String::from),
    }
}

fn connect_response_value(response: &ConnectResponse) -> Value {
    let mut object = serde_json::Map::new();
    object.insert("status".to_string(), Value::String(response.status.clone()));
    object.insert("paint_version".to_string(), Value::String(response.paint_version.clone()));
    object.insert("canvas_width".to_string(), Value::Number(Number::from(response.canvas_width)));
    object.insert("canvas_height".to_string(), Value::Number(Number::from(response.canvas_height)));
    Value::Object(object)
}

fn error_response_value(response: &ErrorResponse) -> Value {
    let mut details = serde_json::Map::new();
    details.insert("code".to_string(), Value::Number(Number::from(response.error.code)));
    details.insert("message".to_string(), Value::String(response.error.message.clone()));
    let mut object = serde_json::Map::new();
    object.insert("status".to_string(), Value::String(response.status.clone()));
    object.insert("error".to_string(), Value::Object(details));
    Value::Object(object)
}

#[test]
fn test_connect_params_deserialization() {
    let json = r#"{
            "client_id": "test-client",
            "client_name": "Test App"
        }"#;
    let value: Value = serde_json::from_str(json).unwrap();
    let params: ConnectParams = connect_params_from(&value);
    assert_eq!(params.client_id, "test-client");
    assert_eq!(params.client_name, "Test App");
}

#[test]
fn test_connect_response_serialization() {
    let response = ConnectResponse {
        status: "success".to_string(),
        paint_version: "windows11".to_string(),
        canvas_width: 1024,
        canvas_height: 768,
    };
    let json = serde_json::to_string(&connect_response_value(&response)).unwrap();
    assert!(json.contains("\"status\":\"success\""));
    assert!(json.contains("\"paint_version\":\"windows11\""));
    assert!(json.contains("\"canvas_width\":1024"));
    assert!(json.contains("\"canvas_height\":768"));
}

#[test]
fn test_error_response_serialization() {
    let response_val = error_response_value(&error_response(1001, "Window not found".to_string()));
    let json_string = serde_json::to_string(&response_val).unwrap();
    assert!(json_string.contains("\"status\":\"error\""));
    assert!(json_string.contains("\"code\":1001"));
    assert!(json_string.contains("\"message\":\"Window not found\""));
}

#[test]
fn test_draw_polyline_params_deserialization() {
    let json = r###"{
            "points": [
                {"x": 10, "y": 20},
                {"x": 30, "y": 40},
                {"x": 50, "y": 60}
            ],
            "color": "#FF0000",
            "thickness": 2,
            "tool": "pencil"
        }"###;

    let value: Value = serde_json::from_str(json).unwrap();
    let params: DrawPolylineParams = polyline_params_from(&value);

    assert_eq!(params.points.len(), 3);
    assert_eq!(params.points[0].x, 10);
    assert_eq!(params.points[0].y, 20);
    assert_eq!(params.points[1].x, 30);
    assert_eq!(params.points[1].y, 40);
    assert_eq!(params.points[2].x, 50);
    assert_eq!(params.points[2].y, 60);

    assert_eq!(params.color.as_deref(), Some("#FF0000"));
    assert_eq!(params.thickness, Some(2));
    assert_eq!(params.tool.as_deref(), Some("pencil"));
}

#[test]
fn success_response_says_success() {
    assert_eq!(success_response().status, "success");
}

#[test]
fn error_response_keeps_code_and_message() {
    let response = error_response(1003, "bad".to_string());
    assert_eq!(response.status, "error");
    assert_eq!(response.error.code, 1003);
    assert_eq!(response.error.message, "bad");
}

#[test]
fn connect_response_names_the_paint() {
    let response = connect_response(640, 480);
    assert_eq!(response.status, "success");
    assert_eq!(response.paint_version, "windows11");
    assert_eq!((response.canvas_width, response.canvas_height), (640, 480));
}

#[test]
fn version_response_names_the_protocol() {
    let response = version_response("0.3.1");
    assert_eq!(response.status, "success");
    assert_eq!(response.protocol_version, "1.1");
    assert_eq!(response.server_version, "0.3.1");
    assert_eq!(response.paint_version, "windows11");
}

#[test]
fn every_method_has_its_handler() {
    let expected = [
        ("initialize", MethodHandler::Initialize),
        ("connect", MethodHandler::Connect),
        ("activate_window", MethodHandler::ActivateWindow),
        ("get_canvas_dimensions", MethodHandler::GetCanvasDimensions),
        ("disconnect", MethodHandler::Disconnect),
        ("get_version", MethodHandler::GetVersion),
        ("draw_pixel", MethodHandler::DrawPixel),
        ("draw_line", MethodHandler::DrawLine),
        ("draw_shape", MethodHandler::DrawShape),
        ("draw_polyline", MethodHandler::DrawPolyline),
        ("add_text", MethodHandler::AddText),
        ("select_region", MethodHandler::SelectRegion),
        ("copy_selection", MethodHandler::CopySelection),
        ("paste", MethodHandler::Paste),
        ("clear_canvas", MethodHandler::ClearCanvas),
        ("create_canvas", MethodHandler::CreateCanvas),
        ("select_tool", MethodHandler::SelectTool),
        ("set_color", MethodHandler::SetColor),
        ("set_thickness", MethodHandler::SetThickness),
        ("set_brush_size", MethodHandler::SetBrushSize),
        ("set_fill", MethodHandler::SetFill),
    ];
    for (name, handler) in expected {
        assert_eq!(get_method_handler(name), Some(handler));
    }
}

#[test]
fn an_unknown_method_has_no_handler() {
    assert_eq!(get_method_handler("save"), None);
    assert_eq!(get_method_handler(""), None);
    assert_eq!(get_method_handler("Connect"), None);
    assert_eq!(get_method_handler("connect "), None);
}

#[test]
fn params_are_read_as_those_of_their_method() {
    let params = Params::Connect(ConnectParams {
        client_id: "a".to_string(),
        client_name: "b".to_string(),
    });
    match params.connect() {
        Parsed::Valid(p) => assert_eq!((p.client_id.as_str(), p.client_name.as_str()), ("a", "b")),
        other => panic!("{:?}", other),
    }
    assert!(matches!(Params::Missing.connect(), Parsed::Missing));
    match Params::Invalid("expected value".to_string()).draw_line() {
        Parsed::Invalid(text) => assert_eq!(text, "expected value"),
        other => panic!("{:?}", other),
    }
}

#[test]
fn params_of_another_method_are_invalid() {
    let params = Params::SetThickness(SetThicknessParams { level: 3 });
    match params.draw_pixel() {
        Parsed::Invalid(text) => assert_eq!(text, "parameters of another method"),
        other => panic!("{:?}", other),
    }
}

#[test]
fn each_kind_of_params_is_read() {
    assert!(matches!(
        Params::SelectTool(SelectToolParams { tool: "fill".to_string(), shape_type: None })
            .select_tool(),
        Parsed::Valid(_)
    ));
    assert!(matches!(
        Params::SetColor(SetColorParams { color: "#000000".to_string() }).set_color(),
        Parsed::Valid(_)
    ));
    assert!(matches!(
        Params::SetThickness(SetThicknessParams { level: 1 }).set_thickness(),
        Parsed::Valid(_)
    ));
    assert!(matches!(
        Params::SetBrushSize(SetBrushSizeParams { size: 4, tool: None }).set_brush_size(),
        Parsed::Valid(_)
    ));
    assert!(matches!(
        Params::SetFill(SetFillParams { fill_type: "none".to_string() }).set_fill(),
        Parsed::Valid(_)
    ));
    assert!(matches!(
        Params::DrawPixel(DrawPixelParams { x: 1, y: 2, color: None }).draw_pixel(),
        Parsed::Valid(_)
    ));
    assert!(matches!(
        Params::DrawLine(DrawLineParams {
            start_x: 0,
            start_y: 0,
            end_x: 1,
            end_y: 1,
            color: None,
            thickness: None
        })
        .draw_line(),
        Parsed::Valid(_)
    ));
    assert!(matches!(
        Params::DrawShape(DrawShapeParams {
            shape_type: "line".to_string(),
            start_x: 0,
            start_y: 0,
            end_x: 1,
            end_y: 1,
            color: None,
            thickness: None,
            fill_type: None
        })
        .draw_shape(),
        Parsed::Valid(_)
    ));
    assert!(matches!(
        Params::DrawPolyline(DrawPolylineParams {
            points: vec![],
            color: None,
            thickness: None,
            tool: None
        })
        .draw_polyline(),
        Parsed::Valid(_)
    ));
    assert!(matches!(
        Params::AddText(AddTextParams {
            x: 0,
            y: 0,
            text: "t".to_string(),
            color: None,
            font_name: None,
            font_size: None,
            font_style: None
        })
        .add_text(),
        Parsed::Valid(_)
    ));
    assert!(matches!(
        Params::CreateCanvas(CreateCanvasParams { width: 1, height: 1, background_color: None })
            .create_canvas(),
        Parsed::Valid(_)
    ));
    let save = SaveCanvasParams { file_path: "a.png".to_string(), format: "png".to_string() };
    assert_eq!(save.format, "png");
    assert_eq!(Reply::Success, Reply::Success);
}
