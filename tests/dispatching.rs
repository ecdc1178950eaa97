use rmcp_display::dispatch::{
    display_at_point_result, display_by_name_result, display_info_result, find_tool, instructions,
    plan_call, tool_description, tool_name, tools, CallError, Query, Tool,
};
use rmcp_display::params::{decode_name, decode_point, ArgValue, Field, ValidationError};
use rmcp_display::record::DisplayRecord;

fn record() -> DisplayRecord {
    DisplayRecord {
        name: "DISP1".to_string(),
        friendly_name: String::new(),
        x: 1920,
        y: 0,
        width: 2560,
        height: 1440,
        width_mm: 0,
        height_mm: 0,
        refresh_hz: None,
        scale_percent: None,
        rotation_deg: None,
        is_primary: false,
    }
}

fn args(pairs: Vec<(&str, ArgValue)>) -> Vec<(String, ArgValue)> {
    pairs.into_iter().map(|(k, v)| (k.to_string(), v)).collect()
}

#[test]
fn tools_are_found_by_name() {
    for t in tools() {
        assert_eq!(find_tool(&tool_name(t)), Some(t));
    }
    assert_eq!(find_tool(&"get_display".to_string()), None);
    assert_eq!(tool_name(Tool::DisplayAtPoint), "get_display_at_point");
}

#[test]
fn descriptions_and_instructions() {
    assert_eq!(tool_description(Tool::DisplayByName), "Get display info by name");
    assert_eq!(
        instructions(),
        "Cross-platform display/monitor information server"
    );
}

#[test]
fn point_params_decode() {
    let a = args(vec![("y", ArgValue::Int(-3)), ("x", ArgValue::Int(7))]);
    let p = decode_point(&a).unwrap();
    assert_eq!((p.x, p.y), (7, -3));
}

#[test]
fn point_params_missing_x() {
    let a = args(vec![("y", ArgValue::Int(3))]);
    assert_eq!(
        decode_point(&a).err(),
        Some(ValidationError::MissingField(Field::X))
    );
}

#[test]
fn point_params_wrong_kind_or_range() {
    let a = args(vec![("x", ArgValue::Str("1".to_string())), ("y", ArgValue::Int(3))]);
    assert_eq!(
        decode_point(&a).err(),
        Some(ValidationError::InvalidValue(Field::X))
    );
    let a = args(vec![("x", ArgValue::Int(1)), ("y", ArgValue::Int(1 << 31))]);
    assert_eq!(
        decode_point(&a).err(),
        Some(ValidationError::InvalidValue(Field::Y))
    );
}

#[test]
fn name_params_decode() {
    let a = args(vec![("name", ArgValue::Str("HDMI-1".to_string()))]);
    assert_eq!(decode_name(&a).unwrap().name, "HDMI-1");
    assert_eq!(
        decode_name(&args(vec![])).err(),
        Some(ValidationError::MissingField(Field::Name))
    );
    assert_eq!(
        decode_name(&args(vec![("name", ArgValue::Other)])).err(),
        Some(ValidationError::InvalidValue(Field::Name))
    );
}

#[test]
fn plan_refuses_bad_calls() {
    let none = args(vec![]);
    assert!(matches!(
        plan_call(&"nope".to_string(), &none),
        Err(CallError::UnknownTool)
    ));
    assert!(matches!(
        plan_call(&"get_display_at_point".to_string(), &none),
        Err(CallError::Invalid(ValidationError::MissingField(Field::X)))
    ));
    assert!(matches!(
        plan_call(&"get_display_by_name".to_string(), &none),
        Err(CallError::Invalid(ValidationError::MissingField(Field::Name)))
    ));
}

#[test]
fn plan_builds_queries() {
    assert!(matches!(
        plan_call(&"get_display_info".to_string(), &args(vec![])),
        Ok(Query::All)
    ));
    let a = args(vec![("x", ArgValue::Int(5)), ("y", ArgValue::Int(6))]);
    match plan_call(&"get_display_at_point".to_string(), &a) {
        Ok(Query::AtPoint(p)) => assert_eq!((p.x, p.y), (5, 6)),
        _ => panic!("expected a point query"),
    }
    let a = args(vec![("name", ArgValue::Str("eDP-1".to_string()))]);
    match plan_call(&"get_display_by_name".to_string(), &a) {
        Ok(Query::ByName(p)) => assert_eq!(p.name, "eDP-1"),
        _ => panic!("expected a name query"),
    }
}

#[test]
fn info_result_success_and_failure() {
    let ok = display_info_result(&Ok(vec![record()])).unwrap();
    assert!(ok.starts_with("Display Information:\n\nDisplay 1: DISP1\n"));
    assert!(ok.ends_with("Total displays: 1\n"));
    assert_eq!(
        display_info_result(&Err("no X server".to_string())),
        Err("Failed to get display info: no X server".to_string())
    );
}

#[test]
fn point_result_uses_queried_coordinates() {
    let t = display_at_point_result(5, -7, &Ok(record())).unwrap();
    assert!(t.starts_with("Display at (5, -7):\nDISP1\n"));
    assert!(t.contains("  Position: (1920, 0)\n"));
    assert_eq!(
        display_at_point_result(5, -7, &Err("out of bounds".to_string())),
        Err("Failed to get display at (5, -7): out of bounds".to_string())
    );
}

#[test]
fn name_result_has_no_prefix() {
    let t = display_by_name_result(&"DISP1".to_string(), &Ok(record())).unwrap();
    assert!(t.starts_with("DISP1\n  Resolution: 2560x1440\n"));
    assert_eq!(
        display_by_name_result(&"X".to_string(), &Err("Get display info failed".to_string())),
        Err("Failed to get display 'X': Get display info failed".to_string())
    );
}
