use rmcp_display::diagonal::diagonal_tenths_of;
use rmcp_display::record::DisplayRecord;
use rmcp_display::render::{format_display_info, format_single_display};

fn record(name: &str, friendly: &str) -> DisplayRecord {
    DisplayRecord {
        name: name.to_string(),
        friendly_name: friendly.to_string(),
        x: 0,
        y: 0,
        width: 1920,
        height: 1080,
        width_mm: 0,
        height_mm: 0,
        refresh_hz: None,
        scale_percent: None,
        rotation_deg: None,
        is_primary: false,
    }
}

#[test]
fn minimal_record_renders_three_lines() {
    let d = record("DISP1", "");
    assert_eq!(
        format_single_display(&d),
        "DISP1\n  Resolution: 1920x1080\n  Position: (0, 0)\n"
    );
}

#[test]
fn header_falls_back_to_name() {
    let d = record("DISP1", "");
    assert!(format_single_display(&d).starts_with("DISP1\n"));
}

#[test]
fn header_prefers_friendly_name() {
    let d = record("DISP1", "Main");
    let t = format_single_display(&d);
    assert!(t.starts_with("Main\n"));
    assert!(!t.contains("DISP1"));
}

#[test]
fn primary_suffix_only_for_primary() {
    let mut d = record("DISP1", "Main");
    d.is_primary = true;
    assert!(format_single_display(&d).starts_with("Main (primary)\n"));
    d.is_primary = false;
    assert!(!format_single_display(&d).contains("(primary)"));
}

#[test]
fn negative_position_is_signed() {
    let mut d = record("DISP2", "");
    d.x = -1920;
    d.y = -5;
    assert!(format_single_display(&d).contains("  Position: (-1920, -5)\n"));
}

#[test]
fn physical_line_with_diagonal() {
    let mut d = record("DISP1", "");
    d.width_mm = 600;
    d.height_mm = 340;
    // sqrt(600² + 340²) / 25.4 = 27.151..., one decimal place
    assert!(format_single_display(&d).contains("  Physical: 600mm x 340mm (~27.2\")\n"));
}

#[test]
fn physical_line_omitted_when_a_dimension_is_zero() {
    let mut d = record("DISP1", "");
    d.width_mm = 600;
    d.height_mm = 0;
    assert!(!format_single_display(&d).contains("Physical"));
    d.width_mm = 0;
    d.height_mm = 340;
    assert!(!format_single_display(&d).contains("Physical"));
}

#[test]
fn diagonal_tenths_exact_values() {
    // 50 mm = 1.9685 in
    assert_eq!(diagonal_tenths_of(30, 40), 20);
    // 254 mm = 10 in exactly
    assert_eq!(diagonal_tenths_of(254, 1), 100);
    assert_eq!(diagonal_tenths_of(600, 340), 272);
    // 1 mm: sqrt(2) / 25.4 = 0.0557 in
    assert_eq!(diagonal_tenths_of(1, 1), 1);
    assert_eq!(diagonal_tenths_of(i32::MAX, i32::MAX), 1195669488);
}

#[test]
fn small_diagonal_has_leading_zero() {
    let mut d = record("DISP1", "");
    d.width_mm = 1;
    d.height_mm = 1;
    assert!(format_single_display(&d).contains("(~0.1\")"));
}

#[test]
fn optional_lines_are_independent() {
    let mut d = record("DISP1", "");
    d.refresh_hz = Some(60);
    let t = format_single_display(&d);
    assert!(t.ends_with("  Refresh: 60Hz\n"));
    assert!(!t.contains("Scale"));
    assert!(!t.contains("Rotation"));

    let mut d = record("DISP1", "");
    d.scale_percent = Some(150);
    let t = format_single_display(&d);
    assert!(t.ends_with("  Scale: 150%\n"));
    assert!(!t.contains("Refresh"));

    let mut d = record("DISP1", "");
    d.rotation_deg = Some(-90);
    let t = format_single_display(&d);
    assert!(t.ends_with("  Rotation: -90°\n"));
    assert!(!t.contains("Refresh"));
    assert!(!t.contains("Scale"));
}

#[test]
fn full_record_line_order() {
    let mut d = record("DISP1", "Dell");
    d.is_primary = true;
    d.x = 10;
    d.y = 20;
    d.width_mm = 30;
    d.height_mm = 40;
    d.refresh_hz = Some(144);
    d.scale_percent = Some(125);
    d.rotation_deg = Some(90);
    assert_eq!(
        format_single_display(&d),
        "Dell (primary)\n  Resolution: 1920x1080\n  Position: (10, 20)\n  Physical: 30mm x 40mm (~2.0\")\n  Refresh: 144Hz\n  Scale: 125%\n  Rotation: 90°\n"
    );
}

#[test]
fn rendering_is_deterministic() {
    let mut d = record("DISP1", "Main");
    d.refresh_hz = Some(75);
    assert_eq!(format_single_display(&d), format_single_display(&d));
    let ds = vec![d];
    assert_eq!(format_display_info(&ds), format_display_info(&ds));
}

#[test]
fn empty_list_text() {
    assert_eq!(
        format_display_info(&vec![]),
        "Display Information:\n\nNo displays detected.\n"
    );
}

#[test]
fn list_numbers_blocks_in_order() {
    let ds = vec![record("A", ""), record("B", ""), record("A", "")];
    assert_eq!(
        format_display_info(&ds),
        "Display Information:\n\n\
         Display 1: A\n  Resolution: 1920x1080\n  Position: (0, 0)\n\n\
         Display 2: B\n  Resolution: 1920x1080\n  Position: (0, 0)\n\n\
         Display 3: A\n  Resolution: 1920x1080\n  Position: (0, 0)\n\n\
         Total displays: 3\n"
    );
}
