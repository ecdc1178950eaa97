//! One display as reported by the platform's display enumeration.

use vstd::prelude::*;

verus! {

/// Attributes of one display. Values that the platform reports as floating
/// point are carried in the integer form in which they are shown: `None`
/// where the line that shows them is left out.
pub struct DisplayRecord {
    /// Internal identifier; may be empty.
    pub name: String,
    /// Human label; may be empty, and then `name` is shown instead.
    pub friendly_name: String,
    /// Left edge in the virtual screen space.
    pub x: i32,
    /// Top edge in the virtual screen space.
    pub y: i32,
    /// Horizontal resolution in pixels.
    pub width: u32,
    /// Vertical resolution in pixels.
    pub height: u32,
    /// Physical width in millimetres; `0` where unknown.
    pub width_mm: i32,
    /// Physical height in millimetres; `0` where unknown.
    pub height_mm: i32,
    /// Refresh rate rounded to whole hertz; `None` where the rate is not positive.
    pub refresh_hz: Option<i64>,
    /// Scale factor as a rounded percentage; `None` where the factor is exactly one.
    pub scale_percent: Option<i64>,
    /// Rotation truncated to whole degrees; `None` where the display is not rotated.
    pub rotation_deg: Option<i32>,
    /// Whether this is the primary display.
    pub is_primary: bool,
}

} // verus!
