//! The tool dispatcher's decisions: which tool a call names, what the
//! platform is asked, and how its answer becomes the call's result.

use vstd::prelude::*;
use crate::params::{
    arg_value, decode_name, decode_point, field_key, name_error, point_params, ArgValue, Field,
    NameParams, PointParams, ValidationError,
};
use crate::record::DisplayRecord;
use crate::render::{display_text, format_display_info, list_text, push_display};
use crate::text::{int_text, push_int};

verus! {

/// The tools that the server offers.
#[derive(Clone, Copy, Debug, PartialEq, Eq, Structural)]
pub enum Tool {
    /// All displays.
    DisplayInfo,
    /// The display that contains a point.
    DisplayAtPoint,
    /// The display with a given name.
    DisplayByName,
}

/// What the platform's display enumeration is asked for one call.
pub enum Query {
    /// Every display.
    All,
    /// The display that contains the point.
    AtPoint(PointParams),
    /// The display with the name.
    ByName(NameParams),
}

/// Why a call was refused before the platform was asked anything.
#[derive(Clone, Copy, Debug, PartialEq, Eq, Structural)]
pub enum CallError {
    /// No tool has the name that the call gives.
    UnknownTool,
    /// The tool's arguments could not be decoded.
    Invalid(ValidationError),
}

/// The tool registered under a name.
pub open spec fn tool_named(name: Seq<char>) -> Option<Tool> {
    if name == "get_display_info"@ {
        Some(Tool::DisplayInfo)
    } else if name == "get_display_at_point"@ {
        Some(Tool::DisplayAtPoint)
    } else if name == "get_display_by_name"@ {
        Some(Tool::DisplayByName)
    } else {
        None
    }
}

/// The name under which a tool is registered.
pub open spec fn tool_name_text(t: Tool) -> Seq<char> {
    match t {
        Tool::DisplayInfo => "get_display_info"@,
        Tool::DisplayAtPoint => "get_display_at_point"@,
        Tool::DisplayByName => "get_display_by_name"@,
    }
}

/// The description with which a tool is advertised.
pub open spec fn tool_description_text(t: Tool) -> Seq<char> {
    match t {
        Tool::DisplayInfo => "Get display/monitor information (connected displays, resolutions, physical sizes)"@,
        Tool::DisplayAtPoint => "Get display info at specific screen coordinates (useful for determining which monitor contains a point)"@,
        Tool::DisplayByName => "Get display info by name"@,
    }
}

/// The instructions that the server announces.
pub open spec fn instructions_text() -> Seq<char> {
    "Cross-platform display/monitor information server"@
}

/// The error text of a failed enumeration of all displays.
pub open spec fn info_failure_text(e: Seq<char>) -> Seq<char> {
    "Failed to get display info: "@ + e
}

/// The error text of a failed point query.
pub open spec fn point_failure_text(x: int, y: int, e: Seq<char>) -> Seq<char> {
    "Failed to get display at ("@ + int_text(x) + ", "@ + int_text(y) + "): "@ + e
}

/// The error text of a failed name query.
pub open spec fn name_failure_text(name: Seq<char>, e: Seq<char>) -> Seq<char> {
    "Failed to get display '"@ + name + "': "@ + e
}

/// The first line of the answer to a point query.
pub open spec fn point_title(x: int, y: int) -> Seq<char> {
    "Display at ("@ + int_text(x) + ", "@ + int_text(y) + "):\n"@
}

/// Why a call is refused before the platform is asked, if it is.
pub open spec fn call_refusal(name: Seq<char>, args: Seq<(String, ArgValue)>) -> Option<CallError> {
    match tool_named(name) {
        None => Some(CallError::UnknownTool),
        Some(Tool::DisplayInfo) => None,
        Some(Tool::DisplayAtPoint) => match point_params(args) {
            Ok(_) => None,
            Err(e) => Some(CallError::Invalid(e)),
        },
        Some(Tool::DisplayByName) => match name_error(args) {
            None => None,
            Some(e) => Some(CallError::Invalid(e)),
        },
    }
}

/// The tools in the order in which they are listed.
pub fn tools() -> (r: Vec<Tool>)
    ensures
        r@ == seq![Tool::DisplayInfo, Tool::DisplayAtPoint, Tool::DisplayByName],
{
    vec![Tool::DisplayInfo, Tool::DisplayAtPoint, Tool::DisplayByName]
}

/// The name under which `t` is registered.
pub fn tool_name(t: Tool) -> (r: String)
    ensures
        r@ == tool_name_text(t),
{
    match t {
        Tool::DisplayInfo => String::from_str("get_display_info"),
        Tool::DisplayAtPoint => String::from_str("get_display_at_point"),
        Tool::DisplayByName => String::from_str("get_display_by_name"),
    }
}

/// The description with which `t` is advertised.
pub fn tool_description(t: Tool) -> (r: String)
    ensures
        r@ == tool_description_text(t),
{
    match t {
        Tool::DisplayInfo => String::from_str(
            "Get display/monitor information (connected displays, resolutions, physical sizes)",
        ),
        Tool::DisplayAtPoint => String::from_str(
            "Get display info at specific screen coordinates (useful for determining which monitor contains a point)",
        ),
        Tool::DisplayByName => String::from_str("Get display info by name"),
    }
}

/// The instructions that the server announces.
pub fn instructions() -> (r: String)
    ensures
        r@ == instructions_text(),
{
    String::from_str("Cross-platform display/monitor information server")
}

/// The tool registered under `name`, if any.
pub fn find_tool(name: &String) -> (r: Option<Tool>)
    ensures
        r == tool_named(name@),
{
    let all = tools();
    let mut i: usize = 0;
    while i < all.len()
        invariant
            all@ == seq![Tool::DisplayInfo, Tool::DisplayAtPoint, Tool::DisplayByName],
            i <= 3,
            forall|j: int| 0 <= j < i ==> name@ != tool_name_text(#[trigger] all@[j]),
        decreases 3 - i,
    {
        let t = all[i];
        if *name == tool_name(t) {
            return Some(t);
        }
        i = i + 1;
    }
    None
}

/// Decides what one call asks of the platform: the tool that it names, with
/// its arguments decoded. A call that names no tool, or whose arguments do
/// not decode, is refused here, and the platform is not asked.
pub fn plan_call(name: &String, args: &Vec<(String, ArgValue)>) -> (r: Result<Query, CallError>)
    ensures
        match call_refusal(name@, args@) {
            Some(e) => r == Err::<Query, CallError>(e),
            None => r is Ok,
        },
        match tool_named(name@) {
            None => r == Err::<Query, CallError>(CallError::UnknownTool),
            Some(Tool::DisplayInfo) => r matches Ok(Query::All),
            Some(Tool::DisplayAtPoint) => match point_params(args@) {
                Ok(p) => r == Ok::<Query, CallError>(Query::AtPoint(p)),
                Err(e) => r == Err::<Query, CallError>(CallError::Invalid(e)),
            },
            Some(Tool::DisplayByName) => match name_error(args@) {
                Some(e) => r == Err::<Query, CallError>(CallError::Invalid(e)),
                None => (arg_value(args@, field_key(Field::Name)) matches Some(ArgValue::Str(n))
                    && r matches Ok(Query::ByName(p)) && p.name@ == n@),
            },
        },
{
    match find_tool(name) {
        None => Err(CallError::UnknownTool),
        Some(Tool::DisplayInfo) => Ok(Query::All),
        Some(Tool::DisplayAtPoint) => match decode_point(args) {
            Ok(p) => Ok(Query::AtPoint(p)),
            Err(e) => Err(CallError::Invalid(e)),
        },
        Some(Tool::DisplayByName) => match decode_name(args) {
            Ok(p) => Ok(Query::ByName(p)),
            Err(e) => Err(CallError::Invalid(e)),
        },
    }
}

/// The result of listing all displays, from the platform's answer.
pub fn display_info_result(reply: &Result<Vec<DisplayRecord>, String>) -> (r: Result<String, String>)
    ensures
        match reply {
            Ok(ds) => (r matches Ok(t) && t@ == list_text(ds@)),
            Err(e) => (r matches Err(m) && m@ == info_failure_text(e@)),
        },
{
    match reply {
        Ok(ds) => Ok(format_display_info(ds)),
        Err(e) => {
            let mut m = String::from_str("Failed to get display info: ");
            m.append(e.as_str());
            Err(m)
        },
    }
}

fn push_point(s: &mut String, x: i32, y: i32)
    ensures
        final(s)@ == old(s)@ + "Display at ("@ + int_text(x as int) + ", "@ + int_text(y as int),
{
    s.append("Display at (");
    push_int(s, x as i64);
    s.append(", ");
    push_int(s, y as i64);
}

/// The result of the point query at (`x`, `y`), from the platform's answer.
pub fn display_at_point_result(x: i32, y: i32, reply: &Result<DisplayRecord, String>) -> (r: Result<
    String,
    String,
>)
    ensures
        match reply {
            Ok(d) => (r matches Ok(t) && t@ == point_title(x as int, y as int) + display_text(*d)),
            Err(e) => (r matches Err(m) && m@ == point_failure_text(x as int, y as int, e@)),
        },
{
    match reply {
        Ok(d) => {
            let mut t = String::new();
            push_point(&mut t, x, y);
            t.append("):\n");
            push_display(&mut t, d);
            assert(t@ =~= point_title(x as int, y as int) + display_text(*d));
            Ok(t)
        },
        Err(e) => {
            let mut m = String::from_str("Failed to get display at (");
            push_int(&mut m, x as i64);
            m.append(", ");
            push_int(&mut m, y as i64);
            m.append("): ");
            m.append(e.as_str());
            assert(m@ =~= point_failure_text(x as int, y as int, e@));
            Err(m)
        },
    }
}

/// The result of the name query for `name`, from the platform's answer.
pub fn display_by_name_result(name: &String, reply: &Result<DisplayRecord, String>) -> (r: Result<
    String,
    String,
>)
    ensures
        match reply {
            Ok(d) => (r matches Ok(t) && t@ == display_text(*d)),
            Err(e) => (r matches Err(m) && m@ == name_failure_text(name@, e@)),
        },
{
    match reply {
        Ok(d) => {
            let mut t = String::new();
            push_display(&mut t, d);
            assert(t@ =~= display_text(*d));
            Ok(t)
        },
        Err(e) => {
            let mut m = String::from_str("Failed to get display '");
            m.append(name.as_str());
            m.append("': ");
            m.append(e.as_str());
            assert(m@ =~= name_failure_text(name@, e@));
            Err(m)
        },
    }
}

} // verus!
