//! Text rendering of one display record and of a list of them.

use vstd::prelude::*;
use crate::diagonal::{diagonal_tenths, diagonal_tenths_of};
use crate::record::DisplayRecord;
use crate::text::{digit_text, int_text, nat_text, push_int, push_nat};

verus! {

/// The name shown for a display: its friendly name, or its name where that is empty.
pub open spec fn label(d: DisplayRecord) -> Seq<char> {
    if d.friendly_name@.len() > 0 {
        d.friendly_name@
    } else {
        d.name@
    }
}

pub open spec fn header_line(d: DisplayRecord) -> Seq<char> {
    label(d) + (if d.is_primary {
        " (primary)"@
    } else {
        Seq::empty()
    }) + "\n"@
}

pub open spec fn resolution_line(d: DisplayRecord) -> Seq<char> {
    "  Resolution: "@ + int_text(d.width as int) + "x"@ + int_text(d.height as int) + "\n"@
}

pub open spec fn position_line(d: DisplayRecord) -> Seq<char> {
    "  Position: ("@ + int_text(d.x as int) + ", "@ + int_text(d.y as int) + ")\n"@
}

/// Whether the physical size is known: both dimensions positive.
pub open spec fn has_physical_size(d: DisplayRecord) -> bool {
    d.width_mm > 0 && d.height_mm > 0
}

/// A number of tenths written with one decimal place.
pub open spec fn tenths_text(t: nat) -> Seq<char> {
    nat_text(t / 10) + "."@ + digit_text(t % 10)
}

pub open spec fn physical_line(d: DisplayRecord) -> Seq<char> {
    if has_physical_size(d) {
        "  Physical: "@ + int_text(d.width_mm as int) + "mm x "@ + int_text(d.height_mm as int)
            + "mm (~"@ + tenths_text(
            diagonal_tenths(d.width_mm as int, d.height_mm as int) as nat,
        ) + "\")\n"@
    } else {
        Seq::empty()
    }
}

pub open spec fn refresh_line(d: DisplayRecord) -> Seq<char> {
    match d.refresh_hz {
        Some(hz) => "  Refresh: "@ + int_text(hz as int) + "Hz\n"@,
        None => Seq::empty(),
    }
}

pub open spec fn scale_line(d: DisplayRecord) -> Seq<char> {
    match d.scale_percent {
        Some(p) => "  Scale: "@ + int_text(p as int) + "%\n"@,
        None => Seq::empty(),
    }
}

pub open spec fn rotation_line(d: DisplayRecord) -> Seq<char> {
    match d.rotation_deg {
        Some(r) => "  Rotation: "@ + int_text(r as int) + "°\n"@,
        None => Seq::empty(),
    }
}

/// The full text of one display: header, resolution, position, then the
/// optional physical size, refresh, scale and rotation lines.
pub open spec fn display_text(d: DisplayRecord) -> Seq<char> {
    header_line(d) + resolution_line(d) + position_line(d) + physical_line(d) + refresh_line(d)
        + scale_line(d) + rotation_line(d)
}

fn push_header(s: &mut String, d: &DisplayRecord)
    ensures
        final(s)@ == old(s)@ + header_line(*d),
{
    let ghost s0 = s@;
    if d.friendly_name.as_str().is_empty() {
        s.append(d.name.as_str());
    } else {
        s.append(d.friendly_name.as_str());
    }
    if d.is_primary {
        s.append(" (primary)");
    }
    s.append("\n");
    assert(s@ =~= s0 + header_line(*d));
}

fn push_resolution_and_position(s: &mut String, d: &DisplayRecord)
    ensures
        final(s)@ == old(s)@ + resolution_line(*d) + position_line(*d),
{
    let ghost s0 = s@;
    s.append("  Resolution: ");
    push_int(s, d.width as i64);
    s.append("x");
    push_int(s, d.height as i64);
    s.append("\n");
    let ghost s1 = s@;
    assert(s1 =~= s0 + resolution_line(*d));
    s.append("  Position: (");
    push_int(s, d.x as i64);
    s.append(", ");
    push_int(s, d.y as i64);
    s.append(")\n");
    assert(s@ =~= s1 + position_line(*d));
}

fn push_physical(s: &mut String, d: &DisplayRecord)
    ensures
        final(s)@ == old(s)@ + physical_line(*d),
{
    let ghost s0 = s@;
    if d.width_mm > 0 && d.height_mm > 0 {
        let t = diagonal_tenths_of(d.width_mm, d.height_mm);
        s.append("  Physical: ");
        push_int(s, d.width_mm as i64);
        s.append("mm x ");
        push_int(s, d.height_mm as i64);
        s.append("mm (~");
        push_nat(s, t / 10);
        s.append(".");
        push_nat(s, t % 10);
        assert(nat_text((t % 10) as nat) == digit_text((t % 10) as nat));
        s.append("\")\n");
        assert(s@ =~= s0 + physical_line(*d));
    } else {
        assert(s@ =~= s0 + physical_line(*d));
    }
}

fn push_optional_lines(s: &mut String, d: &DisplayRecord)
    ensures
        final(s)@ == old(s)@ + refresh_line(*d) + scale_line(*d) + rotation_line(*d),
{
    let ghost s0 = s@;
    match d.refresh_hz {
        Some(hz) => {
            s.append("  Refresh: ");
            push_int(s, hz);
            s.append("Hz\n");
        },
        None => {},
    }
    let ghost s1 = s@;
    assert(s1 =~= s0 + refresh_line(*d));
    match d.scale_percent {
        Some(p) => {
            s.append("  Scale: ");
            push_int(s, p);
            s.append("%\n");
        },
        None => {},
    }
    let ghost s2 = s@;
    assert(s2 =~= s1 + scale_line(*d));
    match d.rotation_deg {
        Some(r) => {
            s.append("  Rotation: ");
            push_int(s, r as i64);
            s.append("°\n");
        },
        None => {},
    }
    assert(s@ =~= s2 + rotation_line(*d));
}

/// Appends the text of one display.
pub fn push_display(s: &mut String, d: &DisplayRecord)
    ensures
        final(s)@ == old(s)@ + display_text(*d),
{
    let ghost s0 = s@;
    push_header(s, d);
    push_resolution_and_position(s, d);
    push_physical(s, d);
    push_optional_lines(s, d);
    assert(s@ =~= s0 + display_text(*d));
}

/// The text of one display.
pub fn format_single_display(d: &DisplayRecord) -> (r: String)
    ensures
        r@ == display_text(*d),
{
    let mut s = String::new();
    push_display(&mut s, d);
    assert(s@ =~= display_text(*d));
    s
}

/// The block of the display at 1-based position `i` of a list.
pub open spec fn list_block(i: nat, d: DisplayRecord) -> Seq<char> {
    "Display "@ + nat_text(i) + ": "@ + display_text(d) + "\n"@
}

/// The blocks of all displays of `ds`, numbered from one in the order given.
pub open spec fn list_blocks(ds: Seq<DisplayRecord>) -> Seq<char>
    decreases ds.len(),
{
    if ds.len() == 0 {
        Seq::empty()
    } else {
        list_blocks(ds.drop_last()) + list_block(ds.len(), ds.last())
    }
}

/// The text of a list of displays: a title, then either a note that there
/// are none, or the blocks of all of them followed by their count.
pub open spec fn list_text(ds: Seq<DisplayRecord>) -> Seq<char> {
    "Display Information:\n\n"@ + if ds.len() == 0 {
        "No displays detected.\n"@
    } else {
        list_blocks(ds) + "Total displays: "@ + nat_text(ds.len()) + "\n"@
    }
}

/// The text of a list of displays, in the order given.
pub fn format_display_info(displays: &Vec<DisplayRecord>) -> (r: String)
    ensures
        r@ == list_text(displays@),
{
    let mut s = String::from_str("Display Information:\n\n");
    if displays.len() == 0 {
        s.append("No displays detected.\n");
        assert(s@ =~= list_text(displays@));
        return s;
    }
    let ghost s0 = s@;
    let mut i: usize = 0;
    while i < displays.len()
        invariant
            i <= displays@.len(),
            s@ == s0 + list_blocks(displays@.take(i as int)),
        decreases displays@.len() - i,
    {
        let ghost before = s@;
        s.append("Display ");
        push_nat(&mut s, i as u64 + 1);
        s.append(": ");
        push_display(&mut s, &displays[i]);
        s.append("\n");
        assert(displays@.take(i + 1).drop_last() =~= displays@.take(i as int));
        assert(s@ =~= s0 + list_blocks(displays@.take(i + 1)));
        i = i + 1;
    }
    assert(displays@.take(i as int) =~= displays@);
    let ghost s1 = s@;
    s.append("Total displays: ");
    push_nat(&mut s, displays.len() as u64);
    s.append("\n");
    assert(s@ =~= s1 + "Total displays: "@ + nat_text(displays@.len()) + "\n"@);
    assert(s@ =~= list_text(displays@));
    s
}

} // verus!
