//! Properties of the rendered text and of the dispatcher's decisions.

use vstd::prelude::*;
use crate::dispatch::{
    call_refusal, info_failure_text, name_failure_text, point_failure_text, point_title,
    tool_named, Tool,
};
use crate::params::{name_error, point_params, ArgValue};
use crate::record::DisplayRecord;
use crate::render::{
    display_text, header_line, label, list_block, list_blocks, list_text, physical_line,
    position_line, refresh_line, resolution_line, rotation_line, scale_line,
};
use crate::text::nat_text;

verus! {

/// Rendering is a function of the record alone: equal records give equal text,
/// and so do equal lists.
pub proof fn law_render_deterministic(a: DisplayRecord, b: DisplayRecord, xs: Seq<DisplayRecord>, ys: Seq<DisplayRecord>)
    requires
        a == b,
        xs == ys,
    ensures
        display_text(a) == display_text(b),
        list_text(xs) == list_text(ys),
{
}

/// The text of a display starts with its friendly name where that is not
/// empty, and with its name otherwise.
pub proof fn law_header_name(d: DisplayRecord)
    ensures
        d.friendly_name@.len() > 0 ==> display_text(d).take(d.friendly_name@.len() as int)
            == d.friendly_name@,
        d.friendly_name@.len() == 0 ==> display_text(d).take(d.name@.len() as int) == d.name@,
{
    let t = display_text(d);
    assert(t.take(label(d).len() as int) =~= label(d));
}

/// The first line is the shown name followed by " (primary)" exactly when the
/// display is the primary one, and by nothing otherwise.
pub proof fn law_primary_suffix(d: DisplayRecord)
    ensures
        d.is_primary ==> display_text(d).take(label(d).len() + 11int) == label(d) + " (primary)\n"@,
        !d.is_primary ==> display_text(d).take(label(d).len() + 1int) == label(d) + "\n"@,
{
    reveal_strlit(" (primary)");
    reveal_strlit(" (primary)\n");
    reveal_strlit("\n");
    let t = display_text(d);
    if d.is_primary {
        assert(header_line(d) =~= label(d) + " (primary)\n"@);
        assert(t.take(label(d).len() + 11int) =~= label(d) + " (primary)\n"@);
    } else {
        assert(header_line(d) =~= label(d) + "\n"@);
        assert(t.take(label(d).len() + 1int) =~= label(d) + "\n"@);
    }
}

/// Where either physical dimension is unknown (not positive) the physical-size
/// line is left out: the text is the header, resolution and position lines
/// followed directly by the optional lines.
pub proof fn law_physical_line_omitted(d: DisplayRecord)
    requires
        d.width_mm <= 0 || d.height_mm <= 0,
    ensures
        physical_line(d) == Seq::<char>::empty(),
        display_text(d) == header_line(d) + resolution_line(d) + position_line(d) + refresh_line(d)
            + scale_line(d) + rotation_line(d),
{
    assert(display_text(d) =~= header_line(d) + resolution_line(d) + position_line(d)
        + refresh_line(d) + scale_line(d) + rotation_line(d));
}

/// The refresh, scale and rotation lines each depend on their own value
/// alone, and each is present exactly when that value is.
pub proof fn law_optional_lines_independent(a: DisplayRecord, b: DisplayRecord)
    ensures
        a.refresh_hz == b.refresh_hz ==> refresh_line(a) == refresh_line(b),
        a.scale_percent == b.scale_percent ==> scale_line(a) == scale_line(b),
        a.rotation_deg == b.rotation_deg ==> rotation_line(a) == rotation_line(b),
        (refresh_line(a).len() > 0) == (a.refresh_hz is Some),
        (scale_line(a).len() > 0) == (a.scale_percent is Some),
        (rotation_line(a).len() > 0) == (a.rotation_deg is Some),
{
    reveal_strlit("  Refresh: ");
    reveal_strlit("  Scale: ");
    reveal_strlit("  Rotation: ");
}

/// An empty list renders as the title and a note, with no count line.
pub proof fn law_empty_list()
    ensures
        list_text(Seq::empty()) == "Display Information:\n\nNo displays detected.\n"@,
{
    reveal_strlit("Display Information:\n\n");
    reveal_strlit("No displays detected.\n");
    reveal_strlit("Display Information:\n\nNo displays detected.\n");
    assert(list_text(Seq::empty()) =~= "Display Information:\n\nNo displays detected.\n"@);
}

proof fn lemma_blocks_prefix(ds: Seq<DisplayRecord>, k: int)
    requires
        0 <= k <= ds.len(),
    ensures
        list_blocks(ds.take(k)).len() <= list_blocks(ds).len(),
        list_blocks(ds).take(list_blocks(ds.take(k)).len() as int) == list_blocks(ds.take(k)),
    decreases ds.len(),
{
    if k == ds.len() {
        assert(ds.take(k) =~= ds);
        assert(list_blocks(ds).take(list_blocks(ds).len() as int) =~= list_blocks(ds));
    } else {
        let front = ds.drop_last();
        assert(front.take(k) =~= ds.take(k));
        lemma_blocks_prefix(front, k);
        let p = list_blocks(ds.take(k));
        assert(list_blocks(ds) == list_blocks(front) + list_block(ds.len(), ds.last()));
        assert(list_blocks(ds).take(p.len() as int) =~= list_blocks(front).take(p.len() as int));
    }
}

/// A non-empty list renders as the title, one block per display numbered
/// from one in the order given, and the count. The block of the display at
/// position `i` follows the blocks of all displays before it.
pub proof fn law_list_blocks_in_order(ds: Seq<DisplayRecord>, i: int)
    requires
        0 <= i < ds.len(),
    ensures
        list_text(ds) == "Display Information:\n\n"@ + list_blocks(ds) + "Total displays: "@
            + nat_text(ds.len()) + "\n"@,
        ({
            let p = list_blocks(ds.take(i)) + list_block((i + 1) as nat, ds[i]);
            p.len() <= list_blocks(ds).len() && list_blocks(ds).take(p.len() as int) == p
        }),
{
    assert(list_text(ds) =~= "Display Information:\n\n"@ + list_blocks(ds) + "Total displays: "@
        + nat_text(ds.len()) + "\n"@);
    lemma_blocks_prefix(ds, i + 1);
    let q = ds.take(i + 1);
    assert(q.drop_last() =~= ds.take(i));
    assert(list_blocks(q) == list_blocks(ds.take(i)) + list_block((i + 1) as nat, ds[i]));
}

/// The answer to a point query starts with the queried coordinates, whatever
/// the position of the display found.
pub proof fn law_point_answer_title(x: int, y: int, d: DisplayRecord)
    ensures
        (point_title(x, y) + display_text(d)).take(point_title(x, y).len() as int) == point_title(x, y),
{
    assert((point_title(x, y) + display_text(d)).take(point_title(x, y).len() as int)
        =~= point_title(x, y));
}

/// Every failure text ends with the platform's message, unchanged.
pub proof fn law_failure_keeps_message(x: int, y: int, name: Seq<char>, e: Seq<char>)
    ensures
        info_failure_text(e).skip(info_failure_text(e).len() - e.len()) == e,
        point_failure_text(x, y, e).skip(point_failure_text(x, y, e).len() - e.len()) == e,
        name_failure_text(name, e).skip(name_failure_text(name, e).len() - e.len()) == e,
{
    assert(info_failure_text(e).skip(info_failure_text(e).len() - e.len()) =~= e);
    assert(point_failure_text(x, y, e).skip(point_failure_text(x, y, e).len() - e.len()) =~= e);
    assert(name_failure_text(name, e).skip(name_failure_text(name, e).len() - e.len()) =~= e);
}

/// A point or name call whose arguments do not decode is refused before the
/// platform is asked.
pub proof fn law_invalid_args_refused(name: Seq<char>, args: Seq<(String, ArgValue)>)
    ensures
        tool_named(name) == Some(Tool::DisplayAtPoint) && point_params(args) is Err
            ==> call_refusal(name, args) is Some,
        tool_named(name) == Some(Tool::DisplayByName) && name_error(args) is Some
            ==> call_refusal(name, args) is Some,
{
}

} // verus!
