//! The library's general laws, stated and proved over the same spec
//! functions that the builders' and the renderer's contracts use.

use vstd::prelude::*;

use crate::measure::visual_width;
use crate::render::pad_amount;
use crate::render::pad_target;
use crate::render::padded;
use crate::table::Alignment;
use crate::table::Header;
use crate::table::upd_widths;

verus! {

/// The tracked column widths after the given rows are folded in one by one,
/// starting from the seeded widths `ws0`.
pub open spec fn widths_after(ws0: Seq<nat>, rows: Seq<Seq<Seq<char>>>) -> Seq<nat>
    decreases rows.len(),
{
    if rows.len() == 0 {
        ws0
    } else {
        upd_widths(widths_after(ws0, rows.drop_last()), rows.last())
    }
}

/// The largest visual width that column `i` sees across the given rows:
/// zero if no row reaches that column.
pub open spec fn col_max(rows: Seq<Seq<Seq<char>>>, i: int) -> nat
    decreases rows.len(),
{
    if rows.len() == 0 {
        0
    } else {
        let prev = col_max(rows.drop_last(), i);
        let last = rows.last();
        if i < last.len() && visual_width(last[i]) > prev {
            visual_width(last[i])
        } else {
            prev
        }
    }
}

/// The seeded widths of a header set: each column starts at the visual
/// width of its header's own label.
pub open spec fn seeds(hs: Seq<Header>) -> Seq<nat> {
    hs.map_values(|h: Header| visual_width(h.text@))
}

/// Appending a header extends the seeded widths with that header's own
/// visual width: this ties `seeds` to the `header` builder, whose contract
/// states exactly that push.
pub proof fn lemma_seeds_push(hs: Seq<Header>, h: Header)
    ensures
        seeds(hs.push(h)) == seeds(hs).push(visual_width(h.text@)),
{
    assert(seeds(hs.push(h)) =~= seeds(hs).push(visual_width(h.text@)));
}

/// Folding one more row into the tracked widths is one `upd_widths` step:
/// this ties `widths_after` to the `row` builders, whose contracts state
/// exactly that step.
pub proof fn lemma_widths_after_push(ws0: Seq<nat>, rows: Seq<Seq<Seq<char>>>, r: Seq<Seq<char>>)
    ensures
        widths_after(ws0, rows.push(r)) == upd_widths(widths_after(ws0, rows), r),
{
    assert(rows.push(r).drop_last() =~= rows);
    assert(rows.push(r).last() == r);
}

/// Width tracking law: after any sequence of rows, each column's tracked
/// width equals the larger of its seeded width (the visual width of the
/// header's own label, per the `header` builder's contract) and the largest
/// cell width seen so far in that column.
pub proof fn lemma_width_tracking(ws0: Seq<nat>, rows: Seq<Seq<Seq<char>>>, i: int)
    requires
        0 <= i < ws0.len(),
    ensures
        widths_after(ws0, rows).len() == ws0.len(),
        widths_after(ws0, rows)[i] == if col_max(rows, i) > ws0[i] {
            col_max(rows, i)
        } else {
            ws0[i]
        },
    decreases rows.len(),
{
    if rows.len() > 0 {
        lemma_width_tracking(ws0, rows.drop_last(), i);
    }
}

/// Monotonicity law: folding a row into the tracked widths never lowers
/// any of them.
pub proof fn lemma_width_monotonic(ws: Seq<nat>, cells: Seq<Seq<char>>, i: int)
    requires
        0 <= i < ws.len(),
    ensures
        upd_widths(ws, cells)[i] >= ws[i],
{
}

/// Floor law: every rendered field is padded toward a target of at least
/// eight columns, never narrower than the column's tracked width; where the
/// text fits the target, text width plus padding reaches the target exactly.
pub proof fn lemma_width_floor(s: Seq<char>, w: nat)
    ensures
        pad_target(w) >= 8,
        pad_target(w) >= w,
        visual_width(s) <= pad_target(w) ==> visual_width(s) + pad_amount(s, w) == pad_target(w),
{
}

/// Header alignment law, left: the padded field starts with the text and
/// all its padding spaces stand after it.
pub proof fn lemma_left_alignment(s: Seq<char>, w: nat)
    ensures
        padded(s, w, Alignment::Left).len() == s.len() + pad_amount(s, w),
        padded(s, w, Alignment::Left).subrange(0, s.len() as int) == s,
        forall|j: int|
            s.len() <= j < padded(s, w, Alignment::Left).len() ==> padded(
                s,
                w,
                Alignment::Left,
            )[j] == ' ',
{
    assert(padded(s, w, Alignment::Left).subrange(0, s.len() as int) =~= s);
}

/// Header alignment law, right: all the padding spaces stand before the
/// text and the padded field ends with the text.
pub proof fn lemma_right_alignment(s: Seq<char>, w: nat)
    ensures
        padded(s, w, Alignment::Right).len() == s.len() + pad_amount(s, w),
        padded(s, w, Alignment::Right).subrange(
            pad_amount(s, w) as int,
            padded(s, w, Alignment::Right).len() as int,
        ) == s,
        forall|j: int| 0 <= j < pad_amount(s, w) ==> padded(s, w, Alignment::Right)[j] == ' ',
{
    assert(padded(s, w, Alignment::Right).subrange(
        pad_amount(s, w) as int,
        padded(s, w, Alignment::Right).len() as int,
    ) =~= s);
}

/// Header alignment law, center: the padding splits into a smaller-or-equal
/// half before the text (the floor of half the padding) and the larger half
/// after it.
pub proof fn lemma_center_alignment(s: Seq<char>, w: nat)
    ensures
        padded(s, w, Alignment::Center).len() == s.len() + pad_amount(s, w),
        padded(s, w, Alignment::Center).subrange(
            (pad_amount(s, w) / 2) as int,
            pad_amount(s, w) / 2 + s.len() as int,
        ) == s,
        forall|j: int| 0 <= j < pad_amount(s, w) / 2 ==> padded(s, w, Alignment::Center)[j] == ' ',
        forall|j: int|
            pad_amount(s, w) / 2 + s.len() <= j < padded(s, w, Alignment::Center).len() ==> padded(
                s,
                w,
                Alignment::Center,
            )[j] == ' ',
        pad_amount(s, w) / 2 <= pad_amount(s, w) - pad_amount(s, w) / 2,
{
    assert(padded(s, w, Alignment::Center).subrange(
        (pad_amount(s, w) / 2) as int,
        pad_amount(s, w) / 2 + s.len() as int,
    ) =~= s);
}

} // verus!
