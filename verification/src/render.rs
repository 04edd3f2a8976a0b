//! Padding and rendering: each field is padded, per its alignment, to its
//! column's tracked width floored at eight columns, and followed by one
//! separator space.

use vstd::prelude::*;
use vstd::string::StringExecFns;

use crate::measure::visual_width;
use crate::measure::width;
use crate::table::Alignment;
use crate::table::Header;

verus! {

/// `n` space characters.
pub open spec fn spaces(n: nat) -> Seq<char> {
    Seq::new(n, |i: int| ' ')
}

/// The width a field is padded to: the column's tracked width, floored at
/// eight columns.
pub open spec fn pad_target(w: nat) -> nat {
    if w >= 8 {
        w
    } else {
        8
    }
}

/// How many spaces of padding the text `s` receives at target width `w`:
/// the shortfall against the floored target, clamped at zero if the text is
/// already wider.
pub open spec fn pad_amount(s: Seq<char>, w: nat) -> nat {
    if visual_width(s) <= pad_target(w) {
        (pad_target(w) - visual_width(s)) as nat
    } else {
        0
    }
}

/// The text `s` padded with spaces to target width `w` under alignment `a`:
/// all padding after the text for `Left`, all before it for `Right`, and for
/// `Center` the smaller half before and the larger half after.
pub open spec fn padded(s: Seq<char>, w: nat, a: Alignment) -> Seq<char> {
    let pad = pad_amount(s, w);
    match a {
        Alignment::Left => s + spaces(pad),
        Alignment::Right => spaces(pad) + s,
        Alignment::Center => spaces(pad / 2) + s + spaces((pad - pad / 2) as nat),
    }
}

/// How many pairs a zip of sequences of lengths `a` and `b` yields: the
/// shorter of the two.
pub open spec fn paired_len(a: nat, b: nat) -> int {
    if a <= b {
        a as int
    } else {
        b as int
    }
}

/// The first `n` fields of the header line: each header's label padded per
/// its own alignment to its column's floored width, each followed by one
/// separator space.
pub open spec fn header_fields(hs: Seq<Header>, ws: Seq<nat>, n: int) -> Seq<char>
    decreases n,
{
    if n <= 0 {
        Seq::empty()
    } else {
        header_fields(hs, ws, n - 1) + padded(hs[n - 1].text@, ws[n - 1], hs[n - 1].alignment)
            + seq![' ']
    }
}

/// The header line: one field per header paired with a tracked width, then
/// the line terminator.
pub open spec fn header_line(hs: Seq<Header>, ws: Seq<nat>) -> Seq<char> {
    header_fields(hs, ws, paired_len(hs.len(), ws.len())) + seq!['\n']
}

/// The first `n` fields of one data row's line: each cell padded, always
/// left-aligned whatever its column header's alignment, each followed by one
/// separator space.
pub open spec fn row_fields(cells: Seq<Seq<char>>, ws: Seq<nat>, n: int) -> Seq<char>
    decreases n,
{
    if n <= 0 {
        Seq::empty()
    } else {
        row_fields(cells, ws, n - 1) + padded(cells[n - 1], ws[n - 1], Alignment::Left) + seq![' ']
    }
}

/// One data row's line: cells are paired with tracked widths positionally,
/// pairing stops at the shorter sequence, then the line terminator.
pub open spec fn row_line(cells: Seq<Seq<char>>, ws: Seq<nat>) -> Seq<char> {
    row_fields(cells, ws, paired_len(cells.len(), ws.len())) + seq!['\n']
}

/// The lines of the first `n` data rows, in insertion order.
pub open spec fn rows_text(rows: Seq<Seq<Seq<char>>>, ws: Seq<nat>, n: int) -> Seq<char>
    decreases n,
{
    if n <= 0 {
        Seq::empty()
    } else {
        rows_text(rows, ws, n - 1) + row_line(rows[n - 1], ws)
    }
}

/// The whole rendered text block: the header line unless it is skipped,
/// then one line per data row.
pub open spec fn rendered(hs: Seq<Header>, ws: Seq<nat>, rows: Seq<Seq<Seq<char>>>, skip_header: bool) -> Seq<char> {
    (if skip_header {
        Seq::<char>::empty()
    } else {
        header_line(hs, ws)
    }) + rows_text(rows, ws, rows.len() as int)
}

/// Appends `n` spaces at the end of `s`.
fn append_spaces(s: &mut String, n: usize)
    ensures
        final (s)@ == old(s)@ + spaces(n as nat),
{
    let mut i: usize = 0;
    while i < n
        invariant
            i <= n,
            s@ == old(s)@ + spaces(i as nat),
        decreases n - i,
    {
        s.append(" ");
        proof {
            reveal_strlit(" ");
            assert(old(s)@ + spaces(i as nat) + " "@ =~= old(s)@ + spaces((i + 1) as nat));
        }
        i += 1;
    }
    proof {
        assert(s@ =~= old(s)@ + spaces(n as nat));
    }
}

/// Pads `s` with spaces to `target_width` floored at eight columns, per the
/// given alignment; text already wider than the target is left unpadded.
pub fn format(s: &str, target_width: usize, alignment: Alignment) -> (r: String)
    ensures
        r@ == padded(s@, target_width as nat, alignment),
{
    let w = width(s);
    let tw = if target_width >= 8 {
        target_width
    } else {
        8
    };
    let pad = if w <= tw {
        tw - w
    } else {
        0
    };
    match alignment {
        Alignment::Left => {
            let mut r = s.to_owned();
            append_spaces(&mut r, pad);
            r
        },
        Alignment::Right => {
            let mut r = String::new();
            append_spaces(&mut r, pad);
            r.append(s);
            proof {
                assert(r@ =~= padded(s@, target_width as nat, alignment));
            }
            r
        },
        Alignment::Center => {
            let left = pad / 2;
            let right = pad - left;
            let mut r = String::new();
            append_spaces(&mut r, left);
            r.append(s);
            append_spaces(&mut r, right);
            proof {
                assert(r@ =~= padded(s@, target_width as nat, alignment));
            }
            r
        },
    }
}

} // verus!
