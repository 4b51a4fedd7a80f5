//! Bounded tabular rendering of query results: clipped cells, column widths
//! capped for display, header and separator lines, an explicit marker when
//! rows were truncated, and a closing summary line.
use vstd::prelude::*;

use crate::text::{
    append_chars, append_str, chars_to_string, dec_spec, push_decimal, push_repeat, repeat_char,
    str_to_chars,
};

verus! {

/// Characters a cell value keeps before it is clipped with a marker.
pub const MAX_CELL_CHARS: usize = 80;

/// Display cap of a column's width.
pub const MAX_COL_WIDTH: usize = 30;

/// Rows shown before the rendering is truncated.
pub const ROW_DISPLAY_CAP: usize = 50;

/// A cell value bounded for display: over-long values keep their first
/// `MAX_CELL_CHARS` characters and gain a clip marker.
pub open spec fn clip_cell(s: Seq<char>) -> Seq<char> {
    if s.len() <= MAX_CELL_CHARS {
        s
    } else {
        s.take(MAX_CELL_CHARS as int) + "..."@
    }
}

/// The longest clipped cell of column `j` among the first `i` rows.
pub open spec fn max_cell_len_upto(rows: Seq<Seq<Seq<char>>>, j: int, i: int) -> int
    decreases i,
{
    if i <= 0 {
        0
    } else {
        let l = clip_cell(rows[i - 1][j]).len() as int;
        let m = max_cell_len_upto(rows, j, i - 1);
        if l > m {
            l
        } else {
            m
        }
    }
}

/// The display width of column `j`: wide enough for its name and its clipped
/// cells, capped at `MAX_COL_WIDTH`.
pub open spec fn col_width(names: Seq<Seq<char>>, rows: Seq<Seq<Seq<char>>>, j: int) -> int {
    let w0 = names[j].len() as int;
    let m = max_cell_len_upto(rows, j, rows.len() as int);
    let w = if m > w0 {
        m
    } else {
        w0
    };
    if w > MAX_COL_WIDTH {
        MAX_COL_WIDTH as int
    } else {
        w
    }
}

/// A value fit to a column: truncated past the width, padded with spaces up
/// to it.
pub open spec fn render_cell(s: Seq<char>, w: int) -> Seq<char> {
    if s.len() > w {
        s.take(w)
    } else {
        s + repeat_char(' ', w - s.len())
    }
}

/// The first `j` header cells, joined by the column separator.
pub open spec fn header_prefix(names: Seq<Seq<char>>, rows: Seq<Seq<Seq<char>>>, j: int) -> Seq<
    char,
>
    decreases j,
{
    if j <= 0 {
        Seq::empty()
    } else {
        header_prefix(names, rows, j - 1) + (if j == 1 {
            Seq::empty()
        } else {
            " | "@
        }) + render_cell(names[j - 1], col_width(names, rows, j - 1))
    }
}

/// The first `j` columns of the separator line.
pub open spec fn sep_prefix(names: Seq<Seq<char>>, rows: Seq<Seq<Seq<char>>>, j: int) -> Seq<char>
    decreases j,
{
    if j <= 0 {
        Seq::empty()
    } else {
        sep_prefix(names, rows, j - 1) + (if j == 1 {
            Seq::empty()
        } else {
            "-+-"@
        }) + repeat_char('-', col_width(names, rows, j - 1))
    }
}

/// The first `j` cells of one data row, clipped, fit to their columns and
/// joined by the column separator.
pub open spec fn row_cells_prefix(
    names: Seq<Seq<char>>,
    rows: Seq<Seq<Seq<char>>>,
    r: Seq<Seq<char>>,
    j: int,
) -> Seq<char>
    decreases j,
{
    if j <= 0 {
        Seq::empty()
    } else {
        row_cells_prefix(names, rows, r, j - 1) + (if j == 1 {
            Seq::empty()
        } else {
            " | "@
        }) + render_cell(clip_cell(r[j - 1]), col_width(names, rows, j - 1))
    }
}

/// The first `i` data rows, each a line of its own.
pub open spec fn rows_prefix(names: Seq<Seq<char>>, rows: Seq<Seq<Seq<char>>>, i: int) -> Seq<
    char,
>
    decreases i,
{
    if i <= 0 {
        Seq::empty()
    } else {
        rows_prefix(names, rows, i - 1) + row_cells_prefix(
            names,
            rows,
            rows[i - 1],
            names.len() as int,
        ) + "\n"@
    }
}

/// The closing summary: the rows shown (marked when more were truncated) and
/// the column count.
pub open spec fn summary_spec(nrows: int, ncols: int, truncated: bool) -> Seq<char> {
    (if truncated {
        "Rows: "@ + dec_spec(nrows) + "+ (showing "@ + dec_spec(nrows) + ")"@
    } else {
        "Rows: "@ + dec_spec(nrows)
    }) + " | Columns: "@ + dec_spec(ncols)
}

/// The whole rendering: header, separator, the data rows, the truncation
/// marker when rows were cut off, and the summary.
pub open spec fn table_spec(
    names: Seq<Seq<char>>,
    rows: Seq<Seq<Seq<char>>>,
    truncated: bool,
) -> Seq<char> {
    header_prefix(names, rows, names.len() as int) + "\n"@ + sep_prefix(
        names,
        rows,
        names.len() as int,
    ) + "\n"@ + rows_prefix(names, rows, rows.len() as int) + (if truncated {
        "... (more rows truncated)\n"@
    } else {
        Seq::<char>::empty()
    }) + summary_spec(rows.len() as int, names.len() as int, truncated) + "\n"@
}

/// A cell value bounded for display.
fn clip_chars(s: &String) -> (v: Vec<char>)
    ensures
        v@ == clip_cell(s@),
{
    let chars = str_to_chars(s.as_str());
    if chars.len() <= MAX_CELL_CHARS {
        chars
    } else {
        let mut v: Vec<char> = Vec::new();
        let mut t: usize = 0;
        while t < MAX_CELL_CHARS
            invariant
                t <= MAX_CELL_CHARS,
                MAX_CELL_CHARS < chars@.len(),
                chars@ == s@,
                v@ == s@.take(t as int),
            decreases MAX_CELL_CHARS - t,
        {
            v.push(chars[t]);
            proof {
                assert(s@.take(t + 1 as int) =~= s@.take(t as int).push(s@[t as int]));
            }
            t += 1;
        }
        append_str(&mut v, "...");
        v
    }
}

/// Appends a cell fit to width `w`.
fn push_render_chars(out: &mut Vec<char>, cell: &Vec<char>, w: usize)
    ensures
        final (out)@ == old(out)@ + render_cell(cell@, w as int),
{
    let len = cell.len();
    if len > w {
        let mut t: usize = 0;
        while t < w
            invariant
                t <= w,
                w < cell@.len(),
                out@ == old(out)@ + cell@.take(t as int),
            decreases w - t,
        {
            out.push(cell[t]);
            proof {
                assert(old(out)@ + cell@.take(t + 1 as int) =~= (old(out)@ + cell@.take(
                    t as int,
                )).push(cell@[t as int]));
            }
            t += 1;
        }
    } else {
        append_chars(out, cell);
        push_repeat(out, ' ', w - len);
        proof {
            assert(old(out)@ + (cell@ + repeat_char(' ', w - len)) =~= (old(out)@ + cell@)
                + repeat_char(' ', w - len));
        }
    }
}

/// Renders query results as the bounded table described by `table_spec`:
/// every row must have one cell per column; `truncated` says whether the row
/// set was cut off at extraction.
pub fn format_results(names: &Vec<String>, rows: &Vec<Vec<String>>, truncated: bool) -> (out:
    String)
    requires
        forall|i: int| 0 <= i < rows@.len() ==> (#[trigger] rows@[i])@.len() == names@.len(),
    ensures
        out@ == table_spec(names.deep_view(), rows.deep_view(), truncated),
{
    let ghost names_dv = names.deep_view();
    let ghost rows_dv = rows.deep_view();
    let n = names.len();
    let nrows = rows.len();
    proof {
        reveal_strlit("...");
    }
    // column widths
    let mut widths: Vec<usize> = Vec::new();
    let mut j: usize = 0;
    while j < n
        invariant
            j <= n,
            n == names@.len(),
            nrows == rows@.len(),
            names_dv == names.deep_view(),
            rows_dv == rows.deep_view(),
            forall|i: int| 0 <= i < rows@.len() ==> (#[trigger] rows@[i])@.len() == names@.len(),
            widths@.len() == j,
            forall|t: int| 0 <= t < j ==> #[trigger] widths@[t] as int == col_width(
                names_dv,
                rows_dv,
                t,
            ),
        decreases n - j,
    {
        let mut w: usize = (&names[j]).as_str().unicode_len();
        let mut i: usize = 0;
        while i < nrows
            invariant
                i <= nrows,
                j < n,
                n == names@.len(),
                nrows == rows@.len(),
                names_dv == names.deep_view(),
                rows_dv == rows.deep_view(),
                forall|t: int|
                    0 <= t < rows@.len() ==> (#[trigger] rows@[t])@.len() == names@.len(),
                w as int == (if max_cell_len_upto(rows_dv, j as int, i as int) > names_dv[
                    j as int
                ].len() as int {
                    max_cell_len_upto(rows_dv, j as int, i as int)
                } else {
                    names_dv[j as int].len() as int
                }),
            decreases nrows - i,
        {
            let row = &rows[i];
            let l = (&row[j]).as_str().unicode_len();
            let cl: usize = if l <= MAX_CELL_CHARS {
                l
            } else {
                proof {
                    reveal_strlit("...");
                }
                MAX_CELL_CHARS + 3
            };
            proof {
                reveal_strlit("...");
                assert(rows_dv[i as int][j as int] == rows@[i as int]@[j as int]@);
                assert(cl as int == clip_cell(rows_dv[i as int][j as int]).len() as int);
            }
            if cl > w {
                w = cl;
            }
            i += 1;
        }
        if w > MAX_COL_WIDTH {
            w = MAX_COL_WIDTH;
        }
        widths.push(w);
        j += 1;
    }
    // header line
    let mut out: Vec<char> = Vec::new();
    let mut j: usize = 0;
    while j < n
        invariant
            j <= n,
            n == names@.len(),
            nrows == rows@.len(),
            names_dv == names.deep_view(),
            rows_dv == rows.deep_view(),
            widths@.len() == n,
            forall|t: int| 0 <= t < n ==> #[trigger] widths@[t] as int == col_width(
                names_dv,
                rows_dv,
                t,
            ),
            out@ == header_prefix(names_dv, rows_dv, j as int),
        decreases n - j,
    {
        if j > 0 {
            append_str(&mut out, " | ");
        }
        let cell = str_to_chars((&names[j]).as_str());
        push_render_chars(&mut out, &cell, widths[j]);
        proof {
            assert(out@ =~= header_prefix(names_dv, rows_dv, j + 1 as int));
        }
        j += 1;
    }
    append_str(&mut out, "\n");
    // separator line
    let ghost sep_base = out@;
    let mut j: usize = 0;
    while j < n
        invariant
            j <= n,
            n == names@.len(),
            nrows == rows@.len(),
            names_dv == names.deep_view(),
            rows_dv == rows.deep_view(),
            widths@.len() == n,
            forall|t: int| 0 <= t < n ==> #[trigger] widths@[t] as int == col_width(
                names_dv,
                rows_dv,
                t,
            ),
            out@ == sep_base + sep_prefix(names_dv, rows_dv, j as int),
        decreases n - j,
    {
        if j > 0 {
            append_str(&mut out, "-+-");
        }
        push_repeat(&mut out, '-', widths[j]);
        proof {
            assert(out@ =~= sep_base + sep_prefix(names_dv, rows_dv, j + 1 as int));
        }
        j += 1;
    }
    append_str(&mut out, "\n");
    // data rows
    let ghost rows_base = out@;
    let mut i: usize = 0;
    while i < nrows
        invariant
            i <= nrows,
            n == names@.len(),
            nrows == rows@.len(),
            names_dv == names.deep_view(),
            rows_dv == rows.deep_view(),
            forall|t: int| 0 <= t < rows@.len() ==> (#[trigger] rows@[t])@.len() == names@.len(),
            widths@.len() == n,
            forall|t: int| 0 <= t < n ==> #[trigger] widths@[t] as int == col_width(
                names_dv,
                rows_dv,
                t,
            ),
            out@ == rows_base + rows_prefix(names_dv, rows_dv, i as int),
        decreases nrows - i,
    {
        let ghost row_base = out@;
        let mut j: usize = 0;
        while j < n
            invariant
                j <= n,
                i < nrows,
                n == names@.len(),
                nrows == rows@.len(),
                names_dv == names.deep_view(),
                rows_dv == rows.deep_view(),
                forall|t: int|
                    0 <= t < rows@.len() ==> (#[trigger] rows@[t])@.len() == names@.len(),
                widths@.len() == n,
                forall|t: int| 0 <= t < n ==> #[trigger] widths@[t] as int == col_width(
                    names_dv,
                    rows_dv,
                    t,
                ),
                out@ == row_base + row_cells_prefix(names_dv, rows_dv, rows_dv[i as int], j as int),
            decreases n - j,
        {
            if j > 0 {
                append_str(&mut out, " | ");
            }
            let cell = clip_chars(&(&rows[i])[j]);
            push_render_chars(&mut out, &cell, widths[j]);
            proof {
                assert(rows_dv[i as int][j as int] == rows@[i as int]@[j as int]@);
                assert(out@ =~= row_base + row_cells_prefix(
                    names_dv,
                    rows_dv,
                    rows_dv[i as int],
                    j + 1 as int,
                ));
            }
            j += 1;
        }
        append_str(&mut out, "\n");
        proof {
            assert(out@ =~= rows_base + rows_prefix(names_dv, rows_dv, i + 1 as int));
        }
        i += 1;
    }
    // truncation marker and summary
    if truncated {
        append_str(&mut out, "... (more rows truncated)\n");
    }
    let ghost summary_base = out@;
    append_str(&mut out, "Rows: ");
    push_decimal(&mut out, nrows as u64);
    if truncated {
        append_str(&mut out, "+ (showing ");
        push_decimal(&mut out, nrows as u64);
        append_str(&mut out, ")");
    }
    append_str(&mut out, " | Columns: ");
    push_decimal(&mut out, n as u64);
    append_str(&mut out, "\n");
    proof {
        assert(out@ =~= table_spec(names_dv, rows_dv, truncated));
    }
    chars_to_string(&out)
}

} // verus!
