//! Markdown rendering of simple listings.

use vstd::prelude::*;
use vstd::string::{StrSliceExecFns, StringExecFns};

verus! {

/// A row-oriented view of a value for table output.
pub trait TableDisplay {
    /// The column headings of the table.
    fn table_headings() -> Vec<String>;

    /// One table row for this value.
    fn table_row(&self) -> Vec<String>;
}

/// The first `n` items as markdown bullet lines, joined by newlines.
pub open spec fn spec_list_items(items: Seq<Seq<char>>, n: int) -> Seq<char>
    decreases n,
{
    if n <= 0 {
        Seq::empty()
    } else if n == 1 {
        "* "@ + items[0]
    } else {
        spec_list_items(items, n - 1) + "\n"@ + "* "@ + items[n - 1]
    }
}

/// A heading followed by the items as a markdown bullet list.
pub open spec fn spec_display_as_list(items: Seq<Seq<char>>, heading: Seq<char>) -> Seq<char> {
    "### "@ + heading + "\n\n"@ + spec_list_items(items, items.len() as int)
}

/// `n` spaces.
pub open spec fn spec_spaces(n: int) -> Seq<char>
    decreases n,
{
    if n <= 0 {
        Seq::empty()
    } else {
        spec_spaces(n - 1) + seq![' ']
    }
}

/// `n` dashes.
pub open spec fn spec_dashes(n: int) -> Seq<char>
    decreases n,
{
    if n <= 0 {
        Seq::empty()
    } else {
        spec_dashes(n - 1) + seq!['-']
    }
}

/// `s` padded with spaces on the right to width `w` (never truncated).
pub open spec fn spec_pad(s: Seq<char>, w: int) -> Seq<char> {
    s + spec_spaces(w - s.len())
}

/// Cell `i` of a row; a missing cell reads as empty.
pub open spec fn spec_cell(row: Seq<Seq<char>>, i: int) -> Seq<char> {
    if 0 <= i < row.len() {
        row[i]
    } else {
        Seq::empty()
    }
}

/// The width of column `i` over the heading and the first `j` rows: the
/// longest entry wins.
pub open spec fn spec_col_width_upto(
    h: Seq<Seq<char>>,
    rows: Seq<Seq<Seq<char>>>,
    i: int,
    j: int,
) -> int
    decreases j,
{
    if j <= 0 {
        spec_cell(h, i).len() as int
    } else {
        let w = spec_col_width_upto(h, rows, i, j - 1);
        let l = spec_cell(rows[j - 1], i).len() as int;
        if l > w {
            l
        } else {
            w
        }
    }
}

/// The width of column `i`: the longest of the heading and every row entry.
pub open spec fn spec_col_width(h: Seq<Seq<char>>, rows: Seq<Seq<Seq<char>>>, i: int) -> int {
    spec_col_width_upto(h, rows, i, rows.len() as int)
}

/// The first `i` cells of one table line, each padded to its column width
/// and joined by ` | `.
pub open spec fn spec_cells_line(
    h: Seq<Seq<char>>,
    rows: Seq<Seq<Seq<char>>>,
    cells: Seq<Seq<char>>,
    i: int,
) -> Seq<char>
    decreases i,
{
    if i <= 0 {
        Seq::empty()
    } else if i == 1 {
        spec_pad(spec_cell(cells, 0), spec_col_width(h, rows, 0))
    } else {
        spec_cells_line(h, rows, cells, i - 1) + " | "@ + spec_pad(
            spec_cell(cells, i - 1),
            spec_col_width(h, rows, i - 1),
        )
    }
}

/// The first `i` columns of the separator line: dashes across each column
/// width, joined by ` | `.
pub open spec fn spec_sep_line(h: Seq<Seq<char>>, rows: Seq<Seq<Seq<char>>>, i: int) -> Seq<char>
    decreases i,
{
    if i <= 0 {
        Seq::empty()
    } else if i == 1 {
        spec_dashes(spec_col_width(h, rows, 0))
    } else {
        spec_sep_line(h, rows, i - 1) + " | "@ + spec_dashes(spec_col_width(h, rows, i - 1))
    }
}

/// The first `j` data rows, each on its own line.
pub open spec fn spec_rows_block(h: Seq<Seq<char>>, rows: Seq<Seq<Seq<char>>>, j: int) -> Seq<char>
    decreases j,
{
    if j <= 0 {
        Seq::empty()
    } else {
        spec_rows_block(h, rows, j - 1) + "\n| "@ + spec_cells_line(h, rows, rows[j - 1], h.len() as int)
            + " |"@
    }
}

/// A whole markdown table: heading, padded column headings, separator, and
/// one line per row, with no trailing newline.
pub open spec fn spec_render_table(
    h: Seq<Seq<char>>,
    rows: Seq<Seq<Seq<char>>>,
    heading: Seq<char>,
) -> Seq<char> {
    "### "@ + heading + "\n\n| "@ + spec_cells_line(h, rows, h, h.len() as int) + " |\n| "@
        + spec_sep_line(h, rows, h.len() as int) + " |"@ + spec_rows_block(
        h,
        rows,
        rows.len() as int,
    )
}

/// Renders the items as a markdown bullet list under the given heading.
pub fn display_as_list(items: &Vec<String>, heading: &str) -> (s: String)
    ensures
        s@ == spec_display_as_list(items.deep_view(), heading@),
{
    let ghost dv = items.deep_view();
    let mut s = String::new();
    s.append("### ");
    s.append(heading);
    s.append("\n\n");
    proof {
        assert(s@ =~= "### "@ + heading@ + "\n\n"@ + spec_list_items(dv, 0));
    }
    let n = items.len();
    let mut i: usize = 0;
    while i < n
        invariant
            i <= n,
            n == items.len(),
            dv == items.deep_view(),
            s@ == "### "@ + heading@ + "\n\n"@ + spec_list_items(dv, i as int),
        decreases n - i,
    {
        if i > 0 {
            s.append("\n");
        }
        s.append("* ");
        let item: &String = &items[i];
        s.append(item.as_str());
        proof {
            assert(dv[i as int] == items@[i as int]@);
            assert(s@ =~= "### "@ + heading@ + "\n\n"@ + spec_list_items(dv, i + 1));
        }
        i = i + 1;
    }
    s
}

/// `n` spaces as a string.
fn spaces_string(n: usize) -> (s: String)
    ensures
        s@ == spec_spaces(n as int),
{
    let mut s = String::new();
    proof {
        assert(s@ =~= spec_spaces(0));
    }
    let mut i: usize = 0;
    while i < n
        invariant
            i <= n,
            s@ == spec_spaces(i as int),
        decreases n - i,
    {
        s.append(" ");
        proof {
            reveal_strlit(" ");
            assert(s@ =~= spec_spaces(i + 1));
        }
        i = i + 1;
    }
    s
}

/// `n` dashes as a string.
fn dashes_string(n: usize) -> (s: String)
    ensures
        s@ == spec_dashes(n as int),
{
    let mut s = String::new();
    proof {
        assert(s@ =~= spec_dashes(0));
    }
    let mut i: usize = 0;
    while i < n
        invariant
            i <= n,
            s@ == spec_dashes(i as int),
        decreases n - i,
    {
        s.append("-");
        proof {
            reveal_strlit("-");
            assert(s@ =~= spec_dashes(i + 1));
        }
        i = i + 1;
    }
    s
}

/// `s` padded with spaces on the right to width `w`.
fn pad_string(s: &String, w: usize) -> (t: String)
    ensures
        t@ == spec_pad(s@, w as int),
{
    let mut t = s.clone();
    let len = t.as_str().unicode_len();
    if len < w {
        let sp = spaces_string(w - len);
        t.append(sp.as_str());
    }
    proof {
        assert(t@ =~= spec_pad(s@, w as int));
    }
    t
}

/// The width of each column: the longest of its heading and its entries.
fn column_widths(headings: &Vec<String>, rows: &Vec<Vec<String>>) -> (widths: Vec<usize>)
    ensures
        widths@.len() == headings@.len(),
        forall|i: int|
            0 <= i < headings@.len() ==> #[trigger] widths@[i] == spec_col_width(
                headings.deep_view(),
                rows.deep_view(),
                i,
            ),
{
    let ghost h = headings.deep_view();
    let ghost rd = rows.deep_view();
    let m = headings.len();
    let n = rows.len();
    let mut widths: Vec<usize> = Vec::new();
    let mut i: usize = 0;
    while i < m
        invariant
            i <= m,
            m == headings@.len(),
            n == rows@.len(),
            h == headings.deep_view(),
            rd == rows.deep_view(),
            widths@.len() == i,
            forall|t: int| 0 <= t < i ==> #[trigger] widths@[t] == spec_col_width(h, rd, t),
        decreases m - i,
    {
        let mut w: usize = headings[i].as_str().unicode_len();
        proof {
            assert(w == spec_col_width_upto(h, rd, i as int, 0));
        }
        let mut j: usize = 0;
        while j < n
            invariant
                j <= n,
                i < m,
                m == headings@.len(),
                n == rows@.len(),
                h == headings.deep_view(),
                rd == rows.deep_view(),
                w == spec_col_width_upto(h, rd, i as int, j as int),
            decreases n - j,
        {
            let row: &Vec<String> = &rows[j];
            let l: usize = if i < row.len() {
                row[i].as_str().unicode_len()
            } else {
                0
            };
            proof {
                assert(rd[j as int] == rows@[j as int].deep_view());
                assert(l == spec_cell(rd[j as int], i as int).len());
            }
            if l > w {
                w = l;
            }
            j = j + 1;
        }
        widths.push(w);
        i = i + 1;
    }
    widths
}

/// Renders column headings and rows as a markdown table under the given
/// heading: every column as wide as its longest entry, a dashed separator
/// under the headings, one line per row, no trailing newline. A row shorter
/// than the headings reads as empty in the missing columns.
pub fn render_table(headings: &Vec<String>, rows: &Vec<Vec<String>>, heading: &str) -> (s: String)
    ensures
        s@ == spec_render_table(headings.deep_view(), rows.deep_view(), heading@),
{
    let ghost h = headings.deep_view();
    let ghost rd = rows.deep_view();
    let m = headings.len();
    let n = rows.len();
    let widths = column_widths(headings, rows);
    let mut s = String::new();
    s.append("### ");
    s.append(heading);
    s.append("\n\n| ");
    proof {
        assert(s@ =~= "### "@ + heading@ + "\n\n| "@ + spec_cells_line(h, rd, h, 0));
    }
    let mut i: usize = 0;
    while i < m
        invariant
            i <= m,
            m == headings@.len(),
            n == rows@.len(),
            h == headings.deep_view(),
            rd == rows.deep_view(),
            widths@.len() == m,
            forall|t: int| 0 <= t < m ==> #[trigger] widths@[t] == spec_col_width(h, rd, t),
            s@ == "### "@ + heading@ + "\n\n| "@ + spec_cells_line(h, rd, h, i as int),
        decreases m - i,
    {
        if i > 0 {
            s.append(" | ");
        }
        let padded = pad_string(&headings[i], widths[i]);
        s.append(padded.as_str());
        proof {
            assert(spec_cell(h, i as int) == h[i as int]);
            assert(s@ =~= "### "@ + heading@ + "\n\n| "@ + spec_cells_line(h, rd, h, i + 1));
        }
        i = i + 1;
    }
    s.append(" |\n| ");
    proof {
        assert(s@ =~= "### "@ + heading@ + "\n\n| "@ + spec_cells_line(h, rd, h, m as int)
            + " |\n| "@ + spec_sep_line(h, rd, 0));
    }
    let mut i: usize = 0;
    while i < m
        invariant
            i <= m,
            m == headings@.len(),
            n == rows@.len(),
            h == headings.deep_view(),
            rd == rows.deep_view(),
            widths@.len() == m,
            forall|t: int| 0 <= t < m ==> #[trigger] widths@[t] == spec_col_width(h, rd, t),
            s@ == "### "@ + heading@ + "\n\n| "@ + spec_cells_line(h, rd, h, m as int) + " |\n| "@
                + spec_sep_line(h, rd, i as int),
        decreases m - i,
    {
        if i > 0 {
            s.append(" | ");
        }
        let dash = dashes_string(widths[i]);
        s.append(dash.as_str());
        proof {
            assert(s@ =~= "### "@ + heading@ + "\n\n| "@ + spec_cells_line(h, rd, h, m as int)
                + " |\n| "@ + spec_sep_line(h, rd, i + 1));
        }
        i = i + 1;
    }
    s.append(" |");
    let ghost head_part = "### "@ + heading@ + "\n\n| "@ + spec_cells_line(h, rd, h, m as int)
        + " |\n| "@ + spec_sep_line(h, rd, m as int) + " |"@;
    proof {
        assert(s@ =~= head_part + spec_rows_block(h, rd, 0));
    }
    let mut j: usize = 0;
    while j < n
        invariant
            j <= n,
            m == headings@.len(),
            n == rows@.len(),
            h == headings.deep_view(),
            rd == rows.deep_view(),
            widths@.len() == m,
            forall|t: int| 0 <= t < m ==> #[trigger] widths@[t] == spec_col_width(h, rd, t),
            s@ == head_part + spec_rows_block(h, rd, j as int),
        decreases n - j,
    {
        s.append("\n| ");
        proof {
            assert(s@ =~= head_part + spec_rows_block(h, rd, j as int) + "\n| "@ + spec_cells_line(
                h,
                rd,
                rd[j as int],
                0,
            ));
        }
        let mut i: usize = 0;
        while i < m
            invariant
                i <= m,
                j < n,
                m == headings@.len(),
                n == rows@.len(),
                h == headings.deep_view(),
                rd == rows.deep_view(),
                widths@.len() == m,
                forall|t: int| 0 <= t < m ==> #[trigger] widths@[t] == spec_col_width(h, rd, t),
                s@ == head_part + spec_rows_block(h, rd, j as int) + "\n| "@ + spec_cells_line(
                    h,
                    rd,
                    rd[j as int],
                    i as int,
                ),
            decreases m - i,
        {
            if i > 0 {
                s.append(" | ");
            }
            let row: &Vec<String> = &rows[j];
            let padded = if i < row.len() {
                pad_string(&row[i], widths[i])
            } else {
                let empty = String::new();
                pad_string(&empty, widths[i])
            };
            s.append(padded.as_str());
            proof {
                assert(rd[j as int] == rows@[j as int].deep_view());
                assert(padded@ =~= spec_pad(
                    spec_cell(rd[j as int], i as int),
                    spec_col_width(h, rd, i as int),
                ));
                assert(s@ =~= head_part + spec_rows_block(h, rd, j as int) + "\n| "@
                    + spec_cells_line(h, rd, rd[j as int], i + 1));
            }
            i = i + 1;
        }
        s.append(" |");
        proof {
            assert(s@ =~= head_part + spec_rows_block(h, rd, j + 1));
        }
        j = j + 1;
    }
    s
}

/// Renders the items as a markdown table under the given heading, one row
/// per item. What the headings and rows hold comes from the `TableDisplay`
/// impl; the rendering itself is pinned down by `render_table`.
pub fn display_as_table<T: TableDisplay>(items: &Vec<T>, heading: &str) -> String {
    let headings = T::table_headings();
    let mut rows: Vec<Vec<String>> = Vec::new();
    let mut k: usize = 0;
    while k < items.len()
        invariant
            k <= items.len(),
        decreases items.len() - k,
    {
        rows.push(items[k].table_row());
        k = k + 1;
    }
    render_table(&headings, &rows, heading)
}

} // verus!
