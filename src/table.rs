//! Column-aligned tables, laid out by the `tabular` crate.

use vstd::prelude::*;

verus! {

/// Number of columns that a `tabular` row spec describes, counted from
/// position `i`, or `None` where the spec is malformed. `{:<}`, `{:^}` and
/// `{:>}` each open a column, `{{` and `}}` stand for a brace, and any other
/// brace is an error; every other character stands for itself.
pub open spec fn columns_from(s: Seq<char>, i: int) -> Option<nat>
    decreases s.len() - i,
{
    if i < 0 || i >= s.len() {
        Some(0)
    } else if s[i] == '{' {
        if i + 1 < s.len() && s[i + 1] == '{' {
            columns_from(s, i + 2)
        } else if i + 3 < s.len() && s[i + 1] == ':' && (s[i + 2] == '<' || s[i + 2] == '^'
            || s[i + 2] == '>') && s[i + 3] == '}' {
            match columns_from(s, i + 4) {
                Some(n) => Some(n + 1),
                None => None,
            }
        } else {
            None
        }
    } else if s[i] == '}' {
        if i + 1 < s.len() && s[i + 1] == '}' {
            columns_from(s, i + 2)
        } else {
            None
        }
    } else {
        columns_from(s, i + 1)
    }
}

/// Number of columns of a row spec, or `None` where it is malformed.
pub open spec fn columns_of(row_spec: Seq<char>) -> Option<nat> {
    columns_from(row_spec, 0)
}

/// Every row has `n` cells.
pub open spec fn rows_of_width(rows: Seq<Seq<Seq<char>>>, n: nat) -> bool {
    forall|i: int| 0 <= i < rows.len() ==> #[trigger] rows[i].len() == n
}

/// The text that `tabular` prints for a table with the given row spec, line
/// end and rows of cells.
pub uninterp spec fn tabulated(
    row_spec: Seq<char>,
    line_end: Seq<char>,
    rows: Seq<Seq<Seq<char>>>,
) -> Seq<char>;

/// Relies on `tabular::Table` (`new`, `set_line_end`, `add_row`, its `Display`
/// impl) and `tabular::Row::from_cells`: the printed table depends on the row
/// spec, the line end and the cells alone. `Table::new` panics on a malformed
/// row spec and `add_row` on a row whose length is not the column count.
#[verifier::external_body]
pub(crate) fn render(row_spec: &str, line_end: &str, rows: &Vec<Vec<String>>) -> (r: String)
    requires
        columns_of(row_spec@) is Some,
        rows_of_width(rows.deep_view(), columns_of(row_spec@)->0),
    ensures
        r@ == tabulated(row_spec@, line_end@, rows.deep_view()),
{
    let mut table = tabular::Table::new(row_spec).set_line_end(line_end);
    for row in rows {
        table.add_row(tabular::Row::from_cells(row.iter().cloned()));
    }
    table.to_string()
}

/// Row spec of the inventory report.
pub const INVENTORY_LAYOUT: &'static str = "{:^} {:<} {:>} {:>} {:>} {:>} {:>} {:>}";

/// Row spec of the status report.
pub const STATUS_LAYOUT: &'static str = "{:^}   {:<} {:<}";

/// Row spec of the product label report.
pub const LABEL_LAYOUT: &'static str = "{:^}   {:<}";

/// Line end of every report.
pub const LINE_END: &'static str = "\r\n";

/// The report row specs are well formed, with eight, three and two columns.
pub proof fn lemma_layout_columns()
    ensures
        columns_of(INVENTORY_LAYOUT@) == Some(8nat),
        columns_of(STATUS_LAYOUT@) == Some(3nat),
        columns_of(LABEL_LAYOUT@) == Some(2nat),
{
    reveal_strlit("{:^} {:<} {:>} {:>} {:>} {:>} {:>} {:>}");
    reveal_strlit("{:^}   {:<} {:<}");
    reveal_strlit("{:^}   {:<}");
    reveal_with_fuel(columns_from, 20);
}

} // verus!
