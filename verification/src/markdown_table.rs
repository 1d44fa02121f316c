//! Tables, drawn with borders or, where there is no room for them, as lists.

use vstd::prelude::*;

use crate::geometry;
use crate::markdown_events::Alignment;
use crate::picker;
use crate::styled;
use crate::styled::Face;
use crate::styled::Paint;
use crate::styled::SpanView;
use crate::styled::TextLine;
use crate::text;
use crate::width;
use crate::wrap;

verus! {

broadcast use vstd::string::group_string_axioms;

/// A table.
#[derive(Clone, Debug)]
pub struct Table {
    pub alignments: Vec<Alignment>,
    pub rows: Vec<Vec<String>>,
}

/// What the rows of a table hold.
pub open spec fn row_views(v: Seq<Vec<String>>) -> Seq<Seq<Seq<char>>> {
    v.map_values(|row: Vec<String>| text::views(row@))
}

/// The number of columns: as many as the longest row has cells.
pub open spec fn column_count(rows: Seq<Seq<Seq<char>>>) -> int
    decreases rows.len(),
{
    if rows.len() == 0 {
        0
    } else {
        geometry::max(column_count(rows.drop_last()), rows.last().len() as int)
    }
}

/// A cell, empty where the row is too short.
pub open spec fn cell_at(row: Seq<Seq<char>>, column: int) -> Seq<char> {
    if column < row.len() {
        row[column]
    } else {
        Seq::empty()
    }
}

/// The lines of a text: what stands between its line feeds, each without a
/// carriage return at its end, and without an empty one behind the last feed.
pub open spec fn lines_of(s: Seq<char>) -> Seq<Seq<char>> {
    let parts = text::split(s, '\n');
    let count = if parts.last().len() == 0 {
        parts.len() - 1
    } else {
        parts.len() as int
    };
    Seq::new(
        count as nat,
        |i: int|
            if i < parts.len() - 1 && parts[i].len() > 0 && parts[i].last() == '\r' {
                parts[i].drop_last()
            } else {
                parts[i]
            },
    )
}

/// The columns of the widest of some lines.
pub open spec fn widest_line(lines: Seq<Seq<char>>) -> int
    decreases lines.len(),
{
    if lines.len() == 0 {
        0
    } else {
        geometry::max(
            widest_line(lines.drop_last()),
            width::text_columns(lines.last()) as int,
        )
    }
}

/// The columns of the widest cell of a column.
pub open spec fn widest_cell(rows: Seq<Seq<Seq<char>>>, column: int) -> int
    decreases rows.len(),
{
    if rows.len() == 0 {
        0
    } else {
        let rest = widest_cell(rows.drop_last(), column);
        if column < rows.last().len() {
            geometry::max(rest, widest_line(lines_of(rows.last()[column])))
        } else {
            rest
        }
    }
}

/// The columns that the borders of a table take.
pub open spec fn border_columns(columns: int) -> int {
    columns * 3 + 1
}

/// The most columns that one cell may take at first.
pub open spec fn cell_limit(columns: int, wide: int) -> int {
    let available = geometry::max(geometry::less(wide, border_columns(columns)), columns);
    geometry::max(available / columns, 3)
}

/// The widths of the columns, as far as the limit allows.
pub open spec fn wished(rows: Seq<Seq<Seq<char>>>, columns: int, limit: int) -> Seq<int> {
    Seq::new(
        columns as nat,
        |c: int| geometry::min(geometry::max(1, widest_cell(rows, c)), limit),
    )
}

/// The sum of some widths.
pub open spec fn total(widths: Seq<int>) -> int
    decreases widths.len(),
{
    if widths.len() == 0 {
        0
    } else {
        total(widths.drop_last()) + widths.last()
    }
}

/// The last of the widest columns.
pub open spec fn widest_at(widths: Seq<int>) -> int
    decreases widths.len(),
{
    if widths.len() <= 1 {
        0
    } else {
        let j = widest_at(widths.drop_last());
        if widths.last() >= widths[j] {
            widths.len() - 1
        } else {
            j
        }
    }
}

proof fn widest_at_fits(widths: Seq<int>)
    requires
        widths.len() > 0,
    ensures
        0 <= widest_at(widths) < widths.len(),
    decreases widths.len(),
{
    if widths.len() > 1 {
        widest_at_fits(widths.drop_last());
    }
}

proof fn total_updates(widths: Seq<int>, i: int, to: int)
    requires
        0 <= i < widths.len(),
    ensures
        total(widths.update(i, to)) == total(widths) - widths[i] + to,
    decreases widths.len(),
{
    let next = widths.update(i, to);
    if i == widths.len() - 1 {
        assert(next.drop_last() =~= widths.drop_last());
    } else {
        assert(next.drop_last() =~= widths.drop_last().update(i, to));
        total_updates(widths.drop_last(), i, to);
    }
}

proof fn total_covers(widths: Seq<int>, i: int)
    requires
        0 <= i < widths.len(),
        forall|k: int| 0 <= k < widths.len() ==> #[trigger] widths[k] >= 1,
    ensures
        total(widths) >= widths[i],
        total(widths) >= widths.len(),
    decreases widths.len(),
{
    assert(widths[widths.len() - 1] >= 1);
    if widths.len() > 1 {
        let front = widths.drop_last();
        assert forall|k: int| 0 <= k < front.len() implies #[trigger] front[k] >= 1 by {
            assert(front[k] == widths[k]);
        }
        if i < front.len() {
            total_covers(front, i);
        } else {
            total_covers(front, 0);
        }
    } else {
        assert(widths.drop_last() =~= Seq::<int>::empty());
        assert(total(Seq::<int>::empty()) == 0);
    }
}

/// The widths after the widest columns were narrowed, one column at a time,
/// until the table fits or nothing is left to narrow.
pub open spec fn narrowed(widths: Seq<int>, room: int, steps: nat) -> Seq<int>
    decreases steps,
{
    let at = widest_at(widths);
    if steps == 0 || widths.len() == 0 || total(widths) <= room || widths[at] <= 1 {
        widths
    } else {
        narrowed(widths.update(at, widths[at] - 1), room, (steps - 1) as nat)
    }
}

/// The widths that the columns of a table get.
pub open spec fn column_widths(rows: Seq<Seq<Seq<char>>>, columns: int, wide: int) -> Seq<int> {
    let first = wished(rows, columns, cell_limit(columns, wide));
    narrowed(first, wide - border_columns(columns), total(first) as nat)
}

/// The first widths of the columns of a line between rows.
pub open spec fn border_part(
    middle: char,
    right: char,
    widths: Seq<int>,
    n: int,
) -> Seq<char>
    decreases n,
{
    if n <= 0 {
        Seq::empty()
    } else {
        border_part(middle, right, widths, n - 1) + styled::times(
            '─',
            geometry::min(widths[n - 1] + 2, usize::MAX as int),
        ) + seq![
            if n == widths.len() {
                right
            } else {
                middle
            },
        ]
    }
}

/// A line between rows, or around them.
pub open spec fn border_text(left: char, middle: char, right: char, widths: Seq<int>) -> Seq<char> {
    seq![left] + border_part(middle, right, widths, widths.len() as int)
}

/// The blanks in front of the text of a cell.
pub open spec fn blanks_before(alignment: Option<Alignment>, padding: int) -> int {
    match alignment {
        Some(Alignment::Right) => padding,
        Some(Alignment::Center) => padding / 2,
        _ => 0,
    }
}

/// The alignment of a column.
pub open spec fn alignment_of(alignments: Seq<Alignment>, column: int) -> Option<Alignment> {
    if column < alignments.len() {
        Some(alignments[column])
    } else {
        None
    }
}

/// A cell of a line, with its blanks and the border behind it.
pub open spec fn cell_text(
    words: Seq<char>,
    wide: int,
    alignment: Option<Alignment>,
) -> Seq<char> {
    let padding = geometry::less(wide, width::text_columns(words) as int);
    let left = blanks_before(alignment, padding);
    seq![' '] + picker::blanks(left) + words + picker::blanks(padding - left) + seq![' ', '│']
}

/// The lines that a cell is wrapped into.
pub open spec fn cell_lines(
    row: Seq<Seq<char>>,
    widths: Seq<int>,
    column: int,
) -> Seq<Seq<char>> {
    wrap::wrapped(cell_at(row, column), widths[column])
}

/// The lines that a row takes.
pub open spec fn row_height(row: Seq<Seq<char>>, widths: Seq<int>, n: int) -> int
    decreases n,
{
    if n <= 0 {
        0
    } else {
        geometry::max(
            row_height(row, widths, n - 1),
            cell_lines(row, widths, n - 1).len() as int,
        )
    }
}

/// The first `n` cells of a line of a row.
pub open spec fn row_part(
    row: Seq<Seq<char>>,
    widths: Seq<int>,
    alignments: Seq<Alignment>,
    line: int,
    n: int,
) -> Seq<char>
    decreases n,
{
    if n <= 0 {
        seq!['│']
    } else {
        row_part(row, widths, alignments, line, n - 1) + cell_text(
            cell_at(cell_lines(row, widths, n - 1), line),
            widths[n - 1],
            alignment_of(alignments, n - 1),
        )
    }
}

/// The face of a row: the titles stand out.
pub open spec fn row_face(index: int) -> Face {
    if index == 0 {
        Face { bold: true, ..Face::of(Paint::Foreground) }
    } else {
        Face::of(Paint::Muted)
    }
}

/// The lines of a row.
pub open spec fn row_lines(
    row: Seq<Seq<char>>,
    widths: Seq<int>,
    alignments: Seq<Alignment>,
    index: int,
) -> Seq<Seq<SpanView>> {
    Seq::new(
        row_height(row, widths, widths.len() as int) as nat,
        |line: int|
            styled::one_span(
                row_part(row, widths, alignments, line, widths.len() as int),
                row_face(index),
            ),
    )
}

/// A line between rows, or around them.
pub open spec fn border_line(left: char, middle: char, right: char, widths: Seq<int>) -> Seq<
    SpanView,
> {
    styled::one_span(border_text(left, middle, right, widths), Face::of(Paint::Subtle))
}

/// The first `n` rows of a table, with a line below the titles.
pub open spec fn table_rows(
    rows: Seq<Seq<Seq<char>>>,
    widths: Seq<int>,
    alignments: Seq<Alignment>,
    n: int,
) -> Seq<Seq<SpanView>>
    decreases n,
{
    if n <= 0 {
        Seq::empty()
    } else {
        table_rows(rows, widths, alignments, n - 1) + row_lines(
            rows[n - 1],
            widths,
            alignments,
            n - 1,
        ) + (if n == 1 && rows.len() > 1 {
            seq![border_line('├', '┼', '┤', widths)]
        } else {
            Seq::empty()
        })
    }
}

/// A table with borders.
pub open spec fn bordered(
    rows: Seq<Seq<Seq<char>>>,
    alignments: Seq<Alignment>,
    wide: int,
) -> Seq<Seq<SpanView>> {
    let widths = column_widths(rows, column_count(rows), wide);
    seq![border_line('┌', '┬', '┐', widths)] + table_rows(
        rows,
        widths,
        alignments,
        rows.len() as int,
    ) + seq![border_line('└', '┴', '┘', widths)]
}

/// The title of a column in a list.
pub open spec fn title_at(titles: Seq<Seq<char>>, column: int) -> Seq<char> {
    if column < titles.len() {
        titles[column]
    } else {
        "value"@
    }
}

/// The first `n` cells of a row as a list.
pub open spec fn stacked_cells(
    titles: Seq<Seq<char>>,
    row: Seq<Seq<char>>,
    wide: int,
    n: int,
) -> Seq<Seq<SpanView>>
    decreases n,
{
    if n <= 0 {
        Seq::empty()
    } else {
        stacked_cells(titles, row, wide, n - 1) + styled::faced(
            wrap::wrapped(title_at(titles, n - 1) + ": "@ + cell_at(row, n - 1), wide),
            Face::of(Paint::Foreground),
        )
    }
}

/// The first `n` rows as lists, with an empty line between them. The titles
/// are the first row.
pub open spec fn stacked_rows(
    rows: Seq<Seq<Seq<char>>>,
    columns: int,
    wide: int,
    n: int,
) -> Seq<Seq<SpanView>>
    decreases n,
{
    if n <= 1 {
        Seq::empty()
    } else {
        stacked_rows(rows, columns, wide, n - 1) + (if n > 2 {
            seq![Seq::empty()]
        } else {
            Seq::empty()
        }) + stacked_cells(rows[0], rows[n - 1], wide, columns)
    }
}

/// The first `n` titles of a table without rows.
pub open spec fn stacked_titles(titles: Seq<Seq<char>>, wide: int, n: int) -> Seq<Seq<SpanView>>
    decreases n,
{
    if n <= 0 {
        Seq::empty()
    } else {
        stacked_titles(titles, wide, n - 1) + styled::faced(
            wrap::wrapped(titles[n - 1], wide),
            Face { bold: true, ..Face::of(Paint::Foreground) },
        )
    }
}

/// A table as lists.
pub open spec fn stacked(rows: Seq<Seq<Seq<char>>>, wide: int) -> Seq<Seq<SpanView>> {
    let columns = column_count(rows);
    stacked_rows(rows, columns, wide, rows.len() as int) + (if rows.len() == 1 {
        stacked_titles(rows[0], wide, rows[0].len() as int)
    } else {
        Seq::empty()
    })
}

/// The lines of a table: none if it has no cells, a list for each row if
/// there is no room for borders.
pub open spec fn table_lines(
    rows: Seq<Seq<Seq<char>>>,
    alignments: Seq<Alignment>,
    wide: int,
) -> Seq<Seq<SpanView>> {
    let columns = column_count(rows);
    if columns == 0 {
        Seq::empty()
    } else if wide < columns * 4 + 1 {
        stacked(rows, wide)
    } else {
        bordered(rows, alignments, wide)
    }
}

fn cell_of(row: &Vec<String>, column: usize) -> (r: String)
    ensures
        r@ == cell_at(text::views(row@), column as int),
{
    if column < row.len() {
        assert(text::views(row@)[column as int] == row@[column as int]@);
        row[column].clone()
    } else {
        let empty: String = String::new();
        assert(empty@ =~= Seq::<char>::empty());
        empty
    }
}

fn count_columns(rows: &Vec<Vec<String>>) -> (r: usize)
    ensures
        r == column_count(row_views(rows@)),
{
    let ghost all = row_views(rows@);
    let mut most: usize = 0;
    let mut i: usize = 0;
    assert(all.take(0) =~= Seq::<Seq<Seq<char>>>::empty());
    while i < rows.len()
        invariant
            i <= rows@.len(),
            all == row_views(rows@),
            most == column_count(all.take(i as int)),
        decreases rows@.len() - i,
    {
        proof {
            assert(all.take(i + 1).drop_last() =~= all.take(i as int));
            assert(all.take(i + 1).last() == text::views(rows@[i as int]@));
            assert(text::views(rows@[i as int]@).len() == rows@[i as int]@.len());
        }
        most = geometry::larger(most, rows[i].len());
        i += 1;
    }
    assert(all.take(rows@.len() as int) =~= all);
    most
}

/// The columns of the widest line of a cell.
fn cell_width(cell: &str) -> (r: usize)
    ensures
        r == widest_line(lines_of(cell@)),
{
    let parts: Vec<String> = text::split_text(cell, '\n');
    let ghost views = text::views(parts@);
    proof {
        text::split_has_parts(cell@, '\n');
        assert(views.len() == parts@.len());
        assert(views.last() == parts@[parts@.len() - 1]@);
    }
    let count: usize = if parts[parts.len() - 1].as_str().is_empty() {
        parts.len() - 1
    } else {
        parts.len()
    };
    let ghost all = lines_of(cell@);
    let mut widest: usize = 0;
    let mut i: usize = 0;
    assert(all.len() == count);
    assert(all.take(0) =~= Seq::<Seq<char>>::empty());
    while i < count
        invariant
            i <= count <= parts@.len(),
            parts@.len() > 0,
            views == text::views(parts@),
            views == text::split(cell@, '\n'),
            all == lines_of(cell@),
            all.len() == count,
            widest == widest_line(all.take(i as int)),
        decreases count - i,
    {
        proof {
            assert(all.take(i + 1).drop_last() =~= all.take(i as int));
            assert(views[i as int] == parts@[i as int]@);
        }
        let chars: Vec<char> = text::chars_of(parts[i].as_str());
        let line: String = if i < parts.len() - 1 && chars.len() > 0 && chars[chars.len() - 1]
            == '\r' {
            let shorter: String = text::string_between(&chars, 0, chars.len() - 1);
            assert(shorter@ =~= views[i as int].drop_last());
            shorter
        } else {
            parts[i].clone()
        };
        assert(line@ == all[i as int]);
        widest = geometry::larger(widest, width::text_width(line.as_str()));
        i += 1;
    }
    assert(all.take(count as int) =~= all);
    widest
}

/// The numbers of a list.
pub open spec fn ints(v: Seq<usize>) -> Seq<int> {
    v.map_values(|n: usize| n as int)
}

fn wish_width(rows: &Vec<Vec<String>>, column: usize, limit: usize) -> (r: usize)
    requires
        limit >= 1,
    ensures
        r == geometry::min(
            geometry::max(1, widest_cell(row_views(rows@), column as int)),
            limit as int,
        ),
{
    let ghost all = row_views(rows@);
    let mut wide: usize = 1;
    let mut i: usize = 0;
    assert(all.take(0) =~= Seq::<Seq<Seq<char>>>::empty());
    while i < rows.len()
        invariant
            i <= rows@.len(),
            limit >= 1,
            all == row_views(rows@),
            wide == geometry::min(
                geometry::max(1, widest_cell(all.take(i as int), column as int)),
                limit as int,
            ),
        decreases rows@.len() - i,
    {
        proof {
            assert(all.take(i + 1).drop_last() =~= all.take(i as int));
            assert(all.take(i + 1).last() == text::views(rows@[i as int]@));
            assert(text::views(rows@[i as int]@).len() == rows@[i as int]@.len());
        }
        if column < rows[i].len() {
            assert(text::views(rows@[i as int]@)[column as int]
                == rows@[i as int]@[column as int]@);
            let taken: usize = cell_width(rows[i][column].as_str());
            wide = geometry::smaller(geometry::larger(wide, taken), limit);
        }
        i += 1;
    }
    assert(all.take(rows@.len() as int) =~= all);
    wide
}

fn wish_widths(rows: &Vec<Vec<String>>, columns: usize, limit: usize) -> (r: Vec<usize>)
    requires
        limit >= 1,
    ensures
        ints(r@) == wished(row_views(rows@), columns as int, limit as int),
        r@.len() == columns,
        forall|k: int| 0 <= k < r@.len() ==> 1 <= #[trigger] r@[k] <= limit,
{
    let ghost all = wished(row_views(rows@), columns as int, limit as int);
    let mut widths: Vec<usize> = Vec::new();
    let mut c: usize = 0;
    while c < columns
        invariant
            c <= columns,
            limit >= 1,
            all == wished(row_views(rows@), columns as int, limit as int),
            widths@.len() == c,
            forall|k: int| 0 <= k < c ==> #[trigger] widths@[k] == all[k],
            forall|k: int| 0 <= k < c ==> 1 <= #[trigger] widths@[k] <= limit,
        decreases columns - c,
    {
        widths.push(wish_width(rows, c, limit));
        c += 1;
    }
    assert(ints(widths@) =~= all);
    widths
}

fn sum_widths(widths: &Vec<usize>) -> (r: u128)
    requires
        forall|k: int| 0 <= k < widths@.len() ==> #[trigger] widths@[k] >= 1,
    ensures
        r == total(ints(widths@)),
{
    let ghost all = ints(widths@);
    let mut sum: u128 = 0;
    let mut i: usize = 0;
    assert(all.take(0) =~= Seq::<int>::empty());
    while i < widths.len()
        invariant
            i <= widths@.len(),
            all == ints(widths@),
            sum == total(all.take(i as int)),
            sum <= i * u64::MAX,
        decreases widths@.len() - i,
    {
        proof {
            assert(all.take(i + 1).drop_last() =~= all.take(i as int));
            assert(all.take(i + 1).last() == widths@[i as int]);
            assert(i * u64::MAX + u64::MAX == (i + 1) * u64::MAX) by (nonlinear_arith);
            assert(i * u64::MAX <= u64::MAX * u64::MAX) by (nonlinear_arith)
                requires
                    i <= u64::MAX,
            ;
        }
        sum = sum + widths[i] as u128;
        i += 1;
    }
    assert(all.take(widths@.len() as int) =~= all);
    sum
}

fn find_widest(widths: &Vec<usize>) -> (r: usize)
    requires
        widths@.len() > 0,
    ensures
        r == widest_at(ints(widths@)),
        r < widths@.len(),
{
    let ghost all = ints(widths@);
    let mut at: usize = 0;
    let mut i: usize = 1;
    assert(widest_at(all.take(1)) == 0);
    while i < widths.len()
        invariant
            1 <= i <= widths@.len(),
            at < i,
            all == ints(widths@),
            at == widest_at(all.take(i as int)),
        decreases widths@.len() - i,
    {
        proof {
            assert(all.take(i + 1).drop_last() =~= all.take(i as int));
            assert(all.take(i + 1).last() == widths@[i as int]);
            assert(all.take(i + 1)[at as int] == widths@[at as int]);
        }
        if widths[i] >= widths[at] {
            at = i;
        }
        i += 1;
    }
    assert(all.take(widths@.len() as int) =~= all);
    at
}

fn narrow(widths: &mut Vec<usize>, border: u128, wide: usize)
    requires
        old(widths)@.len() > 0,
        forall|k: int| 0 <= k < old(widths)@.len() ==> #[trigger] old(widths)@[k] >= 1,
        border <= 4 * u64::MAX,
    ensures
        ints(final(widths)@) == narrowed(
            ints(old(widths)@),
            wide - border,
            total(ints(old(widths)@)) as nat,
        ),
        final(widths)@.len() == old(widths)@.len(),
{
    let ghost first = ints(widths@);
    let ghost room = wide - border;
    let ghost count = widths@.len();
    loop
        invariant
            widths@.len() == count,
            count > 0,
            border <= 4 * u64::MAX,
            room == wide - border,
            forall|k: int| 0 <= k < widths@.len() ==> #[trigger] widths@[k] >= 1,
            narrowed(first, room, total(first) as nat) == narrowed(
                ints(widths@),
                room,
                total(ints(widths@)) as nat,
            ),
        ensures
            widths@.len() == count,
            ints(widths@) == narrowed(first, room, total(first) as nat),
        decreases total(ints(widths@)),
    {
        let ghost here = ints(widths@);
        let sum: u128 = sum_widths(widths);
        proof {
            assert forall|k: int| 0 <= k < here.len() implies #[trigger] here[k] >= 1 by {
                assert(here[k] == widths@[k]);
            }
            total_covers(here, 0);
        }
        let at: usize = find_widest(widths);
        assert(here[at as int] == widths@[at as int]);
        if sum <= wide as u128 && wide as u128 - sum >= border {
            break;
        }
        if widths[at] <= 1 {
            break;
        }
        let less: usize = widths[at] - 1;
        widths.set(at, less);
        proof {
            assert(ints(widths@) =~= here.update(at as int, less as int));
            total_updates(here, at as int, less as int);
        }
    }
}

fn find_widths(rows: &Vec<Vec<String>>, columns: usize, wide: usize) -> (r: Vec<usize>)
    requires
        columns > 0,
        columns * 4 + 1 <= wide,
    ensures
        ints(r@) == column_widths(row_views(rows@), columns as int, wide as int),
        r@.len() == columns,
{
    let border: usize = columns * 3 + 1;
    let available: usize = geometry::larger(wide.saturating_sub(border), columns);
    let limit: usize = geometry::larger(available / columns, 3);
    let mut widths: Vec<usize> = wish_widths(rows, columns, limit);
    narrow(&mut widths, border as u128, wide);
    widths
}

proof fn widest_is_widest(widths: Seq<int>, k: int)
    requires
        0 <= k < widths.len(),
    ensures
        widths[k] <= widths[widest_at(widths)],
    decreases widths.len(),
{
    if widths.len() > 1 {
        let front = widths.drop_last();
        widest_at_fits(front);
        if k < front.len() {
            widest_is_widest(front, k);
            assert(front[k] == widths[k]);
        }
        assert(front[widest_at(front)] == widths[widest_at(front)]);
    }
}

proof fn small_total(widths: Seq<int>)
    requires
        forall|k: int| 0 <= k < widths.len() ==> #[trigger] widths[k] <= 1,
    ensures
        total(widths) <= widths.len(),
    decreases widths.len(),
{
    if widths.len() > 0 {
        let front = widths.drop_last();
        assert forall|k: int| 0 <= k < front.len() implies #[trigger] front[k] <= 1 by {
            assert(front[k] == widths[k]);
        }
        small_total(front);
        assert(widths[widths.len() - 1] <= 1);
    }
}

proof fn narrowing_fits(widths: Seq<int>, room: int, steps: nat)
    requires
        widths.len() > 0,
        room >= widths.len(),
        steps >= total(widths),
        forall|k: int| 0 <= k < widths.len() ==> #[trigger] widths[k] >= 1,
    ensures
        total(narrowed(widths, room, steps)) <= room,
    decreases steps,
{
    let at = widest_at(widths);
    widest_at_fits(widths);
    total_covers(widths, at);
    if total(widths) > room {
        if widths[at] <= 1 {
            assert forall|k: int| 0 <= k < widths.len() implies #[trigger] widths[k] <= 1 by {
                widest_is_widest(widths, k);
            }
            small_total(widths);
        } else {
            total_updates(widths, at, widths[at] - 1);
            narrowing_fits(widths.update(at, widths[at] - 1), room, (steps - 1) as nat);
        }
    }
}

/// A table with borders is never wider than the screen.
pub proof fn bordered_tables_fit(rows: Seq<Seq<Seq<char>>>, wide: int)
    requires
        column_count(rows) > 0,
        wide >= column_count(rows) * 4 + 1,
    ensures
        total(column_widths(rows, column_count(rows), wide)) + border_columns(column_count(rows))
            <= wide,
{
    let columns = column_count(rows);
    let first = wished(rows, columns, cell_limit(columns, wide));
    assert(cell_limit(columns, wide) >= 3);
    total_covers(first, 0);
    narrowing_fits(first, wide - border_columns(columns), total(first) as nat);
}

/// Whether the cells of a table can be wrapped: the words that have to be cut are narrow.
pub open spec fn table_wrappable(rows: Seq<Seq<Seq<char>>>, wide: int) -> bool {
    let columns = column_count(rows);
    if wide < columns * 4 + 1 {
        &&& forall|i: int, c: int|
            1 <= i < rows.len() && 0 <= c < columns ==> wrap::wrappable(
                #[trigger] title_at(rows[0], c) + ": "@ + #[trigger] cell_at(rows[i], c),
                wide,
            )
        &&& rows.len() == 1 ==> forall|c: int|
            0 <= c < rows[0].len() ==> wrap::wrappable(#[trigger] rows[0][c], wide)
    } else {
        forall|i: int, c: int|
            0 <= i < rows.len() && 0 <= c < columns ==> wrap::wrappable(
                #[trigger] cell_at(rows[i], c),
                column_widths(rows, columns, wide)[c],
            )
    }
}

proof fn narrowed_is_positive(widths: Seq<int>, room: int, steps: nat)
    requires
        forall|k: int| 0 <= k < widths.len() ==> #[trigger] widths[k] >= 1,
    ensures
        narrowed(widths, room, steps).len() == widths.len(),
        forall|k: int|
            0 <= k < widths.len() ==> #[trigger] narrowed(widths, room, steps)[k] >= 1,
    decreases steps,
{
    let at = widest_at(widths);
    if !(steps == 0 || widths.len() == 0 || total(widths) <= room || widths[at] <= 1) {
        widest_at_fits(widths);
        let next = widths.update(at, widths[at] - 1);
        assert forall|k: int| 0 <= k < next.len() implies #[trigger] next[k] >= 1 by {
            assert(widths[k] >= 1);
        }
        narrowed_is_positive(next, room, (steps - 1) as nat);
    }
}

proof fn columns_are_positive(rows: Seq<Seq<Seq<char>>>, wide: int)
    requires
        column_count(rows) > 0,
    ensures
        ({
            let widths = column_widths(rows, column_count(rows), wide);
            &&& widths.len() == column_count(rows)
            &&& forall|k: int| 0 <= k < widths.len() ==> #[trigger] widths[k] >= 1
        }),
{
    let columns = column_count(rows);
    let first = wished(rows, columns, cell_limit(columns, wide));
    assert(cell_limit(columns, wide) >= 3);
    narrowed_is_positive(first, wide - border_columns(columns), total(first) as nat);
}

/// The columns of the first `n` cells of a line with borders.
spec fn part_columns(widths: Seq<int>, n: int) -> int {
    total(widths.take(n)) + 3 * n + 1
}

proof fn borders_stay_within(
    left: char,
    middle: char,
    right: char,
    widths: Seq<int>,
    n: int,
)
    requires
        width::narrow_char(left),
        width::narrow_char(middle),
        width::narrow_char(right),
        0 <= n <= widths.len(),
        forall|k: int| 0 <= k < widths.len() ==> #[trigger] widths[k] >= 1,
    ensures
        width::narrow(seq![left] + border_part(middle, right, widths, n)),
        (seq![left] + border_part(middle, right, widths, n)).len() <= part_columns(widths, n),
    decreases n,
{
    let all = seq![left] + border_part(middle, right, widths, n);
    if n == 0 {
        assert(widths.take(0) =~= Seq::<int>::empty());
        assert(total(Seq::<int>::empty()) == 0);
    } else {
        borders_stay_within(left, middle, right, widths, n - 1);
        let before = seq![left] + border_part(middle, right, widths, n - 1);
        let end = if n == widths.len() {
            right
        } else {
            middle
        };
        let dashes = styled::times('─', geometry::min(widths[n - 1] + 2, usize::MAX as int));
        assert(all =~= before + dashes + seq![end]);
        assert(width::narrow_char('─'));
        assert forall|i: int| 0 <= i < all.len() implies width::narrow_char(#[trigger] all[i]) by {
            if i < before.len() {
                assert(all[i] == before[i]);
            } else if i < before.len() + dashes.len() {
                assert(all[i] == dashes[i - before.len()]);
            }
        }
        assert(widths.take(n).drop_last() =~= widths.take(n - 1));
        assert(widths.take(n).last() == widths[n - 1]);
        assert(widths[n - 1] >= 1);
    }
}

proof fn cell_columns(before: Seq<char>, words: Seq<char>, wide: int, alignment: Option<Alignment>)
    requires
        width::text_columns(words) <= wide,
    ensures
        width::text_columns(before + cell_text(words, wide, alignment)) == width::text_columns(
            before,
        ) + wide + 3,
{
    let padding = wide - width::text_columns(words);
    let left = blanks_before(alignment, padding);
    assert(0 <= left <= padding);
    let bar = seq!['│'];
    assert(width::narrow(bar)) by {
        assert(width::narrow_char('│'));
    }
    width::narrow_is_as_wide(bar);
    let tail = picker::blanks(padding - left) + bar;
    styled::blanks_in_front(padding - left, bar);
    let body = words.push(' ') + tail;
    width::blanks_part_texts(words, tail);
    let inner = picker::blanks(left) + body;
    styled::blanks_in_front(left, body);
    width::blanks_part_texts(before, inner);
    assert(before + cell_text(words, wide, alignment) =~= before.push(' ') + inner);
}

proof fn row_parts_stay_within(
    row: Seq<Seq<char>>,
    widths: Seq<int>,
    alignments: Seq<Alignment>,
    line: int,
    n: int,
)
    requires
        0 <= n <= widths.len(),
        line >= 0,
        forall|k: int| 0 <= k < widths.len() ==> #[trigger] widths[k] >= 1,
        forall|c: int|
            0 <= c < widths.len() ==> wrap::wrappable(#[trigger] cell_at(row, c), widths[c]),
    ensures
        width::text_columns(row_part(row, widths, alignments, line, n)) == part_columns(widths, n),
    decreases n,
{
    if n == 0 {
        let bar = seq!['│'];
        assert(width::narrow_char('│'));
        width::narrow_is_as_wide(bar);
        assert(widths.take(0) =~= Seq::<int>::empty());
        assert(total(Seq::<int>::empty()) == 0);
    } else {
        row_parts_stay_within(row, widths, alignments, line, n - 1);
        let cell = cell_at(row, n - 1);
        assert(widths[n - 1] >= 1);
        wrap::lines_stay_within(cell, widths[n - 1]);
        let lines = cell_lines(row, widths, n - 1);
        let words = cell_at(lines, line);
        width::narrow_is_as_wide(Seq::empty());
        assert(width::text_columns(words) <= widths[n - 1]) by {
            if line < lines.len() {
                assert(words == lines[line]);
            }
        }
        cell_columns(
            row_part(row, widths, alignments, line, n - 1),
            words,
            widths[n - 1],
            alignment_of(alignments, n - 1),
        );
        assert(widths.take(n).drop_last() =~= widths.take(n - 1));
        assert(widths.take(n).last() == widths[n - 1]);
    }
}

proof fn bordered_rows_stay_within(
    rows: Seq<Seq<Seq<char>>>,
    widths: Seq<int>,
    alignments: Seq<Alignment>,
    wide: int,
    n: int,
)
    requires
        0 <= n <= rows.len(),
        part_columns(widths, widths.len() as int) <= wide,
        forall|k: int| 0 <= k < widths.len() ==> #[trigger] widths[k] >= 1,
        forall|i: int, c: int|
            0 <= i < rows.len() && 0 <= c < widths.len() ==> wrap::wrappable(
                #[trigger] cell_at(rows[i], c),
                widths[c],
            ),
    ensures
        styled::within(table_rows(rows, widths, alignments, n), wide),
    decreases n,
{
    if n > 0 {
        bordered_rows_stay_within(rows, widths, alignments, wide, n - 1);
        let row = rows[n - 1];
        let lines = row_lines(row, widths, alignments, n - 1);
        assert forall|i: int| 0 <= i < lines.len() implies width::text_columns(
            styled::line_text(#[trigger] lines[i]),
        ) <= wide by {
            row_parts_stay_within(row, widths, alignments, i, widths.len() as int);
            styled::one_span_text(
                row_part(row, widths, alignments, i, widths.len() as int),
                row_face(n - 1),
            );
        }
        let before = table_rows(rows, widths, alignments, n - 1);
        styled::within_joins(before, lines, wide);
        if n == 1 && rows.len() > 1 {
            border_line_stays_within('├', '┼', '┤', widths, wide);
            styled::within_joins(
                before + lines,
                seq![border_line('├', '┼', '┤', widths)],
                wide,
            );
        } else {
            assert(before + lines + Seq::<Seq<SpanView>>::empty() =~= before + lines);
        }
    }
}

proof fn border_line_stays_within(
    left: char,
    middle: char,
    right: char,
    widths: Seq<int>,
    wide: int,
)
    requires
        width::narrow_char(left),
        width::narrow_char(middle),
        width::narrow_char(right),
        part_columns(widths, widths.len() as int) <= wide,
        forall|k: int| 0 <= k < widths.len() ==> #[trigger] widths[k] >= 1,
    ensures
        styled::within(seq![border_line(left, middle, right, widths)], wide),
{
    borders_stay_within(left, middle, right, widths, widths.len() as int);
    width::narrow_is_as_wide(border_text(left, middle, right, widths));
    styled::one_line_within(
        border_text(left, middle, right, widths),
        Face::of(Paint::Subtle),
        wide,
    );
}

proof fn stacked_cells_stay_within(
    titles: Seq<Seq<char>>,
    row: Seq<Seq<char>>,
    wide: int,
    n: int,
)
    requires
        wide > 0,
        forall|c: int|
            0 <= c < n ==> wrap::wrappable(
                #[trigger] title_at(titles, c) + ": "@ + #[trigger] cell_at(row, c),
                wide,
            ),
    ensures
        styled::within(stacked_cells(titles, row, wide, n), wide),
    decreases n,
{
    if n > 0 {
        stacked_cells_stay_within(titles, row, wide, n - 1);
        let words = title_at(titles, n - 1) + ": "@ + cell_at(row, n - 1);
        wrap::lines_stay_within(words, wide);
        styled::faced_within(wrap::wrapped(words, wide), Face::of(Paint::Foreground), wide);
        styled::within_joins(
            stacked_cells(titles, row, wide, n - 1),
            styled::faced(wrap::wrapped(words, wide), Face::of(Paint::Foreground)),
            wide,
        );
    }
}

proof fn stacked_rows_stay_within(
    rows: Seq<Seq<Seq<char>>>,
    columns: int,
    wide: int,
    n: int,
)
    requires
        wide > 0,
        n <= rows.len(),
        forall|i: int, c: int|
            1 <= i < rows.len() && 0 <= c < columns ==> wrap::wrappable(
                #[trigger] title_at(rows[0], c) + ": "@ + #[trigger] cell_at(rows[i], c),
                wide,
            ),
    ensures
        styled::within(stacked_rows(rows, columns, wide, n), wide),
    decreases n,
{
    if n > 1 {
        stacked_rows_stay_within(rows, columns, wide, n - 1);
        let before = stacked_rows(rows, columns, wide, n - 1);
        let gap = if n > 2 {
            seq![Seq::<SpanView>::empty()]
        } else {
            Seq::empty()
        };
        width::narrow_is_as_wide(Seq::empty());
        styled::within_joins(before, gap, wide);
        stacked_cells_stay_within(rows[0], rows[n - 1], wide, columns);
        styled::within_joins(
            before + gap,
            stacked_cells(rows[0], rows[n - 1], wide, columns),
            wide,
        );
    }
}

proof fn stacked_titles_stay_within(titles: Seq<Seq<char>>, wide: int, n: int)
    requires
        wide > 0,
        n <= titles.len(),
        forall|c: int| 0 <= c < titles.len() ==> wrap::wrappable(#[trigger] titles[c], wide),
    ensures
        styled::within(stacked_titles(titles, wide, n), wide),
    decreases n,
{
    if n > 0 {
        stacked_titles_stay_within(titles, wide, n - 1);
        let face = Face { bold: true, ..Face::of(Paint::Foreground) };
        wrap::lines_stay_within(titles[n - 1], wide);
        styled::faced_within(wrap::wrapped(titles[n - 1], wide), face, wide);
        styled::within_joins(
            stacked_titles(titles, wide, n - 1),
            styled::faced(wrap::wrapped(titles[n - 1], wide), face),
            wide,
        );
    }
}

/// The lines of a table stay within the width, with borders and as lists, unless a word has
/// to be cut whose characters do not take one column each.
pub proof fn tables_stay_within(
    rows: Seq<Seq<Seq<char>>>,
    alignments: Seq<Alignment>,
    wide: int,
)
    requires
        wide > 0,
        table_wrappable(rows, wide),
    ensures
        styled::within(table_lines(rows, alignments, wide), wide),
{
    let columns = column_count(rows);
    if columns == 0 {
    } else if wide < columns * 4 + 1 {
        stacked_rows_stay_within(rows, columns, wide, rows.len() as int);
        let first = stacked_rows(rows, columns, wide, rows.len() as int);
        if rows.len() == 1 {
            stacked_titles_stay_within(rows[0], wide, rows[0].len() as int);
            styled::within_joins(
                first,
                stacked_titles(rows[0], wide, rows[0].len() as int),
                wide,
            );
        } else {
            assert(first + Seq::<Seq<SpanView>>::empty() =~= first);
        }
    } else {
        let widths = column_widths(rows, columns, wide);
        count_is_nonnegative(rows);
        columns_are_positive(rows, wide);
        bordered_tables_fit(rows, wide);
        assert(widths.take(widths.len() as int) =~= widths);
        assert(part_columns(widths, widths.len() as int) <= wide);
        let top = seq![border_line('┌', '┬', '┐', widths)];
        let bottom = seq![border_line('└', '┴', '┘', widths)];
        let body = table_rows(rows, widths, alignments, rows.len() as int);
        border_line_stays_within('┌', '┬', '┐', widths, wide);
        border_line_stays_within('└', '┴', '┘', widths, wide);
        bordered_rows_stay_within(rows, widths, alignments, wide, rows.len() as int);
        styled::within_joins(top, body, wide);
        styled::within_joins(top + body, bottom, wide);
    }
}

proof fn count_is_nonnegative(rows: Seq<Seq<Seq<char>>>)
    ensures
        column_count(rows) >= 0,
    decreases rows.len(),
{
    if rows.len() > 0 {
        count_is_nonnegative(rows.drop_last());
    }
}

fn border_chars(left: char, middle: char, right: char, widths: &Vec<usize>) -> (r: String)
    ensures
        r@ == border_text(left, middle, right, ints(widths@)),
{
    let ghost all = ints(widths@);
    let mut out: Vec<char> = Vec::new();
    out.push(left);
    let mut i: usize = 0;
    assert(out@ =~= seq![left] + border_part(middle, right, all, 0));
    while i < widths.len()
        invariant
            i <= widths@.len(),
            all == ints(widths@),
            out@ == seq![left] + border_part(middle, right, all, i as int),
        decreases widths@.len() - i,
    {
        assert(all[i as int] == widths@[i as int]);
        styled::add_times(&mut out, '─', widths[i].saturating_add(2));
        out.push(
            if i + 1 == widths.len() {
                right
            } else {
                middle
            },
        );
        i += 1;
        assert(out@ =~= seq![left] + border_part(middle, right, all, i as int));
    }
    text::string_of(&out)
}

fn border(left: char, middle: char, right: char, widths: &Vec<usize>) -> (r: TextLine)
    ensures
        r@ == border_line(left, middle, right, ints(widths@)),
{
    TextLine::one(border_chars(left, middle, right, widths), Face::plain(Paint::Subtle))
}

fn add_cell(
    out: &mut String,
    words: &str,
    wide: usize,
    alignment: Option<Alignment>,
)
    ensures
        final(out)@ == old(out)@ + cell_text(words@, wide as int, alignment),
{
    let ghost before = out@;
    let padding: usize = wide.saturating_sub(width::text_width(words));
    let left: usize = match alignment {
        Some(Alignment::Right) => padding,
        Some(Alignment::Center) => padding / 2,
        _ => 0,
    };
    proof {
        reveal_strlit(" ");
        reveal_strlit(" │");
        assert(" "@ =~= seq![' ']);
        assert(" │"@ =~= seq![' ', '│']);
    }
    out.append(" ");
    picker::add_blanks(out, left);
    out.append(words);
    picker::add_blanks(out, padding - left);
    out.append(" │");
    assert(out@ =~= before + cell_text(words@, wide as int, alignment));
}

fn wrap_cells(row: &Vec<String>, widths: &Vec<usize>) -> (r: (Vec<Vec<String>>, usize))
    ensures
        r.0@.len() == widths@.len(),
        forall|c: int|
            0 <= c < r.0@.len() ==> text::views((#[trigger] r.0@[c])@) == cell_lines(
                text::views(row@),
                ints(widths@),
                c,
            ),
        r.1 == row_height(text::views(row@), ints(widths@), widths@.len() as int),
{
    let ghost all = ints(widths@);
    let ghost cells = text::views(row@);
    let mut out: Vec<Vec<String>> = Vec::new();
    let mut height: usize = 0;
    let mut c: usize = 0;
    while c < widths.len()
        invariant
            c <= widths@.len(),
            all == ints(widths@),
            cells == text::views(row@),
            out@.len() == c,
            forall|k: int|
                0 <= k < c ==> text::views((#[trigger] out@[k])@) == cell_lines(cells, all, k),
            height == row_height(cells, all, c as int),
        decreases widths@.len() - c,
    {
        assert(all[c as int] == widths@[c as int]);
        let cell: String = cell_of(row, c);
        let lines: Vec<String> = wrap::wrap(cell.as_str(), widths[c]);
        assert(text::views(lines@).len() == lines@.len());
        height = geometry::larger(height, lines.len());
        out.push(lines);
        c += 1;
    }
    (out, height)
}

fn alignment_at(alignments: &Vec<Alignment>, column: usize) -> (r: Option<Alignment>)
    ensures
        r == alignment_of(alignments@, column as int),
{
    if column < alignments.len() {
        Some(alignments[column])
    } else {
        None
    }
}

fn row_text(
    cells: &Vec<Vec<String>>,
    row: &Vec<String>,
    widths: &Vec<usize>,
    alignments: &Vec<Alignment>,
    line: usize,
) -> (r: String)
    requires
        cells@.len() == widths@.len(),
        forall|c: int|
            0 <= c < cells@.len() ==> text::views((#[trigger] cells@[c])@) == cell_lines(
                text::views(row@),
                ints(widths@),
                c,
            ),
    ensures
        r@ == row_part(
            text::views(row@),
            ints(widths@),
            alignments@,
            line as int,
            widths@.len() as int,
        ),
{
    let ghost all = ints(widths@);
    let ghost views = text::views(row@);
    proof {
        reveal_strlit("│");
        assert("│"@ =~= seq!['│']);
    }
    let mut out: String = "│".to_owned();
    let mut c: usize = 0;
    while c < widths.len()
        invariant
            c <= widths@.len(),
            cells@.len() == widths@.len(),
            all == ints(widths@),
            views == text::views(row@),
            forall|k: int|
                0 <= k < cells@.len() ==> text::views((#[trigger] cells@[k])@) == cell_lines(
                    views,
                    all,
                    k,
                ),
            out@ == row_part(views, all, alignments@, line as int, c as int),
        decreases widths@.len() - c,
    {
        assert(all[c as int] == widths@[c as int]);
        let words: String = cell_of(&cells[c], line);
        add_cell(&mut out, words.as_str(), widths[c], alignment_at(alignments, c));
        c += 1;
    }
    out
}

fn add_row(
    lines: &mut Vec<TextLine>,
    row: &Vec<String>,
    widths: &Vec<usize>,
    alignments: &Vec<Alignment>,
    index: usize,
)
    ensures
        styled::line_views(final(lines)@) == styled::line_views(old(lines)@) + row_lines(
            text::views(row@),
            ints(widths@),
            alignments@,
            index as int,
        ),
{
    let ghost before = styled::line_views(lines@);
    let ghost all = row_lines(text::views(row@), ints(widths@), alignments@, index as int);
    let (cells, height): (Vec<Vec<String>>, usize) = wrap_cells(row, widths);
    let face: Face = if index == 0 {
        let mut title: Face = Face::plain(Paint::Foreground);
        title.bold = true;
        title
    } else {
        Face::plain(Paint::Muted)
    };
    let mut line: usize = 0;
    assert(styled::line_views(lines@) =~= before + all.take(0));
    while line < height
        invariant
            line <= height,
            all == row_lines(text::views(row@), ints(widths@), alignments@, index as int),
            height == all.len(),
            face == row_face(index as int),
            cells@.len() == widths@.len(),
            forall|c: int|
                0 <= c < cells@.len() ==> text::views((#[trigger] cells@[c])@) == cell_lines(
                    text::views(row@),
                    ints(widths@),
                    c,
                ),
            styled::line_views(lines@) == before + all.take(line as int),
        decreases height - line,
    {
        assert(ints(widths@).len() == widths@.len());
        let words: String = row_text(&cells, row, widths, alignments, line);
        styled::add_line(lines, TextLine::one(words, face));
        line += 1;
        assert(styled::line_views(lines@) =~= before + all.take(line as int));
    }
    assert(all.take(height as int) =~= all);
}

fn add_bordered(lines: &mut Vec<TextLine>, table: &Table, columns: usize, wide: usize)
    requires
        columns > 0,
        columns * 4 + 1 <= wide,
        columns == column_count(row_views(table.rows@)),
    ensures
        styled::line_views(final(lines)@) == styled::line_views(old(lines)@) + bordered(
            row_views(table.rows@),
            table.alignments@,
            wide as int,
        ),
{
    let ghost before = styled::line_views(lines@);
    let ghost rows = row_views(table.rows@);
    let widths: Vec<usize> = find_widths(&table.rows, columns, wide);
    let ghost all = ints(widths@);
    styled::add_line(lines, border('┌', '┬', '┐', &widths));
    let ghost top = before.push(border_line('┌', '┬', '┐', all));
    let mut i: usize = 0;
    assert(styled::line_views(lines@) =~= top + table_rows(rows, all, table.alignments@, 0));
    while i < table.rows.len()
        invariant
            i <= table.rows@.len(),
            rows == row_views(table.rows@),
            all == ints(widths@),
            styled::line_views(lines@) == top + table_rows(
                rows,
                all,
                table.alignments@,
                i as int,
            ),
        decreases table.rows@.len() - i,
    {
        assert(rows[i as int] == text::views(table.rows@[i as int]@));
        let ghost done = table_rows(rows, all, table.alignments@, i as int);
        let ghost added = row_lines(rows[i as int], all, table.alignments@, i as int);
        add_row(lines, &table.rows[i], &widths, &table.alignments, i);
        assert(styled::line_views(lines@) =~= top + (done + added));
        if i == 0 && table.rows.len() > 1 {
            styled::add_line(lines, border('├', '┼', '┤', &widths));
        }
        i += 1;
        assert(styled::line_views(lines@) =~= top + table_rows(
            rows,
            all,
            table.alignments@,
            i as int,
        ));
    }
    styled::add_line(lines, border('└', '┴', '┘', &widths));
    assert(styled::line_views(lines@) =~= before + bordered(
        rows,
        table.alignments@,
        wide as int,
    ));
}

fn add_stacked_row(
    lines: &mut Vec<TextLine>,
    titles: &Vec<String>,
    row: &Vec<String>,
    columns: usize,
    wide: usize,
)
    ensures
        styled::line_views(final(lines)@) == styled::line_views(old(lines)@) + stacked_cells(
            text::views(titles@),
            text::views(row@),
            wide as int,
            columns as int,
        ),
{
    let ghost before = styled::line_views(lines@);
    let ghost heads = text::views(titles@);
    let ghost cells = text::views(row@);
    let mut c: usize = 0;
    assert(styled::line_views(lines@) =~= before + stacked_cells(heads, cells, wide as int, 0));
    while c < columns
        invariant
            c <= columns,
            heads == text::views(titles@),
            cells == text::views(row@),
            styled::line_views(lines@) == before + stacked_cells(
                heads,
                cells,
                wide as int,
                c as int,
            ),
        decreases columns - c,
    {
        let title: String = if c < titles.len() {
            assert(heads[c as int] == titles@[c as int]@);
            titles[c].clone()
        } else {
            "value".to_owned()
        };
        let value: String = cell_of(row, c);
        let words: String = text::joined3(title.as_str(), ": ", value.as_str());
        let wrapped: Vec<String> = wrap::wrap(words.as_str(), wide);
        styled::add_faced(lines, &wrapped, Face::plain(Paint::Foreground));
        c += 1;
        assert(styled::line_views(lines@) =~= before + stacked_cells(
            heads,
            cells,
            wide as int,
            c as int,
        ));
    }
}

fn add_titles(lines: &mut Vec<TextLine>, titles: &Vec<String>, wide: usize)
    ensures
        styled::line_views(final(lines)@) == styled::line_views(old(lines)@) + stacked_titles(
            text::views(titles@),
            wide as int,
            titles@.len() as int,
        ),
{
    let ghost before = styled::line_views(lines@);
    let ghost heads = text::views(titles@);
    let mut face: Face = Face::plain(Paint::Foreground);
    face.bold = true;
    let mut c: usize = 0;
    assert(styled::line_views(lines@) =~= before + stacked_titles(heads, wide as int, 0));
    while c < titles.len()
        invariant
            c <= titles@.len(),
            heads == text::views(titles@),
            face == (Face { bold: true, ..Face::of(Paint::Foreground) }),
            styled::line_views(lines@) == before + stacked_titles(heads, wide as int, c as int),
        decreases titles@.len() - c,
    {
        assert(heads[c as int] == titles@[c as int]@);
        let wrapped: Vec<String> = wrap::wrap(titles[c].as_str(), wide);
        styled::add_faced(lines, &wrapped, face);
        c += 1;
        assert(styled::line_views(lines@) =~= before + stacked_titles(
            heads,
            wide as int,
            c as int,
        ));
    }
}

fn add_stacked(lines: &mut Vec<TextLine>, table: &Table, columns: usize, wide: usize)
    requires
        table.rows@.len() > 0,
        columns == column_count(row_views(table.rows@)),
    ensures
        styled::line_views(final(lines)@) == styled::line_views(old(lines)@) + stacked(
            row_views(table.rows@),
            wide as int,
        ),
{
    let ghost before = styled::line_views(lines@);
    let ghost rows = row_views(table.rows@);
    let mut i: usize = 1;
    assert(styled::line_views(lines@) =~= before + stacked_rows(
        rows,
        columns as int,
        wide as int,
        1,
    ));
    while i < table.rows.len()
        invariant
            1 <= i <= table.rows@.len(),
            rows == row_views(table.rows@),
            styled::line_views(lines@) == before + stacked_rows(
                rows,
                columns as int,
                wide as int,
                i as int,
            ),
        decreases table.rows@.len() - i,
    {
        assert(rows[0] == text::views(table.rows@[0]@));
        assert(rows[i as int] == text::views(table.rows@[i as int]@));
        if i > 1 {
            styled::add_line(lines, TextLine::empty());
        }
        add_stacked_row(lines, &table.rows[0], &table.rows[i], columns, wide);
        i += 1;
        assert(styled::line_views(lines@) =~= before + stacked_rows(
            rows,
            columns as int,
            wide as int,
            i as int,
        ));
    }
    if table.rows.len() == 1 {
        assert(rows[0] == text::views(table.rows@[0]@));
        add_titles(lines, &table.rows[0], wide);
    }
    assert(styled::line_views(lines@) =~= before + stacked(rows, wide as int));
}

/// Adds the lines of a table. Whether it has any cells.
pub fn add_table(lines: &mut Vec<TextLine>, table: &Table, wide: usize) -> (r: bool)
    ensures
        styled::line_views(final(lines)@) == styled::line_views(old(lines)@) + table_lines(
            row_views(table.rows@),
            table.alignments@,
            wide as int,
        ),
        r == (column_count(row_views(table.rows@)) > 0),
{
    let ghost before = styled::line_views(lines@);
    let columns: usize = count_columns(&table.rows);
    if columns == 0 {
        assert(styled::line_views(lines@) =~= before + Seq::<Seq<SpanView>>::empty());
        return false;
    }
    if (wide as u128) < columns as u128 * 4 + 1 {
        add_stacked(lines, table, columns, wide);
    } else {
        add_bordered(lines, table, columns, wide);
    }
    true
}

/// The text of a cell stands between blanks: at the left unless its column says otherwise,
/// at the right, or in the middle, where at most one blank more stands behind it.
pub proof fn cells_are_aligned(words: Seq<char>, wide: int, alignment: Option<Alignment>) -> (r: (
    int,
    int,
))
    requires
        width::text_columns(words) <= wide,
    ensures
        cell_text(words, wide, alignment) == picker::blanks(1 + r.0) + words + picker::blanks(
            r.1 + 1,
        ) + seq!['│'],
        r.0 + r.1 == wide - width::text_columns(words),
        r.0 >= 0,
        r.1 >= 0,
        alignment == Some(Alignment::Right) ==> r.1 == 0,
        alignment == Some(Alignment::Center) ==> r.0 <= r.1 <= r.0 + 1,
        alignment != Some(Alignment::Right) && alignment != Some(Alignment::Center) ==> r.0 == 0,
{
    let padding = wide - width::text_columns(words);
    let left = blanks_before(alignment, padding);
    let right = padding - left;
    assert(cell_text(words, wide, alignment) =~= picker::blanks(1 + left) + words + picker::blanks(
        right + 1,
    ) + seq!['│']);
    (left, right)
}

proof fn parts_hold_their_cells(
    row: Seq<Seq<char>>,
    widths: Seq<int>,
    alignments: Seq<Alignment>,
    line: int,
    n: int,
    c: int,
) -> (r: (Seq<char>, Seq<char>))
    requires
        0 <= c < n <= widths.len(),
    ensures
        row_part(row, widths, alignments, line, n) == r.0 + cell_text(
            cell_at(cell_lines(row, widths, c), line),
            widths[c],
            alignment_of(alignments, c),
        ) + r.1,
    decreases n,
{
    let all = row_part(row, widths, alignments, line, n);
    let before = row_part(row, widths, alignments, line, n - 1);
    if c == n - 1 {
        let cell = cell_text(
            cell_at(cell_lines(row, widths, c), line),
            widths[c],
            alignment_of(alignments, c),
        );
        assert(all =~= before + cell + Seq::<char>::empty());
        (before, Seq::empty())
    } else {
        let (a, b) = parts_hold_their_cells(row, widths, alignments, line, n - 1, c);
        let last = cell_text(
            cell_at(cell_lines(row, widths, n - 1), line),
            widths[n - 1],
            alignment_of(alignments, n - 1),
        );
        let cell = cell_text(
            cell_at(cell_lines(row, widths, c), line),
            widths[c],
            alignment_of(alignments, c),
        );
        assert(all =~= a + cell + (b + last));
        (a, b + last)
    }
}

proof fn rows_hold_their_lines(
    rows: Seq<Seq<Seq<char>>>,
    widths: Seq<int>,
    alignments: Seq<Alignment>,
    n: int,
    i: int,
    line: int,
) -> (at: int)
    requires
        0 <= i < n <= rows.len(),
        0 <= line < row_height(rows[i], widths, widths.len() as int),
    ensures
        0 <= at < table_rows(rows, widths, alignments, n).len(),
        table_rows(rows, widths, alignments, n)[at] == styled::one_span(
            row_part(rows[i], widths, alignments, line, widths.len() as int),
            row_face(i),
        ),
    decreases n,
{
    let before = table_rows(rows, widths, alignments, n - 1);
    let all = table_rows(rows, widths, alignments, n);
    if i < n - 1 {
        let at = rows_hold_their_lines(rows, widths, alignments, n - 1, i, line);
        assert(all[at] == before[at]);
        at
    } else {
        let lines = row_lines(rows[i], widths, alignments, i);
        assert(all[before.len() + line] == lines[line]);
        before.len() + line
    }
}

proof fn rows_are_as_high_as_their_cells(row: Seq<Seq<char>>, widths: Seq<int>, n: int, c: int)
    requires
        0 <= c < n <= widths.len(),
    ensures
        cell_lines(row, widths, c).len() <= row_height(row, widths, n),
    decreases n,
{
    if c < n - 1 {
        rows_are_as_high_as_their_cells(row, widths, n - 1, c);
    }
}

proof fn cells_have_a_column(rows: Seq<Seq<Seq<char>>>, i: int)
    requires
        0 <= i < rows.len(),
    ensures
        rows[i].len() <= column_count(rows),
    decreases rows.len(),
{
    if i < rows.len() - 1 {
        cells_have_a_column(rows.drop_last(), i);
    }
}

proof fn row_lines_hold_their_cells(
    row: Seq<Seq<char>>,
    widths: Seq<int>,
    alignments: Seq<Alignment>,
    line: int,
    n: int,
    c: int,
) -> (r: (Seq<char>, Seq<char>))
    requires
        0 <= c < n <= widths.len(),
    ensures
        row_part(row, widths, alignments, line, n) == r.0 + cell_at(
            cell_lines(row, widths, c),
            line,
        ) + r.1,
{
    let (a, b) = parts_hold_their_cells(row, widths, alignments, line, n, c);
    let words = cell_at(cell_lines(row, widths, c), line);
    let alignment = alignment_of(alignments, c);
    let padding = geometry::less(widths[c], width::text_columns(words) as int);
    let left = blanks_before(alignment, padding);
    let front = a + seq![' '] + picker::blanks(left);
    let back = picker::blanks(padding - left) + seq![' ', '│'] + b;
    assert(a + cell_text(words, widths[c], alignment) + b =~= front + words + back);
    (front, back)
}

/// Each line of each cell is drawn: it stands between blanks in a line of the table. The
/// titles, and no other rows, are bold.
pub proof fn every_cell_is_drawn(
    rows: Seq<Seq<Seq<char>>>,
    alignments: Seq<Alignment>,
    wide: int,
    i: int,
    c: int,
    line: int,
) -> (r: (int, Seq<char>, Seq<char>))
    requires
        0 <= i < rows.len(),
        0 <= c < rows[i].len(),
        wide >= column_count(rows) * 4 + 1,
        0 <= line < wrap::wrapped(
            rows[i][c],
            column_widths(rows, column_count(rows), wide)[c],
        ).len(),
    ensures
        ({
            let words = wrap::wrapped(
                rows[i][c],
                column_widths(rows, column_count(rows), wide)[c],
            )[line];
            let lines = table_lines(rows, alignments, wide);
            &&& 0 <= r.0 < lines.len()
            &&& styled::line_text(lines[r.0]) == r.1 + words + r.2
            &&& lines[r.0].len() == 1
            &&& lines[r.0][0].face.bold == (i == 0)
        }),
{
    let columns = column_count(rows);
    let widths = column_widths(rows, columns, wide);
    let n = widths.len() as int;
    cells_have_a_column(rows, i);
    columns_are_positive(rows, wide);
    rows_are_as_high_as_their_cells(rows[i], widths, n, c);
    let at = rows_hold_their_lines(rows, widths, alignments, rows.len() as int, i, line);
    let (front, back) = row_lines_hold_their_cells(rows[i], widths, alignments, line, n, c);
    let lines = table_lines(rows, alignments, wide);
    let body = table_rows(rows, widths, alignments, rows.len() as int);
    assert(lines[at + 1] == body[at]);
    styled::one_span_text(row_part(rows[i], widths, alignments, line, n), row_face(i));
    (at + 1, front, back)
}

proof fn lists_hold_their_cells(
    titles: Seq<Seq<char>>,
    row: Seq<Seq<char>>,
    wide: int,
    n: int,
    c: int,
    line: int,
) -> (at: int)
    requires
        0 <= c < n,
        0 <= line < wrap::wrapped(title_at(titles, c) + ": "@ + cell_at(row, c), wide).len(),
    ensures
        0 <= at < stacked_cells(titles, row, wide, n).len(),
        styled::line_text(stacked_cells(titles, row, wide, n)[at]) == wrap::wrapped(
            title_at(titles, c) + ": "@ + cell_at(row, c),
            wide,
        )[line],
    decreases n,
{
    let before = stacked_cells(titles, row, wide, n - 1);
    let all = stacked_cells(titles, row, wide, n);
    if c < n - 1 {
        let at = lists_hold_their_cells(titles, row, wide, n - 1, c, line);
        assert(all[at] == before[at]);
        at
    } else {
        let texts = wrap::wrapped(title_at(titles, c) + ": "@ + cell_at(row, c), wide);
        styled::one_span_text(texts[line], Face::of(Paint::Foreground));
        assert(all[before.len() + line] == styled::faced(texts, Face::of(Paint::Foreground))[line]);
        before.len() + line
    }
}

proof fn stacked_rows_hold_their_cells(
    rows: Seq<Seq<Seq<char>>>,
    columns: int,
    wide: int,
    n: int,
    i: int,
    c: int,
    line: int,
) -> (at: int)
    requires
        1 <= i < n <= rows.len(),
        0 <= c < columns,
        0 <= line < wrap::wrapped(
            title_at(rows[0], c) + ": "@ + cell_at(rows[i], c),
            wide,
        ).len(),
    ensures
        0 <= at < stacked_rows(rows, columns, wide, n).len(),
        styled::line_text(stacked_rows(rows, columns, wide, n)[at]) == wrap::wrapped(
            title_at(rows[0], c) + ": "@ + cell_at(rows[i], c),
            wide,
        )[line],
    decreases n,
{
    let before = stacked_rows(rows, columns, wide, n - 1);
    let all = stacked_rows(rows, columns, wide, n);
    if i < n - 1 {
        let at = stacked_rows_hold_their_cells(rows, columns, wide, n - 1, i, c, line);
        assert(all[at] == before[at]);
        at
    } else {
        let cells = stacked_cells(rows[0], rows[i], wide, columns);
        let at = lists_hold_their_cells(rows[0], rows[i], wide, columns, c, line);
        let skip = before.len() + if n > 2 {
            1int
        } else {
            0int
        };
        assert(all[skip + at] == cells[at]);
        skip + at
    }
}

/// Where there is no room for borders, each cell is drawn behind its title and a colon.
pub proof fn every_cell_is_listed(
    rows: Seq<Seq<Seq<char>>>,
    alignments: Seq<Alignment>,
    wide: int,
    i: int,
    c: int,
    line: int,
) -> (at: int)
    requires
        1 <= i < rows.len(),
        0 <= c < rows[i].len(),
        c < rows[0].len(),
        wide < column_count(rows) * 4 + 1,
        0 <= line < wrap::wrapped(rows[0][c] + seq![':', ' '] + rows[i][c], wide).len(),
    ensures
        0 <= at < table_lines(rows, alignments, wide).len(),
        styled::line_text(table_lines(rows, alignments, wide)[at]) == wrap::wrapped(
            rows[0][c] + seq![':', ' '] + rows[i][c],
            wide,
        )[line],
{
    reveal_strlit(": ");
    assert(": "@ =~= seq![':', ' ']);
    cells_have_a_column(rows, i);
    let columns = column_count(rows);
    let all = stacked_rows(rows, columns, wide, rows.len() as int);
    let at = stacked_rows_hold_their_cells(rows, columns, wide, rows.len() as int, i, c, line);
    assert(table_lines(rows, alignments, wide)[at] == all[at]);
    at
}

} // verus!
