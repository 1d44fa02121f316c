//! The editor for pasted text: how it is wrapped, which rows are shown, and
//! where a cell of it leads.

use vstd::prelude::*;

use crate::dialog;
use crate::geometry;
use crate::geometry::Rect;
use crate::picker;
use crate::state_types::Target;
use crate::state_types::TextCell;
use crate::text;
use crate::width;

verus! {

broadcast use vstd::string::group_string_axioms;

/// A row of the editor: its text, the positions in front of, between and
/// behind its characters with their columns, and the number of the line if
/// one begins here.
#[derive(Clone, Debug)]
pub struct PasteEditorRow {
    pub text: String,
    pub offsets: Vec<usize>,
    pub columns: Vec<usize>,
    pub line_number: Option<usize>,
}

/// The columns of a stretch of text.
pub open spec fn span(s: Seq<char>) -> int
    decreases s.len(),
{
    if s.len() == 0 {
        0
    } else {
        span(s.drop_last()) + width::cells(s.last())
    }
}

/// How many line feeds a text holds.
pub open spec fn feeds(s: Seq<char>) -> nat
    decreases s.len(),
{
    if s.len() == 0 {
        0
    } else if s.last() == '\n' {
        feeds(s.drop_last()) + 1
    } else {
        feeds(s.drop_last())
    }
}

/// Whether a line begins at this position.
pub open spec fn begins_line(s: Seq<char>, at: int) -> bool {
    at == 0 || s[at - 1] == '\n'
}

/// Whether the character at `at` no longer fits into a row that began at `start`.
pub open spec fn overflows(s: Seq<char>, width: int, start: int, at: int) -> bool {
    span(s.subrange(start, at)) > 0 && span(s.subrange(start, at)) + width::cells(s[at]) > width
}

/// A row that shows the characters from `start` up to `end`.
pub open spec fn shows(r: PasteEditorRow, s: Seq<char>, width: int, start: int, end: int) -> bool {
    &&& 0 <= start <= end <= s.len()
    &&& r.text@ == s.subrange(start, end)
    &&& r.offsets@.len() == end - start + 1
    &&& r.columns@.len() == end - start + 1
    &&& forall|k: int| 0 <= k <= end - start ==> #[trigger] r.offsets@[k] == start + k
    &&& forall|k: int|
        0 <= k <= end - start ==> #[trigger] r.columns@[k] == span(s.subrange(start, start + k))
    &&& forall|k: int|
        start <= k < end ==> #[trigger] s[k] != '\n' && !overflows(s, width, start, k)
    &&& r.line_number == if begins_line(s, start) {
        Some(geometry::min(feeds(s.take(start)) as int + 1, usize::MAX as int) as usize)
    } else {
        None
    }
}

/// Where a row begins and ends.
pub open spec fn first_offset(r: PasteEditorRow) -> int {
    r.offsets@[0] as int
}

pub open spec fn last_offset(r: PasteEditorRow) -> int {
    r.offsets@[r.offsets@.len() - 1] as int
}

/// A row follows another: after a line feed, or where the next character no
/// longer fits.
pub open spec fn follows(s: Seq<char>, width: int, before: PasteEditorRow, after: int) -> bool {
    let end = last_offset(before);
    &&& end < s.len()
    &&& if s[end] == '\n' {
        after == end + 1
    } else {
        after == end && overflows(s, width, first_offset(before), end)
    }
}

/// The rows of a text: they begin with it, end with it, and each follows the
/// one before.
pub open spec fn wrapped(s: Seq<char>, width: int, rows: Seq<PasteEditorRow>) -> bool {
    &&& rows.len() > 0
    &&& first_offset(rows[0]) == 0
    &&& last_offset(rows[rows.len() - 1]) == s.len()
    &&& forall|i: int|
        0 <= i < rows.len() ==> #[trigger] shows(
            rows[i],
            s,
            width,
            first_offset(rows[i]),
            last_offset(rows[i]),
        )
    &&& forall|i: int|
        0 < i < rows.len() ==> #[trigger] follows(
            s,
            width,
            rows[i - 1],
            first_offset(rows[i]),
        )
}

proof fn feeds_bounded(s: Seq<char>)
    ensures
        feeds(s) <= s.len(),
    decreases s.len(),
{
    if s.len() > 0 {
        feeds_bounded(s.drop_last());
    }
}

/// The rows so far show the text up to `start`, where the next one begins.
#[verifier::opaque]
spec fn done(s: Seq<char>, width: int, rows: Seq<PasteEditorRow>, start: int) -> bool {
    &&& rows.len() == 0 ==> start == 0
    &&& rows.len() > 0 ==> first_offset(rows[0]) == 0 && follows(
        s,
        width,
        rows[rows.len() - 1],
        start,
    )
    &&& forall|k: int|
        0 <= k < rows.len() ==> #[trigger] shows(
            rows[k],
            s,
            width,
            first_offset(rows[k]),
            last_offset(rows[k]),
        )
    &&& forall|k: int|
        0 < k < rows.len() ==> #[trigger] follows(s, width, rows[k - 1], first_offset(rows[k]))
}

/// The positions and columns of a row that began at `start` and has come to `at`.
#[verifier::opaque]
spec fn pending(
    s: Seq<char>,
    width: int,
    start: int,
    at: int,
    offsets: Seq<usize>,
    columns: Seq<usize>,
) -> bool {
    &&& 0 <= start <= at <= s.len()
    &&& offsets.len() == at - start + 1
    &&& columns.len() == at - start + 1
    &&& forall|k: int| 0 <= k <= at - start ==> #[trigger] offsets[k] == start + k
    &&& forall|k: int|
        0 <= k <= at - start ==> #[trigger] columns[k] == span(s.subrange(start, start + k))
    &&& forall|k: int|
        start <= k < at ==> #[trigger] s[k] != '\n' && !overflows(s, width, start, k)
}

proof fn pending_starts(s: Seq<char>, width: int, at: int, offsets: Seq<usize>, columns: Seq<usize>)
    requires
        0 <= at <= s.len(),
        offsets.len() == 1,
        offsets[0] == at,
        columns.len() == 1,
        columns[0] == 0,
    ensures
        pending(s, width, at, at, offsets, columns),
        span(s.subrange(at, at)) == 0,
{
    reveal(pending);
    assert(s.subrange(at, at) =~= Seq::<char>::empty());
}

proof fn pending_grows(
    s: Seq<char>,
    width: int,
    start: int,
    at: int,
    offsets: Seq<usize>,
    columns: Seq<usize>,
    offset: usize,
    column: usize,
)
    requires
        pending(s, width, start, at, offsets, columns),
        at < s.len(),
        s[at] != '\n',
        !overflows(s, width, start, at),
        offset == at + 1,
        column == span(s.subrange(start, at)) + width::cells(s[at]),
    ensures
        pending(s, width, start, at + 1, offsets.push(offset), columns.push(column)),
        span(s.subrange(start, at + 1)) == column,
{
    assert(span(s.subrange(start, at + 1)) == column) by {
        reveal(pending);
        assert(s.subrange(start, at + 1).drop_last() =~= s.subrange(start, at));
    }
    reveal(pending);
    let grown = columns.push(column);
    assert forall|k: int| 0 <= k <= at + 1 - start implies #[trigger] grown[k] == span(
        s.subrange(start, start + k),
    ) by {
        if k <= at - start {
            assert(grown[k] == columns[k]);
        }
    }
}

proof fn done_grows(
    s: Seq<char>,
    width: int,
    rows: Seq<PasteEditorRow>,
    row: PasteEditorRow,
    start: int,
    end: int,
    next: int,
)
    requires
        done(s, width, rows, start),
        shows(row, s, width, start, end),
        first_offset(row) == start,
        last_offset(row) == end,
        follows(s, width, row, next),
    ensures
        done(s, width, rows.push(row), next),
{
    reveal(done);
    let made = rows.push(row);
    assert forall|k: int| 0 < k < made.len() implies #[trigger] follows(
        s,
        width,
        made[k - 1],
        first_offset(made[k]),
    ) by {
        if k < rows.len() {
            assert(follows(s, width, rows[k - 1], first_offset(rows[k])));
        } else {
            assert(made[k - 1] == rows[rows.len() - 1]);
        }
    }
    assert forall|k: int| 0 <= k < made.len() implies #[trigger] shows(
        made[k],
        s,
        width,
        first_offset(made[k]),
        last_offset(made[k]),
    ) by {
        if k < rows.len() {
            assert(shows(rows[k], s, width, first_offset(rows[k]), last_offset(rows[k])));
        }
    }
}

/// The row that shows the characters from `start` up to `end`.
fn make_row(
    chars: &Vec<char>,
    width: usize,
    start: usize,
    end: usize,
    offsets: Vec<usize>,
    columns: Vec<usize>,
    number: usize,
) -> (r: PasteEditorRow)
    requires
        pending(chars@, width as int, start as int, end as int, offsets@, columns@),
        number == feeds(chars@.take(start as int)),
    ensures
        shows(r, chars@, width as int, start as int, end as int),
        first_offset(r) == start,
        last_offset(r) == end,
        feeds(chars@.take(end as int)) == number,
{
    proof {
        reveal(pending);
        same_feeds(chars@, start as int, end as int);
    }
    let line_number: Option<usize> = if start == 0 || chars[start - 1] == '\n' {
        if number < usize::MAX {
            Some(number + 1)
        } else {
            Some(number)
        }
    } else {
        None
    };
    PasteEditorRow { text: text::string_between(chars, start, end), offsets, columns, line_number }
}

/// Wraps a text into rows of at most `width` columns. A row is broken in
/// front of a character that no longer fits, unless it is the first one.
pub fn paste_editor_rows(content: &str, width: usize) -> (r: Vec<PasteEditorRow>)
    ensures
        wrapped(content@, width as int, r@),
{
    let chars: Vec<char> = text::chars_of(content);
    let ghost s = chars@;
    let mut rows: Vec<PasteEditorRow> = Vec::new();
    let mut start: usize = 0;
    let mut i: usize = 0;
    let mut offsets: Vec<usize> = Vec::new();
    let mut columns: Vec<usize> = Vec::new();
    offsets.push(0);
    columns.push(0);
    let mut visual: usize = 0;
    let mut number: usize = 0;
    proof {
        assert(s.take(0) =~= Seq::<char>::empty());
        pending_starts(s, width as int, 0, offsets@, columns@);
        reveal(done);
    }
    while i < chars.len()
        invariant
            chars@ == s,
            start <= i <= s.len(),
            done(s, width as int, rows@, start as int),
            pending(s, width as int, start as int, i as int, offsets@, columns@),
            visual == span(s.subrange(start as int, i as int)),
            visual <= width || visual <= 3,
            number == feeds(s.take(start as int)),
        decreases s.len() - i,
    {
        let c: char = chars[i];
        let w: usize = width::char_cells(c);
        let full: bool = visual > 0 && (visual > width || w > width - visual);
        if c == '\n' || full {
            let next: usize = if c == '\n' {
                i + 1
            } else {
                i
            };
            let row: PasteEditorRow = make_row(&chars, width, start, i, offsets, columns, number);
            proof {
                assert(follows(s, width as int, row, next as int));
                done_grows(s, width as int, rows@, row, start as int, i as int, next as int);
                if c == '\n' {
                    assert(s.take(i + 1).drop_last() =~= s.take(i as int));
                    feeds_bounded(s.take(i + 1));
                }
            }
            rows.push(row);
            if c == '\n' {
                number = number + 1;
            }
            start = next;
            visual = 0;
            offsets = Vec::new();
            columns = Vec::new();
            offsets.push(start);
            columns.push(0);
            proof {
                pending_starts(s, width as int, start as int, offsets@, columns@);
            }
        }
        if c == '\n' {
            i = i + 1;
        } else {
            visual = visual + w;
            proof {
                pending_grows(
                    s,
                    width as int,
                    start as int,
                    i as int,
                    offsets@,
                    columns@,
                    (i + 1) as usize,
                    visual,
                );
            }
            i = i + 1;
            offsets.push(i);
            columns.push(visual);
        }
    }
    let row: PasteEditorRow = make_row(&chars, width, start, i, offsets, columns, number);
    let ghost made = rows@;
    rows.push(row);
    proof {
        reveal(done);
        assert forall|k: int| 0 < k < rows@.len() implies #[trigger] follows(
            s,
            width as int,
            rows@[k - 1],
            first_offset(rows@[k]),
        ) by {
            if k < made.len() {
                assert(follows(s, width as int, made[k - 1], first_offset(made[k])));
            } else {
                assert(rows@[k - 1] == made[made.len() - 1]);
            }
        }
        assert forall|k: int| 0 <= k < rows@.len() implies #[trigger] shows(
            rows@[k],
            s,
            width as int,
            first_offset(rows@[k]),
            last_offset(rows@[k]),
        ) by {
            if k < made.len() {
                assert(shows(
                    made[k],
                    s,
                    width as int,
                    first_offset(made[k]),
                    last_offset(made[k]),
                ));
            }
        }
    }
    rows
}

proof fn same_feeds(s: Seq<char>, from: int, to: int)
    requires
        0 <= from <= to <= s.len(),
        forall|k: int| from <= k < to ==> #[trigger] s[k] != '\n',
    ensures
        feeds(s.take(to)) == feeds(s.take(from)),
    decreases to - from,
{
    if from < to {
        same_feeds(s, from, to - 1);
        assert(s.take(to).drop_last() =~= s.take(to - 1));
        assert(s.take(to).last() == s[to - 1]);
    }
}

/// The row of the editor that holds the cursor: the last one that does, and
/// the first row if none does.
pub open spec fn cursor_row_of(rows: Seq<PasteEditorRow>, cursor: int, k: int) -> bool {
    let holds = |i: int| first_offset(rows[i]) <= cursor <= last_offset(rows[i]);
    ||| {
        &&& 0 <= k < rows.len()
        &&& holds(k)
        &&& forall|i: int| k < i < rows.len() ==> !#[trigger] holds(i)
    }
    ||| k == 0 && forall|i: int| 0 <= i < rows.len() ==> !#[trigger] holds(i)
}

/// The first row shown: as before where possible, and moved so that the row
/// of the cursor is shown if the editor follows it.
pub open spec fn scrolled(
    scroll: int,
    follow: bool,
    cursor_row: int,
    viewport: int,
    total: int,
) -> int {
    let kept = geometry::min(scroll, geometry::less(total, viewport));
    if follow && cursor_row < kept {
        cursor_row
    } else if follow && cursor_row >= kept + viewport {
        cursor_row + 1 - viewport
    } else {
        kept
    }
}

/// The editor's rectangle.
pub open spec fn editor_area(area: Rect) -> Rect {
    geometry::middle(
        area,
        geometry::max(1, geometry::min(geometry::less(area.width as int, 2), 120)) as u16,
        geometry::max(1, geometry::min(geometry::less(area.height as int, 2), 40)) as u16,
    )
}

/// The editor's rectangle.
pub fn paste_editor_geometry(area: Rect) -> (r: Rect)
    requires
        area.fits(),
    ensures
        r == editor_area(area),
        r.fits(),
{
    let width: u16 = geometry::larger_cells(
        1,
        geometry::smaller_cells(area.width.saturating_sub(2), 120),
    );
    let height: u16 = geometry::larger_cells(
        1,
        geometry::smaller_cells(area.height.saturating_sub(2), 40),
    );
    geometry::centered(area, width, height)
}

/// A coordinate, cut at the end of the coordinate range.
pub open spec fn cut(n: int) -> u16 {
    geometry::min(n, u16::MAX as int) as u16
}

/// The places of a row and the cells that show them, in the screen row `y` of
/// an editor whose text begins at the column `x`.
pub open spec fn row_cells(row: PasteEditorRow, x: int, y: int) -> Seq<TextCell> {
    Seq::new(
        row.offsets@.len(),
        |j: int|
            TextCell {
                column: cut(x + row.columns@[j]),
                row: cut(y),
                offset: row.offsets@[j],
            },
    )
}

/// The places of some rows, one row below the other.
pub open spec fn all_cells(rows: Seq<PasteEditorRow>, x: int, y: int) -> Seq<TextCell>
    decreases rows.len(),
{
    if rows.len() == 0 {
        Seq::empty()
    } else {
        all_cells(rows.drop_last(), x, y) + row_cells(rows.last(), x, y + rows.len() - 1)
    }
}

/// The cell of the last place with this offset.
pub open spec fn cell_of(cells: Seq<TextCell>, offset: usize) -> Option<(u16, u16)>
    decreases cells.len(),
{
    if cells.len() == 0 {
        None
    } else if cells.last().offset == offset {
        Some((cells.last().column, cells.last().row))
    } else {
        cell_of(cells.drop_last(), offset)
    }
}

/// The gutter in front of a row: the number of the line that begins there.
pub open spec fn gutter(number: Option<usize>) -> Seq<char> {
    match number {
        None => "     "@,
        Some(n) => picker::blanks(geometry::less(4, text::decimal(n as nat).len() as int))
            + text::decimal(n as nat)
            + " "@,
    }
}

/// What the editor shows and where its parts are.
pub struct EditorFrame {
    pub area: Rect,
    pub summary: String,
    pub rows: Vec<PasteEditorRow>,
    pub gutters: Vec<String>,
    pub viewport: usize,
    pub scroll: usize,
    pub targets: Vec<TextCell>,
    pub cursor: Option<(u16, u16)>,
    pub actions: Vec<Target>,
}

/// How many rows of text fit into the editor.
pub open spec fn viewport_of(area: Rect) -> int {
    geometry::max(geometry::less(editor_area(area).height as int, 5), 1)
}

/// The rows that are shown.
pub open spec fn visible(rows: Seq<PasteEditorRow>, scroll: int, viewport: int) -> Seq<
    PasteEditorRow,
> {
    rows.subrange(
        geometry::min(scroll, rows.len() as int),
        geometry::min(scroll + viewport, rows.len() as int),
    )
}

/// The frame of the editor over a screen `area`, for the text `s` with the
/// cursor at `cursor`.
pub open spec fn framed(
    f: EditorFrame,
    area: Rect,
    s: Seq<char>,
    cursor: usize,
    scroll: int,
    follow: bool,
) -> bool {
    let editor = editor_area(area);
    let shown = visible(f.rows@, f.scroll as int, f.viewport as int);
    let footer = geometry::less(editor.end_y(), 2) as u16;
    &&& f.area == editor
    &&& f.summary@ == text::decimal(feeds(s) + 1) + " lines · "@ + text::decimal(s.len())
        + " characters"@
    &&& wrapped(s, geometry::max(geometry::less(editor.width as int, 8), 1), f.rows@)
    &&& f.viewport == viewport_of(area)
    &&& exists|k: int| #[trigger]
        cursor_row_of(f.rows@, cursor as int, k) && f.scroll == scrolled(
            scroll,
            follow,
            k,
            f.viewport as int,
            f.rows@.len() as int,
        )
    &&& f.gutters@.len() == shown.len()
    &&& forall|i: int|
        0 <= i < shown.len() ==> (#[trigger] f.gutters@[i])@ == gutter(shown[i].line_number)
    &&& f.targets@ == all_cells(shown, editor.x + 7, editor.y + 2)
    &&& f.cursor == cell_of(f.targets@, cursor)
    &&& f.actions@ == seq![
        Target { id: 0, start: cut(editor.x + 2), end: cut(editor.x + 10), row: footer },
        Target { id: 1, start: cut(editor.x + 11), end: cut(editor.x + 21), row: footer },
    ]
}

/// How many lines a text has.
fn count_lines(content: &str) -> (r: usize)
    ensures
        r == feeds(content@) + 1,
{
    let mut chars: Vec<char> = text::chars_of(content);
    chars.push('\n');
    let ghost s = content@;
    let mut count: usize = 0;
    let mut i: usize = 0;
    assert(chars@.take(0) =~= Seq::<char>::empty());
    while i < chars.len()
        invariant
            i <= chars@.len(),
            chars@ == s.push('\n'),
            count == feeds(chars@.take(i as int)),
            count <= i,
        decreases chars@.len() - i,
    {
        assert(chars@.take(i + 1).drop_last() =~= chars@.take(i as int));
        if chars[i] == '\n' {
            count += 1;
        }
        i += 1;
    }
    proof {
        assert(chars@.take(chars@.len() as int) =~= s.push('\n'));
        assert(s.push('\n').drop_last() =~= s);
    }
    count
}

/// The line above the text: how much of it there is.
fn summary_text(content: &str) -> (r: String)
    ensures
        r@ == text::decimal(feeds(content@) + 1) + " lines · "@ + text::decimal(content@.len())
            + " characters"@,
{
    let length: usize = text::chars_of(content).len();
    let lines: String = text::decimal_text(count_lines(content) as u64);
    let front: String = text::joined3(
        lines.as_str(),
        " lines · ",
        text::decimal_text(length as u64).as_str(),
    );
    text::joined(front.as_str(), " characters")
}

/// The gutter in front of a row.
fn gutter_text(number: Option<usize>) -> (r: String)
    ensures
        r@ == gutter(number),
{
    match number {
        None => "     ".to_owned(),
        Some(n) => {
            let digits: String = text::decimal_text(n as u64);
            let length: usize = text::chars_of(digits.as_str()).len();
            let mut out: String = "".to_owned();
            proof {
                reveal_strlit("");
            }
            picker::add_blanks(&mut out, 4usize.saturating_sub(length));
            assert(out@ =~= picker::blanks(geometry::less(4, length as int)));
            text::joined3(out.as_str(), digits.as_str(), " ")
        },
    }
}

/// The row that holds the cursor.
fn find_cursor_row(rows: &Vec<PasteEditorRow>, cursor: usize) -> (r: usize)
    requires
        rows@.len() > 0,
        forall|i: int| 0 <= i < rows@.len() ==> (#[trigger] rows@[i]).offsets@.len() > 0,
    ensures
        cursor_row_of(rows@, cursor as int, r as int),
        r < rows@.len(),
{
    let mut i: usize = rows.len();
    while i > 0
        invariant
            i <= rows@.len(),
            forall|k: int| 0 <= k < rows@.len() ==> (#[trigger] rows@[k]).offsets@.len() > 0,
            forall|k: int|
                i <= k < rows@.len() ==> !(first_offset(#[trigger] rows@[k]) <= cursor
                    <= last_offset(rows@[k])),
        decreases i,
    {
        i -= 1;
        let row: &PasteEditorRow = &rows[i];
        if row.offsets[0] <= cursor && cursor <= row.offsets[row.offsets.len() - 1] {
            return i;
        }
    }
    0
}

/// A coordinate a little further, cut at the end of the range.
fn further(at: u16, by: usize) -> (r: u16)
    ensures
        r == cut(at + by),
{
    if by >= u16::MAX as usize - at as usize {
        u16::MAX
    } else {
        at + by as u16
    }
}

/// Adds the places of a row.
fn add_cells(
    cells: &mut Vec<TextCell>,
    row: &PasteEditorRow,
    x: u16,
    y: u16,
    Ghost(left): Ghost<int>,
    Ghost(top): Ghost<int>,
)
    requires
        row.columns@.len() == row.offsets@.len(),
        x == cut(left),
        y == cut(top),
        left >= 0,
        top >= 0,
    ensures
        final(cells)@ == old(cells)@ + row_cells(*row, left, top),
{
    let ghost before = cells@;
    let ghost all = row_cells(*row, left, top);
    let mut j: usize = 0;
    while j < row.offsets.len()
        invariant
            j <= row.offsets@.len(),
            row.columns@.len() == row.offsets@.len(),
            all == row_cells(*row, left, top),
            x == cut(left),
            y == cut(top),
            left >= 0,
            top >= 0,
            cells@ == before + all.take(j as int),
        decreases row.offsets@.len() - j,
    {
        cells.push(
            TextCell { column: further(x, row.columns[j]), row: y, offset: row.offsets[j] },
        );
        j += 1;
        assert(all.take(j as int) =~= all.take(j - 1).push(all[j - 1]));
        assert(cells@ =~= before + all.take(j as int));
    }
    assert(all.take(all.len() as int) =~= all);
}

/// The cell of the last place with an offset.
fn find_cell(cells: &Vec<TextCell>, offset: usize) -> (r: Option<(u16, u16)>)
    ensures
        r == cell_of(cells@, offset),
{
    let mut i: usize = cells.len();
    assert(cells@.take(cells@.len() as int) =~= cells@);
    while i > 0
        invariant
            i <= cells@.len(),
            cell_of(cells@.take(i as int), offset) == cell_of(cells@, offset),
        decreases i,
    {
        assert(cells@.take(i as int).drop_last() =~= cells@.take(i - 1));
        i -= 1;
        if cells[i].offset == offset {
            return Some((cells[i].column, cells[i].row));
        }
    }
    None
}

/// Lays the editor out over a screen `area`.
pub fn editor_frame(
    area: Rect,
    content: &str,
    cursor: usize,
    scroll: usize,
    follow: bool,
) -> (r: EditorFrame)
    requires
        area.fits(),
    ensures
        framed(r, area, content@, cursor, scroll as int, follow),
        walkable(r.rows@),
{
    let editor: Rect = paste_editor_geometry(area);
    let width: u16 = geometry::larger_cells(editor.width.saturating_sub(8), 1);
    let rows: Vec<PasteEditorRow> = paste_editor_rows(content, width as usize);
    let viewport: usize = geometry::larger_cells(editor.height.saturating_sub(5), 1) as usize;
    proof {
        assert forall|i: int| 0 <= i < rows@.len() implies (#[trigger] rows@[i]).offsets@.len() > 0
            && rows@[i].columns@.len() == rows@[i].offsets@.len() by {
            assert(shows(
                rows@[i],
                content@,
                width as int,
                first_offset(rows@[i]),
                last_offset(rows@[i]),
            ));
        }
    }
    let cursor_row: usize = find_cursor_row(&rows, cursor);
    let kept: usize = geometry::smaller(scroll, rows.len().saturating_sub(viewport));
    let first: usize = if follow && cursor_row < kept {
        cursor_row
    } else if follow && cursor_row - kept >= viewport {
        cursor_row + 1 - viewport
    } else {
        kept
    };
    let end: usize = if rows.len() >= first && rows.len() - first > viewport {
        first + viewport
    } else {
        rows.len()
    };
    let ghost shown = visible(rows@, first as int, viewport as int);
    let mut gutters: Vec<String> = Vec::new();
    let mut targets: Vec<TextCell> = Vec::new();
    let x: u16 = further(editor.x, 7);
    let top: u16 = further(editor.y, 2);
    let mut i: usize = first;
    assert(shown.take(0) =~= Seq::<PasteEditorRow>::empty());
    assert(targets@ =~= Seq::<TextCell>::empty());
    while i < end
        invariant
            first <= i <= end <= rows@.len(),
            shown == rows@.subrange(first as int, end as int),
            x == cut(editor.x + 7),
            top == cut(editor.y + 2),
            forall|k: int|
                0 <= k < rows@.len() ==> (#[trigger] rows@[k]).columns@.len()
                    == rows@[k].offsets@.len(),
            gutters@.len() == i - first,
            forall|k: int|
                0 <= k < i - first ==> (#[trigger] gutters@[k])@ == gutter(shown[k].line_number),
            targets@ == all_cells(shown.take(i - first), editor.x + 7, editor.y + 2),
        decreases end - i,
    {
        gutters.push(gutter_text(rows[i].line_number));
        let y: u16 = further(top, i - first);
        proof {
            let part = shown.take(i - first + 1);
            assert(part.drop_last() =~= shown.take(i - first));
            assert(part.last() == rows@[i as int]);
        }
        add_cells(
            &mut targets,
            &rows[i],
            x,
            y,
            Ghost(editor.x + 7),
            Ghost(editor.y + 2 + (i - first)),
        );
        i += 1;
    }
    assert(shown.take(end - first) =~= shown);
    let position: Option<(u16, u16)> = find_cell(&targets, cursor);
    let footer: u16 = editor.bottom().saturating_sub(2);
    let mut actions: Vec<Target> = Vec::new();
    actions.push(
        Target { id: 0, start: further(editor.x, 2), end: further(editor.x, 10), row: footer },
    );
    actions.push(
        Target { id: 1, start: further(editor.x, 11), end: further(editor.x, 21), row: footer },
    );
    let summary: String = summary_text(content);
    let r: EditorFrame = EditorFrame {
        area: editor,
        summary,
        rows,
        gutters,
        viewport,
        scroll: first,
        targets,
        cursor: position,
        actions,
    };
    assert(r.actions@ =~= seq![
        Target { id: 0, start: cut(editor.x + 2), end: cut(editor.x + 10), row: footer },
        Target { id: 1, start: cut(editor.x + 11), end: cut(editor.x + 21), row: footer },
    ]);
    assert(cursor_row_of(r.rows@, cursor as int, cursor_row as int));
    r
}

/// An editor that follows the cursor shows its row.
pub proof fn cursor_stays_visible(scroll: int, cursor_row: int, viewport: int, total: int)
    requires
        viewport >= 1,
        0 <= cursor_row < total,
        scroll >= 0,
    ensures
        scrolled(scroll, true, cursor_row, viewport, total) <= cursor_row < scrolled(
            scroll,
            true,
            cursor_row,
            viewport,
            total,
        ) + viewport,
        scrolled(scroll, true, cursor_row, viewport, total) >= 0,
{
}

/// Every position of the text, the one behind its last character included, is
/// a place of some row.
pub proof fn every_position_has_a_row(
    s: Seq<char>,
    width: int,
    rows: Seq<PasteEditorRow>,
    at: int,
)
    requires
        wrapped(s, width, rows),
        0 <= at <= s.len(),
    ensures
        exists|k: int|
            0 <= k < rows.len() && first_offset(#[trigger] rows[k]) <= at <= last_offset(rows[k]),
{
    position_up_to(s, width, rows, at, rows.len() - 1);
}

proof fn position_up_to(s: Seq<char>, width: int, rows: Seq<PasteEditorRow>, at: int, last: int)
    requires
        wrapped(s, width, rows),
        0 <= at,
        0 <= last < rows.len(),
        at <= last_offset(rows[last]),
    ensures
        exists|k: int|
            0 <= k < rows.len() && first_offset(#[trigger] rows[k]) <= at <= last_offset(rows[k]),
    decreases last,
{
    if first_offset(rows[last]) > at {
        if last > 0 {
            assert(follows(s, width, rows[last - 1], first_offset(rows[last])));
            position_up_to(s, width, rows, at, last - 1);
        }
    }
}

/// The editor while it is open: the block it edits, the rows and places as
/// they were last shown, and how far it is scrolled.
#[derive(Clone, Debug)]
pub struct PasteEditor {
    pub editing_paste: Option<u64>,
    pub paste_editor_rows: Vec<PasteEditorRow>,
    pub paste_editor_scroll: usize,
    pub paste_editor_follow_cursor: bool,
    pub paste_editor_targets: Vec<TextCell>,
    pub paste_editor_actions: Vec<Target>,
    pub paste_editor_action_hover: Option<u64>,
}

/// An editor that edits nothing.
pub open spec fn fresh(e: PasteEditor) -> bool {
    &&& e.editing_paste is None
    &&& e.paste_editor_rows@.len() == 0
    &&& e.paste_editor_scroll == 0
    &&& e.paste_editor_follow_cursor
    &&& e.paste_editor_targets@.len() == 0
    &&& e.paste_editor_actions@.len() == 0
    &&& e.paste_editor_action_hover is None
}

impl Default for PasteEditor {
    fn default() -> (r: Self)
        ensures
            fresh(r),
    {
        PasteEditor {
            editing_paste: None,
            paste_editor_rows: Vec::new(),
            paste_editor_scroll: 0,
            paste_editor_follow_cursor: true,
            paste_editor_targets: Vec::new(),
            paste_editor_actions: Vec::new(),
            paste_editor_action_hover: None,
        }
    }
}

/// A row can be walked: each of its places has a column.
pub open spec fn walkable(rows: Seq<PasteEditorRow>) -> bool {
    forall|i: int|
        0 <= i < rows.len() ==> (#[trigger] rows[i]).offsets@.len() > 0
            && rows[i].columns@.len() == rows[i].offsets@.len()
}

/// The place of a row in or left of a column: the last one, or the first
/// place of the row if all are to the right.
pub open spec fn place_at(row: PasteEditorRow, column: int, j: int) -> bool {
    &&& 0 <= j < row.offsets@.len()
    &&& j == 0 || row.columns@[j] <= column
    &&& forall|k: int| j < k < row.offsets@.len() ==> #[trigger] row.columns@[k] > column
}

/// Where the cursor comes when it is moved by some rows and keeps its column.
/// A cursor outside the rows stays where it is.
pub open spec fn moved_by_rows(
    rows: Seq<PasteEditorRow>,
    cursor: int,
    delta: int,
    to: int,
) -> bool {
    if exists|k: int| holds_cursor(rows, cursor, k) {
        exists|k: int, i: int, j: int|
            {
                &&& #[trigger] holds_place(rows, cursor, k, i)
                &&& #[trigger] place_at(
                    rows[dialog::stepped(k, delta, rows.len() as int)],
                    rows[k].columns@[i] as int,
                    j,
                )
                &&& to == rows[dialog::stepped(k, delta, rows.len() as int)].offsets@[j]
            }
    } else {
        to == cursor
    }
}

/// The last row that lists the cursor's position.
pub open spec fn holds_cursor(rows: Seq<PasteEditorRow>, cursor: int, k: int) -> bool {
    exists|i: int| holds_place(rows, cursor, k, i)
}

/// The last place with the cursor's position, in the last row that has one.
pub open spec fn holds_place(rows: Seq<PasteEditorRow>, cursor: int, k: int, i: int) -> bool {
    &&& 0 <= k < rows.len()
    &&& 0 <= i < rows[k].offsets@.len()
    &&& rows[k].offsets@[i] == cursor
    &&& forall|j: int| i < j < rows[k].offsets@.len() ==> #[trigger] rows[k].offsets@[j] != cursor
    &&& forall|l: int, j: int|
        k < l < rows.len() && 0 <= j < rows[l].offsets@.len() ==> #[trigger] rows[l].offsets@[j]
            != cursor
}

/// The last place with an offset in a row.
fn find_offset(row: &PasteEditorRow, offset: usize) -> (r: Option<usize>)
    ensures
        match r {
            Some(i) => {
                &&& i < row.offsets@.len()
                &&& row.offsets@[i as int] == offset
                &&& forall|j: int|
                    i < j < row.offsets@.len() ==> #[trigger] row.offsets@[j] != offset
            },
            None => forall|j: int|
                0 <= j < row.offsets@.len() ==> #[trigger] row.offsets@[j] != offset,
        },
{
    let mut i: usize = row.offsets.len();
    while i > 0
        invariant
            i <= row.offsets@.len(),
            forall|j: int| i <= j < row.offsets@.len() ==> #[trigger] row.offsets@[j] != offset,
        decreases i,
    {
        i -= 1;
        if row.offsets[i] == offset {
            return Some(i);
        }
    }
    None
}

/// Moves the cursor by some rows.
pub fn move_by_rows(rows: &Vec<PasteEditorRow>, cursor: usize, delta: isize) -> (r: usize)
    requires
        walkable(rows@),
    ensures
        moved_by_rows(rows@, cursor as int, delta as int, r as int),
{
    let mut k: usize = rows.len();
    while k > 0
        invariant
            k <= rows@.len(),
            walkable(rows@),
            forall|l: int, j: int|
                k <= l < rows@.len() && 0 <= j < rows@[l].offsets@.len()
                    ==> #[trigger] rows@[l].offsets@[j] != cursor,
        decreases k,
    {
        k -= 1;
        if let Some(i) = find_offset(&rows[k], cursor) {
            assert(rows@[k as int].columns@.len() == rows@[k as int].offsets@.len());
            let column: usize = rows[k].columns[i];
            let to: usize = dialog::step(k, delta, rows.len());
            let row: &PasteEditorRow = &rows[to];
            assert(row.offsets@.len() > 0 && row.columns@.len() == row.offsets@.len());
            let mut j: usize = row.offsets.len() - 1;
            while j > 0 && row.columns[j] > column
                invariant
                    j < row.offsets@.len() == row.columns@.len(),
                    forall|x: int| j < x < row.offsets@.len() ==> #[trigger] row.columns@[x] > column,
                decreases j,
            {
                j -= 1;
            }
            proof {
                assert(holds_place(rows@, cursor as int, k as int, i as int));
                assert(holds_cursor(rows@, cursor as int, k as int));
                assert(place_at(
                    rows@[dialog::stepped(k as int, delta as int, rows@.len() as int)],
                    rows@[k as int].columns@[i as int] as int,
                    j as int,
                ));
            }
            return row.offsets[j];
        }
    }
    proof {
        assert forall|k: int| !holds_cursor(rows@, cursor as int, k) by {}
    }
    cursor
}

/// The last place in a screen row, in or left of a column.
pub open spec fn clicked(cells: Seq<TextCell>, column: u16, row: u16) -> Option<usize>
    decreases cells.len(),
{
    if cells.len() == 0 {
        None
    } else if cells.last().row == row && cells.last().column <= column {
        Some(cells.last().offset)
    } else {
        clicked(cells.drop_last(), column, row)
    }
}

impl PasteEditor {
    /// The place that a click leads to.
    pub fn place_clicked(&self, column: u16, row: u16) -> (r: Option<usize>)
        ensures
            r == clicked(self.paste_editor_targets@, column, row),
    {
        let cells: &Vec<TextCell> = &self.paste_editor_targets;
        let mut i: usize = cells.len();
        assert(cells@.take(cells@.len() as int) =~= cells@);
        while i > 0
            invariant
                i <= cells@.len(),
                cells@ == self.paste_editor_targets@,
                clicked(cells@.take(i as int), column, row) == clicked(cells@, column, row),
            decreases i,
        {
            assert(cells@.take(i as int).drop_last() =~= cells@.take(i - 1));
            i -= 1;
            if cells[i].row == row && cells[i].column <= column {
                return Some(cells[i].offset);
            }
        }
        None
    }

    /// Scrolls the editor, which no longer follows the cursor.
    pub fn scroll_by(&mut self, delta: isize)
        ensures
            *final(self) == (PasteEditor {
                paste_editor_scroll: final(self).paste_editor_scroll,
                paste_editor_follow_cursor: false,
                ..*old(self)
            }),
            final(self).paste_editor_scroll == dialog::stepped(
                old(self).paste_editor_scroll as int,
                delta as int,
                usize::MAX + 1,
            ),
    {
        self.paste_editor_scroll = dialog::moved(self.paste_editor_scroll, delta, usize::MAX);
        self.paste_editor_follow_cursor = false;
    }

    /// Takes over what the editor has shown.
    pub fn remember(&mut self, frame: EditorFrame)
        ensures
            *final(self) == (PasteEditor {
                paste_editor_rows: frame.rows,
                paste_editor_scroll: frame.scroll,
                paste_editor_targets: frame.targets,
                paste_editor_actions: frame.actions,
                ..*old(self)
            }),
    {
        self.paste_editor_rows = frame.rows;
        self.paste_editor_scroll = frame.scroll;
        self.paste_editor_targets = frame.targets;
        self.paste_editor_actions = frame.actions;
    }
}

/// Every character of a row has a cell: in its row, at its column, with its place in the text.
pub proof fn characters_have_their_cells(
    rows: Seq<PasteEditorRow>,
    x: int,
    y: int,
    k: int,
    j: int,
) -> (at: int)
    requires
        0 <= k < rows.len(),
        0 <= j < rows[k].offsets@.len(),
        0 <= x,
        0 <= y,
        x + rows[k].columns@[j] <= u16::MAX,
        y + k <= u16::MAX,
    ensures
        0 <= at < all_cells(rows, x, y).len(),
        all_cells(rows, x, y)[at].row == y + k,
        all_cells(rows, x, y)[at].column == x + rows[k].columns@[j],
        all_cells(rows, x, y)[at].offset == rows[k].offsets@[j],
    decreases rows.len(),
{
    let front = all_cells(rows.drop_last(), x, y);
    let last = row_cells(rows.last(), x, y + rows.len() - 1);
    assert(all_cells(rows, x, y) == front + last);
    if k < rows.len() - 1 {
        assert(rows.drop_last()[k] == rows[k]);
        let at = characters_have_their_cells(rows.drop_last(), x, y, k, j);
        assert((front + last)[at] == front[at]);
        at
    } else {
        assert((front + last)[front.len() + j] == last[j]);
        front.len() + j
    }
}

/// The cell of a place in the text is one that shows it, and there is none where no cell does.
pub proof fn places_are_shown_in_their_cells(cells: Seq<TextCell>, offset: usize) -> (at: int)
    ensures
        cell_of(cells, offset) matches Some((column, row)) ==> 0 <= at < cells.len()
            && cells[at].offset == offset && cells[at].column == column && cells[at].row == row,
        cell_of(cells, offset) is None <==> forall|i: int|
            0 <= i < cells.len() ==> (#[trigger] cells[i]).offset != offset,
    decreases cells.len(),
{
    if cells.len() == 0 {
        0
    } else if cells.last().offset == offset {
        assert(cells[cells.len() - 1].offset == offset);
        cells.len() - 1
    } else {
        let front = cells.drop_last();
        let at = places_are_shown_in_their_cells(front, offset);
        if cell_of(cells, offset) is None {
            assert forall|i: int| 0 <= i < cells.len() implies (#[trigger] cells[i]).offset
                != offset by {
                if i < front.len() {
                    assert(front[i].offset != offset);
                }
            }
        } else {
            assert(cells[at] == front[at]);
        }
        at
    }
}

/// Line numbers stand at the right of their column, which has the same width in every row as
/// long as the numbers have room, and rows that go on with a line have none.
pub proof fn line_numbers_stand_at_the_right(n: usize)
    ensures
        gutter(None).len() == 5,
        forall|i: int| 0 <= i < 5 ==> #[trigger] gutter(None)[i] == ' ',
        text::finishes_with(gutter(Some(n)), text::decimal(n as nat) + seq![' ']),
        text::decimal(n as nat).len() <= 4 ==> gutter(Some(n)).len() == 5,
{
    reveal_strlit("     ");
    reveal_strlit(" ");
    let number = text::decimal(n as nat);
    let shown = gutter(Some(n));
    assert(" "@ =~= seq![' ']);
    let at = shown.len() - (number + seq![' ']).len();
    assert(shown.subrange(at, at + (number + seq![' ']).len()) =~= number + seq![' ']);
}

/// Every line feed begins another line.
pub proof fn line_feeds_are_counted(s: Seq<char>, c: char)
    ensures
        feeds(s.push(c)) == feeds(s) + if c == '\n' {
            1int
        } else {
            0
        },
        feeds(s) <= s.len(),
        feeds(Seq::<char>::empty()) == 0,
    decreases s.len(),
{
    assert(s.push(c).drop_last() =~= s);
    if s.len() > 0 {
        line_feeds_are_counted(s.drop_last(), s.last());
    }
}

/// The editor stands in the middle with a cell around it, at most as large as it is made for,
/// and its buttons stand beside one another and share no cell.
pub proof fn editors_stand_in_the_middle(
    f: EditorFrame,
    area: Rect,
    s: Seq<char>,
    cursor: usize,
    scroll: int,
    follow: bool,
)
    requires
        framed(f, area, s, cursor, scroll, follow),
        area.fits(),
        area.width >= 30,
        area.height >= 10,
    ensures
        area.x < f.area.x,
        f.area.x + f.area.width < area.x + area.width,
        area.y < f.area.y,
        f.area.y + f.area.height < area.y + area.height,
        f.area.width <= 120,
        f.area.height <= 40,
        f.viewport == f.area.height - 5,
        f.actions@.len() == 2,
        f.actions@[0].id == 0,
        f.actions@[1].id == 1,
        f.area.x < f.actions@[0].start < f.actions@[0].end < f.actions@[1].start
            < f.actions@[1].end <= f.area.x + f.area.width,
        f.area.y < f.actions@[0].row < f.area.y + f.area.height,
        f.actions@[0].row == f.actions@[1].row,
        f.gutters@.len() <= f.viewport,
{
}

} // verus!
