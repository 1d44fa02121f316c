//! How a prompt is wrapped and where its cursor is.

use vstd::prelude::*;

use crate::geometry;
use crate::text;
use crate::width;

verus! {

broadcast use vstd::string::group_string_axioms;

/// A prompt broken into lines, and the cell of the cursor.
#[derive(Clone, Debug)]
pub struct PromptLayout {
    pub lines: Vec<String>,
    pub cursor_row: usize,
    pub cursor_column: usize,
}

/// The columns of a character in the editor: at least one.
pub open spec fn cell_width(c: char) -> int {
    geometry::max(width::cells(c), 1)
}

/// The lines of a text, and the column after its last character. A line is broken before a
/// character that does not fit any more.
pub open spec fn laid(s: Seq<char>, width: int) -> (Seq<Seq<char>>, int)
    decreases s.len(),
{
    if s.len() == 0 {
        (seq![Seq::empty()], 0)
    } else {
        let (lines, column) = laid(s.drop_last(), width);
        let c = s.last();
        if c == '\n' {
            (lines.push(Seq::empty()), 0)
        } else if column > 0 && column + cell_width(c) > width {
            (lines.push(seq![c]), cell_width(c))
        } else {
            (
                lines.update(lines.len() - 1, lines[lines.len() - 1].push(c)),
                column + cell_width(c),
            )
        }
    }
}

/// The row and column of the cursor.
pub open spec fn cursor_cell(s: Seq<char>, cursor: int, width: int) -> (int, int) {
    let (lines, column) = laid(s.take(geometry::min(cursor, s.len() as int)), width);
    (lines.len() - 1, column)
}

proof fn laid_shape(s: Seq<char>, width: int)
    ensures
        1 <= laid(s, width).0.len() <= s.len() + 1,
        0 <= laid(s, width).1,
    decreases s.len(),
{
    if s.len() > 0 {
        laid_shape(s.drop_last(), width);
    }
}

/// The columns of a line in the editor.
pub open spec fn line_columns(line: Seq<char>) -> int
    decreases line.len(),
{
    if line.len() == 0 {
        0
    } else {
        line_columns(line.drop_last()) + cell_width(line.last())
    }
}

/// All characters of some lines, one line after another.
pub open spec fn flattened(lines: Seq<Seq<char>>) -> Seq<char>
    decreases lines.len(),
{
    if lines.len() == 0 {
        Seq::empty()
    } else {
        flattened(lines.drop_last()) + lines.last()
    }
}

/// A text without its line breaks.
pub open spec fn unbroken(s: Seq<char>) -> Seq<char>
    decreases s.len(),
{
    if s.len() == 0 {
        Seq::empty()
    } else if s.last() == '\n' {
        unbroken(s.drop_last())
    } else {
        unbroken(s.drop_last()).push(s.last())
    }
}

/// Wrapping loses and adds nothing: the lines hold the text's characters in order, all but
/// the line breaks.
pub proof fn wrapping_keeps_the_text(s: Seq<char>, width: int)
    ensures
        flattened(laid(s, width).0) == unbroken(s),
    decreases s.len(),
{
    let (lines, _) = laid(s, width);
    if s.len() == 0 {
        assert(lines.drop_last() =~= Seq::<Seq<char>>::empty());
        assert(flattened(lines) =~= unbroken(s)) by {
            reveal_with_fuel(flattened, 2);
        }
    } else {
        wrapping_keeps_the_text(s.drop_last(), width);
        laid_shape(s.drop_last(), width);
        let (before, column) = laid(s.drop_last(), width);
        let c = s.last();
        if c == '\n' {
            assert(lines.drop_last() =~= before);
            assert(flattened(lines) =~= flattened(before));
        } else if column > 0 && column + cell_width(c) > width {
            assert(lines.drop_last() =~= before);
            assert(flattened(lines) =~= flattened(before).push(c));
        } else {
            assert(lines.drop_last() =~= before.drop_last());
            assert(lines.last() == before.last().push(c));
            assert(flattened(lines) =~= flattened(before).push(c));
        }
    }
}

/// The last line takes the columns up to the end of the text, and no line is wider than the
/// editor unless it holds a single character.
pub proof fn lines_fit(s: Seq<char>, width: int)
    requires
        width >= 1,
    ensures
        line_columns(laid(s, width).0.last()) == laid(s, width).1,
        forall|i: int|
            0 <= i < laid(s, width).0.len() ==> line_columns(#[trigger] laid(s, width).0[i])
                <= width || laid(s, width).0[i].len() == 1,
    decreases s.len(),
{
    let (lines, column) = laid(s, width);
    laid_shape(s, width);
    if s.len() == 0 {
        assert(line_columns(lines[0]) == 0);
    } else {
        lines_fit(s.drop_last(), width);
        laid_shape(s.drop_last(), width);
        let (before, at) = laid(s.drop_last(), width);
        let c = s.last();
        if c == '\n' {
            assert(lines.last() =~= Seq::<char>::empty());
            assert forall|i: int| 0 <= i < lines.len() implies line_columns(#[trigger] lines[i])
                <= width || lines[i].len() == 1 by {
                if i < before.len() {
                    assert(lines[i] == before[i]);
                }
            }
        } else if at > 0 && at + cell_width(c) > width {
            assert(seq![c].drop_last() =~= Seq::<char>::empty());
            assert(line_columns(seq![c]) == cell_width(c)) by {
                reveal_with_fuel(line_columns, 2);
            }
            assert forall|i: int| 0 <= i < lines.len() implies line_columns(#[trigger] lines[i])
                <= width || lines[i].len() == 1 by {
                if i < before.len() {
                    assert(lines[i] == before[i]);
                }
            }
        } else {
            let last = before[before.len() - 1];
            assert(last.push(c).drop_last() =~= last);
            assert(line_columns(last.push(c)) == at + cell_width(c));
            assert forall|i: int| 0 <= i < lines.len() implies line_columns(#[trigger] lines[i])
                <= width || lines[i].len() == 1 by {
                if i < before.len() - 1 {
                    assert(lines[i] == before[i]);
                } else if at == 0 {
                    empty_line_has_no_characters(last);
                }
            }
        }
    }
}

proof fn empty_line_has_no_characters(line: Seq<char>)
    requires
        line_columns(line) == 0,
    ensures
        line.len() == 0,
    decreases line.len(),
{
    if line.len() > 0 {
        columns_are_not_negative(line.drop_last());
    }
}

proof fn columns_are_not_negative(line: Seq<char>)
    ensures
        line_columns(line) >= 0,
    decreases line.len(),
{
    if line.len() > 0 {
        columns_are_not_negative(line.drop_last());
    }
}

/// The layout of a prompt with the cursor before the character at `cursor`.
pub fn layout(content: &str, cursor: usize, width: usize) -> (r: PromptLayout)
    ensures
        ({
            let w = geometry::max(width as int, 1);
            &&& text::views(r.lines@) == laid(content@, w).0
            &&& (r.cursor_row as int, r.cursor_column as int) == cursor_cell(
                content@,
                cursor as int,
                w,
            )
            &&& r.cursor_row < r.lines@.len()
        }),
{
    let width: usize = geometry::larger(width, 1);
    let chars: Vec<char> = text::chars_of(content);
    let mut lines: Vec<String> = Vec::new();
    let mut current = String::new();
    let mut column: usize = 0;
    let mut cursor_row: usize = 0;
    let mut cursor_column: usize = 0;
    let mut i: usize = 0;
    assert(chars@.take(0) =~= Seq::empty());
    assert(text::views(lines@).push(current@) =~= laid(chars@.take(0), width as int).0);
    while i < chars.len()
        invariant
            i <= chars.len(),
            width >= 1,
            lines@.len() <= i,
            column <= geometry::max(width as int, 3),
            text::views(lines@).push(current@) == laid(chars@.take(i as int), width as int).0,
            column == laid(chars@.take(i as int), width as int).1,
            cursor < i ==> (cursor_row as int, cursor_column as int) == cursor_cell(
                chars@,
                cursor as int,
                width as int,
            ),
            cursor < i ==> cursor_row <= lines@.len(),
        decreases chars.len() - i,
    {
        let ghost before = laid(chars@.take(i as int), width as int);
        let ghost next = chars@.take(i + 1);
        assert(next.drop_last() =~= chars@.take(i as int));
        assert(next.last() == chars@[i as int]);
        assert(before.0.len() == lines@.len() + 1);
        if i == cursor {
            cursor_row = lines.len();
            cursor_column = column;
        }
        let c: char = chars[i];
        if c == '\n' {
            lines.push(current);
            current = String::new();
            column = 0;
            assert(text::views(lines@).push(current@) =~= before.0.push(Seq::empty()));
        } else {
            let w: usize = geometry::larger(width::char_cells(c), 1);
            if column > 0 && (column > width || w > width - column) {
                lines.push(current);
                current = String::new();
                current.push(c);
                column = w;
                assert(current@ =~= seq![c]);
                assert(text::views(lines@).push(current@) =~= before.0.push(seq![c]));
            } else {
                current.push(c);
                column = column + w;
                assert(text::views(lines@).push(current@) =~= before.0.update(
                    before.0.len() - 1,
                    before.0[before.0.len() - 1].push(c),
                ));
            }
        }
        i += 1;
    }
    assert(chars@.take(chars@.len() as int) =~= chars@);
    if cursor >= chars.len() {
        cursor_row = lines.len();
        cursor_column = column;
    }
    lines.push(current);
    assert(text::views(lines@) =~= laid(chars@, width as int).0);
    PromptLayout { lines, cursor_row, cursor_column }
}

/// The rows that a prompt wants: its lines, at most `max_rows`, and two for its border.
pub fn desired_height(content: &str, cursor: usize, width: usize, max_rows: usize) -> (r: u16)
    ensures
        ({
            let lines = laid(content@, geometry::max(width as int, 1)).0.len() as int;
            let rows = geometry::max(
                geometry::min(lines, geometry::max(max_rows as int, 1)),
                1,
            );
            r == geometry::min(rows % 0x1_0000 + 2, u16::MAX as int)
        }),
{
    let count: usize = layout(content, cursor, width).lines.len();
    let rows: usize = geometry::larger(geometry::smaller(count, geometry::larger(max_rows, 1)), 1);
    let cut: u16 = (rows % 0x1_0000) as u16;
    cut.saturating_add(2)
}

/// A line feed begins a line, and any other character stands behind the one before it, in the
/// same line where it fits and in the next one where it does not.
pub proof fn characters_follow_one_another(s: Seq<char>, c: char, width: int)
    ensures
        ({
            let (lines, column) = laid(s, width);
            let (more, after) = laid(s.push(c), width);
            &&& c == '\n' ==> more == lines.push(Seq::empty()) && after == 0
            &&& c != '\n' && column > 0 && column + cell_width(c) > width ==> more == lines.push(
                seq![c],
            )
            &&& c != '\n' && (column == 0 || column + cell_width(c) <= width) ==> more.len()
                == lines.len() && more.last() == lines.last().push(c) && after == column
                + cell_width(c)
        }),
        laid(Seq::empty(), width) == (seq![Seq::<char>::empty()], 0int),
{
    assert(s.push(c).drop_last() =~= s);
    prompts_have_lines(s, width);
}

proof fn prompts_have_lines(s: Seq<char>, width: int)
    ensures
        laid(s, width).0.len() > 0,
    decreases s.len(),
{
    if s.len() > 0 {
        prompts_have_lines(s.drop_last(), width);
    }
}

/// The cursor stands behind the text in front of it: in the last of its lines, at the end.
pub proof fn the_cursor_stands_behind_its_text(s: Seq<char>, cursor: int, width: int)
    requires
        0 <= cursor <= s.len(),
        width >= 1,
    ensures
        ({
            let front = laid(s.take(cursor), width).0;
            let cell = cursor_cell(s, cursor, width);
            &&& cell.0 == front.len() - 1
            &&& cell.1 == line_columns(front.last())
        }),
        cursor_cell(s, 0, width) == (0int, 0int),
{
    lines_fit(s.take(cursor), width);
    assert(s.take(0) =~= Seq::<char>::empty());
}

} // verus!
