//! Modal pickers: their geometry, hit testing, and the texts of their rows.
//!
//! Painting and hit testing take their geometry from the same function.

use vstd::prelude::*;

use crate::geometry;
use crate::geometry::Rect;
use crate::text;
use crate::width;

verus! {

broadcast use vstd::string::group_string_axioms;

/// One row of a picker.
#[derive(Clone, Debug)]
pub struct PickerRow {
    pub item_index: Option<usize>,
    pub label: String,
    pub description: String,
    pub right: String,
    pub badge: String,
    pub checked: Option<bool>,
    pub current: bool,
    pub disabled: bool,
    pub header: bool,
}

impl Default for PickerRow {
    fn default() -> (r: Self)
        ensures
            r.item_index is None,
            r.label@.len() == 0,
            r.description@.len() == 0,
            r.right@.len() == 0,
            r.badge@.len() == 0,
            r.checked is None,
            !r.current,
            !r.disabled,
            !r.header,
    {
        PickerRow {
            item_index: None,
            label: String::new(),
            description: String::new(),
            right: String::new(),
            badge: String::new(),
            checked: None,
            current: false,
            disabled: false,
            header: false,
        }
    }
}

impl PickerRow {
    /// A row for the item at `index`.
    pub fn item(index: usize, label: &str) -> (r: PickerRow)
        ensures
            r.item_index == Some(index),
            r.label@ == label@,
            r.description@.len() == 0,
            r.right@.len() == 0,
            r.badge@.len() == 0,
            r.checked is None,
            !r.current,
            !r.disabled,
            !r.header,
    {
        PickerRow {
            item_index: Some(index),
            label: label.to_owned(),
            description: String::new(),
            right: String::new(),
            badge: String::new(),
            checked: None,
            current: false,
            disabled: false,
            header: false,
        }
    }

    /// A row that names the section below it.
    pub fn header(label: &str) -> (r: PickerRow)
        ensures
            r.item_index is None,
            r.label@ == label@,
            r.description@.len() == 0,
            r.right@.len() == 0,
            r.badge@.len() == 0,
            r.checked is None,
            !r.current,
            !r.disabled,
            r.header,
    {
        PickerRow {
            item_index: None,
            label: label.to_owned(),
            description: String::new(),
            right: String::new(),
            badge: String::new(),
            checked: None,
            current: false,
            disabled: false,
            header: true,
        }
    }
}

/// What a picker shows.
pub struct PickerSpec<'a> {
    pub title: &'a str,
    pub query: Option<(&'a str, &'a str)>,
    pub notes: &'a [String],
    pub rows: &'a [PickerRow],
    pub footer: &'a str,
    pub max_width: u16,
    pub max_height: u16,
}

/// Where a picker is, and which of its rows are visible.
#[derive(Clone, Copy, Debug, PartialEq, Eq, Structural)]
pub struct PickerLayout {
    pub modal: Rect,
    pub rows: Rect,
    pub visible_start: usize,
    pub visible_end: usize,
    pub selected_visual: Option<usize>,
}

/// Whether the first row of the item `selected` is the one at `i`.
pub open spec fn first_row_of(rows: Seq<PickerRow>, selected: usize, i: int) -> bool {
    &&& 0 <= i < rows.len()
    &&& rows[i].item_index == Some(selected)
    &&& forall|j: int| 0 <= j < i ==> (#[trigger] rows[j]).item_index != Some(selected)
}

/// The rectangle of a picker.
pub open spec fn modal_of(
    area: Rect,
    query: bool,
    notes: int,
    rows: int,
    max_width: u16,
    max_height: u16,
) -> Rect {
    let wide = geometry::min(
        geometry::max(
            geometry::min(geometry::less(area.width as int, 4), max_width as int),
            20,
        ),
        area.width as int,
    );
    let fixed = 3 + notes + if query { 2int } else { 0int };
    let desired = geometry::max(fixed + rows, 7) % 0x1_0000;
    let most = geometry::max(
        geometry::min(geometry::less(area.height as int, 2), max_height as int),
        6,
    );
    let high = geometry::min(geometry::min(desired, most), area.height as int);
    geometry::middle(area, wide as u16, high as u16)
}

/// The rectangle of the rows of a picker.
pub open spec fn rows_of(modal: Rect, query: bool, notes: int) -> Rect {
    let y = modal.y + 1 + notes + if query { 2int } else { 0int };
    Rect::at(
        modal.x + 2,
        y,
        geometry::less(modal.width as int, 4),
        geometry::less(geometry::less(modal.end_y(), y), 2),
    )
}

/// The places of a dialog: the modal in the middle, and in it the rows around
/// the selected one.
pub open spec fn laid_out(
    area: Rect,
    query: bool,
    notes: int,
    rows: Seq<PickerRow>,
    max_width: u16,
    max_height: u16,
    selected: usize,
    r: PickerLayout,
) -> bool {
    let capacity = geometry::max(r.rows.height as int, 1);
    &&& r.modal == modal_of(area, query, notes, rows.len() as int, max_width, max_height)
    &&& r.rows == rows_of(r.modal, query, notes)
    &&& match r.selected_visual {
        Some(i) => first_row_of(rows, selected, i as int) && r.visible_start
            == geometry::window_start(i as int, rows.len() as int, capacity),
        None => r.visible_start == 0 && forall|i: int| !first_row_of(rows, selected, i),
    }
    &&& r.visible_end == geometry::min(r.visible_start + capacity, rows.len() as int)
    &&& r.visible_start <= r.visible_end
}

fn find_modal(area: Rect, spec: &PickerSpec<'_>, query: bool) -> (r: Rect)
    requires
        area.fits(),
        spec.notes@.len() <= u16::MAX,
    ensures
        r == modal_of(
            area,
            query,
            spec.notes@.len() as int,
            spec.rows@.len() as int,
            spec.max_width,
            spec.max_height,
        ),
        r.fits(),
        area.x <= r.x,
        r.x + r.width <= area.x + area.width,
        area.y <= r.y,
        r.y + r.height <= area.y + area.height,
{
    let wide: u16 = geometry::smaller_cells(
        geometry::larger_cells(
            geometry::smaller_cells(area.width.saturating_sub(4), spec.max_width),
            20,
        ),
        area.width,
    );
    let fixed: u128 = if query {
        5
    } else {
        3
    };
    let wanted: u128 = fixed + spec.notes.len() as u128 + spec.rows.len() as u128;
    let desired: u16 = if wanted <= 7 {
        7
    } else {
        (wanted % 0x1_0000) as u16
    };
    let most: u16 = geometry::larger_cells(
        geometry::smaller_cells(area.height.saturating_sub(2), spec.max_height),
        6,
    );
    let high: u16 = geometry::smaller_cells(geometry::smaller_cells(desired, most), area.height);
    geometry::centered(area, wide, high)
}

/// Lays a dialog out.
pub fn layout(area: Rect, spec: &PickerSpec<'_>, selected: usize) -> (r: PickerLayout)
    requires
        area.x + area.width + 2 <= u16::MAX,
        area.y + area.height + 3 + spec.notes@.len() <= u16::MAX,
    ensures
        laid_out(
            area,
            spec.query is Some,
            spec.notes@.len() as int,
            spec.rows@,
            spec.max_width,
            spec.max_height,
            selected,
            r,
        ),
{
    let query: bool = spec.query.is_some();
    let notes: usize = spec.notes.len();
    let query_rows: u16 = if query {
        2
    } else {
        0
    };
    let modal: Rect = find_modal(area, spec, query);
    let rows_y: u16 = modal.y + 1 + query_rows + notes as u16;
    let rows_height: u16 = modal.bottom().saturating_sub(rows_y).saturating_sub(2);
    let rows: Rect = Rect::new(
        modal.x + 2,
        rows_y,
        modal.width.saturating_sub(4),
        rows_height,
    );
    let selected_visual: Option<usize> = find_row(spec.rows, selected);
    let capacity: usize = geometry::larger(rows.height as usize, 1);
    let visible_start: usize = match selected_visual {
        Some(visual) => geometry::centered_window(visual, spec.rows.len(), capacity),
        None => 0,
    };
    proof {
        if let Some(visual) = selected_visual {
            geometry::window_holds_the_selection(
                visual as int,
                spec.rows@.len() as int,
                capacity as int,
            );
        }
    }
    let visible_end: usize = if spec.rows.len() - visible_start <= capacity {
        spec.rows.len()
    } else {
        visible_start + capacity
    };
    PickerLayout { modal, rows, visible_start, visible_end, selected_visual }
}

fn find_row(rows: &[PickerRow], selected: usize) -> (r: Option<usize>)
    ensures
        match r {
            Some(i) => first_row_of(rows@, selected, i as int),
            None => forall|i: int| !first_row_of(rows@, selected, i),
        },
{
    let mut i: usize = 0;
    while i < rows.len()
        invariant
            i <= rows.len(),
            forall|j: int| 0 <= j < i ==> (#[trigger] rows@[j]).item_index != Some(selected),
        decreases rows.len() - i,
    {
        match rows[i].item_index {
            Some(index) => {
                if index == selected {
                    return Some(i);
                }
            },
            None => {},
        }
        i += 1;
    }
    None
}

/// The selected row is among the visible ones.
pub proof fn selection_is_visible(area: Rect, rows: Seq<PickerRow>, layout: PickerLayout)
    requires
        layout.selected_visual matches Some(i) && {
            let capacity = geometry::max(layout.rows.height as int, 1);
            &&& i < rows.len()
            &&& layout.visible_start == geometry::window_start(
                i as int,
                rows.len() as int,
                capacity,
            )
            &&& layout.visible_end == geometry::min(
                layout.visible_start + capacity,
                rows.len() as int,
            )
        },
    ensures
        layout.visible_start <= layout.selected_visual->0 < layout.visible_end,
{
    geometry::window_holds_the_selection(
        layout.selected_visual->0 as int,
        rows.len() as int,
        geometry::max(layout.rows.height as int, 1),
    );
}

/// The item at a cell.
pub open spec fn item_under(
    layout: PickerLayout,
    rows: Seq<PickerRow>,
    column: int,
    row: int,
) -> Option<usize> {
    let visual = layout.visible_start + row - layout.rows.y;
    if layout.rows.covers(column, row) && visual < rows.len() {
        rows[visual].item_index
    } else {
        None
    }
}

/// The item at a cell; `None` outside the rows and on a header.
pub fn item_at(layout: PickerLayout, rows: &[PickerRow], column: u16, row: u16) -> (r: Option<usize>)
    ensures
        r == item_under(layout, rows@, column as int, row as int),
{
    if !layout.rows.contains(column, row) {
        return None;
    }
    let offset: usize = (row - layout.rows.y) as usize;
    if layout.visible_start < rows.len() && offset < rows.len() - layout.visible_start {
        rows[layout.visible_start + offset].item_index
    } else {
        None
    }
}

/// A visible row of a picker, and the line that it is painted on.
#[derive(Clone, Copy, Debug, PartialEq, Eq, Structural)]
pub struct PaintedRow {
    pub visual: usize,
    pub line: Rect,
}

/// The line that a visible row is painted on.
pub open spec fn line_of(layout: PickerLayout, visual: int) -> Rect {
    Rect {
        x: layout.rows.x,
        y: (layout.rows.y + visual - layout.visible_start) as u16,
        width: layout.rows.width,
        height: 1,
    }
}

/// The visible rows of a picker, top down, each with the line that it is painted on.
pub open spec fn painted(layout: PickerLayout) -> Seq<PaintedRow> {
    Seq::new(
        (layout.visible_end - layout.visible_start) as nat,
        |i: int|
            PaintedRow {
                visual: (layout.visible_start + i) as usize,
                line: line_of(layout, layout.visible_start + i),
            },
    )
}

/// Lays a picker out and places its visible rows.
pub fn render(area: Rect, spec: &PickerSpec<'_>, selected: usize) -> (r: (
    PickerLayout,
    Vec<PaintedRow>,
))
    requires
        area.x + area.width + 2 <= u16::MAX,
        area.y + area.height + 3 + spec.notes@.len() <= u16::MAX,
    ensures
        laid_out(
            area,
            spec.query is Some,
            spec.notes@.len() as int,
            spec.rows@,
            spec.max_width,
            spec.max_height,
            selected,
            r.0,
        ),
        r.1@ == painted(r.0),
{
    let layout: PickerLayout = layout(area, spec, selected);
    let count: usize = layout.visible_end - layout.visible_start;
    let mut out: Vec<PaintedRow> = Vec::new();
    let mut i: usize = 0;
    while i < count
        invariant
            i <= count,
            count == layout.visible_end - layout.visible_start,
            count <= geometry::max(layout.rows.height as int, 1),
            layout.rows.y + layout.rows.height <= u16::MAX,
            out@ == painted(layout).take(i as int),
        decreases count - i,
    {
        let line: Rect = Rect {
            x: layout.rows.x,
            y: layout.rows.y + i as u16,
            width: layout.rows.width,
            height: 1,
        };
        out.push(PaintedRow { visual: layout.visible_start + i, line });
        i += 1;
        assert(out@ =~= painted(layout).take(i as int));
    }
    assert(painted(layout).take(count as int) =~= painted(layout));
    (layout, out)
}

/// Painting and hit testing share one geometry: where the rows have room, the cells of the
/// line that a row is painted on give its item, and every cell that gives an item is on the
/// line of a painted row.
pub proof fn hits_match_rows(
    area: Rect,
    query: bool,
    notes: int,
    rows: Seq<PickerRow>,
    max_width: u16,
    max_height: u16,
    selected: usize,
    layout: PickerLayout,
    column: int,
)
    requires
        laid_out(area, query, notes, rows, max_width, max_height, selected, layout),
        layout.rows.fits(),
        layout.rows.height > 0,
        layout.rows.x <= column < layout.rows.end_x(),
    ensures
        forall|i: int|
            0 <= i < painted(layout).len() ==> {
                let row = #[trigger] painted(layout)[i];
                &&& layout.rows.covers(column, row.line.y as int)
                &&& item_under(layout, rows, column, row.line.y as int)
                    == rows[row.visual as int].item_index
            },
        forall|y: int| #[trigger]
            item_under(layout, rows, column, y) is Some ==> {
                let i = y - layout.rows.y;
                &&& 0 <= i < painted(layout).len()
                &&& painted(layout)[i].line.y == y
                &&& item_under(layout, rows, column, y)
                    == rows[painted(layout)[i].visual as int].item_index
            },
{
}

/// Whether a text is cut after `k` characters so that it leaves room for an ellipsis in
/// `budget` columns.
pub open spec fn cut_at(value: Seq<char>, budget: int, k: int) -> bool {
    &&& 0 <= k <= value.len()
    &&& k < value.len() ==> width::text_columns(value.take(k)) + width::cells(value[k]) >= budget
    &&& forall|j: int|
        0 <= j < k ==> width::text_columns(#[trigger] value.take(j)) + width::cells(value[j])
            < budget
}

/// Whether `shown` is a text cut to `budget` columns.
pub open spec fn shortened(value: Seq<char>, budget: int, shown: Seq<char>) -> bool {
    if width::text_columns(value) <= budget {
        shown == value
    } else if budget < 2 {
        shown.len() == 0
    } else {
        exists|k: int| #[trigger] cut_at(value, budget, k) && shown == value.take(k).push('…')
    }
}

/// A text cut to a number of columns.
pub fn truncate_width(value: &str, budget: usize) -> (r: String)
    ensures
        shortened(value@, budget as int, r@),
{
    if width::text_width(value) <= budget {
        return value.to_owned();
    }
    if budget < 2 {
        return String::new();
    }
    let chars: Vec<char> = text::chars_of(value);
    let mut out = String::new();
    let mut i: usize = 0;
    assert(out@ =~= chars@.take(0));
    while i < chars.len()
        invariant_except_break
            i <= chars.len(),
            chars@ == value@,
            out@ == chars@.take(i as int),
            forall|j: int|
                0 <= j < i ==> width::text_columns(#[trigger] chars@.take(j)) + width::cells(
                    chars@[j],
                ) < budget,
        ensures
            cut_at(value@, budget as int, i as int),
            out@ == value@.take(i as int),
        decreases chars.len() - i,
    {
        let used: usize = width::text_width(out.as_str());
        let more: usize = width::char_cells(chars[i]);
        if used >= budget || more >= budget - used {
            break;
        }
        out.push(chars[i]);
        assert(chars@.take(i + 1) =~= chars@.take(i as int).push(chars@[i as int]));
        i += 1;
    }
    out.push('…');
    out
}

/// How many rows stand for items.
pub open spec fn count_items(rows: Seq<PickerRow>) -> nat
    decreases rows.len(),
{
    if rows.len() == 0 {
        0
    } else {
        count_items(rows.drop_last()) + if rows.last().item_index is Some {
            1nat
        } else {
            0nat
        }
    }
}

/// The footer of a picker: the given text and, if there are rows, the position of the
/// selection.
pub fn footer_text(footer: &str, rows: &[PickerRow], selected: usize) -> (r: String)
    requires
        rows@.len() <= u64::MAX,
    ensures
        rows@.len() == 0 ==> r@ == footer@,
        rows@.len() > 0 ==> r@ == footer@ + "  ·  "@ + text::decimal(
            geometry::min(
                geometry::min(selected + 1, usize::MAX as int),
                count_items(rows@) as int,
            ) as nat,
        ) + "/"@ + text::decimal(count_items(rows@)),
{
    if rows.len() == 0 {
        return footer.to_owned();
    }
    let mut count: usize = 0;
    let mut i: usize = 0;
    while i < rows.len()
        invariant
            i <= rows.len(),
            count <= i,
            count == count_items(rows@.take(i as int)),
        decreases rows.len() - i,
    {
        let ghost part = rows@.take(i + 1);
        assert(part.drop_last() =~= rows@.take(i as int));
        assert(part.last() == rows@[i as int]);
        if rows[i].item_index.is_some() {
            count += 1;
        }
        i += 1;
    }
    assert(rows@.take(rows@.len() as int) =~= rows@);
    let place: usize = geometry::smaller(selected.saturating_add(1), count);
    let head: String = text::joined3(footer, "  ·  ", text::decimal_text(place as u64).as_str());
    text::joined3(head.as_str(), "/", text::decimal_text(count as u64).as_str())
}

/// The parts of a row, from left to right; `gap` blanks stand before the suffix.
#[derive(Clone, Debug)]
pub struct RowTexts {
    pub left: String,
    pub description: String,
    pub gap: usize,
    pub suffix: String,
}

/// A text made of `n` blanks.
pub open spec fn blanks(n: int) -> Seq<char> {
    Seq::new(n as nat, |i: int| ' ')
}

/// A text with `n` blanks behind it.
pub fn add_blanks(s: &mut String, n: usize)
    ensures
        final(s)@ == old(s)@ + blanks(n as int),
{
    let ghost before = s@;
    let mut i: usize = 0;
    assert(s@ =~= before + blanks(0));
    while i < n
        invariant
            i <= n,
            s@ == before + blanks(i as int),
        decreases n - i,
    {
        s.push(' ');
        assert(s@ =~= before + blanks(i + 1));
        i += 1;
    }
}

/// The text before the description of a row, without blanks behind it.
pub open spec fn row_head(row: PickerRow, selected: bool) -> Seq<char> {
    (if selected { "❯ "@ } else { "  "@ }) + (match row.checked {
        Some(true) => "[✓] "@,
        Some(false) => "[ ] "@,
        None => Seq::empty(),
    }) + row.label@
}

/// The text at the right end of a row.
pub open spec fn row_suffix(row: PickerRow) -> Seq<char> {
    if row.current {
        "✓ current"@
    } else {
        row.right@
    }
}

/// The column in which the descriptions of rows start.
pub open spec fn description_column(row: PickerRow, label_width: int) -> int {
    4 + label_width + if row.checked is Some { 4int } else { 0int }
}

/// The parts of an item's row in a picker of `columns` columns, in which the labels of the
/// visible rows take `label_width` columns.
pub fn row_texts(row: &PickerRow, selected: bool, label_width: usize, columns: u16) -> (r: RowTexts)
    requires
        label_width <= u16::MAX,
    ensures
        ({
            let head = row_head(*row, selected);
            let target = description_column(*row, label_width as int);
            let left = head + blanks(
                geometry::less(target, width::text_columns(head) as int),
            );
            let reserved = width::text_columns(row_suffix(*row)) + if row_suffix(*row).len() > 0 {
                2int
            } else {
                0int
            };
            let budget = geometry::less(
                columns as int,
                width::text_columns(left) + reserved + 2,
            );
            &&& r.left@ == left
            &&& r.suffix@ == row_suffix(*row)
            &&& shortened(row.description@, budget, r.description@)
            &&& r.gap == geometry::less(
                columns as int,
                width::text_columns(left) + width::text_columns(r.description@) + reserved,
            )
        }),
{
    let mut left: String = if selected {
        "❯ ".to_owned()
    } else {
        "  ".to_owned()
    };
    match row.checked {
        Some(true) => {
            left.append("[✓] ");
        },
        Some(false) => {
            left.append("[ ] ");
        },
        None => {},
    }
    left.append(row.label.as_str());
    assert(left@ =~= row_head(*row, selected));
    let target: usize = 4 + label_width + if row.checked.is_some() {
        4
    } else {
        0
    };
    let head_width: usize = width::text_width(left.as_str());
    add_blanks(&mut left, target.saturating_sub(head_width));
    let suffix: String = if row.current {
        "✓ current".to_owned()
    } else {
        row.right.clone()
    };
    let left_width: usize = width::text_width(left.as_str());
    let suffix_width: usize = width::text_width(suffix.as_str());
    let spacing: usize = if suffix.as_str().is_empty() {
        0
    } else {
        2
    };
    let reserved: usize = suffix_width.saturating_add(spacing);
    let budget: usize = (columns as usize).saturating_sub(
        left_width.saturating_add(reserved).saturating_add(2),
    );
    let description: String = truncate_width(row.description.as_str(), budget);
    let used: usize = left_width.saturating_add(
        width::text_width(description.as_str()),
    ).saturating_add(reserved);
    let gap: usize = (columns as usize).saturating_sub(used);
    RowTexts { left, description, gap, suffix }
}

/// The largest label width among the rows that are no headers.
pub open spec fn widest_label(rows: Seq<PickerRow>) -> int
    decreases rows.len(),
{
    if rows.len() == 0 {
        0
    } else {
        let rest = widest_label(rows.drop_last());
        if rows.last().header {
            rest
        } else {
            geometry::max(rest, width::text_columns(rows.last().label@) as int)
        }
    }
}

/// The columns that labels take in a picker of `columns` columns: as many as the widest one
/// needs, at most three fifths of the picker and 38.
pub fn label_columns(rows: &[PickerRow], columns: u16) -> (r: usize)
    ensures
        r == geometry::min(
            geometry::min(widest_label(rows@), columns as int * 3 / 5),
            38,
        ),
{
    let mut widest: usize = 0;
    let mut i: usize = 0;
    while i < rows.len()
        invariant
            i <= rows.len(),
            widest == widest_label(rows@.take(i as int)),
        decreases rows.len() - i,
    {
        let ghost part = rows@.take(i + 1);
        assert(part.drop_last() =~= rows@.take(i as int));
        assert(part.last() == rows@[i as int]);
        if !rows[i].header {
            widest = geometry::larger(widest, width::text_width(rows[i].label.as_str()));
        }
        i += 1;
    }
    assert(rows@.take(rows@.len() as int) =~= rows@);
    geometry::smaller(geometry::smaller(widest, columns as usize * 3 / 5), 38)
}

/// How many dashes follow a header's label in a picker of `columns` columns.
pub fn header_dashes(label: &str, columns: u16) -> (r: usize)
    ensures
        r == geometry::less(columns as int, width::text_columns(label@) as int + 5),
{
    (columns as usize).saturating_sub(width::text_width(label).saturating_add(5))
}

/// As many items are counted as rows can be chosen, and headings are not among them.
pub proof fn items_are_counted(rows: Seq<PickerRow>, row: PickerRow)
    ensures
        count_items(rows.push(row)) == count_items(rows) + if row.item_index is Some {
            1int
        } else {
            0
        },
        count_items(rows) <= rows.len(),
        count_items(Seq::<PickerRow>::empty()) == 0,
    decreases rows.len(),
{
    assert(rows.push(row).drop_last() =~= rows);
    if rows.len() > 0 {
        items_are_counted(rows.drop_last(), rows.last());
    }
}

/// No label is wider than the widest, and where there is a label at all, one is as wide.
pub proof fn labels_have_room(rows: Seq<PickerRow>, k: int) -> (at: int)
    requires
        0 <= k < rows.len(),
        !rows[k].header,
    ensures
        width::text_columns(rows[k].label@) <= widest_label(rows),
        0 <= at < rows.len(),
        !rows[at].header,
        width::text_columns(rows[at].label@) == widest_label(rows),
    decreases rows.len(),
{
    let front = rows.drop_last();
    let last = rows.len() - 1;
    if exists|j: int| 0 <= j < front.len() && !(#[trigger] front[j]).header {
        let j = choose|j: int| 0 <= j < front.len() && !(#[trigger] front[j]).header;
        let at = labels_have_room(front, if k < last {
            k
        } else {
            j
        });
        if !rows.last().header && width::text_columns(rows.last().label@) >= widest_label(front) {
            last
        } else {
            at
        }
    } else {
        assert(k == last) by {
            if k < last {
                assert(front[k] == rows[k]);
            }
        }
        headings_are_not_measured(front);
        last
    }
}

proof fn headings_are_not_measured(rows: Seq<PickerRow>)
    requires
        forall|j: int| 0 <= j < rows.len() ==> (#[trigger] rows[j]).header,
    ensures
        widest_label(rows) == 0,
    decreases rows.len(),
{
    if rows.len() > 0 {
        assert(rows[rows.len() - 1].header);
        assert forall|j: int| 0 <= j < rows.drop_last().len() implies (
        #[trigger] rows.drop_last()[j]).header by {
            assert(rows[j].header);
        }
        headings_are_not_measured(rows.drop_last());
    }
}

} // verus!
