//! What holds of drawn Markdown, whatever the text.

use vstd::prelude::*;

use crate::markdown;
use crate::markdown::Page;
use crate::markdown::Reading;
use crate::markdown_events::EventKind;
use crate::markdown_events::EventView;
use crate::markdown_events::TagKind;
use crate::picker;
use crate::styled;
use crate::styled::Face;
use crate::styled::Paint;
use crate::styled::SpanView;
use crate::text;
use crate::width;
use crate::wrap;

verus! {

broadcast use vstd::string::group_string_axioms;

/// Whether an event only adds to the text of a line: words, code, a formula, a break that is
/// a blank, or the marks around such things.
pub open spec fn inline(e: EventView) -> bool {
    match e.kind {
        EventKind::Text => true,
        EventKind::Code => true,
        EventKind::InlineMath => true,
        EventKind::SoftBreak => true,
        EventKind::Html => true,
        EventKind::InlineHtml => true,
        EventKind::Footnote => true,
        EventKind::Start => e.tag is Emphasis || e.tag is Strong || e.tag is Strikethrough || e.tag
            is Link || e.tag is Image,
        EventKind::End => e.tag is Emphasis || e.tag is Strong || e.tag is Strikethrough || e.tag
            is Link || e.tag is Image,
        _ => false,
    }
}

/// Whether events are those of one item of a list: its beginning, text, and its end.
pub open spec fn is_item(events: Seq<EventView>) -> bool {
    &&& events.len() >= 2
    &&& events[0].kind is Start
    &&& events[0].tag is Item
    &&& events.last().kind is End
    &&& events.last().tag is Item
    &&& forall|i: int| 0 < i < events.len() - 1 ==> inline(#[trigger] events[i])
}

/// The events of some items, one after the other.
pub open spec fn in_a_row(items: Seq<Seq<EventView>>) -> Seq<EventView>
    decreases items.len(),
{
    if items.len() == 0 {
        Seq::empty()
    } else {
        in_a_row(items.drop_last()) + items.last()
    }
}

/// Whether a page is inside neither code nor a table.
pub open spec fn in_the_open(p: Page) -> bool {
    p.code is None && p.table is None
}

/// A page after an event, and after some events.
#[verifier::opaque]
spec fn step(p: Page, e: EventView, columns: int) -> Page {
    markdown::after_event(p, e, columns)
}

#[verifier::opaque]
spec fn page(events: Seq<EventView>, columns: int) -> Page
    decreases events.len(),
{
    if events.len() == 0 {
        markdown::blank_page()
    } else {
        step(page(events.drop_last(), columns), events.last(), columns)
    }
}

proof fn pages_are_pages(events: Seq<EventView>, columns: int)
    ensures
        page(events, columns) == markdown::after_events(events, columns),
    decreases events.len(),
{
    reveal(page);
    reveal(step);
    if events.len() > 0 {
        pages_are_pages(events.drop_last(), columns);
    }
}

proof fn one_more(events: Seq<EventView>, e: EventView, columns: int)
    ensures
        page(events.push(e), columns) == step(page(events, columns), e, columns),
{
    reveal(page);
    assert(events.push(e).drop_last() =~= events);
}

/// Whether a page has the lines, the lists and the marks of another one, in the open.
spec fn same_block(p: Page, q: Page) -> bool {
    &&& in_the_open(q)
    &&& q.lines == p.lines
    &&& q.lists == p.lists
    &&& q.prefix == p.prefix
    &&& q.depth == p.depth
}

proof fn inline_keeps(p: Page, e: EventView, columns: int)
    requires
        in_the_open(p),
        inline(e),
    ensures
        same_block(p, step(p, e, columns)),
{
    reveal(step);
}

proof fn items_begin(p: Page, e: EventView, columns: int)
    requires
        in_the_open(p),
        e.kind is Start,
        e.tag is Item,
    ensures
        step(p, e, columns) == (Page {
            prefix: Some(markdown::item_prefix(p.lists)),
            lists: markdown::counted(p.lists),
            ..p
        }),
{
    reveal(step);
}

proof fn items_end(p: Page, e: EventView, columns: int)
    requires
        in_the_open(p),
        e.kind is End,
        e.tag is Item,
    ensures
        step(p, e, columns) == markdown::flushed(p, columns),
{
    reveal(step);
}

proof fn lists_begin(p: Page, e: EventView, columns: int)
    requires
        in_the_open(p),
        e.kind is Start,
        e.tag is List,
    ensures
        step(p, e, columns) == (Page { lists: p.lists.push(e.number), ..p }),
{
    reveal(step);
}

proof fn lists_end(p: Page, e: EventView, columns: int)
    requires
        in_the_open(p),
        e.kind is End,
        e.tag is List,
        p.lists.len() > 0,
    ensures
        step(p, e, columns).lists == p.lists.drop_last(),
{
    reveal(step);
}

proof fn inlines_keep(events: Seq<EventView>, body: Seq<EventView>, columns: int)
    requires
        in_the_open(page(events, columns)),
        forall|i: int| 0 <= i < body.len() ==> inline(#[trigger] body[i]),
    ensures
        same_block(page(events, columns), page(events + body, columns)),
    decreases body.len(),
{
    if body.len() == 0 {
        assert(events + body =~= events);
    } else {
        let front = body.drop_last();
        assert forall|i: int| 0 <= i < front.len() implies inline(#[trigger] front[i]) by {
            assert(front[i] == body[i]);
        }
        inlines_keep(events, front, columns);
        assert(events + body =~= (events + front).push(body.last()));
        one_more(events + front, body.last(), columns);
        assert(inline(body[body.len() - 1]));
        inline_keeps(page(events + front, columns), body.last(), columns);
    }
}

proof fn wrapping_gives_a_line(s: Seq<char>, columns: int)
    ensures
        wrap::wrapped(s, columns).len() > 0,
{
}

proof fn first_line_begins(p: Page, columns: int)
    ensures
        text::begins_with(
            styled::line_text(markdown::paragraph_line(p, columns, 0)),
            markdown::quote_marks(p.depth) + markdown::prefix_of(p),
        ),
{
    let plain = styled::line_text(p.current);
    let words = wrap::wrapped(plain, markdown::room_of(p, columns))[0];
    let marks = markdown::quote_marks(p.depth);
    let prefix = markdown::prefix_of(p);
    let first = markdown::unless_empty(marks, marks, Face::of(Paint::Subtle));
    let second = markdown::unless_empty(prefix, prefix, Face::of(Paint::Accent));
    let third = if words == plain {
        p.current
    } else {
        styled::one_span(words, p.face)
    };
    styled::one_span_text(marks, Face::of(Paint::Subtle));
    styled::one_span_text(prefix, Face::of(Paint::Accent));
    styled::line_text_joins(first + second, third);
    styled::line_text_joins(first, second);
    assert(styled::line_text(first) =~= marks);
    assert(styled::line_text(second) =~= prefix);
    let all = styled::line_text(markdown::paragraph_line(p, columns, 0));
    assert(all == marks + prefix + styled::line_text(third));
    assert(all.subrange(0, (marks + prefix).len() as int) =~= marks + prefix);
}

/// Whether a page goes on from another with at least one line, and the first new line begins
/// with some text.
pub open spec fn goes_on_with(p: Page, q: Page, start: Seq<char>) -> bool {
    &&& q.lines.len() > p.lines.len()
    &&& q.lines.take(p.lines.len() as int) == p.lines
    &&& text::begins_with(styled::line_text(q.lines[p.lines.len() as int]), start)
}

proof fn open_items_are_drawn(p: Page, columns: int)
    requires
        p.prefix is Some,
    ensures
        ({
            let q = markdown::flushed(p, columns);
            &&& in_the_open(p) ==> in_the_open(q)
            &&& q.lists == p.lists
            &&& q.depth == p.depth
            &&& goes_on_with(p, q, markdown::quote_marks(p.depth) + p.prefix->0)
        }),
{
    let q = markdown::flushed(p, columns);
    wrapping_gives_a_line(styled::line_text(p.current), markdown::room_of(p, columns));
    first_line_begins(p, columns);
    assert(q.lines.take(p.lines.len() as int) =~= p.lines);
    assert(q.lines[p.lines.len() as int] == markdown::paragraph_line(p, columns, 0));
}

proof fn item_is_drawn(events: Seq<EventView>, item: Seq<EventView>, columns: int)
    requires
        in_the_open(page(events, columns)),
        is_item(item),
    ensures
        ({
            let p = page(events, columns);
            let q = page(events + item, columns);
            &&& in_the_open(q)
            &&& q.lists == markdown::counted(p.lists)
            &&& q.depth == p.depth
            &&& goes_on_with(
                p,
                q,
                markdown::quote_marks(p.depth) + markdown::item_prefix(p.lists),
            )
        }),
{
    let p = page(events, columns);
    let body = item.subrange(1, item.len() - 1);
    let begun = events.push(item[0]);
    one_more(events, item[0], columns);
    items_begin(p, item[0], columns);
    assert forall|i: int| 0 <= i < body.len() implies inline(#[trigger] body[i]) by {
        assert(body[i] == item[i + 1]);
    }
    inlines_keep(begun, body, columns);
    let c = page(begun + body, columns);
    assert(events + item =~= (begun + body).push(item.last()));
    one_more(begun + body, item.last(), columns);
    items_end(c, item.last(), columns);
    open_items_are_drawn(c, columns);
}

proof fn items_leave_the_list(
    before: Seq<EventView>,
    start: EventView,
    items: Seq<Seq<EventView>>,
    columns: int,
)
    requires
        in_the_open(page(before, columns)),
        start.kind is Start,
        start.tag is List,
        forall|i: int| 0 <= i < items.len() ==> is_item(#[trigger] items[i]),
        start.number matches Some(n) ==> n + items.len() <= u64::MAX,
    ensures
        ({
            let p = page(before, columns);
            let q = page(before.push(start) + in_a_row(items), columns);
            &&& in_the_open(q)
            &&& q.depth == p.depth
            &&& q.lists == p.lists.push(
                match start.number {
                    Some(n) => Some((n + items.len()) as u64),
                    None => None,
                },
            )
        }),
    decreases items.len(),
{
    let p = page(before, columns);
    let events = before.push(start);
    one_more(before, start, columns);
    lists_begin(p, start, columns);
    if items.len() == 0 {
        assert(events + in_a_row(items) =~= events);
    } else {
        let front = items.drop_last();
        assert forall|i: int| 0 <= i < front.len() implies is_item(#[trigger] front[i]) by {
            assert(front[i] == items[i]);
        }
        items_leave_the_list(before, start, front, columns);
        assert(is_item(items[items.len() - 1]));
        let middle = events + in_a_row(front);
        item_is_drawn(middle, items.last(), columns);
        assert(middle + items.last() =~= events + in_a_row(items));
        let q = page(events + in_a_row(items), columns);
        assert(q.lists =~= p.lists.push(
            match start.number {
                Some(n) => Some((n + items.len()) as u64),
                None => None,
            },
        ));
    }
}

proof fn numbered_prefix(lists: Seq<Option<u64>>, m: u64)
    ensures
        markdown::item_prefix(lists.push(Some(m))) == picker::blanks(2 * lists.len() as int)
            + text::decimal(m as nat) + seq!['.', ' '],
        markdown::item_prefix(lists.push(None)) == picker::blanks(2 * lists.len() as int) + seq![
            '•',
            ' ',
        ],
{
    reveal_strlit(". ");
    reveal_strlit("• ");
    assert(". "@ =~= seq!['.', ' ']);
    assert("• "@ =~= seq!['•', ' ']);
    assert(lists.push(Some(m)).last() == Some(m));
    assert(markdown::item_prefix(lists.push(Some(m))) =~= picker::blanks(2 * lists.len() as int)
        + text::decimal(m as nat) + seq!['.', ' ']);
}

proof fn kth_item_is_drawn(
    before: Seq<EventView>,
    start: EventView,
    items: Seq<Seq<EventView>>,
    columns: int,
    k: int,
)
    requires
        in_the_open(page(before, columns)),
        start.kind is Start,
        start.tag is List,
        forall|i: int| 0 <= i < items.len() ==> is_item(#[trigger] items[i]),
        0 <= k < items.len(),
        start.number matches Some(n) ==> n + k <= u64::MAX,
    ensures
        ({
            let around = page(before, columns);
            let number = match start.number {
                Some(n) => Some((n + k) as u64),
                None => None,
            };
            goes_on_with(
                page(before.push(start) + in_a_row(items.take(k)), columns),
                page(before.push(start) + in_a_row(items.take(k + 1)), columns),
                markdown::quote_marks(around.depth) + markdown::item_prefix(
                    around.lists.push(number),
                ),
            )
        }),
{
    let some = items.take(k);
    assert forall|i: int| 0 <= i < some.len() implies is_item(#[trigger] some[i]) by {
        assert(some[i] == items[i]);
    }
    items_leave_the_list(before, start, some, columns);
    let events = before.push(start) + in_a_row(some);
    assert(is_item(items[k]));
    item_is_drawn(events, items[k], columns);
    let more = items.take(k + 1);
    assert(more.drop_last() =~= some);
    assert(more.last() == items[k]);
    assert(before.push(start) + in_a_row(more) =~= events + items[k]);
}

proof fn kth_number_is_drawn(
    before: Seq<EventView>,
    start: EventView,
    items: Seq<Seq<EventView>>,
    columns: int,
    k: int,
)
    requires
        in_the_open(page(before, columns)),
        start.kind is Start,
        start.tag is List,
        forall|i: int| 0 <= i < items.len() ==> is_item(#[trigger] items[i]),
        0 <= k < items.len(),
        start.number matches Some(n) ==> n + k <= u64::MAX,
    ensures
        ({
            let around = page(before, columns);
            let marks = markdown::quote_marks(around.depth);
            let blanks = picker::blanks(2 * around.lists.len() as int);
            goes_on_with(
                page(before.push(start) + in_a_row(items.take(k)), columns),
                page(before.push(start) + in_a_row(items.take(k + 1)), columns),
                match start.number {
                    Some(n) => marks + blanks + text::decimal((n + k) as nat) + seq!['.', ' '],
                    None => marks + blanks + seq!['•', ' '],
                },
            )
        }),
{
    let around = page(before, columns);
    let marks = markdown::quote_marks(around.depth);
    let blanks = picker::blanks(2 * around.lists.len() as int);
    kth_item_is_drawn(before, start, items, columns, k);
    match start.number {
        Some(n) => {
            numbered_prefix(around.lists, (n + k) as u64);
            assert(marks + (blanks + text::decimal((n + k) as nat) + seq!['.', ' ']) =~= marks
                + blanks + text::decimal((n + k) as nat) + seq!['.', ' ']);
        },
        None => {
            numbered_prefix(around.lists, 0);
            assert(marks + (blanks + seq!['•', ' ']) =~= marks + blanks + seq!['•', ' ']);
        },
    }
}

/// The items of an ordered list are counted: the first has the number that the list begins
/// with, and each has one more than the one before it. The number stands at the beginning of
/// the item's first line, behind the marks of the quotations and two blanks for each list
/// around this one.
pub proof fn ordered_items_count_on(
    before: Seq<EventView>,
    start: EventView,
    items: Seq<Seq<EventView>>,
    columns: int,
    n: u64,
    k: int,
)
    requires
        in_the_open(markdown::after_events(before, columns)),
        start.kind is Start,
        start.tag is List,
        start.number == Some(n),
        forall|i: int| 0 <= i < items.len() ==> is_item(#[trigger] items[i]),
        0 <= k < items.len(),
        n + k <= u64::MAX,
    ensures
        ({
            let around = markdown::after_events(before, columns);
            let p = markdown::after_events(before.push(start) + in_a_row(items.take(k)), columns);
            let q = markdown::after_events(
                before.push(start) + in_a_row(items.take(k + 1)),
                columns,
            );
            goes_on_with(
                p,
                q,
                markdown::quote_marks(around.depth) + picker::blanks(
                    2 * around.lists.len() as int,
                ) + text::decimal((n + k) as nat) + seq!['.', ' '],
            )
        }),
{
    pages_are_pages(before, columns);
    pages_are_pages(before.push(start) + in_a_row(items.take(k)), columns);
    pages_are_pages(before.push(start) + in_a_row(items.take(k + 1)), columns);
    kth_number_is_drawn(before, start, items, columns, k);
}

/// No two items of an ordered list have the same number.
pub proof fn items_have_different_numbers(n: nat, j: nat, k: nat)
    requires
        j != k,
    ensures
        text::decimal(n + j) != text::decimal(n + k),
{
    if text::decimal(n + j) == text::decimal(n + k) {
        text::decimal_is_injective(n + j, n + k);
    }
}

/// Every item of a list without numbers has a bullet, two blanks further in for each list
/// around this one.
pub proof fn other_items_have_a_bullet(
    before: Seq<EventView>,
    start: EventView,
    items: Seq<Seq<EventView>>,
    columns: int,
    k: int,
)
    requires
        in_the_open(markdown::after_events(before, columns)),
        start.kind is Start,
        start.tag is List,
        start.number is None,
        forall|i: int| 0 <= i < items.len() ==> is_item(#[trigger] items[i]),
        0 <= k < items.len(),
    ensures
        ({
            let around = markdown::after_events(before, columns);
            let p = markdown::after_events(before.push(start) + in_a_row(items.take(k)), columns);
            let q = markdown::after_events(
                before.push(start) + in_a_row(items.take(k + 1)),
                columns,
            );
            goes_on_with(
                p,
                q,
                markdown::quote_marks(around.depth) + picker::blanks(
                    2 * around.lists.len() as int,
                ) + seq!['•', ' '],
            )
        }),
{
    pages_are_pages(before, columns);
    pages_are_pages(before.push(start) + in_a_row(items.take(k)), columns);
    pages_are_pages(before.push(start) + in_a_row(items.take(k + 1)), columns);
    kth_number_is_drawn(before, start, items, columns, k);
}

/// A list that ends leaves the lists around it as they were, so that they count on.
pub proof fn inner_lists_leave_the_outer_ones(
    before: Seq<EventView>,
    start: EventView,
    items: Seq<Seq<EventView>>,
    end: EventView,
    columns: int,
)
    requires
        in_the_open(markdown::after_events(before, columns)),
        start.kind is Start,
        start.tag is List,
        forall|i: int| 0 <= i < items.len() ==> is_item(#[trigger] items[i]),
        start.number matches Some(n) ==> n + items.len() <= u64::MAX,
        end.kind is End,
        end.tag is List,
    ensures
        markdown::after_events(
            (before.push(start) + in_a_row(items)).push(end),
            columns,
        ).lists == markdown::after_events(before, columns).lists,
{
    let events = before.push(start) + in_a_row(items);
    pages_are_pages(before, columns);
    pages_are_pages(events.push(end), columns);
    items_leave_the_list(before, start, items, columns);
    one_more(events, end, columns);
    lists_end(page(events, columns), end, columns);
    assert(page(events, columns).lists.drop_last() =~= page(before, columns).lists);
}

/// Text is kept as it is, and added to the line behind what is there.
pub proof fn text_is_added_to_the_line(p: Page, e: EventView, columns: int)
    requires
        in_the_open(p),
        e.kind is Text || e.kind is Code || e.kind is Html || e.kind is InlineHtml,
    ensures
        styled::line_text(markdown::after_event(p, e, columns).current) == styled::line_text(
            p.current,
        ) + e.text,
{
    if e.text.len() == 0 {
        assert(styled::line_text(p.current) + e.text =~= styled::line_text(p.current));
    } else {
        let q = markdown::after_event(p, e, columns);
        assert(q.current.drop_last() =~= p.current);
    }
}

/// A soft break is a blank; formulas and footnotes stand between their marks.
pub proof fn marked_text_is_added_to_the_line(p: Page, e: EventView, columns: int)
    requires
        in_the_open(p),
        e.kind is SoftBreak || e.kind is InlineMath || e.kind is Footnote,
    ensures
        styled::line_text(markdown::after_event(p, e, columns).current) == styled::line_text(
            p.current,
        ) + (match e.kind {
            EventKind::SoftBreak => seq![' '],
            EventKind::InlineMath => seq!['$'] + e.text + seq!['$'],
            _ => seq!['[', '^'] + e.text + seq![']'],
        }),
{
    reveal_strlit(" ");
    reveal_strlit("$");
    reveal_strlit("[^");
    reveal_strlit("]");
    assert(" "@ =~= seq![' ']);
    assert("$"@ =~= seq!['$']);
    assert("[^"@ =~= seq!['[', '^']);
    assert("]"@ =~= seq![']']);
    let q = markdown::after_event(p, e, columns);
    assert(q.current.drop_last() =~= p.current);
}

/// Whether something changes how text looks.
spec fn marks_text(tag: TagKind) -> bool {
    tag is Strong || tag is Emphasis || tag is Strikethrough || tag is Link || tag is Heading
}

/// How text looks behind the beginning of a mark.
spec fn marked_face(face: Face, tag: TagKind) -> Face {
    Face {
        bold: face.bold || tag is Strong || tag is Heading,
        italic: face.italic || tag is Emphasis,
        crossed: face.crossed || tag is Strikethrough,
        underlined: face.underlined || tag is Link,
        paint: if tag is Link {
            Paint::Accent
        } else {
            face.paint
        },
        ..face
    }
}

proof fn marks_begin(p: Page, e: EventView, columns: int)
    requires
        in_the_open(p),
        e.kind is Start,
        marks_text(e.tag),
    ensures
        ({
            let q = step(p, e, columns);
            &&& in_the_open(q)
            &&& q.face == marked_face(p.face, e.tag)
            &&& q.faces == p.faces.push(p.face)
            &&& q.links == (if e.tag is Link {
                p.links.push(e.text)
            } else {
                p.links
            })
            &&& !(e.tag is Heading) ==> q.current == p.current
        }),
{
    reveal(step);
}

proof fn marks_finish(p: Page, e: EventView, columns: int)
    requires
        in_the_open(p),
        e.kind is End,
        marks_text(e.tag),
        p.faces.len() > 0,
        e.tag is Link ==> p.links.len() > 0,
    ensures
        ({
            let q = step(p, e, columns);
            &&& q.face == p.faces.last()
            &&& q.faces == p.faces.drop_last()
            &&& q.links == (if e.tag is Link {
                p.links.drop_last()
            } else {
                p.links
            })
            &&& e.tag is Link ==> q.current == p.current.push(
                SpanView { text: " ("@ + p.links.last() + ")"@, face: Face::of(Paint::Muted) },
            )
        }),
{
    reveal(step);
    reveal_strlit(" (");
    assert(" ("@.len() == 2);
}

proof fn words_are_said(p: Page, e: EventView, columns: int)
    requires
        in_the_open(p),
        e.kind is Text || e.kind is Code,
        e.text.len() > 0,
    ensures
        step(p, e, columns).current == p.current.push(
            SpanView {
                text: e.text,
                face: if e.kind is Code {
                    Face { paint: Paint::Code, on_code: true, ..p.face }
                } else {
                    p.face
                },
            },
        ),
{
    reveal(step);
}

proof fn two_steps(p: Page, a: EventView, b: EventView, columns: int)
    ensures
        step(step(p, a, columns), b, columns) == markdown::after_event(
            markdown::after_event(p, a, columns),
            b,
            columns,
        ),
{
    reveal(step);
}

/// Text between marks looks as they say: strong text and titles are bold, emphasis is in
/// italics, struck text is crossed out, links are underlined, and code stands on the ground
/// of code. What it looked like around them is kept.
pub proof fn text_looks_as_its_marks_say(p: Page, mark: EventView, e: EventView, columns: int)
    requires
        in_the_open(p),
        mark.kind is Start,
        mark.tag is Strong || mark.tag is Emphasis || mark.tag is Strikethrough || mark.tag is Link
            || mark.tag is Heading,
        e.kind is Text || e.kind is Code,
        e.text.len() > 0,
    ensures
        ({
            let q = markdown::after_event(markdown::after_event(p, mark, columns), e, columns);
            let face = q.current.last().face;
            &&& q.current.len() > 0
            &&& q.current.last().text == e.text
            &&& face.bold == (p.face.bold || mark.tag is Strong || mark.tag is Heading)
            &&& face.italic == (p.face.italic || mark.tag is Emphasis)
            &&& face.crossed == (p.face.crossed || mark.tag is Strikethrough)
            &&& face.underlined == (p.face.underlined || mark.tag is Link)
            &&& face.on_code == (p.face.on_code || e.kind is Code)
            &&& face.paint == (if e.kind is Code {
                Paint::Code
            } else if mark.tag is Link {
                Paint::Accent
            } else {
                p.face.paint
            })
        }),
{
    two_steps(p, mark, e, columns);
    marks_begin(p, mark, columns);
    words_are_said(step(p, mark, columns), e, columns);
}

/// Behind the end of a mark, text looks as it did before its beginning.
pub proof fn marks_end_where_they_end(
    p: Page,
    tag: TagKind,
    start: EventView,
    end: EventView,
    columns: int,
)
    requires
        in_the_open(p),
        start.kind is Start,
        end.kind is End,
        start.tag == tag,
        end.tag == tag,
        tag is Strong || tag is Emphasis || tag is Strikethrough || tag is Link || tag is Heading,
    ensures
        ({
            let q = markdown::after_event(markdown::after_event(p, start, columns), end, columns);
            q.face == p.face && q.faces == p.faces && q.links == p.links
        }),
{
    let m = step(p, start, columns);
    two_steps(p, start, end, columns);
    marks_begin(p, start, columns);
    marks_finish(m, end, columns);
    assert(m.faces.drop_last() =~= p.faces);
    assert(tag is Link ==> m.links.drop_last() =~= p.links);
}

/// A link is followed by its address in brackets.
pub proof fn links_show_their_address(p: Page, start: EventView, end: EventView, columns: int)
    requires
        in_the_open(p),
        start.kind is Start,
        end.kind is End,
        start.tag is Link,
        end.tag is Link,
    ensures
        styled::line_text(
            markdown::after_event(markdown::after_event(p, start, columns), end, columns).current,
        ) == styled::line_text(p.current) + seq![' ', '('] + start.text + seq![')'],
{
    reveal_strlit(" (");
    reveal_strlit(")");
    assert(" ("@ =~= seq![' ', '(']);
    assert(")"@ =~= seq![')']);
    let m = step(p, start, columns);
    let q = step(m, end, columns);
    two_steps(p, start, end, columns);
    marks_begin(p, start, columns);
    marks_finish(m, end, columns);
    assert(q.current.drop_last() =~= p.current);
    assert(styled::line_text(q.current) =~= styled::line_text(p.current) + seq![' ', '(']
        + start.text + seq![')']);
}

proof fn images_open(p: Page, start: EventView, columns: int)
    requires
        in_the_open(p),
        start.kind is Start,
        start.tag is Image,
    ensures
        ({
            let q = markdown::after_event(p, start, columns);
            &&& in_the_open(q)
            &&& q.links == p.links.push(start.text)
            &&& styled::line_text(q.current) == styled::line_text(p.current) + "[image: "@
        }),
{
    reveal_strlit("[image: ");
    assert("[image: "@.len() == 8);
    let q = markdown::after_event(p, start, columns);
    assert(q.current.drop_last() =~= p.current);
}

proof fn images_close(p: Page, end: EventView, columns: int)
    requires
        in_the_open(p),
        end.kind is End,
        end.tag is Image,
        p.links.len() > 0,
    ensures
        styled::line_text(markdown::after_event(p, end, columns).current) == styled::line_text(
            p.current,
        ) + ("] ("@ + p.links.last() + ")"@),
{
    reveal_strlit("] (");
    assert("] ("@.len() == 3);
    let q = markdown::after_event(p, end, columns);
    assert(q.current.drop_last() =~= p.current);
}

/// An image is shown by its description and its address.
pub proof fn images_show_their_address(
    p: Page,
    start: EventView,
    words: EventView,
    end: EventView,
    columns: int,
)
    requires
        in_the_open(p),
        start.kind is Start,
        words.kind is Text,
        end.kind is End,
        start.tag is Image,
        end.tag is Image,
    ensures
        styled::line_text(
            markdown::after_event(
                markdown::after_event(markdown::after_event(p, start, columns), words, columns),
                end,
                columns,
            ).current,
        ) == styled::line_text(p.current) + "[image: "@ + words.text + ("] ("@ + start.text + ")"@),
{
    let m = markdown::after_event(p, start, columns);
    let n = markdown::after_event(m, words, columns);
    images_open(p, start, columns);
    text_is_added_to_the_line(m, words, columns);
    assert(in_the_open(n) && n.links == m.links);
    images_close(n, end, columns);
}

/// The lines of a paragraph in a quotation begin with one mark for each quotation.
pub proof fn quotations_are_marked(p: Page, e: EventView, columns: int)
    requires
        in_the_open(p),
        e.kind is Start,
        e.tag is BlockQuote,
        0 <= p.depth < usize::MAX,
    ensures
        markdown::quote_marks(markdown::after_event(p, e, columns).depth)
            == markdown::quote_marks(p.depth) + seq!['│', ' '],
{
    reveal_strlit("│ ");
    assert("│ "@ =~= seq!['│', ' ']);
}

/// Behind the end of a quotation, text is quoted as before.
pub proof fn quotations_end_where_they_end(p: Page, start: EventView, end: EventView, columns: int)
    requires
        in_the_open(p),
        start.kind is Start,
        end.kind is End,
        start.tag is BlockQuote,
        end.tag is BlockQuote,
        0 <= p.depth < usize::MAX,
    ensures
        markdown::after_event(markdown::after_event(p, start, columns), end, columns).depth
            == p.depth,
        markdown::quote_marks(0).len() == 0,
{
}

/// A task is shown by a box in front of its text, ticked where the task is done.
pub proof fn tasks_show_their_box(p: Page, checked: bool, e: EventView, columns: int)
    requires
        in_the_open(p),
        e.kind == EventKind::Task(checked),
    ensures
        markdown::after_event(p, e, columns).prefix == Some(
            if checked {
                seq!['☑', ' ']
            } else {
                seq!['☐', ' ']
            },
        ),
{
    reveal_strlit("☑ ");
    reveal_strlit("☐ ");
    assert("☑ "@ =~= seq!['☑', ' ']);
    assert("☐ "@ =~= seq!['☐', ' ']);
}

/// A rule is a line of dashes as wide as the screen.
pub proof fn rules_are_as_wide_as_the_screen(p: Page, e: EventView, columns: int)
    requires
        in_the_open(p),
        e.kind is Rule,
        columns >= 0,
    ensures
        ({
            let line = styled::line_text(markdown::after_event(p, e, columns).lines.last());
            &&& line.len() == columns
            &&& forall|i: int| 0 <= i < line.len() ==> #[trigger] line[i] == '─'
        }),
{
    styled::one_span_text(styled::times('─', columns), Face::of(Paint::Subtle));
}

/// What ends a paragraph draws all of it: nothing is left of it, and the drawn lines have its
/// words and no others.
pub proof fn paragraphs_are_drawn_whole(p: Page, e: EventView, columns: int)
    requires
        in_the_open(p),
        p.current.len() > 0,
        (e.kind is End && (e.tag is Paragraph || e.tag is Item || e.tag is List || e.tag
            is BlockQuote)) || e.kind is HardBreak,
    ensures
        ({
            let q = markdown::after_event(p, e, columns);
            &&& q.current.len() == 0
            &&& q.prefix is None
            &&& q.lines.len() > p.lines.len()
            &&& q.lines.take(p.lines.len() as int) == p.lines
        }),
        e.kind is End && e.tag is Paragraph ==> markdown::after_event(
            p,
            e,
            columns,
        ).lines.last().len() == 0,
{
    let words = wrap::wrapped(styled::line_text(p.current), markdown::room_of(p, columns));
    wrapping_gives_a_line(styled::line_text(p.current), markdown::room_of(p, columns));
    let f = markdown::flushed(p, columns);
    assert(f.lines.take(p.lines.len() as int) =~= p.lines);
    let q = markdown::after_event(p, e, columns);
    assert(q.lines.take(p.lines.len() as int) =~= p.lines);
}

/// A line of a paragraph has its marks, its bullet or blanks as wide, and the words of the
/// wrapped text.
pub proof fn paragraph_lines_hold_the_words(p: Page, columns: int, i: int)
    requires
        0 <= i < wrap::wrapped(styled::line_text(p.current), markdown::room_of(p, columns)).len(),
    ensures
        markdown::paragraph_lines(p, columns).len() == wrap::wrapped(
            styled::line_text(p.current),
            markdown::room_of(p, columns),
        ).len(),
        text::finishes_with(
            styled::line_text(markdown::paragraph_lines(p, columns)[i]),
            wrap::wrapped(styled::line_text(p.current), markdown::room_of(p, columns))[i],
        ),
{
    let plain = styled::line_text(p.current);
    let words = wrap::wrapped(plain, markdown::room_of(p, columns))[i];
    let marks = markdown::quote_marks(p.depth);
    let prefix = markdown::prefix_of(p);
    let first = markdown::unless_empty(marks, marks, Face::of(Paint::Subtle));
    let second = markdown::unless_empty(
        prefix,
        if i == 0 {
            prefix
        } else {
            picker::blanks(width::text_columns(prefix) as int)
        },
        Face::of(Paint::Accent),
    );
    let third = if i == 0 && words == plain {
        p.current
    } else {
        styled::one_span(words, p.face)
    };
    styled::one_span_text(words, p.face);
    styled::line_text_joins(first + second, third);
    let all = styled::line_text(markdown::paragraph_line(p, columns, i));
    let front = styled::line_text(first + second);
    assert(all == front + words);
    assert(all.subrange(all.len() - words.len(), all.len() as int) =~= words);
}

/// The text of a block of code is kept as it is until the block ends.
pub proof fn code_is_kept(p: Page, info: Seq<char>, body: Seq<char>, e: EventView, columns: int)
    requires
        p.code == Some((info, body)),
    ensures
        ({
            let q = markdown::after_event(p, e, columns);
            &&& e.kind is Text || e.kind is Code ==> q.code == Some((info, body + e.text))
            &&& e.kind is SoftBreak || e.kind is HardBreak ==> q.code == Some(
                (info, body + seq!['\n']),
            )
            &&& e.kind is End && e.tag is CodeBlock ==> q.code is None && q.codes.len()
                == p.codes.len() + 1 && q.codes.last().info == info
            &&& !(e.kind is End && e.tag is CodeBlock) ==> q.lines == p.lines && q.codes == p.codes
        }),
{
    assert(body.push('\n') =~= body + seq!['\n']);
}

/// A block of code begins with the words behind its fence and no text.
pub proof fn code_begins_empty(p: Page, e: EventView, columns: int)
    requires
        in_the_open(p),
        e.kind is Start,
        e.tag is CodeBlock,
    ensures
        markdown::after_event(p, e, columns).code == Some((e.text, Seq::<char>::empty())),
{
}

/// Each line of a block of code that fits on the screen is drawn as one line, behind two
/// blanks and filled up to the width of the screen, on the ground of code.
pub proof fn code_lines_show_the_text(lines: Seq<Seq<char>>, columns: int, n: int, k: int)
    requires
        0 <= k < n <= lines.len(),
        columns > 2,
        forall|j: int|
            0 <= j < lines.len() ==> width::narrow(#[trigger] lines[j]) && lines[j].len()
                <= columns - 2,
    ensures
        markdown::code_lines(lines, columns, n).len() == n,
        styled::line_text(markdown::code_lines(lines, columns, n)[k]) == seq![' ', ' '] + lines[k]
            + picker::blanks(columns - 2 - lines[k].len()),
        markdown::code_lines(lines, columns, n)[k].last().face.on_code,
    decreases n,
{
    let line = lines[n - 1];
    let before = markdown::code_lines(lines, columns, n - 1);
    let all = markdown::code_lines(lines, columns, n);
    let pieces = wrap::chunks(line, columns - 2);
    let drawn = markdown::code_pieces(line, columns);
    assert(pieces =~= seq![line]);
    if n > 1 {
        code_lines_show_the_text(lines, columns, n - 1, 0);
    } else {
        assert(before.len() == 0);
    }
    if k < n - 1 {
        code_lines_show_the_text(lines, columns, n - 1, k);
        assert(all[k] == before[k]);
    } else {
        let words = "  "@ + line;
        reveal_strlit("  ");
        assert("  "@ =~= seq![' ', ' ']);
        assert(words =~= picker::blanks(2) + line);
        styled::blanks_in_front(2, line);
        width::narrow_is_as_wide(line);
        assert(all[k] == drawn[0]);
        styled::one_span_text(styled::filled_up(words, columns), markdown::code_face(Paint::Code));
        assert(styled::filled_up(words, columns) =~= seq![' ', ' '] + line + picker::blanks(
            columns - 2 - line.len(),
        ));
    }
}

/// A block of code is headed by the words behind its fence, or by the word "code".
pub proof fn code_is_headed_by_its_language(info: Seq<char>)
    ensures
        text::trim(info).len() > 0 ==> markdown::code_title(info) == seq![' '] + text::trim(info),
        text::trim(info).len() == 0 ==> markdown::code_title(info) == seq![
            ' ',
            'c',
            'o',
            'd',
            'e',
        ],
{
    reveal_strlit(" ");
    reveal_strlit("code");
    assert(" "@ =~= seq![' ']);
    assert(" "@ + "code"@ =~= seq![' ', 'c', 'o', 'd', 'e']);
}

/// Text, code and formulas in a table are added to the open cell, and the cells, rows and
/// the table end where they end.
pub proof fn tables_are_read_cell_by_cell(
    p: Page,
    t: markdown::TableView,
    e: EventView,
    columns: int,
)
    requires
        p.code is None,
        p.table == Some(t),
    ensures
        ({
            let q = markdown::after_event(p, e, columns);
            &&& e.kind is Text || e.kind is Code || e.kind is InlineMath || e.kind is Html || e.kind
                is InlineHtml ==> q.table is Some && q.table->0.cell == t.cell + e.text
                && q.table->0.row == t.row && q.table->0.rows == t.rows
            &&& e.kind is SoftBreak || e.kind is HardBreak ==> q.table is Some && q.table->0.cell
                == t.cell + seq![' ']
            &&& e.kind is End && e.tag is Cell ==> q.table is Some && q.table->0.row == t.row.push(
                t.cell,
            ) && q.table->0.cell.len() == 0
            &&& e.kind is End && (e.tag is Row || e.tag is Head) && t.row.len() > 0
                ==> q.table is Some && q.table->0.rows == t.rows.push(t.row)
                && q.table->0.row.len() == 0
            &&& e.kind is End && e.tag is Table ==> q.table is None
            &&& !(e.kind is End && e.tag is Table) ==> q.lines == p.lines
        }),
{
    assert(t.cell.push(' ') =~= t.cell + seq![' ']);
}

/// A table begins empty, with the alignments of its columns, behind the drawn paragraph.
pub proof fn tables_begin_empty(p: Page, e: EventView, columns: int)
    requires
        in_the_open(p),
        e.kind is Start,
        e.tag is Table,
    ensures
        ({
            let q = markdown::after_event(p, e, columns);
            &&& q.table is Some
            &&& q.table->0.alignments == e.alignments
            &&& q.table->0.rows.len() == 0
            &&& q.table->0.row.len() == 0
            &&& q.table->0.cell.len() == 0
            &&& q.current.len() == 0
        }),
{
}

/// Whether no two lines in a row are empty, and the first one is not.
pub open spec fn well_spaced(lines: Seq<Seq<SpanView>>) -> bool {
    &&& lines.len() > 0 ==> lines[0].len() > 0
    &&& forall|i: int|
        0 < i < lines.len() && (#[trigger] lines[i]).len() == 0 ==> lines[i - 1].len() > 0
}

/// Making space never leaves two empty lines in a row.
pub proof fn space_is_made_once(p: Page)
    requires
        well_spaced(p.lines),
    ensures
        well_spaced(markdown::spaced(p).lines),
        markdown::spaced(markdown::spaced(p)) == markdown::spaced(p),
        p.lines.len() > 0 ==> markdown::spaced(p).lines.last().len() == 0,
{
}

proof fn dropped_lines_are_blank(lines: Seq<Seq<SpanView>>)
    ensures
        ({
            let kept = markdown::without_blanks(lines);
            &&& kept.len() <= lines.len()
            &&& kept == lines.take(kept.len() as int)
            &&& forall|i: int| kept.len() <= i < lines.len() ==> (#[trigger] lines[i]).len() == 0
            &&& kept.len() > 0 ==> kept.last().len() > 0
        }),
    decreases lines.len(),
{
    let kept = markdown::without_blanks(lines);
    if lines.len() > 0 && lines.last().len() == 0 {
        let fewer = lines.drop_last();
        dropped_lines_are_blank(fewer);
        assert(fewer.take(kept.len() as int) =~= lines.take(kept.len() as int));
        assert forall|i: int| kept.len() <= i < lines.len() implies (#[trigger] lines[i]).len()
            == 0 by {
            if i < fewer.len() {
                assert(fewer[i].len() == 0);
            }
        }
    } else {
        assert(lines.take(lines.len() as int) =~= lines);
    }
}

/// A drawn text does not end with an empty line, and only empty lines are taken from its end.
pub proof fn drawn_text_ends_with_text(events: Seq<EventView>, columns: int)
    ensures
        ({
            let all = markdown::flushed(markdown::after_events(events, columns), columns).lines;
            let kept = markdown::drawn(events, columns).lines;
            &&& kept.len() > 0 ==> kept.last().len() > 0
            &&& kept.len() <= all.len()
            &&& kept == all.take(kept.len() as int)
            &&& forall|i: int| kept.len() <= i < all.len() ==> (#[trigger] all[i]).len() == 0
        }),
{
    dropped_lines_are_blank(
        markdown::flushed(markdown::after_events(events, columns), columns).lines,
    );
}

/// Code is read from where it begins to where it ends: what stands between is its text, without
/// the feeds at the end, and it is kept behind the code before it.
pub proof fn code_is_read_whole(r: Reading, start: EventView, e: EventView, end: EventView)
    requires
        start.kind is Start,
        start.tag is CodeBlock,
        e.kind is Text,
        end.kind is End,
        end.tag is CodeBlock,
    ensures
        ({
            let q = markdown::code_read(
                markdown::code_read(markdown::code_read(r, start), e),
                end,
            );
            &&& q.open is None
            &&& q.blocks.len() == r.blocks.len() + 1
            &&& q.blocks.drop_last() == r.blocks
            &&& q.blocks.last().info == start.text
            &&& e.text.len() > 0 && e.text.last() != '\n' ==> q.blocks.last().body == e.text
        }),
{
    let q = markdown::code_read(markdown::code_read(markdown::code_read(r, start), e), end);
    assert(q.blocks.drop_last() =~= r.blocks);
    assert(Seq::<char>::empty() + e.text =~= e.text);
}

/// Outside code nothing is read.
pub proof fn other_text_is_no_code(r: Reading, e: EventView)
    requires
        r.open is None,
        !(e.kind is Start && e.tag is CodeBlock),
    ensures
        markdown::code_read(r, e) == r,
{
}

} // verus!
