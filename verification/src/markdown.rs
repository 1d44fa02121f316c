//! Markdown, drawn for the terminal.

use vstd::prelude::*;

use crate::geometry;
use crate::markdown_events;
use crate::markdown_events::Alignment;
use crate::markdown_events::EventKind;
use crate::markdown_events::EventView;
use crate::markdown_events::MarkdownEvent;
use crate::markdown_events::TagKind;
use crate::markdown_table;
use crate::markdown_table::Table;
use crate::picker;
use crate::styled;
use crate::styled::Face;
use crate::styled::Paint;
use crate::styled::SpanView;
use crate::styled::TextLine;
use crate::styled::TextSpan;
use crate::text;
use crate::width;
use crate::wrap;

verus! {

broadcast use vstd::string::group_string_axioms;

/// A block of code, and the lines that show it.
#[derive(Clone, Debug)]
pub struct CodeBlockSpan {
    pub info: String,
    pub body: String,
    pub first_line: usize,
    pub end_line: usize,
}

/// The contents of a block of code.
pub struct CodeView {
    pub info: Seq<char>,
    pub body: Seq<char>,
    pub first_line: int,
    pub end_line: int,
}

impl CodeBlockSpan {
    /// The contents of the block.
    pub open spec fn view(&self) -> CodeView {
        CodeView {
            info: self.info@,
            body: self.body@,
            first_line: self.first_line as int,
            end_line: self.end_line as int,
        }
    }
}

/// The contents of some blocks of code.
pub open spec fn code_views(v: Seq<CodeBlockSpan>) -> Seq<CodeView> {
    v.map_values(|b: CodeBlockSpan| b@)
}

/// A text that was drawn.
#[derive(Clone, Debug)]
pub struct MarkdownRenderOutput {
    pub lines: Vec<TextLine>,
    pub code_blocks: Vec<CodeBlockSpan>,
}

/// A table that is being read.
pub struct TableView {
    pub alignments: Seq<Alignment>,
    pub rows: Seq<Seq<Seq<char>>>,
    pub row: Seq<Seq<char>>,
    pub cell: Seq<char>,
}

/// What has been drawn, and what is being read.
pub struct Page {
    pub lines: Seq<Seq<SpanView>>,
    pub codes: Seq<CodeView>,
    pub current: Seq<SpanView>,
    pub face: Face,
    pub faces: Seq<Face>,
    pub lists: Seq<Option<u64>>,
    pub prefix: Option<Seq<char>>,
    pub depth: int,
    pub links: Seq<Seq<char>>,
    pub code: Option<(Seq<char>, Seq<char>)>,
    pub table: Option<TableView>,
}

/// An empty page.
pub open spec fn blank_page() -> Page {
    Page {
        lines: Seq::empty(),
        codes: Seq::empty(),
        current: Seq::empty(),
        face: Face::of(Paint::Foreground),
        faces: Seq::empty(),
        lists: Seq::empty(),
        prefix: None,
        depth: 0,
        links: Seq::empty(),
        code: None,
        table: None,
    }
}

/// A page with more lines.
pub open spec fn lined(p: Page, lines: Seq<Seq<SpanView>>) -> Page {
    Page { lines: p.lines + lines, ..p }
}

/// A page with an empty line at its end, unless it begins there or ends with
/// one already.
pub open spec fn spaced(p: Page) -> Page {
    if p.lines.len() > 0 && p.lines.last().len() > 0 {
        lined(p, seq![Seq::empty()])
    } else {
        p
    }
}

/// A page with more text on its open line.
pub open spec fn said(p: Page, words: Seq<char>, face: Face) -> Page {
    if words.len() > 0 {
        Page { current: p.current.push(SpanView { text: words, face }), ..p }
    } else {
        p
    }
}

/// A page whose text goes on in another face.
pub open spec fn dressed(p: Page, face: Face) -> Page {
    Page { faces: p.faces.push(p.face), face, ..p }
}

/// A page whose text goes on in the face that it had before.
pub open spec fn undressed(p: Page) -> Page {
    if p.faces.len() > 0 {
        Page { face: p.faces.last(), faces: p.faces.drop_last(), ..p }
    } else {
        Page { face: Face::of(Paint::Foreground), ..p }
    }
}

/// The marks in front of a quotation.
pub open spec fn quote_marks(depth: int) -> Seq<char>
    decreases depth,
{
    if depth <= 0 {
        Seq::empty()
    } else {
        quote_marks(depth - 1) + "│ "@
    }
}

/// What stands in front of the lines of a paragraph.
pub open spec fn prefix_of(p: Page) -> Seq<char> {
    match p.prefix {
        Some(prefix) => prefix,
        None => Seq::empty(),
    }
}

/// The columns that are left for the text of a paragraph.
pub open spec fn room_of(p: Page, columns: int) -> int {
    geometry::max(
        geometry::less(
            columns,
            (width::text_columns(prefix_of(p)) + width::text_columns(quote_marks(p.depth))) as int,
        ),
        1,
    )
}

/// A piece of a line, if there is anything in it.
pub open spec fn unless_empty(words: Seq<char>, shown: Seq<char>, face: Face) -> Seq<SpanView> {
    if words.len() > 0 {
        styled::one_span(shown, face)
    } else {
        Seq::empty()
    }
}

/// A line of a paragraph: the marks of a quotation, the bullet of a list or
/// the blanks below it, and the text. Text that was not wrapped keeps its
/// faces.
pub open spec fn paragraph_line(p: Page, columns: int, i: int) -> Seq<SpanView> {
    let plain = styled::line_text(p.current);
    let words = wrap::wrapped(plain, room_of(p, columns))[i];
    let marks = quote_marks(p.depth);
    let prefix = prefix_of(p);
    unless_empty(marks, marks, Face::of(Paint::Subtle)) + unless_empty(
        prefix,
        if i == 0 {
            prefix
        } else {
            picker::blanks(width::text_columns(prefix) as int)
        },
        Face::of(Paint::Accent),
    ) + (if i == 0 && words == plain {
        p.current
    } else {
        styled::one_span(words, p.face)
    })
}

/// The lines of the open paragraph.
pub open spec fn paragraph_lines(p: Page, columns: int) -> Seq<Seq<SpanView>> {
    Seq::new(
        wrap::wrapped(styled::line_text(p.current), room_of(p, columns)).len(),
        |i: int| paragraph_line(p, columns, i),
    )
}

/// A page whose open paragraph has been drawn.
pub open spec fn flushed(p: Page, columns: int) -> Page {
    if p.current.len() == 0 && p.prefix is None {
        p
    } else {
        Page {
            lines: p.lines + paragraph_lines(p, columns),
            current: Seq::empty(),
            prefix: None,
            ..p
        }
    }
}

/// A text without the line feeds at its end.
pub open spec fn without_feeds(s: Seq<char>) -> Seq<char>
    decreases s.len(),
{
    if s.len() > 0 && s.last() == '\n' {
        without_feeds(s.drop_last())
    } else {
        s
    }
}

/// The face of code.
pub open spec fn code_face(paint: Paint) -> Face {
    Face { on_code: true, ..Face::of(paint) }
}

/// A line of code, as wide as the screen.
pub open spec fn code_line(words: Seq<char>, columns: int, paint: Paint) -> Seq<SpanView> {
    styled::one_span(styled::filled_up(words, columns), code_face(paint))
}

/// The lines of one line of code.
pub open spec fn code_pieces(line: Seq<char>, columns: int) -> Seq<Seq<SpanView>> {
    let pieces = wrap::chunks(line, geometry::less(columns, 2));
    Seq::new(pieces.len(), |i: int| code_line("  "@ + pieces[i], columns, Paint::Code))
}

/// The lines of the first `n` lines of code.
pub open spec fn code_lines(lines: Seq<Seq<char>>, columns: int, n: int) -> Seq<Seq<SpanView>>
    decreases n,
{
    if n <= 0 {
        Seq::empty()
    } else {
        code_lines(lines, columns, n - 1) + code_pieces(lines[n - 1], columns)
    }
}

/// The title of a block of code.
pub open spec fn code_title(info: Seq<char>) -> Seq<char> {
    " "@ + if text::trim(info).len() == 0 {
        "code"@
    } else {
        text::trim(info)
    }
}

/// A page on which a block of code has been drawn.
pub open spec fn code_drawn(p: Page, info: Seq<char>, body: Seq<char>, columns: int) -> Page {
    let kept = without_feeds(body);
    let source = text::split(kept, '\n');
    let drawn = code_lines(source, columns, source.len() as int);
    let first = p.lines.len() as int + 1;
    spaced(
        Page {
            lines: p.lines + (seq![code_line(code_title(info), columns, Paint::Muted)] + drawn),
            codes: p.codes.push(
                CodeView {
                    info,
                    body: kept,
                    first_line: first,
                    end_line: first + drawn.len(),
                },
            ),
            code: None,
            ..p
        },
    )
}

/// A page on which a table has been drawn.
pub open spec fn table_drawn(p: Page, t: TableView, columns: int) -> Page {
    let drawn = Page {
        lines: p.lines + markdown_table::table_lines(t.rows, t.alignments, columns),
        table: None,
        ..p
    };
    if markdown_table::column_count(t.rows) > 0 {
        spaced(drawn)
    } else {
        drawn
    }
}

/// The mark of a task.
pub open spec fn task_mark(checked: bool) -> Seq<char> {
    if checked {
        "☑ "@
    } else {
        "☐ "@
    }
}

/// What an event adds to a block of code.
pub open spec fn in_code(p: Page, info: Seq<char>, body: Seq<char>, e: EventView, columns: int) -> Page {
    match e.kind {
        EventKind::End => if e.tag == TagKind::CodeBlock {
            code_drawn(p, info, body, columns)
        } else {
            p
        },
        EventKind::Text => Page { code: Some((info, body + e.text)), ..p },
        EventKind::Code => Page { code: Some((info, body + e.text)), ..p },
        EventKind::SoftBreak => Page { code: Some((info, body.push('\n'))), ..p },
        EventKind::HardBreak => Page { code: Some((info, body.push('\n'))), ..p },
        _ => p,
    }
}

/// A page whose table has one more row, unless nothing stands in it.
pub open spec fn row_closed(p: Page, t: TableView) -> Page {
    if t.row.len() > 0 {
        Page {
            table: Some(TableView { rows: t.rows.push(t.row), row: Seq::empty(), ..t }),
            ..p
        }
    } else {
        p
    }
}

/// What an event adds to a table.
pub open spec fn in_table(p: Page, t: TableView, e: EventView, columns: int) -> Page {
    let with = |table: TableView| Page { table: Some(table), ..p };
    match e.kind {
        EventKind::Start => match e.tag {
            TagKind::Head => with(TableView { row: Seq::empty(), ..t }),
            TagKind::Row => with(TableView { row: Seq::empty(), ..t }),
            TagKind::Cell => with(TableView { cell: Seq::empty(), ..t }),
            _ => p,
        },
        EventKind::End => match e.tag {
            TagKind::Cell => with(TableView { row: t.row.push(t.cell), cell: Seq::empty(), ..t }),
            TagKind::Head => row_closed(p, t),
            TagKind::Row => row_closed(p, t),
            TagKind::Table => table_drawn(p, t, columns),
            _ => p,
        },
        EventKind::Text => with(TableView { cell: t.cell + e.text, ..t }),
        EventKind::Code => with(TableView { cell: t.cell + e.text, ..t }),
        EventKind::InlineMath => with(TableView { cell: t.cell + e.text, ..t }),
        EventKind::DisplayMath => with(TableView { cell: t.cell + e.text, ..t }),
        EventKind::Html => with(TableView { cell: t.cell + e.text, ..t }),
        EventKind::InlineHtml => with(TableView { cell: t.cell + e.text, ..t }),
        EventKind::SoftBreak => with(TableView { cell: t.cell.push(' '), ..t }),
        EventKind::HardBreak => with(TableView { cell: t.cell.push(' '), ..t }),
        EventKind::Task(checked) => with(TableView { cell: t.cell + task_mark(checked), ..t }),
        _ => p,
    }
}

/// The bullet or the number of an item, behind the blanks of its level.
pub open spec fn item_prefix(lists: Seq<Option<u64>>) -> Seq<char> {
    picker::blanks(2 * geometry::less(lists.len() as int, 1)) + (if lists.len() > 0 {
        match lists.last() {
            Some(number) => text::decimal(number as nat) + ". "@,
            None => "• "@,
        }
    } else {
        "• "@
    })
}

/// The lists after an item: an ordered one counts on.
pub open spec fn counted(lists: Seq<Option<u64>>) -> Seq<Option<u64>> {
    if lists.len() > 0 {
        match lists.last() {
            Some(number) => lists.update(
                lists.len() - 1,
                Some(geometry::min(number + 1, u64::MAX as int) as u64),
            ),
            None => lists,
        }
    } else {
        lists
    }
}

/// A page after something has begun.
pub open spec fn begun(p: Page, e: EventView, columns: int) -> Page {
    match e.tag {
        TagKind::Heading => {
            let q = flushed(p, columns);
            dressed(q, Face { bold: true, ..q.face })
        },
        TagKind::BlockQuote => {
            let q = flushed(p, columns);
            Page { depth: geometry::min(q.depth + 1, usize::MAX as int), ..q }
        },
        TagKind::CodeBlock => Page {
            code: Some((e.text, Seq::empty())),
            ..flushed(p, columns)
        },
        TagKind::List => Page { lists: p.lists.push(e.number), ..p },
        TagKind::Item => Page {
            prefix: Some(item_prefix(p.lists)),
            lists: counted(p.lists),
            ..p
        },
        TagKind::Emphasis => dressed(p, Face { italic: true, ..p.face }),
        TagKind::Strong => dressed(p, Face { bold: true, ..p.face }),
        TagKind::Strikethrough => dressed(p, Face { crossed: true, ..p.face }),
        TagKind::Link => dressed(
            Page { links: p.links.push(e.text), ..p },
            Face { paint: Paint::Accent, underlined: true, ..p.face },
        ),
        TagKind::Image => said(Page { links: p.links.push(e.text), ..p }, "[image: "@, p.face),
        TagKind::Table => Page {
            table: Some(
                TableView {
                    alignments: e.alignments,
                    rows: Seq::empty(),
                    row: Seq::empty(),
                    cell: Seq::empty(),
                },
            ),
            ..flushed(p, columns)
        },
        _ => p,
    }
}

/// A page after something has ended.
pub open spec fn ended(p: Page, tag: TagKind, columns: int) -> Page {
    match tag {
        TagKind::Paragraph => spaced(flushed(p, columns)),
        TagKind::Heading => spaced(flushed(undressed(p), columns)),
        TagKind::BlockQuote => {
            let q = flushed(p, columns);
            spaced(Page { depth: geometry::less(q.depth, 1), ..q })
        },
        TagKind::List => {
            let q = flushed(p, columns);
            let lists = if q.lists.len() > 0 {
                q.lists.drop_last()
            } else {
                q.lists
            };
            let r = Page { lists, ..q };
            if lists.len() == 0 {
                spaced(r)
            } else {
                r
            }
        },
        TagKind::Item => flushed(p, columns),
        TagKind::Emphasis => undressed(p),
        TagKind::Strong => undressed(p),
        TagKind::Strikethrough => undressed(p),
        TagKind::Link => {
            let q = undressed(p);
            if q.links.len() > 0 {
                said(
                    Page { links: q.links.drop_last(), ..q },
                    " ("@ + q.links.last() + ")"@,
                    Face::of(Paint::Muted),
                )
            } else {
                q
            }
        },
        TagKind::Image => if p.links.len() > 0 {
            said(
                Page { links: p.links.drop_last(), ..p },
                "] ("@ + p.links.last() + ")"@,
                p.face,
            )
        } else {
            p
        },
        _ => p,
    }
}

/// A page after an event outside code and tables.
pub open spec fn in_text(p: Page, e: EventView, columns: int) -> Page {
    match e.kind {
        EventKind::Start => begun(p, e, columns),
        EventKind::End => ended(p, e.tag, columns),
        EventKind::Text => said(p, e.text, p.face),
        EventKind::Html => said(p, e.text, p.face),
        EventKind::InlineHtml => said(p, e.text, p.face),
        EventKind::Code => said(p, e.text, Face { paint: Paint::Code, on_code: true, ..p.face }),
        EventKind::InlineMath => said(
            p,
            "$"@ + e.text + "$"@,
            Face { paint: Paint::Accent, ..p.face },
        ),
        EventKind::DisplayMath => spaced(
            lined(
                flushed(p, columns),
                styled::faced(wrap::wrapped("  "@ + e.text, columns), Face::of(Paint::Accent)),
            ),
        ),
        EventKind::SoftBreak => said(p, " "@, p.face),
        EventKind::HardBreak => flushed(p, columns),
        EventKind::Rule => lined(
            flushed(p, columns),
            seq![styled::one_span(styled::times('─', columns), Face::of(Paint::Subtle))],
        ),
        EventKind::Task(checked) => Page { prefix: Some(task_mark(checked)), ..p },
        EventKind::Footnote => said(
            p,
            "[^"@ + e.text + "]"@,
            Face { paint: Paint::Accent, ..p.face },
        ),
    }
}

/// A page after an event.
pub open spec fn after_event(p: Page, e: EventView, columns: int) -> Page {
    match p.code {
        Some((info, body)) => in_code(p, info, body, e, columns),
        None => match p.table {
            Some(t) => in_table(p, t, e, columns),
            None => in_text(p, e, columns),
        },
    }
}

/// A page after some events.
pub open spec fn after_events(events: Seq<EventView>, columns: int) -> Page
    decreases events.len(),
{
    if events.len() == 0 {
        blank_page()
    } else {
        after_event(after_events(events.drop_last(), columns), events.last(), columns)
    }
}

/// Lines without the empty ones at their end.
pub open spec fn without_blanks(lines: Seq<Seq<SpanView>>) -> Seq<Seq<SpanView>>
    decreases lines.len(),
{
    if lines.len() > 0 && lines.last().len() == 0 {
        without_blanks(lines.drop_last())
    } else {
        lines
    }
}

/// The page that some events make.
pub open spec fn drawn(events: Seq<EventView>, columns: int) -> Page {
    let p = flushed(after_events(events, columns), columns);
    Page { lines: without_blanks(p.lines), ..p }
}

/// The lines and the blocks of code that a text is drawn as.
pub open spec fn draws(source: Seq<char>, columns: int, r: MarkdownRenderOutput) -> bool {
    shows_page(
        r,
        drawn(
            markdown_events::events_of(source, markdown_events::RENDER_OPTIONS),
            geometry::max(columns, 1),
        ),
    )
}

/// Whether what was drawn are the lines and the blocks of code of a page.
pub open spec fn shows_page(r: MarkdownRenderOutput, page: Page) -> bool {
    &&& styled::line_views(r.lines@) == page.lines
    &&& code_views(r.code_blocks@) == page.codes
}

/// A block of code that is being read.
struct CodeState {
    info: String,
    body: String,
}

/// A table that is being read.
struct TableState {
    alignments: Vec<Alignment>,
    rows: Vec<Vec<String>>,
    row: Vec<String>,
    cell: String,
}

impl TableState {
    spec fn view(&self) -> TableView {
        TableView {
            alignments: self.alignments@,
            rows: markdown_table::row_views(self.rows@),
            row: text::views(self.row@),
            cell: self.cell@,
        }
    }
}

/// Draws a text, event by event.
struct Renderer {
    columns: usize,
    lines: Vec<TextLine>,
    codes: Vec<CodeBlockSpan>,
    current: Vec<TextSpan>,
    face: Face,
    faces: Vec<Face>,
    lists: Vec<Option<u64>>,
    prefix: Option<String>,
    depth: usize,
    links: Vec<String>,
    code: Option<CodeState>,
    table: Option<TableState>,
}

impl Renderer {
    spec fn view(&self) -> Page {
        Page {
            lines: styled::line_views(self.lines@),
            codes: code_views(self.codes@),
            current: styled::span_views(self.current@),
            face: self.face,
            faces: self.faces@,
            lists: self.lists@,
            prefix: match self.prefix {
                Some(prefix) => Some(prefix@),
                None => None,
            },
            depth: self.depth as int,
            links: text::views(self.links@),
            code: match self.code {
                Some(code) => Some((code.info@, code.body@)),
                None => None,
            },
            table: match self.table {
                Some(table) => Some(table@),
                None => None,
            },
        }
    }

    fn new(columns: usize) -> (r: Renderer)
        ensures
            r@ == blank_page(),
            r.columns == geometry::max(columns as int, 1),
    {
        let r: Renderer = Renderer {
            columns: geometry::larger(columns, 1),
            lines: Vec::new(),
            codes: Vec::new(),
            current: Vec::new(),
            face: Face::plain(Paint::Foreground),
            faces: Vec::new(),
            lists: Vec::new(),
            prefix: None,
            depth: 0,
            links: Vec::new(),
            code: None,
            table: None,
        };
        proof {
            assert(r@.lines =~= Seq::<Seq<SpanView>>::empty());
            assert(r@.codes =~= Seq::<CodeView>::empty());
            assert(r@.current =~= Seq::<SpanView>::empty());
            assert(r@.faces =~= Seq::<Face>::empty());
            assert(r@.lists =~= Seq::<Option<u64>>::empty());
            assert(r@.links =~= Seq::<Seq<char>>::empty());
        }
        r
    }

    fn push_line(&mut self, line: TextLine)
        ensures
            final(self)@ == lined(old(self)@, seq![line@]),
            final(self).columns == old(self).columns,
    {
        let ghost before = self@;
        styled::add_line(&mut self.lines, line);
        assert(self@.lines =~= before.lines + seq![line@]);
    }

    fn push_faced(&mut self, texts: &Vec<String>, face: Face)
        ensures
            final(self)@ == lined(old(self)@, styled::faced(text::views(texts@), face)),
            final(self).columns == old(self).columns,
    {
        styled::add_faced(&mut self.lines, texts, face);
    }

    fn blank(&mut self)
        ensures
            final(self)@ == spaced(old(self)@),
            final(self).columns == old(self).columns,
    {
        let count: usize = self.lines.len();
        if count > 0 {
            proof {
                assert(self@.lines.last() == self.lines@[count - 1]@);
                assert(self.lines@[count - 1]@.len() == self.lines@[count - 1].spans@.len());
            }
            if self.lines[count - 1].spans.len() > 0 {
                self.push_line(TextLine::empty());
            }
        }
    }

    fn push_styled(&mut self, words: String, face: Face)
        ensures
            final(self)@ == said(old(self)@, words@, face),
            final(self).columns == old(self).columns,
    {
        if !words.as_str().is_empty() {
            let ghost before = self@;
            self.current.push(TextSpan { text: words, face });
            assert(self@.current =~= before.current.push(SpanView { text: words@, face }));
        }
    }

    fn push_text(&mut self, words: &str)
        ensures
            final(self)@ == said(old(self)@, words@, old(self).face),
            final(self).columns == old(self).columns,
    {
        let face: Face = self.face;
        self.push_styled(words.to_owned(), face);
    }

    fn push_style(&mut self, face: Face)
        ensures
            final(self)@ == dressed(old(self)@, face),
            final(self).columns == old(self).columns,
    {
        self.faces.push(self.face);
        self.face = face;
    }

    fn pop_style(&mut self)
        ensures
            final(self)@ == undressed(old(self)@),
            final(self).columns == old(self).columns,
    {
        let ghost before = self.faces@;
        match self.faces.pop() {
            Some(face) => {
                assert(self.faces@ =~= before.drop_last());
                self.face = face;
            },
            None => {
                self.face = Face::plain(Paint::Foreground);
                assert(self.faces@ =~= before);
            },
        }
    }

    fn quote(&self) -> (r: String)
        ensures
            r@ == quote_marks(self.depth as int),
    {
        let mut out: String = String::new();
        let mut i: usize = 0;
        assert(out@ =~= quote_marks(0));
        while i < self.depth
            invariant
                i <= self.depth,
                out@ == quote_marks(i as int),
            decreases self.depth - i,
        {
            out.append("│ ");
            i += 1;
        }
        out
    }

    /// A line of the open paragraph.
    fn paragraph(
        &self,
        marks: &String,
        prefix: &String,
        plain: &String,
        words: &String,
        i: usize,
    ) -> (r: TextLine)
        requires
            marks@ == quote_marks(self.depth as int),
            prefix@ == prefix_of(self@),
            plain@ == styled::line_text(self@.current),
            i < wrap::wrapped(plain@, room_of(self@, self.columns as int)).len(),
            words@ == wrap::wrapped(plain@, room_of(self@, self.columns as int))[i as int],
        ensures
            r@ == paragraph_line(self@, self.columns as int, i as int),
    {
        let mut spans: Vec<TextSpan> = Vec::new();
        let ghost first = unless_empty(marks@, marks@, Face::of(Paint::Subtle));
        if !marks.as_str().is_empty() {
            spans.push(TextSpan { text: marks.clone(), face: Face::plain(Paint::Subtle) });
        }
        assert(styled::span_views(spans@) =~= first);
        let ghost second = unless_empty(
            prefix@,
            if i == 0 {
                prefix@
            } else {
                picker::blanks(width::text_columns(prefix@) as int)
            },
            Face::of(Paint::Accent),
        );
        if !prefix.as_str().is_empty() {
            let shown: String = if i == 0 {
                prefix.clone()
            } else {
                let mut below: String = String::new();
                picker::add_blanks(&mut below, width::text_width(prefix.as_str()));
                assert(below@ =~= picker::blanks(width::text_columns(prefix@) as int));
                below
            };
            spans.push(TextSpan { text: shown, face: Face::plain(Paint::Accent) });
        }
        assert(styled::span_views(spans@) =~= first + second);
        if i == 0 && text::same_text(words.as_str(), plain.as_str()) {
            let mut k: usize = 0;
            assert(styled::span_views(spans@) =~= first + second + self@.current.take(0));
            while k < self.current.len()
                invariant
                    k <= self.current@.len(),
                    styled::span_views(spans@) == first + second + self@.current.take(k as int),
                decreases self.current@.len() - k,
            {
                let ghost done = styled::span_views(spans@);
                let span: &TextSpan = &self.current[k];
                spans.push(TextSpan { text: span.text.clone(), face: span.face });
                proof {
                    assert(styled::span_views(spans@) =~= done.push(self.current@[k as int]@));
                    assert(self@.current.take(k + 1) =~= self@.current.take(k as int).push(
                        self.current@[k as int]@,
                    ));
                }
                k += 1;
                assert(styled::span_views(spans@) =~= first + second + self@.current.take(
                    k as int,
                ));
            }
            assert(self@.current.take(self.current@.len() as int) =~= self@.current);
        } else {
            spans.push(TextSpan { text: words.clone(), face: self.face });
            assert(styled::span_views(spans@) =~= first + second + styled::one_span(
                words@,
                self.face,
            ));
        }
        TextLine { spans }
    }

    fn current_text(&self) -> (r: String)
        ensures
            r@ == styled::line_text(self@.current),
    {
        let mut out: String = String::new();
        let mut i: usize = 0;
        assert(self@.current.take(0) =~= Seq::<SpanView>::empty());
        while i < self.current.len()
            invariant
                i <= self.current@.len(),
                out@ == styled::line_text(self@.current.take(i as int)),
            decreases self.current@.len() - i,
        {
            proof {
                assert(self@.current.take(i + 1).drop_last() =~= self@.current.take(i as int));
                assert(self@.current.take(i + 1).last() == self.current@[i as int]@);
            }
            out.append(self.current[i].text.as_str());
            i += 1;
        }
        assert(self@.current.take(self@.current.len() as int) =~= self@.current);
        out
    }

    /// Draws the open paragraph.
    fn flush(&mut self)
        ensures
            final(self)@ == flushed(old(self)@, old(self).columns as int),
            final(self).columns == old(self).columns,
    {
        assert(self@.current.len() == self.current@.len());
        if self.current.len() == 0 && self.prefix.is_none() {
            return ;
        }
        let plain: String = self.current_text();
        let prefix: String = match &self.prefix {
            Some(prefix) => prefix.clone(),
            None => String::new(),
        };
        assert(prefix@ =~= prefix_of(self@));
        let marks: String = self.quote();
        let taken: usize = width::text_width(prefix.as_str()).saturating_add(
            width::text_width(marks.as_str()),
        );
        let room: usize = geometry::larger(self.columns.saturating_sub(taken), 1);
        let wrapped: Vec<String> = wrap::wrap(plain.as_str(), room);
        let ghost all = paragraph_lines(self@, self.columns as int);
        let ghost before = self@.lines;
        let ghost page = self@;
        let columns: usize = self.columns;
        let mut drawn: Vec<TextLine> = Vec::new();
        let mut i: usize = 0;
        assert(text::views(wrapped@).len() == wrapped@.len());
        assert(styled::line_views(drawn@) =~= all.take(0));
        while i < wrapped.len()
            invariant
                *self == *old(self),
                page == self@,
                columns == self.columns,
                i <= wrapped@.len(),
                room == room_of(page, columns as int),
                plain@ == styled::line_text(page.current),
                prefix@ == prefix_of(page),
                marks@ == quote_marks(self.depth as int),
                text::views(wrapped@) == wrap::wrapped(plain@, room as int),
                text::views(wrapped@).len() == wrapped@.len(),
                all == paragraph_lines(page, columns as int),
                styled::line_views(drawn@) == all.take(i as int),
            decreases wrapped@.len() - i,
        {
            assert(text::views(wrapped@)[i as int] == wrapped@[i as int]@);
            let line: TextLine = self.paragraph(&marks, &prefix, &plain, &wrapped[i], i);
            styled::add_line(&mut drawn, line);
            i += 1;
            assert(styled::line_views(drawn@) =~= all.take(i as int));
        }
        assert(all.take(wrapped@.len() as int) =~= all);
        append_lines(&mut self.lines, drawn);
        self.current = Vec::new();
        self.prefix = None;
        assert(self@.current =~= Seq::<SpanView>::empty());
        assert(self@.lines =~= before + all);
    }
}

fn append_lines(lines: &mut Vec<TextLine>, added: Vec<TextLine>)
    ensures
        styled::line_views(final(lines)@) == styled::line_views(old(lines)@) + styled::line_views(
            added@,
        ),
{
    let ghost before = lines@;
    let mut added: Vec<TextLine> = added;
    let ghost more = added@;
    lines.append(&mut added);
    assert(styled::line_views(lines@) =~= styled::line_views(before) + styled::line_views(more));
}

fn trim_feeds(s: &str) -> (r: String)
    ensures
        r@ == without_feeds(s@),
{
    let chars: Vec<char> = text::chars_of(s);
    let mut end: usize = chars.len();
    assert(chars@.take(end as int) =~= chars@);
    while end > 0 && chars[end - 1] == '\n'
        invariant
            end <= chars@.len(),
            chars@ == s@,
            without_feeds(s@) == without_feeds(chars@.take(end as int)),
        decreases end,
    {
        assert(chars@.take(end as int).drop_last() =~= chars@.take(end - 1));
        end -= 1;
    }
    assert(chars@.subrange(0, end as int) =~= chars@.take(end as int));
    text::string_between(&chars, 0, end)
}

fn code_text(words: String, columns: usize, paint: Paint) -> (r: TextLine)
    ensures
        r@ == code_line(words@, columns as int, paint),
{
    let mut face: Face = Face::plain(paint);
    face.on_code = true;
    TextLine::one(styled::fill_up(words, columns), face)
}

fn add_code_line(lines: &mut Vec<TextLine>, line: &str, columns: usize)
    ensures
        styled::line_views(final(lines)@) == styled::line_views(old(lines)@) + code_pieces(
            line@,
            columns as int,
        ),
{
    let ghost before = styled::line_views(lines@);
    let ghost all = code_pieces(line@, columns as int);
    let pieces: Vec<String> = wrap::wrap_code(line, columns.saturating_sub(2));
    let mut i: usize = 0;
    assert(text::views(pieces@).len() == pieces@.len());
    assert(styled::line_views(lines@) =~= before + all.take(0));
    while i < pieces.len()
        invariant
            i <= pieces@.len(),
            all == code_pieces(line@, columns as int),
            text::views(pieces@) == wrap::chunks(line@, geometry::less(columns as int, 2)),
            text::views(pieces@).len() == pieces@.len(),
            styled::line_views(lines@) == before + all.take(i as int),
        decreases pieces@.len() - i,
    {
        assert(text::views(pieces@)[i as int] == pieces@[i as int]@);
        let words: String = text::joined("  ", pieces[i].as_str());
        styled::add_line(lines, code_text(words, columns, Paint::Code));
        i += 1;
        assert(styled::line_views(lines@) =~= before + all.take(i as int));
    }
    assert(all.take(pieces@.len() as int) =~= all);
}

fn add_code_lines(lines: &mut Vec<TextLine>, source: &Vec<String>, columns: usize)
    ensures
        styled::line_views(final(lines)@) == styled::line_views(old(lines)@) + code_lines(
            text::views(source@),
            columns as int,
            source@.len() as int,
        ),
{
    let ghost before = styled::line_views(lines@);
    let ghost views = text::views(source@);
    let mut i: usize = 0;
    assert(styled::line_views(lines@) =~= before + code_lines(views, columns as int, 0));
    while i < source.len()
        invariant
            i <= source@.len(),
            views == text::views(source@),
            styled::line_views(lines@) == before + code_lines(views, columns as int, i as int),
        decreases source@.len() - i,
    {
        assert(views[i as int] == source@[i as int]@);
        add_code_line(lines, source[i].as_str(), columns);
        i += 1;
        assert(styled::line_views(lines@) =~= before + code_lines(
            views,
            columns as int,
            i as int,
        ));
    }
}

impl Renderer {
    fn finish_code(&mut self, info: String, body: String)
        requires
            old(self).code is None,
        ensures
            final(self)@ == code_drawn(old(self)@, info@, body@, old(self).columns as int),
            final(self).columns == old(self).columns,
    {
        let ghost before = self@;
        let columns: usize = self.columns;
        let trimmed: String = text::trimmed(info.as_str());
        let title: String = text::joined(
            " ",
            if trimmed.as_str().is_empty() {
                "code"
            } else {
                trimmed.as_str()
            },
        );
        self.push_line(code_text(title, columns, Paint::Muted));
        let first_line: usize = self.lines.len();
        let kept: String = trim_feeds(body.as_str());
        let source: Vec<String> = text::split_text(kept.as_str(), '\n');
        assert(text::views(source@).len() == source@.len());
        let ghost titled = self@.lines;
        add_code_lines(&mut self.lines, &source, columns);
        let end_line: usize = self.lines.len();
        let ghost drawn = code_lines(
            text::views(source@),
            columns as int,
            source@.len() as int,
        );
        let ghost blocks = self@.codes;
        let block: CodeBlockSpan = CodeBlockSpan { info, body: kept, first_line, end_line };
        let ghost told = block@;
        self.codes.push(block);
        proof {
            assert(self@.codes =~= blocks.push(told));
            assert(self@.lines =~= before.lines + (seq![
                code_line(code_title(info@), columns as int, Paint::Muted),
            ] + drawn));
            assert(titled.len() == before.lines.len() + 1);
        }
        self.blank();
    }

    fn finish_table(&mut self, table: TableState)
        requires
            old(self).table is None,
        ensures
            final(self)@ == table_drawn(old(self)@, table@, old(self).columns as int),
            final(self).columns == old(self).columns,
    {
        let columns: usize = self.columns;
        let read: Table = Table { alignments: table.alignments, rows: table.rows };
        let shown: bool = markdown_table::add_table(&mut self.lines, &read, columns);
        if shown {
            self.blank();
        }
    }
}

fn task_text(checked: bool) -> (r: &'static str)
    ensures
        r@ == task_mark(checked),
{
    if checked {
        "☑ "
    } else {
        "☐ "
    }
}

impl Renderer {
    fn code_event(&mut self, code: CodeState, event: &MarkdownEvent)
        requires
            old(self).code is None,
        ensures
            final(self)@ == in_code(
                Page { code: Some((code.info@, code.body@)), ..old(self)@ },
                code.info@,
                code.body@,
                event@,
                old(self).columns as int,
            ),
            final(self).columns == old(self).columns,
    {
        let mut code: CodeState = code;
        let ghost body = code.body@;
        match event.kind {
            EventKind::End => {
                if event.tag == TagKind::CodeBlock {
                    self.finish_code(code.info, code.body);
                    return ;
                }
            },
            EventKind::Text => code.body.append(event.text.as_str()),
            EventKind::Code => code.body.append(event.text.as_str()),
            EventKind::SoftBreak => {
                code.body.append("\n");
                proof {
                    reveal_strlit("\n");
                    assert(code.body@ =~= body.push('\n'));
                }
            },
            EventKind::HardBreak => {
                code.body.append("\n");
                proof {
                    reveal_strlit("\n");
                    assert(code.body@ =~= body.push('\n'));
                }
            },
            _ => {},
        }
        self.code = Some(code);
    }

    fn table_text(&mut self, table: TableState, words: &str)
        requires
            old(self).table is None,
        ensures
            final(self)@ == (Page {
                table: Some(TableView { cell: table@.cell + words@, ..table@ }),
                ..old(self)@
            }),
            final(self).columns == old(self).columns,
    {
        let mut table: TableState = table;
        table.cell.append(words);
        self.table = Some(table);
    }

    fn table_tag(&mut self, table: TableState, event: &MarkdownEvent)
        requires
            old(self).table is None,
            event.kind == EventKind::Start || event.kind == EventKind::End,
        ensures
            final(self)@ == in_table(
                Page { table: Some(table@), ..old(self)@ },
                table@,
                event@,
                old(self).columns as int,
            ),
            final(self).columns == old(self).columns,
    {
        let mut table: TableState = table;
        let ghost view = table@;
        if event.kind == EventKind::Start {
            if event.tag == TagKind::Head || event.tag == TagKind::Row {
                table.row = Vec::new();
                assert(table@.row =~= Seq::<Seq<char>>::empty());
            } else if event.tag == TagKind::Cell {
                table.cell = String::new();
                assert(table@.cell =~= Seq::<char>::empty());
            }
        } else if event.tag == TagKind::Cell {
            let cell: String = table.cell;
            table.cell = String::new();
            table.row.push(cell);
            assert(table@.row =~= view.row.push(view.cell));
            assert(table@.cell =~= Seq::<char>::empty());
        } else if event.tag == TagKind::Head || event.tag == TagKind::Row {
            assert(view.row.len() == table.row@.len());
            if table.row.len() > 0 {
                let row: Vec<String> = table.row;
                table.row = Vec::new();
                table.rows.push(row);
                assert(table@.rows =~= view.rows.push(view.row));
                assert(table@.row =~= Seq::<Seq<char>>::empty());
            }
        } else if event.tag == TagKind::Table {
            self.finish_table(table);
            return ;
        }
        self.table = Some(table);
    }

    fn table_event(&mut self, table: TableState, event: &MarkdownEvent)
        requires
            old(self).table is None,
        ensures
            final(self)@ == in_table(
                Page { table: Some(table@), ..old(self)@ },
                table@,
                event@,
                old(self).columns as int,
            ),
            final(self).columns == old(self).columns,
    {
        let ghost cell = table@.cell;
        match event.kind {
            EventKind::Start => self.table_tag(table, event),
            EventKind::End => self.table_tag(table, event),
            EventKind::Text => self.table_text(table, event.text.as_str()),
            EventKind::Code => self.table_text(table, event.text.as_str()),
            EventKind::InlineMath => self.table_text(table, event.text.as_str()),
            EventKind::DisplayMath => self.table_text(table, event.text.as_str()),
            EventKind::Html => self.table_text(table, event.text.as_str()),
            EventKind::InlineHtml => self.table_text(table, event.text.as_str()),
            EventKind::SoftBreak => {
                self.table_text(table, " ");
                proof {
                    reveal_strlit(" ");
                    assert(cell + " "@ =~= cell.push(' '));
                }
            },
            EventKind::HardBreak => {
                self.table_text(table, " ");
                proof {
                    reveal_strlit(" ");
                    assert(cell + " "@ =~= cell.push(' '));
                }
            },
            EventKind::Task(checked) => self.table_text(table, task_text(checked)),
            _ => {
                self.table = Some(table);
            },
        }
    }

    fn begin_item(&mut self)
        ensures
            final(self)@ == (Page {
                prefix: Some(item_prefix(old(self)@.lists)),
                lists: counted(old(self)@.lists),
                ..old(self)@
            }),
            final(self).columns == old(self).columns,
    {
        let ghost lists = self.lists@;
        let count: usize = self.lists.len();
        let level: usize = count.saturating_sub(1);
        let mut prefix: String = String::new();
        picker::add_blanks(&mut prefix, level);
        picker::add_blanks(&mut prefix, level);
        assert(prefix@ =~= picker::blanks(2 * geometry::less(lists.len() as int, 1)));
        let mut numbered: bool = false;
        if count > 0 {
            if let Some(number) = self.lists[count - 1] {
                prefix.append(text::decimal_text(number).as_str());
                prefix.append(". ");
                self.lists.set(count - 1, Some(number.saturating_add(1)));
                numbered = true;
            }
        }
        if !numbered {
            prefix.append("• ");
            assert(self.lists@ =~= lists);
        }
        assert(prefix@ =~= item_prefix(lists));
        self.prefix = Some(prefix);
    }

    fn push_link(&mut self, address: &String)
        ensures
            final(self)@ == (Page { links: old(self)@.links.push(address@), ..old(self)@ }),
            final(self).columns == old(self).columns,
            final(self).face == old(self).face,
    {
        let ghost before = self@.links;
        self.links.push(address.clone());
        assert(self@.links =~= before.push(address@));
    }

    fn pop_link(&mut self) -> (r: Option<String>)
        ensures
            match r {
                Some(address) => old(self)@.links.len() > 0 && address@ == old(self)@.links.last()
                    && final(self)@ == (Page {
                    links: old(self)@.links.drop_last(),
                    ..old(self)@
                }),
                None => old(self)@.links.len() == 0 && final(self)@ == old(self)@,
            },
            final(self).columns == old(self).columns,
            final(self).face == old(self).face,
    {
        let ghost before = self@.links;
        let ghost count = self.links@.len();
        let popped: Option<String> = self.links.pop();
        proof {
            assert(before.len() == count);
            if count > 0 {
                assert(before.last() == popped->0@);
                assert(self@.links =~= before.drop_last());
            } else {
                assert(self@.links =~= before);
            }
        }
        popped
    }

    fn start(&mut self, event: &MarkdownEvent)
        requires
            old(self).code is None,
            old(self).table is None,
        ensures
            final(self)@ == begun(old(self)@, event@, old(self).columns as int),
            final(self).columns == old(self).columns,
    {
        match event.tag {
            TagKind::Heading => {
                self.flush();
                let mut face: Face = self.face;
                face.bold = true;
                self.push_style(face);
            },
            TagKind::BlockQuote => {
                self.flush();
                self.depth = self.depth.saturating_add(1);
            },
            TagKind::CodeBlock => {
                self.flush();
                let body: String = String::new();
                assert(body@ =~= Seq::<char>::empty());
                self.code = Some(CodeState { info: event.text.clone(), body });
            },
            TagKind::List => {
                let ghost lists = self.lists@;
                self.lists.push(event.number);
                assert(self.lists@ =~= lists.push(event.number));
            },
            TagKind::Item => self.begin_item(),
            TagKind::Emphasis => {
                let mut face: Face = self.face;
                face.italic = true;
                self.push_style(face);
            },
            TagKind::Strong => {
                let mut face: Face = self.face;
                face.bold = true;
                self.push_style(face);
            },
            TagKind::Strikethrough => {
                let mut face: Face = self.face;
                face.crossed = true;
                self.push_style(face);
            },
            TagKind::Link => {
                self.push_link(&event.text);
                let mut face: Face = self.face;
                face.paint = Paint::Accent;
                face.underlined = true;
                self.push_style(face);
            },
            TagKind::Image => {
                self.push_link(&event.text);
                self.push_text("[image: ");
            },
            TagKind::Table => {
                self.flush();
                let table: TableState = TableState {
                    alignments: markdown_events::copy_columns(&event.alignments),
                    rows: Vec::new(),
                    row: Vec::new(),
                    cell: String::new(),
                };
                proof {
                    assert(table@.rows =~= Seq::<Seq<Seq<char>>>::empty());
                    assert(table@.row =~= Seq::<Seq<char>>::empty());
                    assert(table@.cell =~= Seq::<char>::empty());
                }
                self.table = Some(table);
            },
            _ => {},
        }
    }

    fn end(&mut self, tag: TagKind)
        requires
            old(self).code is None,
            old(self).table is None,
        ensures
            final(self)@ == ended(old(self)@, tag, old(self).columns as int),
            final(self).columns == old(self).columns,
    {
        match tag {
            TagKind::Paragraph => {
                self.flush();
                self.blank();
            },
            TagKind::Heading => {
                self.pop_style();
                self.flush();
                self.blank();
            },
            TagKind::BlockQuote => {
                self.flush();
                self.depth = self.depth.saturating_sub(1);
                self.blank();
            },
            TagKind::List => {
                self.flush();
                let ghost lists = self.lists@;
                let popped: Option<Option<u64>> = self.lists.pop();
                proof {
                    if lists.len() > 0 {
                        assert(self.lists@ =~= lists.drop_last());
                    } else {
                        assert(self.lists@ =~= lists);
                    }
                }
                if self.lists.len() == 0 {
                    self.blank();
                }
            },
            TagKind::Item => self.flush(),
            TagKind::Emphasis => self.pop_style(),
            TagKind::Strong => self.pop_style(),
            TagKind::Strikethrough => self.pop_style(),
            TagKind::Link => {
                self.pop_style();
                if let Some(address) = self.pop_link() {
                    let words: String = text::joined3(" (", address.as_str(), ")");
                    self.push_styled(words, Face::plain(Paint::Muted));
                }
            },
            TagKind::Image => {
                if let Some(address) = self.pop_link() {
                    let words: String = text::joined3("] (", address.as_str(), ")");
                    self.push_text(words.as_str());
                }
            },
            _ => {},
        }
    }

    fn push_painted(&mut self, words: String, paint: Paint)
        ensures
            final(self)@ == said(old(self)@, words@, Face { paint, ..old(self).face }),
            final(self).columns == old(self).columns,
    {
        let mut face: Face = self.face;
        face.paint = paint;
        self.push_styled(words, face);
    }

    fn text_event(&mut self, event: &MarkdownEvent)
        requires
            old(self).code is None,
            old(self).table is None,
        ensures
            final(self)@ == in_text(old(self)@, event@, old(self).columns as int),
            final(self).columns == old(self).columns,
    {
        match event.kind {
            EventKind::Start => self.start(event),
            EventKind::End => self.end(event.tag),
            EventKind::Text => self.push_text(event.text.as_str()),
            EventKind::Html => self.push_text(event.text.as_str()),
            EventKind::InlineHtml => self.push_text(event.text.as_str()),
            EventKind::Code => {
                let mut face: Face = self.face;
                face.paint = Paint::Code;
                face.on_code = true;
                self.push_styled(event.text.clone(), face);
            },
            EventKind::InlineMath => {
                let words: String = text::joined3("$", event.text.as_str(), "$");
                self.push_painted(words, Paint::Accent);
            },
            EventKind::DisplayMath => {
                self.flush();
                let words: String = text::joined("  ", event.text.as_str());
                let lines: Vec<String> = wrap::wrap(words.as_str(), self.columns);
                self.push_faced(&lines, Face::plain(Paint::Accent));
                self.blank();
            },
            EventKind::SoftBreak => self.push_text(" "),
            EventKind::HardBreak => self.flush(),
            EventKind::Rule => {
                self.flush();
                let line: String = styled::repeated('─', self.columns);
                self.push_line(TextLine::one(line, Face::plain(Paint::Subtle)));
            },
            EventKind::Task(checked) => {
                self.prefix = Some(task_text(checked).to_owned());
            },
            EventKind::Footnote => {
                let words: String = text::joined3("[^", event.text.as_str(), "]");
                self.push_painted(words, Paint::Accent);
            },
        }
    }

    fn take_code(&mut self) -> (r: Option<CodeState>)
        ensures
            match r {
                Some(code) => old(self)@.code == Some((code.info@, code.body@)),
                None => old(self)@.code is None,
            },
            final(self)@ == (Page { code: None, ..old(self)@ }),
            final(self).code is None,
            final(self).columns == old(self).columns,
    {
        let mut taken: Option<CodeState> = None;
        std::mem::swap(&mut taken, &mut self.code);
        taken
    }

    fn take_table(&mut self) -> (r: Option<TableState>)
        ensures
            match r {
                Some(table) => old(self)@.table == Some(table@),
                None => old(self)@.table is None,
            },
            final(self)@ == (Page { table: None, ..old(self)@ }),
            final(self).table is None,
            final(self).code == old(self).code,
            final(self).columns == old(self).columns,
    {
        let mut taken: Option<TableState> = None;
        std::mem::swap(&mut taken, &mut self.table);
        taken
    }

    fn event(&mut self, event: &MarkdownEvent)
        ensures
            final(self)@ == after_event(old(self)@, event@, old(self).columns as int),
            final(self).columns == old(self).columns,
    {
        let ghost page = self@;
        match self.take_code() {
            Some(code) => {
                assert(page == (Page { code: Some((code.info@, code.body@)), ..self@ }));
                self.code_event(code, event);
            },
            None => {
                assert(self@ == page);
                match self.take_table() {
                    Some(table) => {
                        assert(page == (Page { table: Some(table@), ..self@ }));
                        self.table_event(table, event);
                    },
                    None => {
                        assert(self@ == page);
                        self.text_event(event);
                    },
                }
            },
        }
    }

    fn trim_blanks(&mut self)
        ensures
            final(self)@ == (Page { lines: without_blanks(old(self)@.lines), ..old(self)@ }),
    {
        let ghost page = self@;
        loop
            invariant
                self@ == (Page { lines: self@.lines, ..page }),
                without_blanks(self@.lines) == without_blanks(page.lines),
            ensures
                self@ == (Page { lines: without_blanks(page.lines), ..page }),
            decreases self.lines@.len(),
        {
            let count: usize = self.lines.len();
            assert(self@.lines.len() == count);
            if count == 0 {
                break;
            }
            let ghost lines = self@.lines;
            proof {
                assert(lines.last() == self.lines@[count - 1]@);
                assert(self.lines@[count - 1]@.len() == self.lines@[count - 1].spans@.len());
            }
            if self.lines[count - 1].spans.len() > 0 {
                break;
            }
            let popped: Option<TextLine> = self.lines.pop();
            assert(self@.lines =~= lines.drop_last());
        }
    }

    fn draw(self, events: &Vec<MarkdownEvent>) -> (r: MarkdownRenderOutput)
        requires
            self@ == blank_page(),
        ensures
            shows_page(
                r,
                drawn(markdown_events::event_views(events@), self.columns as int),
            ),
    {
        let ghost all = markdown_events::event_views(events@);
        let columns: usize = self.columns;
        let mut page: Renderer = self;
        let mut i: usize = 0;
        assert(all.take(0) =~= Seq::<EventView>::empty());
        while i < events.len()
            invariant
                i <= events@.len(),
                all == markdown_events::event_views(events@),
                columns == page.columns,
                page@ == after_events(all.take(i as int), columns as int),
            decreases events@.len() - i,
        {
            proof {
                assert(all.take(i + 1).drop_last() =~= all.take(i as int));
                assert(all.take(i + 1).last() == events@[i as int]@);
            }
            page.event(&events[i]);
            i += 1;
        }
        assert(all.take(events@.len() as int) =~= all);
        page.flush();
        page.trim_blanks();
        MarkdownRenderOutput { lines: page.lines, code_blocks: page.codes }
    }
}

/// Draws some events.
pub fn draw_events(events: &Vec<MarkdownEvent>, columns: usize) -> (r: MarkdownRenderOutput)
    ensures
        shows_page(
            r,
            drawn(markdown_events::event_views(events@), geometry::max(columns as int, 1)),
        ),
{
    let renderer: Renderer = Renderer::new(columns);
    renderer.draw(events)
}

/// Draws a text.
pub fn render_output(source: &Vec<String>, columns: usize) -> (r: MarkdownRenderOutput)
    ensures
        draws(text::join(text::views(source@), "\n"@), columns as int, r),
{
    let joined: String = text::join_texts(source, "\n");
    let events: Vec<MarkdownEvent> = markdown_events::read_events(
        joined.as_str(),
        markdown_events::RENDER_OPTIONS,
    );
    draw_events(&events, columns)
}

/// The lines of a text.
pub fn render(source: &Vec<String>, columns: usize) -> (r: Vec<TextLine>)
    ensures
        styled::line_views(r@) == drawn(
            markdown_events::events_of(
                text::join(text::views(source@), "\n"@),
                markdown_events::RENDER_OPTIONS,
            ),
            geometry::max(columns as int, 1),
        ).lines,
{
    render_output(source, columns).lines
}

/// The blocks of code that were read, and the one that is open.
pub struct Reading {
    pub open: Option<(Seq<char>, Seq<char>)>,
    pub blocks: Seq<CodeView>,
}

/// Reads one event for the blocks of code alone.
pub open spec fn code_read(reading: Reading, event: EventView) -> Reading {
    match (event.kind, reading.open) {
        (EventKind::Start, _) => if event.tag == TagKind::CodeBlock {
            Reading { open: Some((event.text, Seq::<char>::empty())), ..reading }
        } else {
            reading
        },
        (EventKind::Text, Some((info, body))) | (EventKind::Code, Some((info, body))) => Reading {
            open: Some((info, body + event.text)),
            ..reading
        },
        (EventKind::SoftBreak, Some((info, body))) | (EventKind::HardBreak, Some((info, body))) =>
            Reading { open: Some((info, body.push('\n'))), ..reading },
        (EventKind::End, Some((info, body))) => if event.tag == TagKind::CodeBlock {
            Reading {
                open: None,
                blocks: reading.blocks.push(
                    CodeView { info, body: without_feeds(body), first_line: 0, end_line: 0 },
                ),
            }
        } else {
            reading
        },
        _ => reading,
    }
}

/// Reads the events of a text in turn for its blocks of code.
pub open spec fn codes_read(events: Seq<EventView>) -> Reading
    decreases events.len(),
{
    if events.len() == 0 {
        Reading { open: None, blocks: Seq::<CodeView>::empty() }
    } else {
        code_read(codes_read(events.drop_last()), events.last())
    }
}

/// The blocks of code of a text, which no lines show.
pub fn code_blocks(source: &Vec<String>) -> (r: Vec<CodeBlockSpan>)
    ensures
        code_views(r@) == codes_read(
            markdown_events::events_of(
                text::join(text::views(source@), "\n"@),
                markdown_events::CODE_OPTIONS,
            ),
        ).blocks,
{
    let joined: String = text::join_texts(source, "\n");
    let events: Vec<MarkdownEvent> = markdown_events::read_events(
        joined.as_str(),
        markdown_events::CODE_OPTIONS,
    );
    collect_code(&events)
}

/// The blocks of code among some events, which no lines show.
pub fn collect_code(events: &Vec<MarkdownEvent>) -> (r: Vec<CodeBlockSpan>)
    ensures
        code_views(r@) == codes_read(markdown_events::event_views(events@)).blocks,
{
    let ghost all = markdown_events::event_views(events@);
    let mut reader: CodeReader = CodeReader { current: None, blocks: Vec::new() };
    let mut i: usize = 0;
    proof {
        assert(all.take(0) =~= Seq::<EventView>::empty());
        assert(reader@.blocks =~= Seq::<CodeView>::empty());
    }
    while i < events.len()
        invariant
            i <= events@.len(),
            all == markdown_events::event_views(events@),
            reader@ == codes_read(all.take(i as int)),
        decreases events@.len() - i,
    {
        proof {
            assert(all.take(i + 1).drop_last() =~= all.take(i as int));
            assert(all.take(i + 1).last() == events@[i as int]@);
        }
        reader.read(&events[i]);
        i += 1;
    }
    assert(all.take(events@.len() as int) =~= all);
    reader.blocks
}

/// Collects the blocks of code of a text.
struct CodeReader {
    current: Option<CodeState>,
    blocks: Vec<CodeBlockSpan>,
}

impl CodeReader {
    spec fn view(&self) -> Reading {
        Reading {
            open: match self.current {
                Some(code) => Some((code.info@, code.body@)),
                None => None,
            },
            blocks: code_views(self.blocks@),
        }
    }

    fn read(&mut self, event: &MarkdownEvent)
        ensures
            final(self)@ == code_read(old(self)@, event@),
    {
        if event.kind == EventKind::Start {
            if event.tag == TagKind::CodeBlock {
                let body: String = String::new();
                assert(body@ =~= Seq::<char>::empty());
                self.current = Some(CodeState { info: event.text.clone(), body });
            }
            return ;
        }
        let mut current: Option<CodeState> = None;
        std::mem::swap(&mut current, &mut self.current);
        if let Some(mut code) = current {
            let ghost body = code.body@;
            match event.kind {
                EventKind::Text => code.body.append(event.text.as_str()),
                EventKind::Code => code.body.append(event.text.as_str()),
                EventKind::SoftBreak => code.body.append("\n"),
                EventKind::HardBreak => code.body.append("\n"),
                EventKind::End => {
                    if event.tag == TagKind::CodeBlock {
                        self.close(code);
                        return ;
                    }
                },
                _ => {},
            }
            proof {
                reveal_strlit("\n");
                assert(body + "\n"@ =~= body.push('\n'));
            }
            self.current = Some(code);
        }
    }

    fn close(&mut self, code: CodeState)
        requires
            old(self).current is None,
        ensures
            final(self)@.open is None,
            final(self)@.blocks == old(self)@.blocks.push(
                CodeView {
                    info: code.info@,
                    body: without_feeds(code.body@),
                    first_line: 0,
                    end_line: 0,
                },
            ),
    {
        let ghost before = self@.blocks;
        let block: CodeBlockSpan = CodeBlockSpan {
            info: code.info,
            body: trim_feeds(code.body.as_str()),
            first_line: 0,
            end_line: 0,
        };
        let ghost told = block@;
        self.blocks.push(block);
        assert(self@.blocks =~= before.push(told));
    }
}

/// Whether a page goes on with what another one holds.
pub open spec fn goes_on(lines: Seq<Seq<SpanView>>, more: Seq<Seq<SpanView>>) -> bool {
    &&& lines.len() <= more.len()
    &&& forall|i: int| 0 <= i < lines.len() ==> #[trigger] more[i] == lines[i]
}

/// Whether the lines that a block of code names are the lines of its text.
pub open spec fn shows_code(lines: Seq<Seq<SpanView>>, code: CodeView, columns: int) -> bool {
    let source = text::split(code.body, '\n');
    &&& 0 < code.first_line <= code.end_line <= lines.len()
    &&& lines.subrange(code.first_line, code.end_line) == code_lines(
        source,
        columns,
        source.len() as int,
    )
    &&& lines[code.end_line - 1].len() > 0
}

/// Whether all blocks of code of a page lie on it.
pub open spec fn shows_codes(p: Page, columns: int) -> bool {
    forall|k: int| 0 <= k < p.codes.len() ==> shows_code(p.lines, #[trigger] p.codes[k], columns)
}

proof fn code_stays(
    lines: Seq<Seq<SpanView>>,
    more: Seq<Seq<SpanView>>,
    code: CodeView,
    columns: int,
)
    requires
        goes_on(lines, more),
        shows_code(lines, code, columns),
    ensures
        shows_code(more, code, columns),
{
    assert(more.subrange(code.first_line, code.end_line) =~= lines.subrange(
        code.first_line,
        code.end_line,
    ));
    assert(more[code.end_line - 1] == lines[code.end_line - 1]);
}

proof fn codes_stay(p: Page, q: Page, columns: int)
    requires
        goes_on(p.lines, q.lines),
        q.codes == p.codes,
        shows_codes(p, columns),
    ensures
        shows_codes(q, columns),
{
    assert forall|k: int| 0 <= k < q.codes.len() implies shows_code(
        q.lines,
        #[trigger] q.codes[k],
        columns,
    ) by {
        assert(shows_code(p.lines, p.codes[k], columns));
        code_stays(p.lines, q.lines, p.codes[k], columns);
    }
}

proof fn code_lines_have_text(lines: Seq<Seq<char>>, columns: int, n: int, i: int)
    requires
        0 <= i < code_lines(lines, columns, n).len(),
    ensures
        code_lines(lines, columns, n)[i].len() > 0,
    decreases n,
{
    if n > 0 {
        let before = code_lines(lines, columns, n - 1);
        if i < before.len() {
            code_lines_have_text(lines, columns, n - 1, i);
        }
    }
}

proof fn drawn_code_is_shown(p: Page, info: Seq<char>, body: Seq<char>, columns: int)
    requires
        shows_codes(p, columns),
    ensures
        shows_codes(code_drawn(p, info, body, columns), columns),
{
    let q = code_drawn(p, info, body, columns);
    let source = text::split(without_feeds(body), '\n');
    let drawn = code_lines(source, columns, source.len() as int);
    let title = code_line(code_title(info), columns, Paint::Muted);
    let added = p.lines + (seq![title] + drawn);
    let first = p.lines.len() as int + 1;
    assert(goes_on(added, q.lines));
    assert(goes_on(p.lines, q.lines));
    assert(q.codes.drop_last() =~= p.codes);
    assert(added.subrange(first, first + drawn.len()) =~= drawn);
    if drawn.len() > 0 {
        code_lines_have_text(source, columns, source.len() as int, drawn.len() - 1);
        assert(added[first + drawn.len() - 1] == drawn[drawn.len() - 1]);
    } else {
        assert(added[first - 1] == title);
    }
    let code = q.codes.last();
    assert(shows_code(added, code, columns));
    code_stays(added, q.lines, code, columns);
    assert forall|k: int| 0 <= k < q.codes.len() implies shows_code(
        q.lines,
        #[trigger] q.codes[k],
        columns,
    ) by {
        if k < p.codes.len() {
            assert(q.codes[k] == p.codes[k]);
            assert(shows_code(p.lines, p.codes[k], columns));
            code_stays(p.lines, q.lines, p.codes[k], columns);
        }
    }
}

proof fn begun_goes_on(p: Page, e: EventView, columns: int)
    ensures
        goes_on(p.lines, begun(p, e, columns).lines),
        begun(p, e, columns).codes == p.codes,
{
    assert(goes_on(p.lines, flushed(p, columns).lines));
}

proof fn ended_goes_on(p: Page, tag: TagKind, columns: int)
    ensures
        goes_on(p.lines, ended(p, tag, columns).lines),
        ended(p, tag, columns).codes == p.codes,
{
    let q = flushed(p, columns);
    assert(goes_on(p.lines, q.lines));
    let u = undressed(p);
    assert(u.lines == p.lines && u.codes == p.codes);
    assert(goes_on(u.lines, flushed(u, columns).lines));
}

proof fn text_goes_on(p: Page, e: EventView, columns: int)
    ensures
        goes_on(p.lines, in_text(p, e, columns).lines),
        in_text(p, e, columns).codes == p.codes,
{
    if e.kind == EventKind::Start {
        begun_goes_on(p, e, columns);
    } else if e.kind == EventKind::End {
        ended_goes_on(p, e.tag, columns);
    } else {
        assert(goes_on(p.lines, flushed(p, columns).lines));
    }
}

proof fn table_goes_on(p: Page, t: TableView, e: EventView, columns: int)
    ensures
        goes_on(p.lines, in_table(p, t, e, columns).lines),
        in_table(p, t, e, columns).codes == p.codes,
{
    assert(goes_on(p.lines, table_drawn(p, t, columns).lines));
}

proof fn events_show_code(p: Page, e: EventView, columns: int)
    requires
        shows_codes(p, columns),
    ensures
        shows_codes(after_event(p, e, columns), columns),
{
    let q = after_event(p, e, columns);
    match p.code {
        Some((info, body)) => {
            if e.kind == EventKind::End && e.tag == TagKind::CodeBlock {
                drawn_code_is_shown(p, info, body, columns);
            } else {
                codes_stay(p, q, columns);
            }
        },
        None => {
            match p.table {
                Some(t) => table_goes_on(p, t, e, columns),
                None => text_goes_on(p, e, columns),
            }
            codes_stay(p, q, columns);
        },
    }
}

proof fn pages_show_code(events: Seq<EventView>, columns: int)
    ensures
        shows_codes(after_events(events, columns), columns),
    decreases events.len(),
{
    if events.len() > 0 {
        pages_show_code(events.drop_last(), columns);
        events_show_code(after_events(events.drop_last(), columns), events.last(), columns);
    }
}

proof fn blanks_go_last(lines: Seq<Seq<SpanView>>, n: int)
    requires
        0 < n <= lines.len(),
        lines[n - 1].len() > 0,
    ensures
        n <= without_blanks(lines).len(),
        goes_on(without_blanks(lines), lines),
    decreases lines.len(),
{
    if lines.last().len() == 0 {
        let fewer = lines.drop_last();
        assert(fewer[n - 1] == lines[n - 1]);
        blanks_go_last(fewer, n);
        let kept = without_blanks(lines);
        assert(kept == without_blanks(fewer));
        assert forall|i: int| 0 <= i < kept.len() implies #[trigger] lines[i] == kept[i] by {
            assert(fewer[i] == kept[i]);
        }
    }
}

/// The lines that a drawn page names for a block of code are the lines of its text,
/// and all of them are on the page.
pub proof fn code_blocks_lie_on_the_page(events: Seq<EventView>, columns: int, k: int)
    requires
        0 <= k < drawn(events, columns).codes.len(),
    ensures
        shows_code(drawn(events, columns).lines, drawn(events, columns).codes[k], columns),
{
    let p = after_events(events, columns);
    let q = flushed(p, columns);
    pages_show_code(events, columns);
    codes_stay(p, q, columns);
    let code = q.codes[k];
    assert(shows_code(q.lines, code, columns));
    blanks_go_last(q.lines, code.end_line);
    let kept = without_blanks(q.lines);
    assert(kept.subrange(code.first_line, code.end_line) =~= q.lines.subrange(
        code.first_line,
        code.end_line,
    )) by {
        assert forall|i: int| code.first_line <= i < code.end_line implies kept[i]
            == q.lines[i] by {}
    }
    assert(kept[code.end_line - 1] == q.lines[code.end_line - 1]);
}

/// Whether the open paragraph can be drawn within a width: its marks leave room for a text,
/// and the text can be wrapped there.
pub open spec fn paragraph_fits(p: Page, columns: int) -> bool {
    let words = styled::line_text(p.current);
    let front = width::text_columns(prefix_of(p)) + width::text_columns(quote_marks(p.depth));
    ||| p.current.len() == 0 && p.prefix is None
    ||| words.len() == 0 && front <= columns
    ||| front < columns && wrap::wrappable(words, room_of(p, columns))
}

/// Whether a block of code can be drawn within a width: there is room for its title and for
/// the blanks in front of its lines, and the lines are narrow.
pub open spec fn code_fits(info: Seq<char>, body: Seq<char>, columns: int) -> bool {
    let source = text::split(without_feeds(body), '\n');
    &&& columns >= 2
    &&& width::text_columns(code_title(info)) <= columns
    &&& forall|k: int| 0 <= k < source.len() ==> width::narrow(#[trigger] source[k])
}

/// Whether an event outside code and tables draws the open paragraph.
pub open spec fn ends_paragraph(e: EventView) -> bool {
    match e.kind {
        EventKind::Start => match e.tag {
            TagKind::Heading => true,
            TagKind::BlockQuote => true,
            TagKind::CodeBlock => true,
            TagKind::Table => true,
            _ => false,
        },
        EventKind::End => match e.tag {
            TagKind::Paragraph => true,
            TagKind::Heading => true,
            TagKind::BlockQuote => true,
            TagKind::List => true,
            TagKind::Item => true,
            _ => false,
        },
        EventKind::DisplayMath => true,
        EventKind::HardBreak => true,
        EventKind::Rule => true,
        _ => false,
    }
}

/// Whether what an event draws can be drawn within a width.
pub open spec fn fits(p: Page, e: EventView, columns: int) -> bool {
    match p.code {
        Some((info, body)) => e.kind == EventKind::End && e.tag == TagKind::CodeBlock
            ==> code_fits(info, body, columns),
        None => match p.table {
            Some(t) => e.kind == EventKind::End && e.tag == TagKind::Table
                ==> markdown_table::table_wrappable(t.rows, columns),
            None => {
                &&& ends_paragraph(e) ==> paragraph_fits(p, columns)
                &&& e.kind == EventKind::DisplayMath ==> wrap::wrappable("  "@ + e.text, columns)
            },
        },
    }
}

/// Whether a text is empty or ends with a blank.
spec fn ends_blank(s: Seq<char>) -> bool {
    s.len() == 0 || s.last() == ' '
}

/// Whether the lines of a page stay within a width, and a blank ends what is in front of the
/// open paragraph.
spec fn page_within(p: Page, columns: int) -> bool {
    &&& styled::within(p.lines, columns)
    &&& ends_blank(prefix_of(p))
}

proof fn columns_join(a: Seq<char>, b: Seq<char>)
    requires
        ends_blank(a),
    ensures
        width::text_columns(a + b) == width::text_columns(a) + width::text_columns(b),
{
    width::narrow_is_as_wide(Seq::empty());
    if a.len() == 0 {
        assert(a =~= Seq::<char>::empty());
        assert(a + b =~= b);
    } else {
        let front = a.drop_last();
        assert(front.push(' ') =~= a);
        assert(a + Seq::<char>::empty() =~= a);
        width::blanks_part_texts(front, b);
        width::blanks_part_texts(front, Seq::empty());
    }
}

proof fn marks_end_blank(depth: int)
    ensures
        ends_blank(quote_marks(depth)),
    decreases depth,
{
    if depth > 0 {
        reveal_strlit("│ ");
        assert(quote_marks(depth).last() == "│ "@.last());
    }
}

proof fn prefixes_end_blank(lists: Seq<Option<u64>>, checked: bool)
    ensures
        ends_blank(item_prefix(lists)),
        ends_blank(task_mark(checked)),
{
    reveal_strlit("• ");
    reveal_strlit(". ");
    reveal_strlit("☑ ");
    reveal_strlit("☐ ");
    assert(item_prefix(lists).last() == ' ');
}

proof fn piece_text(words: Seq<char>, shown: Seq<char>, face: Face)
    ensures
        styled::line_text(unless_empty(words, shown, face)) == if words.len() > 0 {
            shown
        } else {
            Seq::empty()
        },
{
    if words.len() > 0 {
        styled::one_span_text(shown, face);
    }
}

proof fn paragraph_line_columns(p: Page, columns: int, i: int)
    ensures
        ends_blank(prefix_of(p)) ==> width::text_columns(
            styled::line_text(paragraph_line(p, columns, i)),
        ) == width::text_columns(quote_marks(p.depth)) + width::text_columns(prefix_of(p))
            + width::text_columns(
            wrap::wrapped(styled::line_text(p.current), room_of(p, columns))[i],
        ),
{
    let plain = styled::line_text(p.current);
    let words = wrap::wrapped(plain, room_of(p, columns))[i];
    let marks = quote_marks(p.depth);
    let prefix = prefix_of(p);
    let n = width::text_columns(prefix) as int;
    let shown = if i == 0 {
        prefix
    } else {
        picker::blanks(n)
    };
    let first = unless_empty(marks, marks, Face::of(Paint::Subtle));
    let second = unless_empty(prefix, shown, Face::of(Paint::Accent));
    let third = if i == 0 && words == plain {
        p.current
    } else {
        styled::one_span(words, p.face)
    };
    piece_text(marks, marks, Face::of(Paint::Subtle));
    piece_text(prefix, shown, Face::of(Paint::Accent));
    styled::one_span_text(words, p.face);
    styled::line_text_joins(first + second, third);
    styled::line_text_joins(first, second);
    let front = styled::line_text(first);
    let middle = styled::line_text(second);
    assert(front =~= marks);
    assert(styled::line_text(third) == words);
    marks_end_blank(p.depth);
    width::narrow_is_as_wide(Seq::empty());
    if ends_blank(prefix) {
        assert(middle + words == middle + styled::line_text(third));
        assert(styled::line_text(paragraph_line(p, columns, i)) =~= marks + (middle + words));
        columns_join(marks, middle + words);
        if prefix.len() == 0 {
            assert(prefix =~= Seq::<char>::empty());
            assert(middle + words =~= words);
        } else if i == 0 {
            columns_join(prefix, words);
        } else {
            styled::blanks_in_front(n, words);
        }
    }
}

proof fn paragraphs_stay_within(p: Page, columns: int)
    requires
        columns > 0,
        page_within(p, columns),
        paragraph_fits(p, columns),
    ensures
        page_within(flushed(p, columns), columns),
{
    if !(p.current.len() == 0 && p.prefix is None) {
        let plain = styled::line_text(p.current);
        let room = room_of(p, columns);
        let texts = wrap::wrapped(plain, room);
        let lines = paragraph_lines(p, columns);
        width::narrow_is_as_wide(Seq::empty());
        if plain.len() > 0 {
            wrap::lines_stay_within(plain, room);
        }
        assert forall|i: int| 0 <= i < lines.len() implies width::text_columns(
            styled::line_text(#[trigger] lines[i]),
        ) <= columns by {
            paragraph_line_columns(p, columns, i);
            assert(lines[i] == paragraph_line(p, columns, i));
            if plain.len() == 0 {
                assert(texts[i] =~= Seq::<char>::empty());
            } else {
                assert(width::text_columns(texts[i]) <= room);
            }
        }
        styled::within_joins(p.lines, lines, columns);
    }
}

proof fn spaces_stay_within(p: Page, columns: int)
    requires
        columns > 0,
        page_within(p, columns),
    ensures
        page_within(spaced(p), columns),
{
    width::narrow_is_as_wide(Seq::empty());
    let blank = seq![Seq::<SpanView>::empty()];
    styled::within_joins(p.lines, blank, columns);
}

proof fn chunks_are_narrow(s: Seq<char>, size: int)
    requires
        width::narrow(s),
        size >= 0,
    ensures
        forall|i: int|
            0 <= i < wrap::chunks(s, size).len() ==> width::narrow(
                #[trigger] wrap::chunks(s, size)[i],
            ) && wrap::chunks(s, size)[i].len() <= size,
    decreases s.len(),
{
    if size > 0 && s.len() > size {
        let first = s.take(size);
        let rest = s.skip(size);
        assert forall|i: int| 0 <= i < first.len() implies width::narrow_char(
            #[trigger] first[i],
        ) by {
            assert(first[i] == s[i]);
        }
        assert forall|i: int| 0 <= i < rest.len() implies width::narrow_char(#[trigger] rest[i]) by {
            assert(rest[i] == s[size + i]);
        }
        chunks_are_narrow(rest, size);
        let all = wrap::chunks(s, size);
        assert forall|i: int| 0 <= i < all.len() implies width::narrow(#[trigger] all[i])
            && all[i].len() <= size by {
            if i > 0 {
                assert(all[i] == wrap::chunks(rest, size)[i - 1]);
            }
        }
    }
}

proof fn code_line_stays_within(words: Seq<char>, columns: int, paint: Paint)
    requires
        width::text_columns(words) <= columns,
    ensures
        styled::within(seq![code_line(words, columns, paint)], columns),
{
    styled::filled_up_within(words, columns);
    styled::one_line_within(styled::filled_up(words, columns), code_face(paint), columns);
}

proof fn code_lines_stay_within(lines: Seq<Seq<char>>, columns: int, n: int)
    requires
        columns >= 2,
        n <= lines.len(),
        forall|k: int| 0 <= k < lines.len() ==> width::narrow(#[trigger] lines[k]),
    ensures
        styled::within(code_lines(lines, columns, n), columns),
    decreases n,
{
    if n > 0 {
        code_lines_stay_within(lines, columns, n - 1);
        let line = lines[n - 1];
        let pieces = wrap::chunks(line, columns - 2);
        let drawn = code_pieces(line, columns);
        chunks_are_narrow(line, columns - 2);
        assert forall|i: int| 0 <= i < drawn.len() implies width::text_columns(
            styled::line_text(#[trigger] drawn[i]),
        ) <= columns by {
            let words = "  "@ + pieces[i];
            reveal_strlit("  ");
            assert(words =~= picker::blanks(2) + pieces[i]);
            styled::blanks_in_front(2, pieces[i]);
            width::narrow_is_as_wide(pieces[i]);
            styled::filled_up_within(words, columns);
            styled::one_span_text(styled::filled_up(words, columns), code_face(Paint::Code));
        }
        styled::within_joins(code_lines(lines, columns, n - 1), drawn, columns);
    }
}

proof fn codes_stay_within(p: Page, info: Seq<char>, body: Seq<char>, columns: int)
    requires
        page_within(p, columns),
        code_fits(info, body, columns),
    ensures
        page_within(code_drawn(p, info, body, columns), columns),
{
    let source = text::split(without_feeds(body), '\n');
    let title = seq![code_line(code_title(info), columns, Paint::Muted)];
    let drawn = code_lines(source, columns, source.len() as int);
    code_line_stays_within(code_title(info), columns, Paint::Muted);
    code_lines_stay_within(source, columns, source.len() as int);
    styled::within_joins(title, drawn, columns);
    styled::within_joins(p.lines, title + drawn, columns);
    let first = p.lines.len() as int + 1;
    let q = Page {
        lines: p.lines + (title + drawn),
        codes: p.codes.push(
            CodeView {
                info,
                body: without_feeds(body),
                first_line: first,
                end_line: first + drawn.len(),
            },
        ),
        code: None,
        ..p
    };
    spaces_stay_within(q, columns);
}

proof fn tables_stay_within(p: Page, t: TableView, e: EventView, columns: int)
    requires
        columns > 0,
        page_within(p, columns),
        e.kind == EventKind::End && e.tag == TagKind::Table ==> markdown_table::table_wrappable(
            t.rows,
            columns,
        ),
    ensures
        page_within(in_table(p, t, e, columns), columns),
{
    if e.kind == EventKind::End && e.tag == TagKind::Table {
        let lines = markdown_table::table_lines(t.rows, t.alignments, columns);
        markdown_table::tables_stay_within(t.rows, t.alignments, columns);
        styled::within_joins(p.lines, lines, columns);
        spaces_stay_within(Page { lines: p.lines + lines, table: None, ..p }, columns);
    }
}

proof fn begun_stays_within(p: Page, e: EventView, columns: int)
    requires
        columns > 0,
        page_within(p, columns),
        e.kind == EventKind::Start,
        ends_paragraph(e) ==> paragraph_fits(p, columns),
    ensures
        page_within(begun(p, e, columns), columns),
{
    prefixes_end_blank(p.lists, false);
    if ends_paragraph(e) {
        paragraphs_stay_within(p, columns);
    }
}

proof fn ended_stays_within(p: Page, e: EventView, columns: int)
    requires
        columns > 0,
        page_within(p, columns),
        e.kind == EventKind::End,
        ends_paragraph(e) ==> paragraph_fits(p, columns),
    ensures
        page_within(ended(p, e.tag, columns), columns),
{
    if ends_paragraph(e) {
        let u = undressed(p);
        assert(paragraph_fits(u, columns));
        paragraphs_stay_within(p, columns);
        paragraphs_stay_within(u, columns);
        let q = flushed(p, columns);
        spaces_stay_within(q, columns);
        spaces_stay_within(flushed(u, columns), columns);
        spaces_stay_within(Page { depth: geometry::less(q.depth, 1), ..q }, columns);
        let lists = if q.lists.len() > 0 {
            q.lists.drop_last()
        } else {
            q.lists
        };
        spaces_stay_within(Page { lists, ..q }, columns);
    }
}

proof fn text_stays_within(p: Page, e: EventView, columns: int)
    requires
        columns > 0,
        page_within(p, columns),
        e.kind != EventKind::Start,
        e.kind != EventKind::End,
        ends_paragraph(e) ==> paragraph_fits(p, columns),
        e.kind == EventKind::DisplayMath ==> wrap::wrappable("  "@ + e.text, columns),
    ensures
        page_within(in_text(p, e, columns), columns),
{
    prefixes_end_blank(p.lists, true);
    prefixes_end_blank(p.lists, false);
    let q = flushed(p, columns);
    if ends_paragraph(e) {
        paragraphs_stay_within(p, columns);
    }
    if e.kind == EventKind::DisplayMath {
        let texts = wrap::wrapped("  "@ + e.text, columns);
        let face = Face::of(Paint::Accent);
        wrap::lines_stay_within("  "@ + e.text, columns);
        styled::faced_within(texts, face, columns);
        styled::within_joins(q.lines, styled::faced(texts, face), columns);
        spaces_stay_within(lined(q, styled::faced(texts, face)), columns);
    } else if e.kind == EventKind::Rule {
        let rule = styled::times('─', columns);
        assert(width::narrow(rule)) by {
            assert(width::narrow_char('─'));
        }
        width::narrow_is_as_wide(rule);
        styled::one_line_within(rule, Face::of(Paint::Subtle), columns);
        styled::within_joins(
            q.lines,
            seq![styled::one_span(rule, Face::of(Paint::Subtle))],
            columns,
        );
    }
}

proof fn event_stays_within(p: Page, e: EventView, columns: int)
    requires
        columns > 0,
        page_within(p, columns),
        fits(p, e, columns),
    ensures
        page_within(after_event(p, e, columns), columns),
{
    match p.code {
        Some((info, body)) => {
            if e.kind == EventKind::End && e.tag == TagKind::CodeBlock {
                codes_stay_within(p, info, body, columns);
            }
        },
        None => match p.table {
            Some(t) => tables_stay_within(p, t, e, columns),
            None => {
                if e.kind == EventKind::Start {
                    begun_stays_within(p, e, columns);
                } else if e.kind == EventKind::End {
                    ended_stays_within(p, e, columns);
                } else {
                    text_stays_within(p, e, columns);
                }
            },
        },
    }
}

proof fn events_stay_within(events: Seq<EventView>, columns: int, n: int)
    requires
        columns > 0,
        0 <= n <= events.len(),
        forall|k: int|
            0 <= k < events.len() ==> fits(
                after_events(events.take(k), columns),
                #[trigger] events[k],
                columns,
            ),
    ensures
        page_within(after_events(events.take(n), columns), columns),
    decreases n,
{
    if n > 0 {
        events_stay_within(events, columns, n - 1);
        assert(events.take(n).drop_last() =~= events.take(n - 1));
        assert(events.take(n).last() == events[n - 1]);
        event_stays_within(after_events(events.take(n - 1), columns), events[n - 1], columns);
    }
}

proof fn kept_lines_stay_within(lines: Seq<Seq<SpanView>>, columns: int)
    requires
        styled::within(lines, columns),
    ensures
        styled::within(without_blanks(lines), columns),
    decreases lines.len(),
{
    if lines.len() > 0 && lines.last().len() == 0 {
        let fewer = lines.drop_last();
        assert forall|i: int| 0 <= i < fewer.len() implies width::text_columns(
            styled::line_text(#[trigger] fewer[i]),
        ) <= columns by {
            assert(fewer[i] == lines[i]);
        }
        kept_lines_stay_within(fewer, columns);
    }
}

/// The lines that Markdown is drawn as stay within the width, where each paragraph, block of
/// code and table that is drawn can be: see `paragraph_fits`, `code_fits` and
/// `markdown_table::table_wrappable`.
pub proof fn drawn_lines_stay_within(events: Seq<EventView>, columns: int)
    requires
        columns > 0,
        forall|k: int|
            0 <= k < events.len() ==> fits(
                after_events(events.take(k), columns),
                #[trigger] events[k],
                columns,
            ),
        paragraph_fits(after_events(events, columns), columns),
    ensures
        styled::within(drawn(events, columns).lines, columns),
{
    events_stay_within(events, columns, events.len() as int);
    assert(events.take(events.len() as int) =~= events);
    paragraphs_stay_within(after_events(events, columns), columns);
    kept_lines_stay_within(flushed(after_events(events, columns), columns).lines, columns);
}

} // verus!
