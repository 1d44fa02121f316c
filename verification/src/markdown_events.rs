//! Markdown, read into events.

use pulldown_cmark::{CodeBlockKind, Event, Options, Parser, Tag, TagEnd};
use vstd::prelude::*;

use crate::text;

verus! {

broadcast use vstd::string::group_string_axioms;

/// Tables, struck text, task lists, formulas and the dialect of GitHub.
pub const RENDER_OPTIONS: u32 = 3098;

/// Tables, task lists and the dialect of GitHub.
pub const CODE_OPTIONS: u32 = 2066;

/// What an event of a text is.
#[derive(Clone, Copy, Debug, PartialEq, Eq, Structural)]
pub enum EventKind {
    Start,
    End,
    Text,
    Code,
    InlineMath,
    DisplayMath,
    SoftBreak,
    HardBreak,
    Rule,
    Task(bool),
    Html,
    InlineHtml,
    Footnote,
}

/// What begins or ends with an event. Events that begin or end nothing, or
/// something that is drawn like the text around it, have `Other`.
#[derive(Clone, Copy, Debug, PartialEq, Eq, Structural)]
pub enum TagKind {
    Paragraph,
    Heading,
    BlockQuote,
    CodeBlock,
    List,
    Item,
    Emphasis,
    Strong,
    Strikethrough,
    Link,
    Image,
    Table,
    Head,
    Row,
    Cell,
    Other,
}

/// How a column of a table is aligned.
#[derive(Clone, Copy, Debug, PartialEq, Eq, Structural)]
pub enum Alignment {
    Unset,
    Left,
    Center,
    Right,
}

/// An event of a text.
#[derive(Clone, Debug)]
pub struct MarkdownEvent {
    pub kind: EventKind,
    pub tag: TagKind,
    /// The text of the event, the words behind the fence of a code block, or
    /// the address of a link or an image.
    pub text: String,
    /// The number that an ordered list begins with.
    pub number: Option<u64>,
    /// The columns of a table.
    pub alignments: Vec<Alignment>,
}

/// The contents of an event.
pub struct EventView {
    pub kind: EventKind,
    pub tag: TagKind,
    pub text: Seq<char>,
    pub number: Option<u64>,
    pub alignments: Seq<Alignment>,
}

impl MarkdownEvent {
    /// The contents of the event.
    pub open spec fn view(&self) -> EventView {
        EventView {
            kind: self.kind,
            tag: self.tag,
            text: self.text@,
            number: self.number,
            alignments: self.alignments@,
        }
    }
}

/// The contents of some events.
pub open spec fn event_views(v: Seq<MarkdownEvent>) -> Seq<EventView> {
    v.map_values(|e: MarkdownEvent| e@)
}

/// The events of a text, as `pulldown-cmark` reads it.
pub uninterp spec fn events_of(source: Seq<char>, options: u32) -> Seq<EventView>;

/// `pulldown_cmark::Parser::new_ext`, and of each event that it gives what it
/// is. The events depend on the text and the options alone. The other readers
/// below give the other parts of the same events.
#[verifier::external_body]
fn read_kinds(source: &str, options: u32) -> (r: Vec<EventKind>)
    ensures
        r@ == events_of(source@, options).map_values(|e: EventView| e.kind),
{
    Parser::new_ext(source, Options::from_bits_truncate(options)).map(|event| match event {
        Event::Start(_) => EventKind::Start,
        Event::End(_) => EventKind::End,
        Event::Text(_) => EventKind::Text,
        Event::Code(_) => EventKind::Code,
        Event::InlineMath(_) => EventKind::InlineMath,
        Event::DisplayMath(_) => EventKind::DisplayMath,
        Event::SoftBreak => EventKind::SoftBreak,
        Event::HardBreak => EventKind::HardBreak,
        Event::Rule => EventKind::Rule,
        Event::TaskListMarker(checked) => EventKind::Task(checked),
        Event::Html(_) => EventKind::Html,
        Event::InlineHtml(_) => EventKind::InlineHtml,
        Event::FootnoteReference(_) => EventKind::Footnote,
    }).collect()
}

/// `pulldown_cmark::Parser::new_ext`, and of each event that it gives what
/// begins or ends with it. Blocks of HTML and of metadata, footnotes, lists of
/// definitions and raised or lowered text are not told apart.
#[verifier::external_body]
fn read_tags(source: &str, options: u32) -> (r: Vec<TagKind>)
    ensures
        r@ == events_of(source@, options).map_values(|e: EventView| e.tag),
{
    Parser::new_ext(source, Options::from_bits_truncate(options)).map(|event| match match event {
        Event::Start(tag) => tag.to_end(), Event::End(end) => end, _ => TagEnd::HtmlBlock } {
        TagEnd::Paragraph => TagKind::Paragraph, TagEnd::Heading(_) => TagKind::Heading,
        TagEnd::BlockQuote(_) => TagKind::BlockQuote, TagEnd::CodeBlock => TagKind::CodeBlock,
        TagEnd::List(_) => TagKind::List, TagEnd::Item => TagKind::Item,
        TagEnd::Emphasis => TagKind::Emphasis, TagEnd::Strong => TagKind::Strong,
        TagEnd::Strikethrough => TagKind::Strikethrough,
        TagEnd::Link => TagKind::Link, TagEnd::Image => TagKind::Image,
        TagEnd::Table => TagKind::Table, TagEnd::TableCell => TagKind::Cell,
        TagEnd::TableHead => TagKind::Head, TagEnd::TableRow => TagKind::Row,
        _ => TagKind::Other,
    }).collect()
}

/// `pulldown_cmark::Parser::new_ext`, and of each event that it gives its
/// text, empty for those without one.
#[verifier::external_body]
fn read_texts(source: &str, options: u32) -> (r: Vec<String>)
    ensures
        text::views(r@) == events_of(source@, options).map_values(|e: EventView| e.text),
{
    Parser::new_ext(source, Options::from_bits_truncate(options)).map(|event| match event {
        Event::Text(words) | Event::Code(words) | Event::InlineMath(words)
        | Event::DisplayMath(words) | Event::Html(words) | Event::InlineHtml(words)
        | Event::FootnoteReference(words)
        | Event::Start(Tag::CodeBlock(CodeBlockKind::Fenced(words)))
        | Event::Start(Tag::Link { dest_url: words, .. })
        | Event::Start(Tag::Image { dest_url: words, .. }) => words.into_string(),
        _ => String::new(),
    }).collect()
}

/// `pulldown_cmark::Parser::new_ext`, and of each event that it gives the
/// number of the ordered list that begins with it.
#[verifier::external_body]
fn read_numbers(source: &str, options: u32) -> (r: Vec<Option<u64>>)
    ensures
        r@ == events_of(source@, options).map_values(|e: EventView| e.number),
{
    Parser::new_ext(source, Options::from_bits_truncate(options)).map(|event| match event {
        Event::Start(Tag::List(number)) => number,
        _ => None,
    }).collect()
}

/// What some lists of columns hold.
pub open spec fn column_views(v: Seq<Vec<Alignment>>) -> Seq<Seq<Alignment>> {
    v.map_values(|columns: Vec<Alignment>| columns@)
}

/// `pulldown_cmark::Parser::new_ext`, and of each event that it gives the
/// columns of the table that begins with it, none for other events.
#[verifier::external_body]
fn read_columns(source: &str, options: u32) -> (r: Vec<Vec<Alignment>>)
    ensures
        column_views(r@) == events_of(source@, options).map_values(
            |e: EventView| e.alignments,
        ),
{
    Parser::new_ext(source, Options::from_bits_truncate(options)).map(|event| match event {
        Event::Start(Tag::Table(columns)) => columns.into_iter().map(|column| match column {
            pulldown_cmark::Alignment::None => Alignment::Unset,
            pulldown_cmark::Alignment::Left => Alignment::Left,
            pulldown_cmark::Alignment::Center => Alignment::Center,
            pulldown_cmark::Alignment::Right => Alignment::Right,
        }).collect(),
        _ => Vec::new(),
    }).collect()
}

/// Reads a text into events.
pub fn read_events(source: &str, options: u32) -> (r: Vec<MarkdownEvent>)
    ensures
        event_views(r@) == events_of(source@, options),
{
    let ghost all = events_of(source@, options);
    let kinds: Vec<EventKind> = read_kinds(source, options);
    let tags: Vec<TagKind> = read_tags(source, options);
    let texts: Vec<String> = read_texts(source, options);
    let numbers: Vec<Option<u64>> = read_numbers(source, options);
    let columns: Vec<Vec<Alignment>> = read_columns(source, options);
    let mut out: Vec<MarkdownEvent> = Vec::new();
    let mut i: usize = 0;
    proof {
        assert(text::views(texts@).len() == texts@.len());
        assert(column_views(columns@).len() == columns@.len());
    }
    while i < kinds.len()
        invariant
            i <= kinds@.len(),
            out@.len() == i,
            kinds@ == all.map_values(|e: EventView| e.kind),
            tags@ == all.map_values(|e: EventView| e.tag),
            numbers@ == all.map_values(|e: EventView| e.number),
            text::views(texts@) == all.map_values(|e: EventView| e.text),
            texts@.len() == all.len(),
            column_views(columns@) == all.map_values(|e: EventView| e.alignments),
            columns@.len() == all.len(),
            forall|k: int| 0 <= k < i ==> (#[trigger] out@[k])@ == all[k],
        decreases kinds@.len() - i,
    {
        proof {
            assert(text::views(texts@)[i as int] == texts@[i as int]@);
            assert(column_views(columns@)[i as int] == columns@[i as int]@);
        }
        out.push(
            MarkdownEvent {
                kind: kinds[i],
                tag: tags[i],
                text: texts[i].clone(),
                number: numbers[i],
                alignments: copy_columns(&columns[i]),
            },
        );
        i += 1;
    }
    assert(event_views(out@) =~= all);
    out
}

pub(crate) fn copy_columns(v: &Vec<Alignment>) -> (r: Vec<Alignment>)
    ensures
        r@ == v@,
{
    let mut out: Vec<Alignment> = Vec::new();
    let mut i: usize = 0;
    while i < v.len()
        invariant
            i <= v@.len(),
            out@ == v@.take(i as int),
        decreases v@.len() - i,
    {
        out.push(v[i]);
        i += 1;
        assert(out@ =~= v@.take(i as int));
    }
    assert(out@ =~= v@);
    out
}

} // verus!
