//! Lines of text in several faces.

use vstd::prelude::*;

use crate::geometry;
use crate::picker;
use crate::text;
use crate::width;
use crate::wrap;

verus! {

broadcast use vstd::string::group_string_axioms;

/// The colours of text, by what they are for.
#[derive(Clone, Copy, Debug, PartialEq, Eq, Structural)]
pub enum Paint {
    Foreground,
    Muted,
    Subtle,
    Accent,
    Code,
}

/// How text looks.
#[derive(Clone, Copy, Debug, PartialEq, Eq, Structural)]
pub struct Face {
    pub paint: Paint,
    pub on_code: bool,
    pub bold: bool,
    pub italic: bool,
    pub crossed: bool,
    pub underlined: bool,
}

impl Face {
    /// Text in a colour and nothing else.
    pub open spec fn of(paint: Paint) -> Face {
        Face {
            paint,
            on_code: false,
            bold: false,
            italic: false,
            crossed: false,
            underlined: false,
        }
    }

    /// Text in a colour and nothing else.
    pub fn plain(paint: Paint) -> (r: Face)
        ensures
            r == Face::of(paint),
    {
        Face {
            paint,
            on_code: false,
            bold: false,
            italic: false,
            crossed: false,
            underlined: false,
        }
    }
}

/// A piece of a line in one face.
#[derive(Clone, Debug)]
pub struct TextSpan {
    pub text: String,
    pub face: Face,
}

/// The contents of a piece of a line.
pub struct SpanView {
    pub text: Seq<char>,
    pub face: Face,
}

impl TextSpan {
    /// The contents of the piece.
    pub open spec fn view(&self) -> SpanView {
        SpanView { text: self.text@, face: self.face }
    }
}

/// The contents of some pieces.
pub open spec fn span_views(v: Seq<TextSpan>) -> Seq<SpanView> {
    v.map_values(|s: TextSpan| s@)
}

/// A line.
#[derive(Clone, Debug)]
pub struct TextLine {
    pub spans: Vec<TextSpan>,
}

impl TextLine {
    /// The pieces of the line.
    pub open spec fn view(&self) -> Seq<SpanView> {
        span_views(self.spans@)
    }

    /// A line in one face.
    pub fn one(words: String, face: Face) -> (r: TextLine)
        ensures
            r@ == one_span(words@, face),
    {
        let mut spans: Vec<TextSpan> = Vec::new();
        spans.push(TextSpan { text: words, face });
        assert(span_views(spans@) =~= one_span(words@, face));
        TextLine { spans }
    }

    /// An empty line.
    pub fn empty() -> (r: TextLine)
        ensures
            r@ == Seq::<SpanView>::empty(),
    {
        let spans: Vec<TextSpan> = Vec::new();
        assert(span_views(spans@) =~= Seq::<SpanView>::empty());
        TextLine { spans }
    }

    /// The text of the line.
    pub fn words(&self) -> (r: String)
        ensures
            r@ == line_text(self@),
    {
        let mut out: String = String::new();
        let mut i: usize = 0;
        assert(self@.take(0) =~= Seq::<SpanView>::empty());
        while i < self.spans.len()
            invariant
                i <= self.spans@.len(),
                out@ == line_text(self@.take(i as int)),
            decreases self.spans@.len() - i,
        {
            proof {
                assert(self@.take(i + 1).drop_last() =~= self@.take(i as int));
                assert(self@.take(i + 1).last() == self.spans@[i as int]@);
            }
            out.append(self.spans[i].text.as_str());
            i += 1;
        }
        assert(self@.take(self@.len() as int) =~= self@);
        out
    }
}

/// A line in one face.
pub open spec fn one_span(words: Seq<char>, face: Face) -> Seq<SpanView> {
    seq![SpanView { text: words, face }]
}

/// The text of a line.
pub open spec fn line_text(line: Seq<SpanView>) -> Seq<char>
    decreases line.len(),
{
    if line.len() == 0 {
        Seq::empty()
    } else {
        line_text(line.drop_last()) + line.last().text
    }
}

/// Every line is at most so many columns wide.
pub open spec fn within(lines: Seq<Seq<SpanView>>, columns: int) -> bool {
    forall|i: int|
        0 <= i < lines.len() ==> width::text_columns(line_text(#[trigger] lines[i])) <= columns
}

/// The text of a line in one face.
pub proof fn one_span_text(words: Seq<char>, face: Face)
    ensures
        line_text(one_span(words, face)) == words,
{
    let line = one_span(words, face);
    assert(line.drop_last() =~= Seq::<SpanView>::empty());
    assert(line_text(line.drop_last()) + words =~= words);
}

/// The text of two pieces of a line.
pub proof fn line_text_joins(a: Seq<SpanView>, b: Seq<SpanView>)
    ensures
        line_text(a + b) == line_text(a) + line_text(b),
    decreases b.len(),
{
    if b.len() == 0 {
        assert(a + b =~= a);
        assert(line_text(a) + line_text(b) =~= line_text(a));
    } else {
        assert((a + b).drop_last() =~= a + b.drop_last());
        line_text_joins(a, b.drop_last());
        assert(line_text(a) + line_text(b) =~= line_text(a) + line_text(b.drop_last())
            + b.last().text);
    }
}

/// Lines that stay within a width, and more of them.
pub proof fn within_joins(a: Seq<Seq<SpanView>>, b: Seq<Seq<SpanView>>, columns: int)
    requires
        within(a, columns),
        within(b, columns),
    ensures
        within(a + b, columns),
{
    let all = a + b;
    assert forall|i: int| 0 <= i < all.len() implies width::text_columns(
        line_text(#[trigger] all[i]),
    ) <= columns by {
        if i < a.len() {
            assert(all[i] == a[i]);
        } else {
            assert(all[i] == b[i - a.len()]);
        }
    }
}

/// A line in one face that stays within a width.
pub proof fn one_line_within(words: Seq<char>, face: Face, columns: int)
    requires
        width::text_columns(words) <= columns,
    ensures
        within(seq![one_span(words, face)], columns),
{
    one_span_text(words, face);
}

/// Wrapped lines in one face stay within a width as the lines do.
pub proof fn faced_within(texts: Seq<Seq<char>>, face: Face, columns: int)
    requires
        wrap::within(texts, columns),
    ensures
        within(faced(texts, face), columns),
{
    let lines = faced(texts, face);
    assert forall|i: int| 0 <= i < lines.len() implies width::text_columns(
        line_text(#[trigger] lines[i]),
    ) <= columns by {
        one_span_text(texts[i], face);
        assert(width::text_columns(texts[i]) <= columns);
    }
}

/// Blanks in front of a text take one column each.
pub proof fn blanks_in_front(n: int, s: Seq<char>)
    requires
        n >= 0,
    ensures
        width::text_columns(picker::blanks(n) + s) == n + width::text_columns(s),
    decreases n,
{
    if n == 0 {
        assert(picker::blanks(n) + s =~= s);
    } else {
        let rest = picker::blanks(n - 1) + s;
        blanks_in_front(n - 1, s);
        width::narrow_is_as_wide(Seq::empty());
        width::blanks_part_texts(Seq::empty(), rest);
        assert(picker::blanks(n) + s =~= Seq::<char>::empty().push(' ') + rest);
    }
}

/// A text that is filled up takes the columns that it is filled up to.
pub proof fn filled_up_within(words: Seq<char>, columns: int)
    requires
        width::text_columns(words) <= columns,
    ensures
        width::text_columns(filled_up(words, columns)) == columns,
{
    let n = columns - width::text_columns(words);
    if n == 0 {
        assert(filled_up(words, columns) =~= words);
    } else {
        let rest = picker::blanks(n - 1);
        assert(rest + Seq::<char>::empty() =~= rest);
        blanks_in_front(n - 1, Seq::empty());
        width::narrow_is_as_wide(Seq::empty());
        width::blanks_part_texts(words, rest);
        assert(filled_up(words, columns) =~= words.push(' ') + rest);
    }
}

/// The pieces of some lines.
pub open spec fn line_views(v: Seq<TextLine>) -> Seq<Seq<SpanView>> {
    v.map_values(|l: TextLine| l@)
}

/// Adds a line.
pub fn add_line(lines: &mut Vec<TextLine>, line: TextLine)
    ensures
        line_views(final(lines)@) == line_views(old(lines)@).push(line@),
        final(lines)@.len() == old(lines)@.len() + 1,
{
    let ghost before = line_views(lines@);
    lines.push(line);
    assert(line_views(lines@) =~= before.push(line@));
}

/// Lines in one face.
pub open spec fn faced(texts: Seq<Seq<char>>, face: Face) -> Seq<Seq<SpanView>> {
    Seq::new(texts.len(), |i: int| one_span(texts[i], face))
}

/// Adds lines in one face.
pub fn add_faced(lines: &mut Vec<TextLine>, texts: &Vec<String>, face: Face)
    ensures
        line_views(final(lines)@) == line_views(old(lines)@) + faced(text::views(texts@), face),
{
    let ghost before = line_views(lines@);
    let ghost all = faced(text::views(texts@), face);
    let mut i: usize = 0;
    assert(line_views(lines@) =~= before + all.take(0));
    while i < texts.len()
        invariant
            i <= texts@.len(),
            all == faced(text::views(texts@), face),
            line_views(lines@) == before + all.take(i as int),
        decreases texts@.len() - i,
    {
        add_line(lines, TextLine::one(texts[i].clone(), face));
        i += 1;
        assert(line_views(lines@) =~= before + all.take(i as int));
    }
    assert(all.take(texts@.len() as int) =~= all);
}

/// A character so many times.
pub open spec fn times(c: char, n: int) -> Seq<char> {
    Seq::new(n as nat, |i: int| c)
}

/// Adds a character so many times.
pub fn add_times(s: &mut Vec<char>, c: char, n: usize)
    ensures
        final(s)@ == old(s)@ + times(c, n as int),
{
    let ghost before = s@;
    let mut i: usize = 0;
    assert(s@ =~= before + times(c, 0));
    while i < n
        invariant
            i <= n,
            s@ == before + times(c, i as int),
        decreases n - i,
    {
        s.push(c);
        i += 1;
        assert(s@ =~= before + times(c, i as int));
    }
}

/// A character so many times.
pub fn repeated(c: char, n: usize) -> (r: String)
    ensures
        r@ == times(c, n as int),
{
    let mut out: Vec<char> = Vec::new();
    add_times(&mut out, c, n);
    assert(out@ =~= times(c, n as int));
    text::string_of(&out)
}

/// A text filled up with blanks.
pub open spec fn filled_up(words: Seq<char>, columns: int) -> Seq<char> {
    words + picker::blanks(geometry::less(columns, width::text_columns(words) as int))
}

/// Fills a text up with blanks.
pub fn fill_up(words: String, columns: usize) -> (r: String)
    ensures
        r@ == filled_up(words@, columns as int),
{
    let taken: usize = width::text_width(words.as_str());
    let mut out: String = words;
    picker::add_blanks(&mut out, columns.saturating_sub(taken));
    out
}

} // verus!
