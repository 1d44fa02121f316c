//! Wrapping of prose and code.

use vstd::prelude::*;

use crate::text;
use crate::width;

verus! {

broadcast use vstd::string::group_string_axioms;

/// The words of a text that are complete, and the one that may go on.
pub open spec fn word_runs(s: Seq<char>) -> (Seq<Seq<char>>, Seq<char>)
    decreases s.len(),
{
    if s.len() == 0 {
        (Seq::empty(), Seq::empty())
    } else {
        let (done, run) = word_runs(s.drop_last());
        if !text::white_space(s.last()) {
            (done, run.push(s.last()))
        } else if run.len() > 0 {
            (done.push(run), Seq::empty())
        } else {
            (done, run)
        }
    }
}

/// The words of a text: the longest runs without white space.
pub open spec fn words(s: Seq<char>) -> Seq<Seq<char>> {
    let (done, run) = word_runs(s);
    if run.len() > 0 {
        done.push(run)
    } else {
        done
    }
}

/// A word that is too long for a line, cut into pieces: the complete ones, and
/// the one that may go on.
pub open spec fn cut_word(word: Seq<char>, columns: int) -> (Seq<Seq<char>>, Seq<char>)
    decreases word.len(),
{
    if word.len() == 0 {
        (Seq::empty(), Seq::empty())
    } else {
        let (done, piece) = cut_word(word.drop_last(), columns);
        let c = word.last();
        if width::text_columns(piece) + width::cells(c) > columns && piece.len() > 0 {
            (done.push(piece), seq![c])
        } else {
            (done, piece.push(c))
        }
    }
}

/// The lines that some words fill, and the line that may go on.
pub open spec fn filled(words: Seq<Seq<char>>, columns: int) -> (Seq<Seq<char>>, Seq<char>)
    decreases words.len(),
{
    if words.len() == 0 {
        (Seq::empty(), Seq::empty())
    } else {
        let (lines, line) = filled(words.drop_last(), columns);
        let word = words.last();
        let taken = width::text_columns(line) + width::text_columns(word) + if line.len() > 0 {
            1int
        } else {
            0int
        };
        if width::text_columns(word) > columns {
            let (pieces, rest) = cut_word(word, columns);
            (
                (if line.len() > 0 {
                    lines.push(line)
                } else {
                    lines
                }) + pieces,
                rest,
            )
        } else if line.len() == 0 {
            (lines, word)
        } else if taken > columns {
            (lines.push(line), word)
        } else {
            (lines, line.push(' ') + word)
        }
    }
}

/// A text wrapped into lines, at least one.
pub open spec fn wrapped(s: Seq<char>, columns: int) -> Seq<Seq<char>> {
    if s.len() == 0 || columns == 0 {
        seq![Seq::empty()]
    } else {
        let (lines, line) = filled(words(s), columns);
        if line.len() > 0 {
            lines.push(line)
        } else if lines.len() == 0 {
            seq![Seq::empty()]
        } else {
            lines
        }
    }
}

/// A text without its white space.
pub open spec fn solid(s: Seq<char>) -> Seq<char>
    decreases s.len(),
{
    if s.len() == 0 {
        Seq::empty()
    } else if text::white_space(s.last()) {
        solid(s.drop_last())
    } else {
        solid(s.drop_last()).push(s.last())
    }
}

/// The white space left out, of some lines one after the other.
pub open spec fn solid_lines(lines: Seq<Seq<char>>) -> Seq<char>
    decreases lines.len(),
{
    if lines.len() == 0 {
        Seq::empty()
    } else {
        solid_lines(lines.drop_last()) + solid(lines.last())
    }
}

proof fn solid_joins(a: Seq<char>, b: Seq<char>)
    ensures
        solid(a + b) == solid(a) + solid(b),
    decreases b.len(),
{
    if b.len() == 0 {
        assert(a + b =~= a);
        assert(solid(a) + solid(b) =~= solid(a));
    } else {
        assert((a + b).drop_last() =~= a + b.drop_last());
        solid_joins(a, b.drop_last());
        if !text::white_space(b.last()) {
            assert(solid(a) + solid(b) =~= (solid(a) + solid(b.drop_last())).push(b.last()));
        }
    }
}

proof fn solid_lines_join(a: Seq<Seq<char>>, b: Seq<Seq<char>>)
    ensures
        solid_lines(a + b) == solid_lines(a) + solid_lines(b),
    decreases b.len(),
{
    if b.len() == 0 {
        assert(a + b =~= a);
        assert(solid_lines(a) + solid_lines(b) =~= solid_lines(a));
    } else {
        assert((a + b).drop_last() =~= a + b.drop_last());
        solid_lines_join(a, b.drop_last());
        assert(solid_lines(a) + solid_lines(b) =~= (solid_lines(a) + solid_lines(b.drop_last()))
            + solid(b.last()));
    }
}

proof fn solid_lines_push(a: Seq<Seq<char>>, line: Seq<char>)
    ensures
        solid_lines(a.push(line)) == solid_lines(a) + solid(line),
{
    assert(a.push(line).drop_last() =~= a);
}

proof fn words_keep_solid(s: Seq<char>)
    ensures
        solid_lines(word_runs(s).0) + solid(word_runs(s).1) == solid(s),
    decreases s.len(),
{
    if s.len() == 0 {
        assert(solid_lines(word_runs(s).0) + solid(word_runs(s).1) =~= solid(s));
    } else {
        words_keep_solid(s.drop_last());
        let (done, run) = word_runs(s.drop_last());
        if !text::white_space(s.last()) {
            assert(run.push(s.last()).drop_last() =~= run);
            assert(solid_lines(done) + solid(run).push(s.last()) =~= (solid_lines(done)
                + solid(run)).push(s.last()));
        } else if run.len() > 0 {
            solid_lines_push(done, run);
            assert(solid_lines(done.push(run)) + solid(Seq::<char>::empty()) =~= solid_lines(done)
                + solid(run));
        }
    }
}

proof fn cutting_keeps_solid(word: Seq<char>, columns: int)
    ensures
        solid_lines(cut_word(word, columns).0) + solid(cut_word(word, columns).1) == solid(word),
    decreases word.len(),
{
    if word.len() == 0 {
        assert(solid_lines(cut_word(word, columns).0) + solid(cut_word(word, columns).1) =~= solid(
            word,
        ));
    } else {
        cutting_keeps_solid(word.drop_last(), columns);
        let (done, piece) = cut_word(word.drop_last(), columns);
        let c = word.last();
        let before = solid_lines(done) + solid(piece);
        if width::text_columns(piece) + width::cells(c) > columns && piece.len() > 0 {
            solid_lines_push(done, piece);
            assert(seq![c].drop_last() =~= Seq::<char>::empty());
            assert(seq![c].last() == c);
            assert(solid(Seq::<char>::empty()) =~= Seq::<char>::empty());
            if text::white_space(c) {
                assert(solid(seq![c]) =~= Seq::<char>::empty());
                assert(solid_lines(done.push(piece)) + solid(seq![c]) =~= before);
            } else {
                assert(solid(seq![c]) =~= seq![c]);
                assert(solid_lines(done.push(piece)) + solid(seq![c]) =~= before.push(c));
            }
        } else {
            assert(piece.push(c).drop_last() =~= piece);
            if !text::white_space(c) {
                assert(solid_lines(done) + solid(piece).push(c) =~= before.push(c));
            }
        }
    }
}

proof fn filling_keeps_solid(list: Seq<Seq<char>>, columns: int)
    ensures
        solid_lines(filled(list, columns).0) + solid(filled(list, columns).1) == solid_lines(list),
    decreases list.len(),
{
    if list.len() == 0 {
        assert(solid_lines(filled(list, columns).0) + solid(filled(list, columns).1)
            =~= solid_lines(list));
    } else {
        filling_keeps_solid(list.drop_last(), columns);
        let (lines, line) = filled(list.drop_last(), columns);
        let word = list.last();
        let before = solid_lines(lines) + solid(line);
        if width::text_columns(word) > columns {
            let (pieces, rest) = cut_word(word, columns);
            cutting_keeps_solid(word, columns);
            let closed = if line.len() > 0 {
                lines.push(line)
            } else {
                lines
            };
            solid_lines_push(lines, line);
            assert(solid_lines(closed) =~= before);
            solid_lines_join(closed, pieces);
            assert(solid_lines(closed + pieces) + solid(rest) =~= before + (solid_lines(pieces)
                + solid(rest)));
        } else if line.len() == 0 {
            assert(before =~= solid_lines(lines));
        } else {
            let blank = line.push(' ');
            solid_lines_push(lines, line);
            assert(blank.drop_last() =~= line);
            assert(text::white_space(' '));
            assert(solid(blank) == solid(line));
            solid_joins(blank, word);
            assert(solid_lines(lines) + (solid(line) + solid(word)) =~= before + solid(word));
        }
    }
}

/// Wrapping breaks a text only where it has white space, or within words: the
/// rest of it stays, in its order.
pub proof fn wrapping_keeps_the_words(s: Seq<char>, columns: int)
    requires
        columns > 0,
    ensures
        solid_lines(wrapped(s, columns)) == solid(s),
{
    let empty = Seq::<char>::empty();
    solid_lines_push(Seq::empty(), empty);
    assert(seq![empty] =~= Seq::<Seq<char>>::empty().push(empty));
    if s.len() > 0 {
        words_keep_solid(s);
        let (done, run) = word_runs(s);
        solid_lines_push(done, run);
        assert(solid_lines(words(s)) =~= solid(s));
        filling_keeps_solid(words(s), columns);
        let (lines, line) = filled(words(s), columns);
        solid_lines_push(lines, line);
        assert(solid_lines(lines) + solid(line) =~= solid(s));
        if line.len() == 0 {
            assert(solid_lines(lines) =~= solid(s));
        }
    }
}

/// Every line is at most so many columns wide.
pub open spec fn within(lines: Seq<Seq<char>>, columns: int) -> bool {
    forall|i: int|
        0 <= i < lines.len() ==> width::text_columns(#[trigger] lines[i]) <= columns
}

/// Whether a text can be wrapped into lines of a number of columns: the words that are wider
/// than a line, and so are cut, are narrow.
pub open spec fn wrappable(s: Seq<char>, columns: int) -> bool {
    forall|k: int|
        0 <= k < words(s).len() && width::text_columns(#[trigger] words(s)[k]) > columns
            ==> width::narrow(words(s)[k])
}

proof fn pieces_stay_within(word: Seq<char>, columns: int)
    requires
        columns > 0,
        width::narrow(word),
    ensures
        within(cut_word(word, columns).0, columns),
        width::narrow(cut_word(word, columns).1),
        cut_word(word, columns).1.len() <= columns,
    decreases word.len(),
{
    if word.len() > 0 {
        let front = word.drop_last();
        assert forall|i: int| 0 <= i < front.len() implies width::narrow_char(
            #[trigger] front[i],
        ) by {
            assert(front[i] == word[i]);
        }
        pieces_stay_within(front, columns);
        let (done, piece) = cut_word(front, columns);
        let c = word.last();
        assert(width::narrow_char(word[word.len() - 1]));
        assert(width::cells(c) == 1);
        width::narrow_is_as_wide(piece);
        if width::text_columns(piece) + width::cells(c) > columns && piece.len() > 0 {
            let list = done.push(piece);
            assert forall|i: int| 0 <= i < list.len() implies width::text_columns(
                #[trigger] list[i],
            ) <= columns by {
                if i < done.len() {
                    assert(list[i] == done[i]);
                }
            }
        } else {
            let longer = piece.push(c);
            assert forall|i: int| 0 <= i < longer.len() implies width::narrow_char(
                #[trigger] longer[i],
            ) by {
                if i < piece.len() {
                    assert(longer[i] == piece[i]);
                }
            }
        }
    }
}

proof fn fillings_stay_within(list: Seq<Seq<char>>, columns: int)
    requires
        columns > 0,
        forall|k: int|
            0 <= k < list.len() && width::text_columns(#[trigger] list[k]) > columns
                ==> width::narrow(list[k]),
    ensures
        within(filled(list, columns).0, columns),
        width::text_columns(filled(list, columns).1) <= columns,
    decreases list.len(),
{
    if list.len() == 0 {
        width::narrow_is_as_wide(Seq::empty());
    } else {
        let front = list.drop_last();
        assert forall|k: int|
            0 <= k < front.len() && width::text_columns(#[trigger] front[k]) > columns implies
            width::narrow(front[k]) by {
            assert(front[k] == list[k]);
        }
        fillings_stay_within(front, columns);
        let (lines, line) = filled(front, columns);
        let word = list.last();
        assert(word == list[list.len() - 1]);
        let closed = lines.push(line);
        assert forall|i: int| 0 <= i < closed.len() implies width::text_columns(
            #[trigger] closed[i],
        ) <= columns by {
            if i < lines.len() {
                assert(closed[i] == lines[i]);
            }
        }
        if width::text_columns(word) > columns {
            pieces_stay_within(word, columns);
            let (pieces, rest) = cut_word(word, columns);
            width::narrow_is_as_wide(rest);
            let before = if line.len() > 0 {
                closed
            } else {
                lines
            };
            let all = before + pieces;
            assert forall|i: int| 0 <= i < all.len() implies width::text_columns(
                #[trigger] all[i],
            ) <= columns by {
                if i < before.len() {
                    assert(all[i] == before[i]);
                } else {
                    assert(all[i] == pieces[i - before.len()]);
                }
            }
        } else if line.len() > 0 {
            width::blanks_part_texts(line, word);
        }
    }
}

/// Wrapped lines stay within the width, unless a word has to be cut whose characters do not
/// take one column each.
pub proof fn lines_stay_within(s: Seq<char>, columns: int)
    requires
        columns > 0,
        wrappable(s, columns),
    ensures
        within(wrapped(s, columns), columns),
{
    width::narrow_is_as_wide(Seq::empty());
    if s.len() > 0 {
        fillings_stay_within(words(s), columns);
        let (lines, line) = filled(words(s), columns);
        let all = wrapped(s, columns);
        assert forall|i: int| 0 <= i < all.len() implies width::text_columns(#[trigger] all[i])
            <= columns by {
            if i < lines.len() {
                assert(all[i] == lines[i]);
            }
        }
    }
}

/// The words of a text.
fn split_words(s: &str) -> (r: Vec<Vec<char>>)
    ensures
        seqs(r@) == words(s@),
{
    let chars: Vec<char> = text::chars_of(s);
    let mut done: Vec<Vec<char>> = Vec::new();
    let mut run: Vec<char> = Vec::new();
    let mut i: usize = 0;
    assert(s@.take(0) =~= Seq::<char>::empty());
    assert(seqs(done@) =~= Seq::<Seq<char>>::empty());
    while i < chars.len()
        invariant
            i <= chars@.len(),
            chars@ == s@,
            (seqs(done@), run@) == word_runs(s@.take(i as int)),
        decreases chars@.len() - i,
    {
        let ghost before = s@.take(i as int);
        proof {
            assert(s@.take(i + 1).drop_last() =~= before);
            assert(s@.take(i + 1).last() == chars@[i as int]);
        }
        let c: char = chars[i];
        if !text::is_white_space(c) {
            run.push(c);
        } else if run.len() > 0 {
            let ghost list = seqs(done@);
            let ghost word = run@;
            done.push(run);
            assert(seqs(done@) =~= list.push(word));
            run = Vec::new();
            assert(run@ =~= Seq::<char>::empty());
        }
        i += 1;
    }
    assert(s@.take(s@.len() as int) =~= s@);
    if run.len() > 0 {
        let ghost list = seqs(done@);
        let ghost word = run@;
        done.push(run);
        assert(seqs(done@) =~= list.push(word));
    }
    done
}

/// What some lists hold.
pub open spec fn seqs(v: Seq<Vec<char>>) -> Seq<Seq<char>> {
    v.map_values(|line: Vec<char>| line@)
}

fn columns_of(s: &Vec<char>) -> (r: usize)
    ensures
        r == width::text_columns(s@),
{
    let words: String = text::string_of(s);
    width::text_width(words.as_str())
}

/// Cuts a word that is too long for a line. The pieces but the last go to
/// `lines`.
fn cut_long_word(word: &Vec<char>, columns: usize, lines: &mut Vec<Vec<char>>) -> (r: Vec<char>)
    ensures
        seqs(final(lines)@) == seqs(old(lines)@) + cut_word(word@, columns as int).0,
        r@ == cut_word(word@, columns as int).1,
{
    let ghost first = seqs(lines@);
    let mut piece: Vec<char> = Vec::new();
    let mut i: usize = 0;
    assert(word@.take(0) =~= Seq::<char>::empty());
    assert(seqs(lines@) =~= first + Seq::<Seq<char>>::empty());
    while i < word.len()
        invariant
            i <= word@.len(),
            seqs(lines@) == first + cut_word(word@.take(i as int), columns as int).0,
            piece@ == cut_word(word@.take(i as int), columns as int).1,
        decreases word@.len() - i,
    {
        proof {
            assert(word@.take(i + 1).drop_last() =~= word@.take(i as int));
            assert(word@.take(i + 1).last() == word@[i as int]);
        }
        let c: char = word[i];
        let taken: u128 = columns_of(&piece) as u128 + width::char_cells(c) as u128;
        if taken > columns as u128 && piece.len() > 0 {
            let ghost list = seqs(lines@);
            let ghost full = piece@;
            lines.push(piece);
            assert(seqs(lines@) =~= list.push(full));
            assert(seqs(lines@) =~= first + cut_word(word@.take(i as int), columns as int).0.push(
                full,
            ));
            piece = Vec::new();
            piece.push(c);
            assert(piece@ =~= seq![c]);
        } else {
            piece.push(c);
        }
        i += 1;
    }
    assert(word@.take(word@.len() as int) =~= word@);
    piece
}

/// Wraps a text into lines.
pub fn wrap(value: &str, columns: usize) -> (r: Vec<String>)
    ensures
        text::views(r@) == wrapped(value@, columns as int),
        r@.len() > 0,
{
    let mut out: Vec<String> = Vec::new();
    if value.is_empty() || columns == 0 {
        out.push(String::new());
        assert(text::views(out@) =~= seq![Seq::<char>::empty()]);
        return out;
    }
    let list: Vec<Vec<char>> = split_words(value);
    let mut lines: Vec<Vec<char>> = Vec::new();
    let mut line: Vec<char> = Vec::new();
    let mut i: usize = 0;
    assert(seqs(list@).take(0) =~= Seq::<Seq<char>>::empty());
    assert(seqs(lines@) =~= Seq::<Seq<char>>::empty());
    while i < list.len()
        invariant
            i <= list@.len(),
            seqs(list@) == words(value@),
            (seqs(lines@), line@) == filled(seqs(list@).take(i as int), columns as int),
        decreases list@.len() - i,
    {
        let ghost all = seqs(list@);
        let ghost before = seqs(lines@);
        let ghost open = line@;
        proof {
            assert(all.take(i + 1).drop_last() =~= all.take(i as int));
            assert(all.take(i + 1).last() == list@[i as int]@);
        }
        let word: &Vec<char> = &list[i];
        let wide: usize = columns_of(word);
        if wide > columns {
            if line.len() > 0 {
                lines.push(line);
                assert(seqs(lines@) =~= before.push(open));
            }
            line = cut_long_word(word, columns, &mut lines);
        } else if line.len() == 0 {
            line = copy_chars(word);
        } else {
            let taken: u128 = columns_of(&line) as u128 + 1 + wide as u128;
            if taken > columns as u128 {
                lines.push(line);
                assert(seqs(lines@) =~= before.push(open));
                line = copy_chars(word);
            } else {
                line.push(' ');
                add_chars(&mut line, word);
            }
        }
        i += 1;
    }
    assert(seqs(list@).take(list@.len() as int) =~= seqs(list@));
    let ghost filled_lines = seqs(lines@);
    if line.len() > 0 {
        let ghost last = line@;
        lines.push(line);
        assert(seqs(lines@) =~= filled_lines.push(last));
    } else if lines.len() == 0 {
        lines.push(line);
        assert(line@ =~= Seq::<char>::empty());
        assert(seqs(lines@) =~= seq![Seq::<char>::empty()]);
    }
    strings_of(&lines)
}

fn strings_of(lines: &Vec<Vec<char>>) -> (r: Vec<String>)
    ensures
        text::views(r@) == seqs(lines@),
        r@.len() == lines@.len(),
{
    let mut out: Vec<String> = Vec::new();
    let mut i: usize = 0;
    while i < lines.len()
        invariant
            i == out@.len(),
            i <= lines@.len(),
            forall|k: int| 0 <= k < i ==> (#[trigger] out@[k])@ == lines@[k]@,
        decreases lines@.len() - i,
    {
        out.push(text::string_of(&lines[i]));
        i += 1;
    }
    assert(text::views(out@) =~= seqs(lines@));
    out
}

fn copy_chars(s: &Vec<char>) -> (r: Vec<char>)
    ensures
        r@ == s@,
{
    let mut out: Vec<char> = Vec::new();
    add_chars(&mut out, s);
    assert(out@ =~= s@);
    out
}

fn add_chars(s: &mut Vec<char>, added: &Vec<char>)
    ensures
        final(s)@ == old(s)@ + added@,
{
    let ghost before = s@;
    let mut i: usize = 0;
    assert(s@ =~= before + added@.take(0));
    while i < added.len()
        invariant
            i <= added@.len(),
            s@ == before + added@.take(i as int),
        decreases added@.len() - i,
    {
        s.push(added[i]);
        i += 1;
        assert(s@ =~= before + added@.take(i as int));
    }
    assert(added@.take(added@.len() as int) =~= added@);
}

/// A line of code cut into pieces of a number of characters, at least one.
pub open spec fn chunks(s: Seq<char>, size: int) -> Seq<Seq<char>>
    decreases s.len(),
{
    if size <= 0 {
        seq![Seq::empty()]
    } else if s.len() <= size {
        seq![s]
    } else {
        seq![s.take(size)] + chunks(s.skip(size), size)
    }
}

/// Cuts a line of code into pieces of a number of characters.
pub fn wrap_code(value: &str, size: usize) -> (r: Vec<String>)
    ensures
        text::views(r@) == chunks(value@, size as int),
        r@.len() > 0,
{
    let chars: Vec<char> = text::chars_of(value);
    let mut out: Vec<String> = Vec::new();
    if size == 0 {
        out.push(String::new());
        assert(text::views(out@) =~= seq![Seq::<char>::empty()]);
        return out;
    }
    let mut from: usize = 0;
    assert(value@.skip(0) =~= value@);
    assert(text::views(out@) + chunks(value@, size as int) =~= chunks(value@, size as int));
    while chars.len() - from > size
        invariant
            chars@ == value@,
            size > 0,
            from <= chars@.len(),
            text::views(out@) + chunks(value@.skip(from as int), size as int) == chunks(
                value@,
                size as int,
            ),
        decreases chars@.len() - from,
    {
        let piece: String = text::string_between(&chars, from, from + size);
        proof {
            let rest = value@.skip(from as int);
            assert(rest.take(size as int) =~= chars@.subrange(from as int, from + size));
            assert(rest.skip(size as int) =~= value@.skip(from + size));
            assert(text::views(out@.push(piece)) =~= text::views(out@).push(piece@));
            assert(text::views(out@).push(piece@) + chunks(value@.skip(from + size), size as int)
                =~= text::views(out@) + (seq![piece@] + chunks(
                value@.skip(from + size),
                size as int,
            )));
        }
        out.push(piece);
        from += size;
    }
    let last: String = text::string_between(&chars, from, chars.len());
    proof {
        assert(value@.skip(from as int) =~= last@);
        assert(text::views(out@.push(last)) =~= text::views(out@) + seq![last@]);
    }
    out.push(last);
    out
}

} // verus!
