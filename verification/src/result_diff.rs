//! The diffs that edits report: numbered lines, or hunks with headers.

use vstd::prelude::*;

use crate::entry_view;
use crate::entry_view::DiffView;
use crate::line_diff;
use crate::state_types::DiffKind;
use crate::state_types::DiffLine;
use crate::text;

verus! {

broadcast use vstd::string::group_string_axioms;

/// What the first character of a line says of it.
pub open spec fn kind_of(line: Seq<char>) -> Option<DiffKind> {
    if line.len() == 0 {
        None
    } else if line[0] == '+' {
        Some(DiffKind::Added)
    } else if line[0] == '-' {
        Some(DiffKind::Removed)
    } else if line[0] == ' ' {
        Some(DiffKind::Context)
    } else {
        None
    }
}

/// How many characters from `i` on are blanks, behind `i`.
pub open spec fn blanks_end(line: Seq<char>, i: int) -> int
    decreases line.len() - i,
{
    if 0 <= i < line.len() && line[i] == ' ' {
        blanks_end(line, i + 1)
    } else {
        i
    }
}

/// Where the digits from `i` on end.
pub open spec fn digits_end(line: Seq<char>, i: int) -> int
    decreases line.len() - i,
{
    if 0 <= i < line.len() && '0' <= line[i] <= '9' {
        digits_end(line, i + 1)
    } else {
        i
    }
}

/// A number that fits, written in digits.
pub open spec fn small_number(s: Seq<char>) -> Option<u32> {
    match text::parsed(s) {
        Some(n) => if n <= u32::MAX {
            Some(n as u32)
        } else {
            None
        },
        None => None,
    }
}

/// A line with a number: behind its mark, blanks, digits and a blank.
pub open spec fn numbered(line: Seq<char>) -> Option<DiffView> {
    let from = blanks_end(line, 1);
    let to = digits_end(line, from);
    match kind_of(line) {
        Some(kind) => if from < to <= line.len() && (to == line.len() || line[to] == ' ') {
            match small_number(line.subrange(from, to)) {
                Some(n) => Some(
                    DiffView {
                        number: Some(n),
                        text: if to < line.len() {
                            line.skip(to + 1)
                        } else {
                            Seq::<char>::empty()
                        },
                        kind,
                    },
                ),
                None => None,
            }
        } else {
            None
        },
        None => None,
    }
}

/// The line stands for lines that are left out.
pub open spec fn leaves_out(line: Seq<char>) -> bool {
    text::trim(line) == "..."@
}

/// A line among numbered ones.
pub open spec fn numbered_line(line: Seq<char>) -> DiffView {
    match numbered(line) {
        Some(view) => view,
        None => if leaves_out(line) {
            DiffView { number: None, text: "..."@, kind: DiffKind::Context }
        } else {
            match kind_of(line) {
                Some(kind) => DiffView { number: None, text: line.skip(1), kind },
                None => DiffView { number: None, text: line, kind: DiffKind::Context },
            }
        },
    }
}

/// The numbers that a header gives the lines behind it, in the old text and in
/// the new one.
pub open spec fn header_numbers(line: Seq<char>) -> (Option<u32>, Option<u32>) {
    let words = text::split(line, ' ');
    (
        if words.len() > 1 {
            place_number(words[1])
        } else {
            None
        },
        if words.len() > 2 {
            place_number(words[2])
        } else {
            None
        },
    )
}

/// The number in a place of a header: a sign, the number, and how many lines.
pub open spec fn place_number(word: Seq<char>) -> Option<u32> {
    if word.len() == 0 {
        None
    } else {
        small_number(text::split(word.skip(1), ',')[0])
    }
}

/// The number of the next line.
pub open spec fn stepped(n: Option<u32>) -> Option<u32> {
    match n {
        Some(k) => if k < u32::MAX {
            Some((k + 1) as u32)
        } else {
            None
        },
        None => None,
    }
}

/// The lines of the hunks so far, and the numbers of the next ones.
pub struct Hunks {
    pub lines: Seq<DiffView>,
    pub old: Option<u32>,
    pub new: Option<u32>,
}

/// The hunks with one more line.
pub open spec fn hunk_line(hunks: Hunks, line: Seq<char>) -> Hunks {
    if text::begins_with(line, "@@"@) {
        let (old, new) = header_numbers(line);
        Hunks { lines: hunks.lines, old, new }
    } else if leaves_out(line) {
        hunks
    } else {
        match kind_of(line) {
            Some(DiffKind::Added) => Hunks {
                lines: hunks.lines.push(
                    DiffView { number: hunks.new, text: line.skip(1), kind: DiffKind::Added },
                ),
                old: hunks.old,
                new: stepped(hunks.new),
            },
            Some(DiffKind::Removed) => Hunks {
                lines: hunks.lines.push(
                    DiffView { number: hunks.old, text: line.skip(1), kind: DiffKind::Removed },
                ),
                old: stepped(hunks.old),
                new: hunks.new,
            },
            Some(DiffKind::Context) => Hunks {
                lines: hunks.lines.push(
                    DiffView { number: hunks.new, text: line.skip(1), kind: DiffKind::Context },
                ),
                old: stepped(hunks.old),
                new: stepped(hunks.new),
            },
            None => hunks,
        }
    }
}

/// The hunks of the lines.
pub open spec fn hunks_of(lines: Seq<Seq<char>>) -> Hunks
    decreases lines.len(),
{
    if lines.len() == 0 {
        Hunks { lines: Seq::<DiffView>::empty(), old: None, new: None }
    } else {
        hunk_line(hunks_of(lines.drop_last()), lines.last())
    }
}

/// The lines are numbered: one of them has a number, and none is a header.
pub open spec fn is_numbered(lines: Seq<Seq<char>>) -> bool {
    &&& exists|i: int| 0 <= i < lines.len() && numbered(#[trigger] lines[i]) is Some
    &&& forall|i: int| 0 <= i < lines.len() ==> !text::begins_with(#[trigger] lines[i], "@@"@)
}

/// The lines of a diff that an edit reports.
pub open spec fn reported(diff: Seq<char>) -> Seq<DiffView> {
    let lines = line_diff::lines_of(diff);
    if is_numbered(lines) {
        lines.map_values(|line: Seq<char>| numbered_line(line))
    } else {
        hunks_of(lines).lines
    }
}

fn read_kind(line: &Vec<char>) -> (r: Option<DiffKind>)
    ensures
        r == kind_of(line@),
{
    if line.len() == 0 {
        None
    } else if line[0] == '+' {
        Some(DiffKind::Added)
    } else if line[0] == '-' {
        Some(DiffKind::Removed)
    } else if line[0] == ' ' {
        Some(DiffKind::Context)
    } else {
        None
    }
}

fn read_number(s: &str) -> (r: Option<u32>)
    ensures
        r == small_number(s@),
{
    match text::parse_number(s) {
        Some(n) => if n <= u32::MAX as usize {
            Some(n as u32)
        } else {
            None
        },
        None => None,
    }
}

fn read_numbered(line: &Vec<char>) -> (r: Option<DiffLine>)
    ensures
        match r {
            Some(l) => numbered(line@) == Some(
                DiffView { number: l.number, text: l.text@, kind: l.kind },
            ),
            None => numbered(line@) is None,
        },
{
    match read_kind(line) {
        None => None,
        Some(kind) => {
            let mut from: usize = 1;
            while from < line.len() && line[from] == ' '
                invariant
                    1 <= from <= line@.len(),
                    blanks_end(line@, 1) == blanks_end(line@, from as int),
                decreases line@.len() - from,
            {
                from += 1;
            }
            let mut to: usize = from;
            while to < line.len() && '0' <= line[to] && line[to] <= '9'
                invariant
                    from <= to <= line@.len(),
                    digits_end(line@, from as int) == digits_end(line@, to as int),
                decreases line@.len() - to,
            {
                to += 1;
            }
            if from < to && (to == line.len() || line[to] == ' ') {
                match read_number(text::string_between(line, from, to).as_str()) {
                    Some(n) => {
                        let words: String = if to < line.len() {
                            text::string_between(line, to + 1, line.len())
                        } else {
                            String::new()
                        };
                        proof {
                            if to < line@.len() {
                                assert(words@ =~= line@.skip(to + 1));
                            } else {
                                assert(words@ =~= Seq::<char>::empty());
                            }
                        }
                        Some(DiffLine { number: Some(n), text: words, kind })
                    },
                    None => None,
                }
            } else {
                None
            }
        },
    }
}

fn is_left_out(line: &str) -> (r: bool)
    ensures
        r == leaves_out(line@),
{
    text::same_text(text::trimmed(line).as_str(), "...")
}

fn behind_mark(line: &Vec<char>) -> (r: String)
    requires
        line@.len() > 0,
    ensures
        r@ == line@.skip(1),
{
    let rest: String = text::string_between(line, 1, line.len());
    assert(rest@ =~= line@.skip(1));
    rest
}

fn read_numbered_line(line: &String) -> (r: DiffLine)
    ensures
        numbered_line(line@) == (DiffView { number: r.number, text: r.text@, kind: r.kind }),
{
    let chars: Vec<char> = text::chars_of(line.as_str());
    match read_numbered(&chars) {
        Some(l) => l,
        None => if is_left_out(line.as_str()) {
            DiffLine { number: None, text: "...".to_owned(), kind: DiffKind::Context }
        } else {
            match read_kind(&chars) {
                Some(kind) => DiffLine { number: None, text: behind_mark(&chars), kind },
                None => DiffLine { number: None, text: line.clone(), kind: DiffKind::Context },
            }
        },
    }
}

fn read_place(word: &String) -> (r: Option<u32>)
    ensures
        r == place_number(word@),
{
    let chars: Vec<char> = text::chars_of(word.as_str());
    if chars.len() == 0 {
        return None;
    }
    let parts: Vec<String> = text::split_text(behind_mark(&chars).as_str(), ',');
    assert(text::views(parts@)[0] == parts@[0]@);
    read_number(parts[0].as_str())
}

fn read_header(line: &str) -> (r: (Option<u32>, Option<u32>))
    ensures
        r == header_numbers(line@),
{
    let words: Vec<String> = text::split_text(line, ' ');
    assert(text::views(words@).len() == words@.len());
    let old: Option<u32> = if words.len() > 1 {
        assert(text::views(words@)[1] == words@[1]@);
        read_place(&words[1])
    } else {
        None
    };
    let new: Option<u32> = if words.len() > 2 {
        assert(text::views(words@)[2] == words@[2]@);
        read_place(&words[2])
    } else {
        None
    };
    (old, new)
}

fn step_number(n: Option<u32>) -> (r: Option<u32>)
    ensures
        r == stepped(n),
{
    match n {
        Some(k) => if k < u32::MAX {
            Some(k + 1)
        } else {
            None
        },
        None => None,
    }
}

/// Reads hunks line by line.
struct HunkReader {
    lines: Vec<DiffLine>,
    old: Option<u32>,
    new: Option<u32>,
}

impl HunkReader {
    spec fn view(&self) -> Hunks {
        Hunks { lines: entry_view::diff_views(self.lines@), old: self.old, new: self.new }
    }

    fn push(&mut self, number: Option<u32>, words: String, kind: DiffKind)
        ensures
            final(self)@ == (Hunks {
                lines: old(self)@.lines.push(DiffView { number, text: words@, kind }),
                ..old(self)@
            }),
    {
        let ghost before = self@.lines;
        self.lines.push(DiffLine { number, text: words, kind });
        assert(self@.lines =~= before.push(DiffView { number, text: words@, kind }));
    }

    fn read(&mut self, line: &String)
        ensures
            final(self)@ == hunk_line(old(self)@, line@),
    {
        if text::starts_with(line.as_str(), "@@") {
            let (old, new) = read_header(line.as_str());
            self.old = old;
            self.new = new;
            return ;
        }
        if is_left_out(line.as_str()) {
            return ;
        }
        let chars: Vec<char> = text::chars_of(line.as_str());
        match read_kind(&chars) {
            Some(DiffKind::Added) => {
                let number: Option<u32> = self.new;
                self.push(number, behind_mark(&chars), DiffKind::Added);
                self.new = step_number(number);
            },
            Some(DiffKind::Removed) => {
                let number: Option<u32> = self.old;
                self.push(number, behind_mark(&chars), DiffKind::Removed);
                self.old = step_number(number);
            },
            Some(DiffKind::Context) => {
                let number: Option<u32> = self.new;
                self.push(number, behind_mark(&chars), DiffKind::Context);
                self.old = step_number(self.old);
                self.new = step_number(number);
            },
            None => {},
        }
    }
}

fn has_numbers(lines: &Vec<String>) -> (r: bool)
    ensures
        r == is_numbered(text::views(lines@)),
{
    let ghost views = text::views(lines@);
    let mut some: bool = false;
    let mut i: usize = 0;
    while i < lines.len()
        invariant
            i <= lines@.len(),
            views == text::views(lines@),
            some == exists|k: int| 0 <= k < i && numbered(#[trigger] views[k]) is Some,
            forall|k: int| 0 <= k < i ==> !text::begins_with(#[trigger] views[k], "@@"@),
        decreases lines@.len() - i,
    {
        assert(views[i as int] == lines@[i as int]@);
        if text::starts_with(lines[i].as_str(), "@@") {
            return false;
        }
        let chars: Vec<char> = text::chars_of(lines[i].as_str());
        if read_numbered(&chars).is_some() {
            some = true;
        }
        i += 1;
    }
    some
}

/// The lines of a diff that an edit reports.
pub fn read_diff(diff: &str) -> (r: Vec<DiffLine>)
    ensures
        entry_view::diff_views(r@) == reported(diff@),
{
    let lines: Vec<String> = line_diff::text_lines(diff);
    let ghost views = text::views(lines@);
    if has_numbers(&lines) {
        let mut out: Vec<DiffLine> = Vec::new();
        let mut i: usize = 0;
        while i < lines.len()
            invariant
                i <= lines@.len(),
                out@.len() == i,
                forall|k: int|
                    0 <= k < i ==> numbered_line(lines@[k]@) == (DiffView {
                        number: (#[trigger] out@[k]).number,
                        text: out@[k].text@,
                        kind: out@[k].kind,
                    }),
            decreases lines@.len() - i,
        {
            out.push(read_numbered_line(&lines[i]));
            i += 1;
        }
        assert(entry_view::diff_views(out@) =~= views.map_values(
            |line: Seq<char>| numbered_line(line),
        ));
        return out;
    }
    let mut reader: HunkReader = HunkReader { lines: Vec::new(), old: None, new: None };
    let mut i: usize = 0;
    proof {
        assert(views.take(0) =~= Seq::<Seq<char>>::empty());
        assert(reader@.lines =~= Seq::<DiffView>::empty());
    }
    while i < lines.len()
        invariant
            i <= lines@.len(),
            views == text::views(lines@),
            reader@ == hunks_of(views.take(i as int)),
        decreases lines@.len() - i,
    {
        proof {
            assert(views.take(i + 1).drop_last() =~= views.take(i as int));
            assert(views.take(i + 1).last() == lines@[i as int]@);
        }
        reader.read(&lines[i]);
        i += 1;
    }
    assert(views.take(lines@.len() as int) =~= views);
    reader.lines
}

/// The mark in front of a line says what it is: a plus sign that it was added, a minus sign
/// that it was removed, a blank that it stays.
pub proof fn marks_say_what_a_line_is(line: Seq<char>)
    requires
        line.len() > 0,
    ensures
        line[0] == '+' <==> kind_of(line) == Some(DiffKind::Added),
        line[0] == '-' <==> kind_of(line) == Some(DiffKind::Removed),
        line[0] == ' ' <==> kind_of(line) == Some(DiffKind::Context),
{
}

/// An added line is shown without its mark under the next number of the new text, a removed
/// one under that of the old text, and a line that stays counts in both.
pub proof fn hunks_count_their_lines(hunks: Hunks, line: Seq<char>)
    requires
        line.len() > 0,
        !text::begins_with(line, "@@"@),
        text::trim(line) != "..."@,
    ensures
        ({
            let after = hunk_line(hunks, line);
            let grows = after.lines.len() == hunks.lines.len() + 1 && after.lines.drop_last()
                == hunks.lines && after.lines.last().text == line.skip(1);
            &&& line[0] == '+' ==> grows && after.lines.last().kind is Added
                && after.lines.last().number == hunks.new && after.old == hunks.old
            &&& line[0] == '-' ==> grows && after.lines.last().kind is Removed
                && after.lines.last().number == hunks.old && after.new == hunks.new
            &&& line[0] == ' ' ==> grows && after.lines.last().kind is Context
                && after.lines.last().number == hunks.new
            &&& hunks.new matches Some(n) ==> (n < u32::MAX && (line[0] == '+' || line[0] == ' ')
                ==> after.new == Some((n + 1) as u32))
            &&& hunks.old matches Some(n) ==> (n < u32::MAX && (line[0] == '-' || line[0] == ' ')
                ==> after.old == Some((n + 1) as u32))
            &&& line[0] != '+' && line[0] != '-' && line[0] != ' ' ==> after == hunks
        }),
{
    let after = hunk_line(hunks, line);
    if line[0] == '+' || line[0] == '-' || line[0] == ' ' {
        assert(after.lines.drop_last() =~= hunks.lines);
    }
}

/// A header shows no line and sets the numbers of the lines behind it.
pub proof fn headers_set_the_numbers(hunks: Hunks, line: Seq<char>)
    requires
        text::begins_with(line, "@@"@),
    ensures
        hunk_line(hunks, line).lines == hunks.lines,
        hunk_line(hunks, line).old == header_numbers(line).0,
        hunk_line(hunks, line).new == header_numbers(line).1,
{
}

proof fn digits_go_on(line: Seq<char>, from: int, to: int)
    requires
        0 <= from <= to <= line.len(),
        forall|i: int| from <= i < to ==> '0' <= #[trigger] line[i] <= '9',
        to < line.len() ==> !('0' <= line[to] <= '9'),
    ensures
        digits_end(line, from) == to,
    decreases to - from,
{
    if from < to {
        assert('0' <= line[from] <= '9');
        digits_go_on(line, from + 1, to);
    }
}

/// A line with a number behind its mark is shown under this number, with what stands behind
/// the number and a blank.
pub proof fn numbered_lines_keep_their_number(mark: char, n: u32, rest: Seq<char>)
    requires
        mark == '+' || mark == '-' || mark == ' ',
    ensures
        numbered(seq![mark] + text::decimal(n as nat) + seq![' '] + rest) == Some(
            DiffView {
                number: Some(n),
                text: rest,
                kind: if mark == '+' {
                    DiffKind::Added
                } else if mark == '-' {
                    DiffKind::Removed
                } else {
                    DiffKind::Context
                },
            },
        ),
{
    let digits = text::decimal(n as nat);
    let line = seq![mark] + digits + seq![' '] + rest;
    let to = 1 + digits.len() as int;
    text::numbers_are_read_back(n as nat);
    text::numbers_have_digits(n as nat, 0);
    assert(line[1] == digits[0]);
    assert(blanks_end(line, 1) == 1);
    assert forall|i: int| 1 <= i < to implies '0' <= #[trigger] line[i] <= '9' by {
        text::numbers_have_digits(n as nat, i - 1);
        assert(line[i] == digits[i - 1]);
    }
    assert(line[to] == ' ');
    digits_go_on(line, 1, to);
    assert(line.subrange(1, to) =~= digits);
    assert(line.skip(to + 1) =~= rest);
}

} // verus!
