//! What changes between two texts, line by line.

use vstd::prelude::*;

use crate::entry_view;
use crate::entry_view::DiffView;
use crate::state_types::DiffKind;
use crate::state_types::DiffLine;
use crate::text;

verus! {

broadcast use vstd::string::group_string_axioms;

/// The lines of a text; a line feed at its end ends the last one.
pub open spec fn lines_of(s: Seq<char>) -> Seq<Seq<char>> {
    let parts = text::split(s, '\n');
    if parts.len() > 0 && parts.last().len() == 0 {
        parts.drop_last()
    } else {
        parts
    }
}

/// The lines of a text.
pub fn text_lines(s: &str) -> (r: Vec<String>)
    ensures
        text::views(r@) == lines_of(s@),
{
    let mut parts: Vec<String> = text::split_text(s, '\n');
    let ghost all = parts@;
    let count: usize = parts.len();
    assert(text::views(all).last() == all[count - 1]@);
    if parts[count - 1].as_str().is_empty() {
        let _last: Option<String> = parts.pop();
        assert(text::views(parts@) =~= text::views(all).drop_last());
    }
    parts
}

/// How many lines two texts have in common from line `i` on, counted from the
/// beginning.
pub open spec fn common_head(a: Seq<Seq<char>>, b: Seq<Seq<char>>, i: int) -> int
    decreases a.len() - i,
{
    if 0 <= i < a.len() && i < b.len() && a[i] == b[i] {
        common_head(a, b, i + 1)
    } else {
        i
    }
}

/// How many lines two texts have in common at their ends, behind the first
/// `head` lines, of which `k` are known.
pub open spec fn common_tail(a: Seq<Seq<char>>, b: Seq<Seq<char>>, head: int, k: int) -> int
    decreases a.len() - k,
{
    if 0 <= head && 0 <= k < a.len() - head && k < b.len() - head && a[a.len() - 1 - k] == b[b.len()
        - 1 - k] {
        common_tail(a, b, head, k + 1)
    } else {
        k
    }
}

/// Lines of one kind.
pub open spec fn as_kind(lines: Seq<Seq<char>>, kind: DiffKind) -> Seq<DiffView> {
    lines.map_values(|line: Seq<char>| DiffView { number: None, text: line, kind })
}

/// What changes between two texts: the lines that both begin and end with
/// stay, and between them the lines of the first give way to those of the
/// second.
pub open spec fn changes(a: Seq<Seq<char>>, b: Seq<Seq<char>>) -> Seq<DiffView> {
    let head = common_head(a, b, 0);
    let tail = common_tail(a, b, head, 0);
    as_kind(a.take(head), DiffKind::Context) + as_kind(
        a.subrange(head, a.len() - tail),
        DiffKind::Removed,
    ) + as_kind(b.subrange(head, b.len() - tail), DiffKind::Added) + as_kind(
        a.skip(a.len() - tail),
        DiffKind::Context,
    )
}

spec fn from_end(s: Seq<Seq<char>>, j: int) -> Seq<char> {
    s[s.len() - 1 - j]
}

proof fn head_bounds(a: Seq<Seq<char>>, b: Seq<Seq<char>>, i: int)
    requires
        0 <= i <= a.len(),
        i <= b.len(),
        forall|j: int| 0 <= j < i ==> a[j] == b[j],
    ensures
        i <= common_head(a, b, i) <= a.len(),
        common_head(a, b, i) <= b.len(),
        forall|j: int| 0 <= j < common_head(a, b, i) ==> a[j] == b[j],
    decreases a.len() - i,
{
    if i < a.len() && i < b.len() && a[i] == b[i] {
        head_bounds(a, b, i + 1);
    }
}

proof fn tail_bounds(a: Seq<Seq<char>>, b: Seq<Seq<char>>, head: int, k: int)
    requires
        0 <= head,
        0 <= k <= a.len() - head,
        k <= b.len() - head,
        forall|j: int| 0 <= j < k ==> #[trigger] from_end(a, j) == from_end(b, j),
    ensures
        k <= common_tail(a, b, head, k) <= a.len() - head,
        common_tail(a, b, head, k) <= b.len() - head,
        forall|j: int|
            0 <= j < common_tail(a, b, head, k) ==> #[trigger] from_end(a, j) == from_end(b, j),
    decreases a.len() - k,
{
    if k < a.len() - head && k < b.len() - head && a[a.len() - 1 - k] == b[b.len() - 1 - k] {
        tail_bounds(a, b, head, k + 1);
    }
}

fn find_head(a: &Vec<String>, b: &Vec<String>) -> (r: usize)
    ensures
        r == common_head(text::views(a@), text::views(b@), 0),
        r <= a@.len(),
        r <= b@.len(),
{
    let ghost x = text::views(a@);
    let ghost y = text::views(b@);
    let mut i: usize = 0;
    while i < a.len() && i < b.len() && text::same_text(a[i].as_str(), b[i].as_str())
        invariant
            x == text::views(a@),
            y == text::views(b@),
            i <= a@.len(),
            i <= b@.len(),
            common_head(x, y, 0) == common_head(x, y, i as int),
        ensures
            i <= a@.len(),
            i <= b@.len(),
            common_head(x, y, 0) == i,
        decreases a@.len() - i,
    {
        assert(x[i as int] == a@[i as int]@ && y[i as int] == b@[i as int]@);
        i += 1;
    }
    i
}

fn find_tail(a: &Vec<String>, b: &Vec<String>, head: usize) -> (r: usize)
    requires
        head <= a@.len(),
        head <= b@.len(),
    ensures
        r == common_tail(text::views(a@), text::views(b@), head as int, 0),
        head + r <= a@.len(),
        head + r <= b@.len(),
{
    let ghost x = text::views(a@);
    let ghost y = text::views(b@);
    let mut k: usize = 0;
    while k < a.len() - head && k < b.len() - head && text::same_text(
        a[a.len() - 1 - k].as_str(),
        b[b.len() - 1 - k].as_str(),
    )
        invariant
            x == text::views(a@),
            y == text::views(b@),
            head <= a@.len(),
            head <= b@.len(),
            k <= a@.len() - head,
            k <= b@.len() - head,
            common_tail(x, y, head as int, 0) == common_tail(x, y, head as int, k as int),
        ensures
            k <= a@.len() - head,
            k <= b@.len() - head,
            common_tail(x, y, head as int, 0) == k,
        decreases a@.len() - k,
    {
        assert(x[x.len() - 1 - k] == a@[a@.len() - 1 - k]@);
        assert(y[y.len() - 1 - k] == b@[b@.len() - 1 - k]@);
        k += 1;
    }
    k
}

fn push_lines(
    out: &mut Vec<DiffLine>,
    lines: &Vec<String>,
    from: usize,
    to: usize,
    kind: DiffKind,
)
    requires
        from <= to <= lines@.len(),
    ensures
        entry_view::diff_views(final(out)@) == entry_view::diff_views(old(out)@) + as_kind(
            text::views(lines@).subrange(from as int, to as int),
            kind,
        ),
{
    let ghost before = entry_view::diff_views(out@);
    let ghost all = text::views(lines@);
    let mut i: usize = from;
    assert(before + as_kind(all.subrange(from as int, from as int), kind) =~= before);
    while i < to
        invariant
            from <= i <= to <= lines@.len(),
            all == text::views(lines@),
            entry_view::diff_views(out@) == before + as_kind(
                all.subrange(from as int, i as int),
                kind,
            ),
        decreases to - i,
    {
        let ghost so_far = out@;
        let line: DiffLine = DiffLine { number: None, text: lines[i].clone(), kind };
        let ghost told = DiffView { number: None::<u32>, text: all[i as int], kind };
        out.push(line);
        i += 1;
        proof {
            assert(entry_view::diff_views(out@) =~= entry_view::diff_views(so_far).push(told));
            assert(as_kind(all.subrange(from as int, i as int), kind) =~= as_kind(
                all.subrange(from as int, i - 1),
                kind,
            ).push(told));
            assert(entry_view::diff_views(out@) =~= before + as_kind(
                all.subrange(from as int, i as int),
                kind,
            ));
        }
    }
}

/// What changes between two texts, line by line.
pub fn line_diff(a: &Vec<String>, b: &Vec<String>) -> (r: Vec<DiffLine>)
    ensures
        entry_view::diff_views(r@) == changes(text::views(a@), text::views(b@)),
{
    let head: usize = find_head(a, b);
    let tail: usize = find_tail(a, b, head);
    let mut out: Vec<DiffLine> = Vec::new();
    push_lines(&mut out, a, 0, head, DiffKind::Context);
    push_lines(&mut out, a, head, a.len() - tail, DiffKind::Removed);
    push_lines(&mut out, b, head, b.len() - tail, DiffKind::Added);
    push_lines(&mut out, a, a.len() - tail, a.len(), DiffKind::Context);
    proof {
        let x = text::views(a@);
        assert(x.subrange(0, head as int) =~= x.take(head as int));
        assert(x.subrange(x.len() - tail, x.len() as int) =~= x.skip(x.len() - tail));
        assert(entry_view::diff_views(out@) =~= changes(x, text::views(b@)));
    }
    out
}

/// The lines of a diff that are not of one kind.
pub open spec fn without_kind(lines: Seq<DiffView>, kind: DiffKind) -> Seq<Seq<char>>
    decreases lines.len(),
{
    if lines.len() == 0 {
        Seq::<Seq<char>>::empty()
    } else if lines.last().kind == kind {
        without_kind(lines.drop_last(), kind)
    } else {
        without_kind(lines.drop_last(), kind).push(lines.last().text)
    }
}

proof fn without_kind_adds(a: Seq<DiffView>, b: Seq<DiffView>, kind: DiffKind)
    ensures
        without_kind(a + b, kind) == without_kind(a, kind) + without_kind(b, kind),
    decreases b.len(),
{
    if b.len() == 0 {
        assert(a + b =~= a);
        assert(without_kind(a, kind) + without_kind(b, kind) =~= without_kind(a, kind));
    } else {
        assert((a + b).drop_last() =~= a + b.drop_last());
        assert((a + b).last() == b.last());
        without_kind_adds(a, b.drop_last(), kind);
        if b.last().kind != kind {
            assert((without_kind(a, kind) + without_kind(b.drop_last(), kind)).push(b.last().text)
                =~= without_kind(a, kind) + without_kind(b, kind));
        }
    }
}

proof fn one_kind(lines: Seq<Seq<char>>, of: DiffKind, kind: DiffKind)
    ensures
        without_kind(as_kind(lines, of), kind) == if of == kind {
            Seq::<Seq<char>>::empty()
        } else {
            lines
        },
    decreases lines.len(),
{
    if lines.len() == 0 {
        assert(lines =~= Seq::<Seq<char>>::empty());
    } else {
        assert(as_kind(lines, of).drop_last() =~= as_kind(lines.drop_last(), of));
        one_kind(lines.drop_last(), of, kind);
        assert(lines.drop_last().push(lines.last()) =~= lines);
    }
}

/// A diff holds both texts: without the added lines it is the first, without
/// the removed lines the second.
pub proof fn diffs_hold_both_texts(a: Seq<Seq<char>>, b: Seq<Seq<char>>)
    ensures
        without_kind(changes(a, b), DiffKind::Added) == a,
        without_kind(changes(a, b), DiffKind::Removed) == b,
{
    let head = common_head(a, b, 0);
    head_bounds(a, b, 0);
    let tail = common_tail(a, b, head, 0);
    tail_bounds(a, b, head, 0);
    let first = a.take(head);
    let gone = a.subrange(head, a.len() - tail);
    let new = b.subrange(head, b.len() - tail);
    let last = a.skip(a.len() - tail);
    split_apart(first, gone, new, last, DiffKind::Added);
    split_apart(first, gone, new, last, DiffKind::Removed);
    assert(first + gone + last =~= a);
    assert forall|j: int| 0 <= j < last.len() implies last[j] == b[b.len() - tail + j] by {
        let k = tail - 1 - j;
        assert(from_end(a, k) == from_end(b, k));
    }
    assert(first + new + last =~= b);
}

proof fn split_apart(
    first: Seq<Seq<char>>,
    gone: Seq<Seq<char>>,
    new: Seq<Seq<char>>,
    last: Seq<Seq<char>>,
    kind: DiffKind,
)
    requires
        kind == DiffKind::Added || kind == DiffKind::Removed,
    ensures
        without_kind(
            as_kind(first, DiffKind::Context) + as_kind(gone, DiffKind::Removed) + as_kind(
                new,
                DiffKind::Added,
            ) + as_kind(last, DiffKind::Context),
            kind,
        ) == if kind == DiffKind::Added {
            first + gone + last
        } else {
            first + new + last
        },
{
    let a = as_kind(first, DiffKind::Context);
    let b = as_kind(gone, DiffKind::Removed);
    let c = as_kind(new, DiffKind::Added);
    let d = as_kind(last, DiffKind::Context);
    without_kind_adds(a + b + c, d, kind);
    without_kind_adds(a + b, c, kind);
    without_kind_adds(a, b, kind);
    one_kind(first, DiffKind::Context, kind);
    one_kind(gone, DiffKind::Removed, kind);
    one_kind(new, DiffKind::Added, kind);
    one_kind(last, DiffKind::Context, kind);
    if kind == DiffKind::Added {
        assert(first + gone + Seq::<Seq<char>>::empty() + last =~= first + gone + last);
    } else {
        assert(first + Seq::<Seq<char>>::empty() + new + last =~= first + new + last);
    }
}

} // verus!
