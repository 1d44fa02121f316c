//! The draft of a message: its text, the cursor and the pasted stretches.
//!
//! Positions count characters. A pasted stretch is kept as a range of the
//! text, so that it can be shown, edited and removed as one piece.

use vstd::prelude::*;

use crate::text;

verus! {

broadcast use vstd::string::group_string_axioms;

/// A pasted stretch of the draft: the characters from `start` up to `end`.
#[derive(Clone, Copy, Debug, PartialEq, Eq, Structural)]
pub struct PasteBlock {
    pub id: u64,
    pub start: usize,
    pub end: usize,
}

/// A draft while it is being edited.
pub struct Draft {
    pub text: Vec<char>,
    pub cursor: usize,
    pub blocks: Vec<PasteBlock>,
}

/// What a draft holds.
#[verifier::ext_equal]
pub ghost struct DraftView {
    pub text: Seq<char>,
    pub cursor: int,
    pub blocks: Seq<PasteBlock>,
}

impl View for Draft {
    type V = DraftView;

    open spec fn view(&self) -> DraftView {
        DraftView { text: self.text@, cursor: self.cursor as int, blocks: self.blocks@ }
    }
}

impl DraftView {
    /// The cursor stands in the text, and the blocks are stretches of it.
    pub open spec fn wf(self) -> bool {
        &&& 0 <= self.cursor <= self.text.len() <= usize::MAX
        &&& blocks_fit(self.text.len() as int, self.blocks)
    }

    /// The characters of a block.
    pub open spec fn block_text(self, k: int) -> Seq<char> {
        self.text.subrange(self.blocks[k].start as int, self.blocks[k].end as int)
    }
}

/// The blocks are stretches of a text of this length that are not empty, do
/// not overlap and stand in their order.
pub open spec fn blocks_fit(length: int, blocks: Seq<PasteBlock>) -> bool {
    &&& forall|k: int|
        0 <= k < blocks.len() ==> (#[trigger] blocks[k]).start < blocks[k].end <= length
    &&& forall|j: int, k: int|
        0 <= j < k < blocks.len() ==> (#[trigger] blocks[j]).end <= (#[trigger] blocks[k]).start
}

/// A text with the characters from `from` up to `to` replaced.
pub open spec fn replaced(s: Seq<char>, from: int, to: int, by: Seq<char>) -> Seq<char> {
    s.take(from) + by + s.skip(to)
}

/// Where a block stands after the characters from `from` up to `to` became
/// `n` characters: a block in front of them stays, one behind them moves with
/// its text, and one around them covers what replaced them.
pub open spec fn carried(b: PasteBlock, from: int, to: int, n: int) -> PasteBlock {
    if b.end <= from {
        b
    } else if b.start >= to {
        PasteBlock {
            id: b.id,
            start: (b.start + n - (to - from)) as usize,
            end: (b.end + n - (to - from)) as usize,
        }
    } else {
        PasteBlock { id: b.id, start: b.start, end: (b.end + n - (to - from)) as usize }
    }
}

/// All blocks after a replacement.
pub open spec fn carried_all(blocks: Seq<PasteBlock>, from: int, to: int, n: int) -> Seq<
    PasteBlock,
> {
    Seq::new(blocks.len(), |k: int| carried(blocks[k], from, to, n))
}

/// A draft with a stretch replaced and the cursor at `cursor`.
pub open spec fn spliced(d: DraftView, from: int, to: int, by: Seq<char>, cursor: int) -> DraftView {
    DraftView {
        text: replaced(d.text, from, to, by),
        cursor,
        blocks: carried_all(d.blocks, from, to, by.len() as int),
    }
}

/// Every block lies in front of the stretch, behind it or around it.
pub open spec fn whole_blocks(blocks: Seq<PasteBlock>, from: int, to: int) -> bool {
    forall|k: int|
        0 <= k < blocks.len() ==> {
            ||| (#[trigger] blocks[k]).end <= from
            ||| blocks[k].start >= to
            ||| (blocks[k].start <= from && to <= blocks[k].end)
        }
}

/// A draft stays well formed when a stretch is replaced that no block cuts,
/// unless a block is left empty.
pub proof fn splicing_keeps_order(
    d: DraftView,
    from: int,
    to: int,
    by: Seq<char>,
    cursor: int,
)
    requires
        d.wf(),
        0 <= from <= to <= d.text.len(),
        whole_blocks(d.blocks, from, to),
        by.len() > 0 || forall|k: int|
            0 <= k < d.blocks.len() ==> !((#[trigger] d.blocks[k]).start == from
                && d.blocks[k].end == to),
        d.text.len() - (to - from) + by.len() <= usize::MAX,
        0 <= cursor <= d.text.len() - (to - from) + by.len(),
    ensures
        spliced(d, from, to, by, cursor).wf(),
{
    let after = spliced(d, from, to, by, cursor);
    let delta = by.len() - (to - from);
    assert(after.text.len() == d.text.len() + delta);
    assert forall|k: int| 0 <= k < after.blocks.len() implies (#[trigger] after.blocks[k]).start
        < after.blocks[k].end <= after.text.len() by {
        let b = d.blocks[k];
        assert(b.start < b.end <= d.text.len());
    }
    assert forall|j: int, k: int| 0 <= j < k < after.blocks.len() implies (
    #[trigger] after.blocks[j]).end <= (#[trigger] after.blocks[k]).start by {
        let a = d.blocks[j];
        let b = d.blocks[k];
        assert(a.end <= b.start);
        assert(a.start < a.end && b.start < b.end <= d.text.len());
    }
}

/// Replacing a stretch leaves the text of every block in front of it and
/// behind it as it was: later blocks stay aligned with what was pasted.
pub proof fn other_blocks_keep_their_text(
    d: DraftView,
    from: int,
    to: int,
    by: Seq<char>,
    cursor: int,
    k: int,
)
    requires
        d.wf(),
        0 <= from <= to <= d.text.len(),
        d.text.len() - (to - from) + by.len() <= usize::MAX,
        0 <= k < d.blocks.len(),
        d.blocks[k].end <= from || d.blocks[k].start >= to,
    ensures
        spliced(d, from, to, by, cursor).block_text(k) == d.block_text(k),
        spliced(d, from, to, by, cursor).blocks[k].id == d.blocks[k].id,
{
    let after = spliced(d, from, to, by, cursor);
    assert(d.blocks[k].start < d.blocks[k].end <= d.text.len());
    assert(after.block_text(k) =~= d.block_text(k));
}

impl Draft {
    /// Replaces the characters from `from` up to `to` and moves the cursor.
    fn splice(&mut self, from: usize, to: usize, by: &Vec<char>, cursor: usize)
        requires
            old(self)@.wf(),
            from <= to <= old(self)@.text.len(),
            whole_blocks(old(self)@.blocks, from as int, to as int),
        ensures
            final(self)@ == spliced(old(self)@, from as int, to as int, by@, cursor as int),
            old(self)@.text.len() - (to - from) + by@.len() <= usize::MAX,
    {
        let ghost d = self@;
        let mut tail: Vec<char> = self.text.split_off(to);
        self.text.truncate(from);
        let mut i: usize = 0;
        while i < by.len()
            invariant
                i <= by@.len(),
                self.text@ == d.text.take(from as int) + by@.take(i as int),
                self.blocks@ == d.blocks,
                from <= d.text.len(),
            decreases by@.len() - i,
        {
            self.text.push(by[i]);
            i += 1;
            assert(by@.take(i as int) =~= by@.take(i - 1).push(by@[i - 1]));
        }
        assert(by@.take(by@.len() as int) =~= by@);
        self.text.append(&mut tail);
        assert(self.text@ =~= replaced(d.text, from as int, to as int, by@));
        let _total: usize = self.text.len();
        let n: usize = by.len();
        let mut k: usize = 0;
        while k < self.blocks.len()
            invariant
                k <= self.blocks@.len() == d.blocks.len(),
                d.wf(),
                n == by@.len(),
                from <= to <= d.text.len(),
                d.text.len() - (to - from) + n <= usize::MAX,
                whole_blocks(d.blocks, from as int, to as int),
                self.text@ == replaced(d.text, from as int, to as int, by@),
                forall|j: int|
                    0 <= j < k ==> #[trigger] self.blocks@[j] == carried(
                        d.blocks[j],
                        from as int,
                        to as int,
                        n as int,
                    ),
                forall|j: int| k <= j < d.blocks.len() ==> #[trigger] self.blocks@[j] == d.blocks[j],
            decreases self.blocks@.len() - k,
        {
            let b: PasteBlock = self.blocks[k];
            assert(b == d.blocks[k as int]);
            if b.end > from {
                let end: usize = b.end - (to - from) + n;
                let start: usize = if b.start >= to {
                    b.start - (to - from) + n
                } else {
                    b.start
                };
                self.blocks.set(k, PasteBlock { id: b.id, start, end });
            }
            k += 1;
        }
        self.cursor = cursor;
        assert(self.blocks@ =~= carried_all(d.blocks, from as int, to as int, by@.len() as int));
    }
}

/// A draft with a block taken out, text and all.
pub open spec fn without_block(d: DraftView, k: int) -> DraftView {
    spliced(
        DraftView { blocks: d.blocks.remove(k), ..d },
        d.blocks[k].start as int,
        d.blocks[k].end as int,
        Seq::empty(),
        d.blocks[k].start as int,
    )
}

/// A draft with text typed at the cursor.
pub open spec fn typed(d: DraftView, by: Seq<char>) -> DraftView {
    spliced(d, d.cursor, d.cursor, by, d.cursor + by.len())
}

/// The block that the cursor touches, `None` without one. Of two blocks that
/// meet at the cursor it is the first.
pub open spec fn touched(d: DraftView, k: int) -> bool {
    &&& 0 <= k < d.blocks.len()
    &&& d.blocks[k].start <= d.cursor <= d.blocks[k].end
    &&& forall|j: int| 0 <= j < k ==> (#[trigger] d.blocks[j]).end < d.cursor
}

/// The block that ends at the cursor or holds it.
pub open spec fn behind(d: DraftView, k: int) -> bool {
    &&& 0 <= k < d.blocks.len()
    &&& d.blocks[k].start < d.cursor <= d.blocks[k].end
}

/// What the delete key does: a block that the cursor touches goes as a whole,
/// otherwise the character under the cursor does.
pub open spec fn after_delete(d: DraftView, r: DraftView) -> bool {
    if exists|k: int| touched(d, k) {
        exists|k: int| touched(d, k) && r == without_block(d, k)
    } else if d.cursor < d.text.len() {
        r == spliced(d, d.cursor, d.cursor + 1, Seq::empty(), d.cursor)
    } else {
        r == d
    }
}

/// What the backspace key does: a block that the cursor stands in or behind
/// goes as a whole, otherwise the character in front of the cursor does.
pub open spec fn after_backspace(d: DraftView, r: DraftView) -> bool {
    if exists|k: int| behind(d, k) {
        exists|k: int| behind(d, k) && r == without_block(d, k)
    } else if d.cursor > 0 {
        r == spliced(d, d.cursor - 1, d.cursor, Seq::empty(), d.cursor - 1)
    } else {
        r == d
    }
}

/// A text whose line ends are all line feeds.
pub open spec fn line_feeds(s: Seq<char>) -> Seq<char>
    decreases s.len(),
{
    if s.len() == 0 {
        s
    } else if s[0] == '\r' {
        if s.len() > 1 && s[1] == '\n' {
            seq!['\n'] + line_feeds(s.skip(2))
        } else {
            seq!['\n'] + line_feeds(s.skip(1))
        }
    } else {
        seq![s[0]] + line_feeds(s.skip(1))
    }
}

/// Turns every line end into a line feed.
pub fn normalized(s: &str) -> (r: Vec<char>)
    ensures
        r@ == line_feeds(s@),
{
    let chars: Vec<char> = text::chars_of(s);
    let mut out: Vec<char> = Vec::new();
    let mut i: usize = 0;
    assert(chars@.skip(0) =~= chars@);
    assert(out@ + line_feeds(chars@) =~= line_feeds(chars@));
    while i < chars.len()
        invariant
            i <= chars@.len(),
            out@ + line_feeds(chars@.skip(i as int)) == line_feeds(chars@),
        decreases chars@.len() - i,
    {
        let ghost rest = chars@.skip(i as int);
        let ghost done = out@;
        let c: char = chars[i];
        assert(rest[0] == c);
        if c == '\r' {
            out.push('\n');
            if chars.len() - i > 1 && chars[i + 1] == '\n' {
                assert(rest[1] == '\n');
                assert(rest.skip(2) =~= chars@.skip(i + 2));
                i += 2;
            } else {
                assert(rest.len() > 1 ==> rest[1] != '\n');
                assert(rest.skip(1) =~= chars@.skip(i + 1));
                i += 1;
            }
            assert(out@ + line_feeds(chars@.skip(i as int)) =~= done + (seq!['\n'] + line_feeds(
                chars@.skip(i as int),
            )));
        } else {
            out.push(c);
            assert(rest.skip(1) =~= chars@.skip(i + 1));
            i += 1;
            assert(out@ + line_feeds(chars@.skip(i as int)) =~= done + (seq![c] + line_feeds(
                chars@.skip(i as int),
            )));
        }
    }
    assert(chars@.skip(chars@.len() as int) =~= Seq::<char>::empty());
    assert(out@ =~= out@ + Seq::<char>::empty());
    out
}

/// Whether the cursor stands strictly inside a block.
pub open spec fn inside_a_block(d: DraftView) -> bool {
    exists|k: int|
        0 <= k < d.blocks.len() && (#[trigger] d.blocks[k]).start < d.cursor < d.blocks[k].end
}

/// The place among the blocks of one that starts at the cursor.
pub open spec fn block_place(d: DraftView, at: int) -> bool {
    &&& 0 <= at <= d.blocks.len()
    &&& forall|j: int| 0 <= j < at ==> (#[trigger] d.blocks[j]).end <= d.cursor
    &&& forall|j: int| at <= j < d.blocks.len() ==> (#[trigger] d.blocks[j]).start >= d.cursor
}

/// What pasting does: the text is inserted at the cursor and becomes a block,
/// unless it is empty or lands inside a block, which then covers it.
pub open spec fn pasted(d: DraftView, id: u64, by: Seq<char>, r: DraftView) -> bool {
    if by.len() == 0 {
        r == d
    } else if inside_a_block(d) {
        r == typed(d, by)
    } else {
        exists|at: int| #[trigger]
            block_place(d, at) && r == (DraftView {
                blocks: typed(d, by).blocks.insert(
                    at,
                    PasteBlock {
                        id,
                        start: d.cursor as usize,
                        end: (d.cursor + by.len()) as usize,
                    },
                ),
                ..typed(d, by)
            })
    }
}

/// A block carries this identifier.
pub open spec fn names_block(d: DraftView, id: u64, k: int) -> bool {
    &&& 0 <= k < d.blocks.len()
    &&& d.blocks[k].id == id
    &&& forall|j: int| 0 <= j < k ==> (#[trigger] d.blocks[j]).id != id
}

/// Where the cursor goes when the stretch of a block changes its length.
pub open spec fn cursor_after(d: DraftView, k: int, n: int) -> int {
    let b = d.blocks[k];
    if d.cursor >= b.end {
        d.cursor + n - (b.end - b.start)
    } else if d.cursor > b.start {
        b.start + n
    } else {
        d.cursor
    }
}

/// What replacing the text of a block does. Replaced by nothing, the block is
/// taken out.
pub open spec fn block_replaced(d: DraftView, k: int, by: Seq<char>) -> DraftView {
    let b = d.blocks[k];
    if by.len() == 0 {
        DraftView { cursor: cursor_after(d, k, 0), ..without_block(d, k) }
    } else {
        spliced(d, b.start as int, b.end as int, by, cursor_after(d, k, by.len() as int))
    }
}

impl Draft {
    /// Types text at the cursor.
    pub fn type_text(&mut self, by: &Vec<char>)
        requires
            old(self)@.wf(),
        ensures
            final(self)@ == typed(old(self)@, by@),
            final(self)@.wf(),
    {
        let ghost d = self@;
        let at: usize = self.cursor;
        self.splice(at, at, by, at);
        self.cursor = at + by.len();
        proof {
            splicing_keeps_order(d, at as int, at as int, by@, at + by@.len());
        }
    }

    /// Takes out a block with its text.
    fn remove_block(&mut self, k: usize)
        requires
            old(self)@.wf(),
            k < old(self)@.blocks.len(),
        ensures
            final(self)@ == without_block(old(self)@, k as int),
            final(self)@.wf(),
    {
        let ghost d = self@;
        let b: PasteBlock = self.blocks.remove(k);
        let ghost rest = DraftView { blocks: d.blocks.remove(k as int), ..d };
        proof {
            assert(b == d.blocks[k as int]);
            assert forall|i: int| 0 <= i < rest.blocks.len() implies (
            (#[trigger] rest.blocks[i]).end <= b.start || rest.blocks[i].start >= b.end)
                && rest.blocks[i].start < rest.blocks[i].end <= rest.text.len() by {
                let o = if i < k {
                    i
                } else {
                    i + 1
                };
                assert(rest.blocks[i] == d.blocks[o]);
                assert(d.blocks[o].start < d.blocks[o].end <= d.text.len());
                if i < k {
                    assert(d.blocks[o].end <= d.blocks[k as int].start);
                } else {
                    assert(d.blocks[k as int].end <= d.blocks[o].start);
                }
            }
            assert forall|i: int, j: int| 0 <= i < j < rest.blocks.len() implies (
            #[trigger] rest.blocks[i]).end <= (#[trigger] rest.blocks[j]).start by {
                let x = if i < k {
                    i
                } else {
                    i + 1
                };
                let y = if j < k {
                    j
                } else {
                    j + 1
                };
                assert(d.blocks[x].end <= d.blocks[y].start);
            }
            splicing_keeps_order(rest, b.start as int, b.end as int, Seq::empty(), b.start as int);
        }
        let nothing: Vec<char> = Vec::new();
        self.splice(b.start, b.end, &nothing, b.start);
        assert(nothing@ =~= Seq::<char>::empty());
    }

    /// Deletes what the cursor touches.
    pub fn delete(&mut self)
        requires
            old(self)@.wf(),
        ensures
            after_delete(old(self)@, final(self)@),
            final(self)@.wf(),
    {
        let ghost d = self@;
        let mut k: usize = 0;
        while k < self.blocks.len()
            invariant
                self@ == d,
                *self == *old(self),
                d.wf(),
                k <= d.blocks.len(),
                forall|j: int|
                    0 <= j < k ==> !((#[trigger] d.blocks[j]).start <= d.cursor
                        <= d.blocks[j].end),
            decreases d.blocks.len() - k,
        {
            if self.blocks[k].start <= self.cursor && self.cursor <= self.blocks[k].end {
                proof {
                    assert forall|j: int| 0 <= j < k implies (#[trigger] d.blocks[j]).end
                        < d.cursor by {
                        assert(d.blocks[j].end <= d.blocks[k as int].start);
                        assert(d.blocks[j].start < d.blocks[j].end);
                    }
                    assert(touched(d, k as int));
                }
                self.remove_block(k);
                return ;
            }
            k += 1;
        }
        assert(!exists|k: int| touched(d, k));
        if self.cursor < self.text.len() {
            let at: usize = self.cursor;
            let nothing: Vec<char> = Vec::new();
            assert(nothing@ =~= Seq::<char>::empty());
            proof {
                splicing_keeps_order(d, at as int, at + 1, Seq::empty(), at as int);
            }
            self.splice(at, at + 1, &nothing, at);
        }
    }

    /// Deletes what stands in front of the cursor.
    pub fn backspace(&mut self)
        requires
            old(self)@.wf(),
        ensures
            after_backspace(old(self)@, final(self)@),
            final(self)@.wf(),
    {
        let ghost d = self@;
        let mut k: usize = 0;
        while k < self.blocks.len()
            invariant
                self@ == d,
                *self == *old(self),
                d.wf(),
                k <= d.blocks.len(),
                forall|j: int|
                    0 <= j < k ==> !((#[trigger] d.blocks[j]).start < d.cursor
                        <= d.blocks[j].end),
            decreases d.blocks.len() - k,
        {
            if self.blocks[k].start < self.cursor && self.cursor <= self.blocks[k].end {
                assert(behind(d, k as int));
                self.remove_block(k);
                return ;
            }
            k += 1;
        }
        assert(!exists|k: int| behind(d, k));
        if self.cursor > 0 {
            let at: usize = self.cursor;
            let nothing: Vec<char> = Vec::new();
            assert(nothing@ =~= Seq::<char>::empty());
            proof {
                splicing_keeps_order(d, at - 1, at as int, Seq::empty(), at - 1);
            }
            self.splice(at - 1, at, &nothing, at - 1);
        }
    }

    /// Pastes text at the cursor.
    pub fn paste(&mut self, id: u64, by: &Vec<char>)
        requires
            old(self)@.wf(),
        ensures
            pasted(old(self)@, id, by@, final(self)@),
            final(self)@.wf(),
    {
        let ghost d = self@;
        if by.len() == 0 {
            return ;
        }
        let mut at: usize = 0;
        while at < self.blocks.len() && self.blocks[at].end <= self.cursor
            invariant
                self@ == d,
                *self == *old(self),
                d.wf(),
                at <= d.blocks.len(),
                forall|j: int| 0 <= j < at ==> (#[trigger] d.blocks[j]).end <= d.cursor,
            decreases d.blocks.len() - at,
        {
            at += 1;
        }
        let start: usize = self.cursor;
        let inside: bool = at < self.blocks.len() && self.blocks[at].start < start;
        proof {
            if inside {
                assert(d.blocks[at as int].start < d.cursor < d.blocks[at as int].end);
            } else {
                assert forall|j: int| at <= j < d.blocks.len() implies (
                #[trigger] d.blocks[j]).start >= d.cursor by {
                    if j > at {
                        assert(d.blocks[at as int].end <= d.blocks[j].start);
                    }
                }
                assert(block_place(d, at as int));
                assert(!inside_a_block(d)) by {
                    assert forall|k: int| 0 <= k < d.blocks.len() implies !(
                    (#[trigger] d.blocks[k]).start < d.cursor < d.blocks[k].end) by {}
                }
            }
        }
        self.type_text(by);
        if !inside {
            let end: usize = self.cursor;
            let ghost t = self@;
            self.blocks.insert(at, PasteBlock { id, start, end });
            proof {
                let r = self@;
                assert forall|k: int| 0 <= k < r.blocks.len() implies (
                #[trigger] r.blocks[k]).start < r.blocks[k].end <= r.text.len() by {
                    if k < at {
                        assert(r.blocks[k] == t.blocks[k]);
                    } else if k > at {
                        assert(r.blocks[k] == t.blocks[k - 1]);
                    }
                }
                assert forall|j: int, k: int| 0 <= j < k < r.blocks.len() implies (
                #[trigger] r.blocks[j]).end <= (#[trigger] r.blocks[k]).start by {
                    if k == at {
                        assert(r.blocks[j] == t.blocks[j]);
                        assert(t.blocks[j] == carried(
                            d.blocks[j],
                            d.cursor,
                            d.cursor,
                            by@.len() as int,
                        ));
                    } else if j == at {
                        assert(r.blocks[k] == t.blocks[k - 1]);
                        assert(t.blocks[k - 1] == carried(
                            d.blocks[k - 1],
                            d.cursor,
                            d.cursor,
                            by@.len() as int,
                        ));
                        assert(d.blocks[k - 1].start >= d.cursor);
                        assert(d.blocks[k - 1].start < d.blocks[k - 1].end <= d.text.len());
                    } else {
                        let x = if j < at {
                            j
                        } else {
                            j - 1
                        };
                        let y = if k < at {
                            k
                        } else {
                            k - 1
                        };
                        assert(r.blocks[j] == t.blocks[x]);
                        assert(r.blocks[k] == t.blocks[y]);
                        assert(t.blocks[x].end <= t.blocks[y].start);
                    }
                }
                assert(pasted(d, id, by@, r));
            }
        }
    }

    /// The first block with an identifier.
    pub fn find_block(&self, id: u64) -> (r: Option<usize>)
        ensures
            match r {
                Some(k) => names_block(self@, id, k as int),
                None => forall|j: int|
                    0 <= j < self@.blocks.len() ==> (#[trigger] self@.blocks[j]).id != id,
            },
    {
        let mut k: usize = 0;
        while k < self.blocks.len()
            invariant
                k <= self.blocks@.len(),
                forall|j: int| 0 <= j < k ==> (#[trigger] self@.blocks[j]).id != id,
            decreases self.blocks@.len() - k,
        {
            if self.blocks[k].id == id {
                return Some(k);
            }
            k += 1;
        }
        None
    }

    /// Replaces the text of a block.
    pub fn replace_block(&mut self, k: usize, by: &Vec<char>)
        requires
            old(self)@.wf(),
            k < old(self)@.blocks.len(),
        ensures
            final(self)@ == block_replaced(old(self)@, k as int, by@),
            final(self)@.wf(),
    {
        let ghost d = self@;
        let b: PasteBlock = self.blocks[k];
        let cursor: usize = self.cursor;
        assert(d.blocks[k as int].start < d.blocks[k as int].end <= d.text.len());
        if by.len() == 0 {
            self.remove_block(k);
            self.cursor = if cursor >= b.end {
                cursor - (b.end - b.start)
            } else if cursor > b.start {
                b.start
            } else {
                cursor
            };
            return ;
        }
        proof {
            assert forall|j: int| 0 <= j < d.blocks.len() implies (#[trigger] d.blocks[j]).end
                <= b.start || d.blocks[j].start >= b.end || (d.blocks[j].start <= b.start && b.end
                <= d.blocks[j].end) by {
                if j < k {
                    assert(d.blocks[j].end <= d.blocks[k as int].start);
                } else if j > k {
                    assert(d.blocks[k as int].end <= d.blocks[j].start);
                }
            }
        }
        self.splice(b.start, b.end, by, cursor);
        let _total: usize = self.text.len();
        self.cursor = if cursor >= b.end {
            cursor - (b.end - b.start) + by.len()
        } else if cursor > b.start {
            b.start + by.len()
        } else {
            cursor
        };
        proof {
            splicing_keeps_order(
                d,
                b.start as int,
                b.end as int,
                by@,
                cursor_after(d, k as int, by@.len() as int),
            );
        }
    }
}

/// A block is not cut by a stretch.
pub open spec fn uncut_block(b: PasteBlock, from: int, to: int) -> bool {
    b.end <= from || b.start >= to || (b.start <= from && to <= b.end)
}

/// The blocks that a stretch does not cut.
pub open spec fn uncut(blocks: Seq<PasteBlock>, from: int, to: int) -> Seq<PasteBlock>
    decreases blocks.len(),
{
    if blocks.len() == 0 {
        blocks
    } else {
        let rest = uncut(blocks.drop_last(), from, to);
        if uncut_block(blocks.last(), from, to) {
            rest.push(blocks.last())
        } else {
            rest
        }
    }
}

/// A draft in which a word was replaced: blocks that the word cuts are no
/// longer kept as blocks.
pub open spec fn word_replaced(d: DraftView, from: int, to: int, by: Seq<char>) -> DraftView {
    spliced(
        DraftView { blocks: uncut(d.blocks, from, to), ..d },
        from,
        to,
        by,
        from + by.len(),
    )
}

proof fn uncut_fits(length: int, blocks: Seq<PasteBlock>, from: int, to: int)
    requires
        blocks_fit(length, blocks),
    ensures
        blocks_fit(length, uncut(blocks, from, to)),
        whole_blocks(uncut(blocks, from, to), from, to),
        forall|k: int|
            0 <= k < uncut(blocks, from, to).len() ==> blocks.contains(
                #[trigger] uncut(blocks, from, to)[k],
            ),
    decreases blocks.len(),
{
    if blocks.len() > 0 {
        let front = blocks.drop_last();
        assert(blocks_fit(length, front));
        uncut_fits(length, front, from, to);
        let rest = uncut(front, from, to);
        let all = uncut(blocks, from, to);
        assert forall|k: int| 0 <= k < rest.len() implies (#[trigger] rest[k]).end
            <= blocks.last().start && blocks.contains(rest[k]) by {
            let i = choose|i: int| 0 <= i < front.len() && front[i] == rest[k];
            assert(blocks[i] == rest[k]);
            assert(blocks[i].end <= blocks[blocks.len() - 1].start);
        }
        assert(blocks.contains(blocks.last())) by {
            assert(blocks[blocks.len() - 1] == blocks.last());
        }
        assert forall|k: int| 0 <= k < all.len() implies blocks.contains(#[trigger] all[k]) by {
            if k < rest.len() {
                assert(all[k] == rest[k]);
            }
        }
        assert(blocks[blocks.len() - 1].start < blocks[blocks.len() - 1].end <= length);
        assert forall|k: int| 0 <= k < all.len() implies (#[trigger] all[k]).start < all[k].end
            <= length by {
            if k < rest.len() {
                assert(all[k] == rest[k]);
            }
        }
        assert forall|j: int, k: int| 0 <= j < k < all.len() implies (#[trigger] all[j]).end <= (
        #[trigger] all[k]).start by {
            assert(all[j] == rest[j]);
            if k < rest.len() {
                assert(all[k] == rest[k]);
            }
        }
    }
}

impl Draft {
    /// Replaces a word.
    pub fn replace_word(&mut self, from: usize, to: usize, by: &Vec<char>)
        requires
            old(self)@.wf(),
            from <= to <= old(self)@.text.len(),
            by@.len() > 0,
        ensures
            final(self)@ == word_replaced(old(self)@, from as int, to as int, by@),
            final(self)@.wf(),
    {
        let ghost d = self@;
        let mut kept: Vec<PasteBlock> = Vec::new();
        let mut i: usize = 0;
        assert(uncut(d.blocks.take(0), from as int, to as int) =~= Seq::<PasteBlock>::empty());
        while i < self.blocks.len()
            invariant
                *self == *old(self),
                d == self@,
                i <= d.blocks.len(),
                kept@ == uncut(d.blocks.take(i as int), from as int, to as int),
            decreases d.blocks.len() - i,
        {
            let b: PasteBlock = self.blocks[i];
            assert(d.blocks.take(i + 1).drop_last() =~= d.blocks.take(i as int));
            if b.end <= from || b.start >= to || (b.start <= from && to <= b.end) {
                kept.push(b);
            }
            i += 1;
        }
        assert(d.blocks.take(d.blocks.len() as int) =~= d.blocks);
        self.blocks = kept;
        proof {
            uncut_fits(d.text.len() as int, d.blocks, from as int, to as int);
        }
        let ghost cutting = self@;
        self.splice(from, to, by, from);
        let _total: usize = self.text.len();
        self.cursor = from + by.len();
        proof {
            splicing_keeps_order(cutting, from as int, to as int, by@, from + by@.len());
        }
    }
}

/// Typed text stands where the cursor was, with what was before it and behind it around it,
/// and the cursor stands behind it.
pub proof fn typing_inserts_at_the_cursor(d: DraftView, by: Seq<char>)
    requires
        d.wf(),
    ensures
        typed(d, by).text.take(d.cursor) == d.text.take(d.cursor),
        typed(d, by).text.subrange(d.cursor, d.cursor + by.len()) == by,
        typed(d, by).text.skip(d.cursor + by.len()) == d.text.skip(d.cursor),
        typed(d, by).cursor == d.cursor + by.len(),
{
    let t = typed(d, by).text;
    assert(t.take(d.cursor) =~= d.text.take(d.cursor));
    assert(t.subrange(d.cursor, d.cursor + by.len()) =~= by);
    assert(t.skip(d.cursor + by.len()) =~= d.text.skip(d.cursor));
}

/// In a draft without pasted stretches, the backspace key takes back the last character that
/// was typed.
pub proof fn backspace_takes_typing_back(d: DraftView, c: char, r: DraftView)
    requires
        d.wf(),
        d.blocks.len() == 0,
        after_backspace(typed(d, seq![c]), r),
    ensures
        r.text == d.text,
        r.cursor == d.cursor,
        r.blocks.len() == 0,
{
    let t = typed(d, seq![c]);
    assert(t.blocks.len() == 0);
    assert(forall|k: int| !behind(t, k));
    assert(r.text =~= d.text);
}

/// Without pasted stretches, the delete key takes the character under the cursor, and the
/// backspace key the one in front of it; the others stay in their order.
pub proof fn keys_delete_one_character(d: DraftView, deleted: DraftView, erased: DraftView)
    requires
        d.wf(),
        d.blocks.len() == 0,
        after_delete(d, deleted),
        after_backspace(d, erased),
    ensures
        d.cursor < d.text.len() ==> deleted.text == d.text.remove(d.cursor),
        d.cursor == d.text.len() ==> deleted.text == d.text,
        deleted.cursor == d.cursor,
        d.cursor > 0 ==> erased.text == d.text.remove(d.cursor - 1) && erased.cursor == d.cursor
            - 1,
        d.cursor == 0 ==> erased.text == d.text && erased.cursor == 0,
{
    assert(forall|k: int| !touched(d, k));
    assert(forall|k: int| !behind(d, k));
    if d.cursor < d.text.len() {
        assert(deleted.text =~= d.text.remove(d.cursor));
    }
    if d.cursor > 0 {
        assert(erased.text =~= d.text.remove(d.cursor - 1));
    }
}

/// Pasted text stands where the cursor was, whole, and is kept as one stretch unless it lands
/// in another one.
pub proof fn pasting_inserts_one_stretch(d: DraftView, id: u64, by: Seq<char>, r: DraftView) -> (k:
    int)
    requires
        d.wf(),
        pasted(d, id, by, r),
        by.len() > 0,
        d.text.len() + by.len() <= usize::MAX,
    ensures
        r.text == d.text.take(d.cursor) + by + d.text.skip(d.cursor),
        r.cursor == d.cursor + by.len(),
        !inside_a_block(d) ==> {
            &&& r.blocks.len() == d.blocks.len() + 1
            &&& 0 <= k < r.blocks.len()
            &&& r.blocks[k].id == id
            &&& r.block_text(k) == by
        },
{
    assert(r.text =~= d.text.take(d.cursor) + by + d.text.skip(d.cursor));
    if !inside_a_block(d) {
        let at = choose|at: int| #[trigger]
            block_place(d, at) && r == (DraftView {
                blocks: typed(d, by).blocks.insert(
                    at,
                    PasteBlock {
                        id,
                        start: d.cursor as usize,
                        end: (d.cursor + by.len()) as usize,
                    },
                ),
                ..typed(d, by)
            });
        assert(r.blocks[at].id == id);
        assert(r.block_text(at) =~= by);
        at
    } else {
        0
    }
}

/// A stretch that is taken out goes with all of its text and nothing else.
pub proof fn stretches_go_as_a_whole(d: DraftView, k: int)
    requires
        d.wf(),
        0 <= k < d.blocks.len(),
    ensures
        without_block(d, k).text == d.text.take(d.blocks[k].start as int) + d.text.skip(
            d.blocks[k].end as int,
        ),
        without_block(d, k).cursor == d.blocks[k].start,
        without_block(d, k).blocks.len() == d.blocks.len() - 1,
{
    assert(without_block(d, k).text =~= d.text.take(d.blocks[k].start as int) + d.text.skip(
        d.blocks[k].end as int,
    ));
}

/// Where the cursor stands in a stretch or behind it, the backspace key takes out a whole
/// stretch.
pub proof fn backspace_takes_a_stretch(d: DraftView, k: int, r: DraftView)
    requires
        d.wf(),
        0 <= k < d.blocks.len(),
        d.blocks[k].start < d.cursor <= d.blocks[k].end,
        after_backspace(d, r),
    ensures
        r.text == d.text.take(d.blocks[k].start as int) + d.text.skip(d.blocks[k].end as int),
{
    assert(behind(d, k));
    let j = choose|j: int| behind(d, j) && r == without_block(d, j);
    if j < k {
        assert(d.blocks[j].end <= d.blocks[k].start);
    } else if k < j {
        assert(d.blocks[k].end <= d.blocks[j].start);
    }
    stretches_go_as_a_whole(d, j);
}

/// A stretch that gets another text holds that text, and what stands around it stays.
pub proof fn stretches_are_rewritten(d: DraftView, k: int, by: Seq<char>)
    requires
        d.wf(),
        0 <= k < d.blocks.len(),
        d.text.len() + by.len() <= usize::MAX,
    ensures
        block_replaced(d, k, by).text == d.text.take(d.blocks[k].start as int) + by + d.text.skip(
            d.blocks[k].end as int,
        ),
        by.len() > 0 ==> block_replaced(d, k, by).blocks.len() == d.blocks.len() && block_replaced(
            d,
            k,
            by,
        ).block_text(k) == by,
        by.len() == 0 ==> block_replaced(d, k, by).blocks.len() == d.blocks.len() - 1,
{
    let r = block_replaced(d, k, by);
    let b = d.blocks[k];
    assert(b.start < b.end <= d.text.len());
    assert(r.text =~= d.text.take(b.start as int) + by + d.text.skip(b.end as int));
    if by.len() > 0 {
        assert(r.block_text(k) =~= by);
    }
}

/// A word that is replaced gives way to the new one, and the cursor stands behind it.
pub proof fn words_are_replaced(d: DraftView, from: int, to: int, by: Seq<char>)
    requires
        d.wf(),
        0 <= from <= to <= d.text.len(),
    ensures
        word_replaced(d, from, to, by).text == d.text.take(from) + by + d.text.skip(to),
        word_replaced(d, from, to, by).cursor == from + by.len(),
{
}

/// Line ends all become line feeds: none of the other kind is left, each pair becomes one, and
/// everything else stays.
pub proof fn line_ends_become_feeds(s: Seq<char>)
    ensures
        !line_feeds(s).contains('\r'),
        !s.contains('\r') ==> line_feeds(s) == s,
        s.len() > 1 && s[0] == '\r' && s[1] == '\n' ==> line_feeds(s) == seq!['\n'] + line_feeds(
            s.skip(2),
        ),
        line_feeds(s).len() <= s.len(),
    decreases s.len(),
{
    if s.len() > 0 {
        let n = if s[0] == '\r' && s.len() > 1 && s[1] == '\n' {
            2int
        } else {
            1int
        };
        let rest = s.skip(n);
        line_ends_become_feeds(rest);
        let all = line_feeds(s);
        let more = line_feeds(rest);
        assert(all == seq![all[0]] + more);
        if all.contains('\r') {
            let i = choose|i: int| 0 <= i < all.len() && all[i] == '\r';
            if i > 0 {
                assert(more[i - 1] == '\r');
                assert(more.contains('\r'));
            }
        }
        if !s.contains('\r') {
            assert(s[0] != '\r');
            if rest.contains('\r') {
                let i = choose|i: int| 0 <= i < rest.len() && rest[i] == '\r';
                assert(s[i + 1] == '\r');
            }
            assert(all =~= s);
        }
    }
}

} // verus!
