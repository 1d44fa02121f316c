//! The dialog over the screen: what is typed into it and what it points at.

use vstd::prelude::*;

use crate::composer;
use crate::state_types::OverlayKind;
use crate::text;

verus! {

broadcast use vstd::string::group_string_axioms;

/// A dialog. A dialog opened from another one remembers it and the row that
/// was selected there.
#[derive(Clone, Debug)]
pub struct Dialog {
    pub overlay: OverlayKind,
    pub overlay_query: String,
    pub overlay_cursor: usize,
    pub overlay_selected: usize,
    pub overlay_hovered: Option<usize>,
    pub overlay_close_hovered: bool,
    pub overlay_parent: Option<(OverlayKind, usize)>,
}

/// A dialog that was just opened: nothing typed, the row `selected` selected,
/// nothing hovered.
pub open spec fn opened(
    d: Dialog,
    kind: OverlayKind,
    selected: usize,
    parent: Option<(OverlayKind, usize)>,
) -> bool {
    &&& d.overlay == kind
    &&& d.overlay_query@ == Seq::<char>::empty()
    &&& d.overlay_cursor == 0
    &&& d.overlay_selected == selected
    &&& d.overlay_hovered is None
    &&& !d.overlay_close_hovered
    &&& d.overlay_parent == parent
}

/// What closing does: the dialog underneath comes back with its selection.
pub open spec fn closed_to(before: Dialog, after: Dialog) -> bool {
    match before.overlay_parent {
        Some((kind, selected)) => opened(after, kind, selected, None),
        None => opened(after, OverlayKind::Closed, 0, None),
    }
}

/// A number moved by `delta` but kept in front of `count`.
pub open spec fn stepped(at: int, delta: int, count: int) -> int {
    if count <= 0 || at + delta < 0 {
        0
    } else if at + delta >= count {
        count - 1
    } else {
        at + delta
    }
}

/// The number of characters in front of the line that holds position `at`.
pub open spec fn line_start(s: Seq<char>, at: int) -> int
    decreases at,
{
    if at <= 0 {
        0
    } else if at <= s.len() && s[at - 1] == '\n' {
        at
    } else {
        line_start(s, at - 1)
    }
}

/// The number of characters up to the end of the line that holds `at`.
pub open spec fn line_end(s: Seq<char>, at: int) -> int
    decreases s.len() - at,
{
    if at >= s.len() || (at >= 0 && s[at] == '\n') {
        at
    } else {
        line_end(s, at + 1)
    }
}

/// Moves a number by `delta` but no further than `last`.
pub fn moved(at: usize, delta: isize, last: usize) -> (r: usize)
    ensures
        r == stepped(at as int, delta as int, last + 1),
{
    if delta < 0 {
        let back: usize = if delta == isize::MIN {
            isize::MAX as usize + 1
        } else {
            (-delta) as usize
        };
        let to: usize = if at >= back {
            at - back
        } else {
            0
        };
        if to < last {
            to
        } else {
            last
        }
    } else {
        let ahead: usize = delta as usize;
        if at < last && last - at > ahead {
            at + ahead
        } else {
            last
        }
    }
}

/// Moves a number by `delta` but keeps it in front of `count`.
pub fn step(at: usize, delta: isize, count: usize) -> (r: usize)
    ensures
        r == stepped(at as int, delta as int, count as int),
{
    if count == 0 {
        0
    } else {
        moved(at, delta, count - 1)
    }
}

impl Default for Dialog {
    fn default() -> (r: Self)
        ensures
            opened(r, OverlayKind::Closed, 0, None),
    {
        Dialog::new(OverlayKind::Closed, 0, None)
    }
}

impl Dialog {
    /// A dialog that was just opened.
    fn new(
        kind: OverlayKind,
        selected: usize,
        parent: Option<(OverlayKind, usize)>,
    ) -> (r: Dialog)
        ensures
            opened(r, kind, selected, parent),
    {
        proof {
            reveal_strlit("");
            assert(""@ =~= Seq::<char>::empty());
        }
        Dialog {
            overlay: kind,
            overlay_query: "".to_owned(),
            overlay_cursor: 0,
            overlay_selected: selected,
            overlay_hovered: None,
            overlay_close_hovered: false,
            overlay_parent: parent,
        }
    }

    /// Opens a dialog in place of the present one.
    pub fn open(&mut self, kind: OverlayKind)
        ensures
            opened(*final(self), kind, 0, None),
    {
        *self = Dialog::new(kind, 0, None);
    }

    /// Opens a dialog over the present one.
    pub fn open_over(&mut self, kind: OverlayKind)
        ensures
            opened(*final(self), kind, 0, Some((old(self).overlay, old(self).overlay_selected))),
    {
        let parent: (OverlayKind, usize) = (self.overlay, self.overlay_selected);
        *self = Dialog::new(kind, 0, Some(parent));
    }

    /// Closes the dialog.
    pub fn close(&mut self)
        ensures
            closed_to(*old(self), *final(self)),
    {
        match self.overlay_parent {
            Some((kind, selected)) => {
                *self = Dialog::new(kind, selected, None);
            },
            None => {
                *self = Dialog::new(OverlayKind::Closed, 0, None);
            },
        }
    }

    /// Moves the selection.
    pub fn move_selection(&mut self, delta: isize, count: usize)
        ensures
            *final(self) == (Dialog {
                overlay_selected: final(self).overlay_selected,
                overlay_hovered: None,
                ..*old(self)
            }),
            final(self).overlay_selected == stepped(
                old(self).overlay_selected as int,
                delta as int,
                count as int,
            ),
    {
        self.overlay_selected = step(self.overlay_selected, delta, count);
        self.overlay_hovered = None;
    }

    /// Types a character behind the query; the first row is selected again.
    pub fn type_char(&mut self, c: char)
        ensures
            *final(self) == (Dialog {
                overlay_query: final(self).overlay_query,
                overlay_selected: 0,
                overlay_hovered: None,
                ..*old(self)
            }),
            final(self).overlay_query@ == old(self).overlay_query@.push(c),
    {
        self.overlay_query.push(c);
        self.overlay_selected = 0;
        self.overlay_hovered = None;
    }

    /// Takes back the last character of the query.
    pub fn erase(&mut self)
        ensures
            *final(self) == (Dialog {
                overlay_query: final(self).overlay_query,
                overlay_selected: 0,
                overlay_hovered: None,
                ..*old(self)
            }),
            final(self).overlay_query@ == if old(self).overlay_query@.len() > 0 {
                old(self).overlay_query@.drop_last()
            } else {
                old(self).overlay_query@
            },
    {
        let chars: Vec<char> = text::chars_of(self.overlay_query.as_str());
        if chars.len() > 0 {
            self.overlay_query = text::string_between(&chars, 0, chars.len() - 1);
            assert(self.overlay_query@ =~= old(self).overlay_query@.drop_last());
        }
        self.overlay_selected = 0;
        self.overlay_hovered = None;
    }

    /// Where the text cursor stands: never behind the text.
    pub open spec fn text_cursor(self) -> int {
        if self.overlay_cursor <= self.overlay_query@.len() {
            self.overlay_cursor as int
        } else {
            self.overlay_query@.len() as int
        }
    }

    /// Inserts text at the text cursor.
    pub fn insert_text(&mut self, added: &Vec<char>)
        ensures
            *final(self) == (Dialog {
                overlay_query: final(self).overlay_query,
                overlay_cursor: final(self).overlay_cursor,
                ..*old(self)
            }),
            final(self).overlay_query@ == composer::replaced(
                old(self).overlay_query@,
                old(self).text_cursor(),
                old(self).text_cursor(),
                added@,
            ),
            final(self).overlay_cursor == old(self).text_cursor() + added@.len(),
    {
        let mut chars: Vec<char> = text::chars_of(self.overlay_query.as_str());
        let at: usize = if self.overlay_cursor <= chars.len() {
            self.overlay_cursor
        } else {
            chars.len()
        };
        let ghost before = chars@;
        let mut tail: Vec<char> = chars.split_off(at);
        let mut i: usize = 0;
        while i < added.len()
            invariant
                i <= added@.len(),
                at <= before.len(),
                chars@ == before.take(at as int) + added@.take(i as int),
            decreases added@.len() - i,
        {
            chars.push(added[i]);
            i += 1;
            assert(added@.take(i as int) =~= added@.take(i - 1).push(added@[i - 1]));
        }
        assert(added@.take(added@.len() as int) =~= added@);
        let cursor: usize = chars.len();
        chars.append(&mut tail);
        assert(chars@ =~= composer::replaced(before, at as int, at as int, added@));
        self.overlay_query = text::string_of(&chars);
        self.overlay_cursor = cursor;
    }

    /// Takes back the character in front of the text cursor.
    pub fn erase_at_cursor(&mut self)
        ensures
            *final(self) == (Dialog {
                overlay_query: final(self).overlay_query,
                overlay_cursor: final(self).overlay_cursor,
                ..*old(self)
            }),
            old(self).text_cursor() > 0 ==> final(self).overlay_query@ == composer::replaced(
                old(self).overlay_query@,
                old(self).text_cursor() - 1,
                old(self).text_cursor(),
                Seq::empty(),
            ) && final(self).overlay_cursor == old(self).text_cursor() - 1,
            old(self).text_cursor() == 0 ==> final(self).overlay_query == old(self).overlay_query
                && final(self).overlay_cursor == 0,
    {
        let mut chars: Vec<char> = text::chars_of(self.overlay_query.as_str());
        let at: usize = if self.overlay_cursor <= chars.len() {
            self.overlay_cursor
        } else {
            chars.len()
        };
        if at > 0 {
            let ghost before = chars@;
            let _gone: char = chars.remove(at - 1);
            assert(chars@ =~= composer::replaced(before, at - 1, at as int, Seq::empty()));
            self.overlay_query = text::string_of(&chars);
            self.overlay_cursor = at - 1;
        } else {
            self.overlay_cursor = 0;
        }
    }

    /// Moves the text cursor.
    pub fn move_cursor(&mut self, delta: isize)
        ensures
            *final(self) == (Dialog { overlay_cursor: final(self).overlay_cursor, ..*old(self) }),
            final(self).overlay_cursor == stepped(
                old(self).text_cursor(),
                delta as int,
                old(self).overlay_query@.len() as int + 1,
            ),
    {
        let length: usize = text::chars_of(self.overlay_query.as_str()).len();
        let at: usize = if self.overlay_cursor <= length {
            self.overlay_cursor
        } else {
            length
        };
        self.overlay_cursor = moved(at, delta, length);
    }

    /// Moves the text cursor to the start or the end of its line.
    pub fn move_line_edge(&mut self, end: bool)
        ensures
            *final(self) == (Dialog { overlay_cursor: final(self).overlay_cursor, ..*old(self) }),
            final(self).overlay_cursor == if end {
                line_end(old(self).overlay_query@, old(self).text_cursor())
            } else {
                line_start(old(self).overlay_query@, old(self).text_cursor())
            },
    {
        let chars: Vec<char> = text::chars_of(self.overlay_query.as_str());
        let from: usize = if self.overlay_cursor <= chars.len() {
            self.overlay_cursor
        } else {
            chars.len()
        };
        let mut at: usize = from;
        if end {
            while at < chars.len() && chars[at] != '\n'
                invariant
                    from <= at <= chars@.len(),
                    line_end(chars@, at as int) == line_end(chars@, from as int),
                decreases chars@.len() - at,
            {
                at += 1;
            }
        } else {
            while at > 0 && chars[at - 1] != '\n'
                invariant
                    at <= from <= chars@.len(),
                    line_start(chars@, at as int) == line_start(chars@, from as int),
                decreases at,
            {
                at -= 1;
            }
        }
        self.overlay_cursor = at;
    }
}

/// A selection moves by as many rows as it is told and stays in the list.
pub proof fn selections_stay_in_the_list(at: int, delta: int, count: int)
    requires
        0 <= at < count,
    ensures
        0 <= stepped(at, delta, count) < count,
        0 <= at + delta < count ==> stepped(at, delta, count) == at + delta,
        at + delta < 0 ==> stepped(at, delta, count) == 0,
        at + delta >= count ==> stepped(at, delta, count) == count - 1,
        stepped(at, 0, count) == at,
{
}

/// A dialog that was opened over another one gives way to it again, with the row that was
/// selected there; one that was not gives way to none.
pub proof fn closing_brings_the_dialog_below_back(before: Dialog, over: Dialog, after: Dialog, kind: OverlayKind)
    requires
        opened(over, kind, 0, Some((before.overlay, before.overlay_selected))),
        closed_to(over, after),
    ensures
        after.overlay == before.overlay,
        after.overlay_selected == before.overlay_selected,
        after.overlay_query@.len() == 0,
        after.overlay_parent is None,
{
}

/// A dialog without one below it is closed for good.
pub proof fn closing_the_last_dialog_leaves_none(before: Dialog, after: Dialog)
    requires
        closed_to(before, after),
        before.overlay_parent is None,
    ensures
        after.overlay is Closed,
        after.overlay_query@.len() == 0,
{
}

/// The line of a place begins behind a line feed or with the text, ends before one or with the
/// text, and holds none.
pub proof fn lines_lie_between_feeds(s: Seq<char>, at: int, i: int)
    requires
        0 <= at <= s.len(),
    ensures
        0 <= line_start(s, at) <= at <= line_end(s, at) <= s.len(),
        line_start(s, at) > 0 ==> s[line_start(s, at) - 1] == '\n',
        line_end(s, at) < s.len() ==> s[line_end(s, at)] == '\n',
        line_start(s, at) <= i < line_end(s, at) ==> s[i] != '\n',
{
    lines_begin_behind_feeds(s, at, i);
    lines_end_before_feeds(s, at, i);
}

proof fn lines_begin_behind_feeds(s: Seq<char>, at: int, i: int)
    requires
        0 <= at <= s.len(),
    ensures
        0 <= line_start(s, at) <= at,
        line_start(s, at) > 0 ==> s[line_start(s, at) - 1] == '\n',
        line_start(s, at) <= i < at ==> s[i] != '\n',
    decreases at,
{
    if at > 0 && s[at - 1] != '\n' {
        lines_begin_behind_feeds(s, at - 1, i);
    }
}

proof fn lines_end_before_feeds(s: Seq<char>, at: int, i: int)
    requires
        0 <= at <= s.len(),
    ensures
        at <= line_end(s, at) <= s.len(),
        line_end(s, at) < s.len() ==> s[line_end(s, at)] == '\n',
        at <= i < line_end(s, at) ==> s[i] != '\n',
    decreases s.len() - at,
{
    if at < s.len() && s[at] != '\n' {
        lines_end_before_feeds(s, at + 1, i);
    }
}

} // verus!
