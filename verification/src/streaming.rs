//! The transcript of a running turn: thoughts, words and their order.

use vstd::prelude::*;

use crate::entry_view;
use crate::entry_view::EntryView;
use crate::state_types::Entry;
use crate::text;
use crate::transcript::Transcript;

verus! {

broadcast use vstd::string::group_string_axioms;

/// The block that holds the thoughts of the running turn: the last one with
/// neither a message nor an answer nor a compaction behind it.
pub open spec fn open_thought(entries: Seq<EntryView>) -> Option<int>
    decreases entries.len(),
{
    if entries.len() == 0 {
        None
    } else {
        match entries.last() {
            EntryView::Reasoning { .. } => Some(entries.len() - 1),
            EntryView::User { .. } => None,
            EntryView::Assistant { .. } => None,
            EntryView::Compaction { .. } => None,
            _ => open_thought(entries.drop_last()),
        }
    }
}

/// A thought with more words, which goes on.
pub open spec fn thought_on(entry: EntryView, words: Seq<char>) -> EntryView {
    match entry {
        EntryView::Reasoning { text, expanded, .. } => EntryView::Reasoning {
            text: text + words,
            active: true,
            expanded,
        },
        other => other,
    }
}

/// The blocks after a thought: it continues the thoughts of the turn or begins
/// them.
pub open spec fn thought(entries: Seq<EntryView>, words: Seq<char>) -> Seq<EntryView> {
    match open_thought(entries) {
        Some(i) => entries.update(i, thought_on(entries[i], words)),
        None => entries.push(EntryView::Reasoning { text: words, active: true, expanded: false }),
    }
}

/// The lines of an answer with more words: the first of them continue its last
/// line.
pub open spec fn lines_on(lines: Seq<Seq<char>>, words: Seq<char>) -> Seq<Seq<char>> {
    let parts = text::split(words, '\n');
    if lines.len() == 0 {
        parts
    } else {
        lines.drop_last() + seq![lines.last() + parts[0]] + parts.skip(1)
    }
}

/// A thought that has ended.
pub open spec fn ended(entry: EntryView) -> EntryView {
    match entry {
        EntryView::Reasoning { text, expanded, .. } => EntryView::Reasoning {
            text,
            active: false,
            expanded,
        },
        other => other,
    }
}

/// The blocks with all thoughts ended.
pub open spec fn thoughts_ended(entries: Seq<EntryView>) -> Seq<EntryView> {
    entries.map_values(|entry: EntryView| ended(entry))
}

/// The blocks after words of the answer: they continue it or begin it.
pub open spec fn answered(
    entries: Seq<EntryView>,
    words: Seq<char>,
    clock: Seq<char>,
) -> Seq<EntryView> {
    let quiet = thoughts_ended(entries);
    if quiet.len() > 0 {
        match quiet.last() {
            EntryView::Assistant { lines, timestamp } => quiet.drop_last().push(
                EntryView::Assistant { lines: lines_on(lines, words), timestamp },
            ),
            _ => quiet.push(
                EntryView::Assistant { lines: text::split(words, '\n'), timestamp: clock },
            ),
        }
    } else {
        quiet.push(EntryView::Assistant { lines: text::split(words, '\n'), timestamp: clock })
    }
}

/// The blocks, and whether a tag that marks thoughts is open.
pub struct Stream {
    pub entries: Seq<EntryView>,
    pub thinking: bool,
}

/// The tag that ends the present part: of thoughts, or of the answer.
pub open spec fn next_tag(thinking: bool) -> Seq<char> {
    if thinking {
        "</think>"@
    } else {
        "<think>"@
    }
}

/// The blocks after words without tags.
pub open spec fn part_told(stream: Stream, words: Seq<char>, clock: Seq<char>) -> Seq<EntryView> {
    if words.len() == 0 {
        stream.entries
    } else if stream.thinking {
        thought(stream.entries, words)
    } else {
        answered(stream.entries, words, clock)
    }
}

/// What words of the model do: those between the tags are thoughts, the others
/// the answer.
pub open spec fn told(stream: Stream, words: Seq<char>, clock: Seq<char>) -> Stream
    decreases words.len(),
{
    let tag = next_tag(stream.thinking);
    let at = text::first_at(words, tag, 0);
    if tag.len() == 0 || at < 0 || at + tag.len() > words.len() {
        Stream { entries: part_told(stream, words, clock), thinking: stream.thinking }
    } else {
        told(
            Stream {
                entries: part_told(stream, words.take(at), clock),
                thinking: !stream.thinking,
            },
            words.skip(at + tag.len()),
            clock,
        )
    }
}

impl Entry {
    fn add_thought(&mut self, words: &str)
        ensures
            entry_view::entry_view(*final(self)) == thought_on(
                entry_view::entry_view(*old(self)),
                words@,
            ),
    {
        match self {
            Entry::Reasoning { text, active, .. } => {
                text.append(words);
                *active = true;
            },
            _ => {},
        }
    }

    fn end_thought(&mut self)
        ensures
            entry_view::entry_view(*final(self)) == ended(entry_view::entry_view(*old(self))),
    {
        match self {
            Entry::Reasoning { active, .. } => {
                *active = false;
            },
            _ => {},
        }
    }

    fn is_assistant(&self) -> (r: bool)
        ensures
            r == (self is Assistant),
    {
        match self {
            Entry::Assistant { .. } => true,
            _ => false,
        }
    }

    fn add_words(&mut self, words: &str)
        requires
            *old(self) is Assistant,
        ensures
            entry_view::entry_view(*old(self)) matches EntryView::Assistant { lines, timestamp }
                && entry_view::entry_view(*final(self)) == (EntryView::Assistant {
                lines: lines_on(lines, words@),
                timestamp,
            }),
    {
        match self {
            Entry::Assistant { lines, .. } => extend_lines(lines, words),
            _ => {},
        }
    }
}

fn extend_lines(lines: &mut Vec<String>, words: &str)
    ensures
        text::views(final(lines)@) == lines_on(text::views(old(lines)@), words@),
{
    let ghost before = text::views(lines@);
    let mut parts: Vec<String> = text::split_text(words, '\n');
    let ghost all = text::views(parts@);
    let count: usize = lines.len();
    if count == 0 {
        *lines = parts;
        return ;
    }
    let head: String = parts.remove(0);
    let ghost rest = parts@;
    let line: String = text::joined(lines[count - 1].as_str(), head.as_str());
    let ghost told = line@;
    lines.set(count - 1, line);
    let ghost first = lines@;
    lines.append(&mut parts);
    proof {
        assert(all.len() == rest.len() + 1);
        assert(all[0] == head@);
        assert(text::views(rest) =~= all.skip(1));
        assert(text::views(first) =~= before.drop_last() + seq![told]);
        assert(text::views(lines@) =~= text::views(first) + text::views(rest));
        assert(before.last() == before[count - 1]);
    }
}

impl Transcript {
    fn find_thought(&self) -> (r: Option<usize>)
        ensures
            match r {
                Some(i) => i < self.entries@.len() && open_thought(
                    entry_view::entry_views(self.entries@),
                ) == Some(i as int),
                None => open_thought(entry_view::entry_views(self.entries@)) is None,
            },
    {
        let ghost views = entry_view::entry_views(self.entries@);
        let mut end: usize = self.entries.len();
        assert(views.take(end as int) =~= views);
        while end > 0
            invariant
                end <= self.entries@.len(),
                views == entry_view::entry_views(self.entries@),
                open_thought(views) == open_thought(views.take(end as int)),
            decreases end,
        {
            proof {
                assert(views.take(end as int).last() == entry_view::entry_view(
                    self.entries@[end - 1],
                ));
                assert(views.take(end as int).drop_last() =~= views.take(end - 1));
            }
            match &self.entries[end - 1] {
                Entry::Reasoning { .. } => {
                    return Some(end - 1);
                },
                Entry::User { .. } => {
                    return None;
                },
                Entry::Assistant { .. } => {
                    return None;
                },
                Entry::Compaction { .. } => {
                    return None;
                },
                _ => {},
            }
            end -= 1;
        }
        None
    }

    /// Adds a thought of the model.
    pub fn think(&mut self, words: &str)
        ensures
            *final(self) == (Transcript { entries: final(self).entries, ..*old(self) }),
            entry_view::entry_views(final(self).entries@) == thought(
                entry_view::entry_views(old(self).entries@),
                words@,
            ),
    {
        let ghost before = entry_view::entry_views(self.entries@);
        match self.find_thought() {
            Some(i) => {
                self.entries[i].add_thought(words);
                assert(entry_view::entry_views(self.entries@) =~= before.update(
                    i as int,
                    thought_on(before[i as int], words@),
                ));
            },
            None => {
                self.entries.push(
                    Entry::Reasoning { text: words.to_owned(), active: true, expanded: false },
                );
                assert(entry_view::entry_views(self.entries@) =~= thought(before, words@));
            },
        }
    }

    /// Ends all thoughts.
    pub fn end_thoughts(&mut self)
        ensures
            *final(self) == (Transcript { entries: final(self).entries, ..*old(self) }),
            entry_view::entry_views(final(self).entries@) == thoughts_ended(
                entry_view::entry_views(old(self).entries@),
            ),
    {
        let ghost before = entry_view::entry_views(self.entries@);
        let ghost start = *self;
        let mut i: usize = 0;
        while i < self.entries.len()
            invariant
                i <= self.entries@.len() == before.len(),
                *self == (Transcript { entries: self.entries, ..start }),
                forall|k: int|
                    0 <= k < i ==> entry_view::entry_view(#[trigger] self.entries@[k]) == ended(
                        before[k],
                    ),
                forall|k: int|
                    i <= k < before.len() ==> entry_view::entry_view(#[trigger] self.entries@[k])
                        == before[k],
            decreases before.len() - i,
        {
            self.entries[i].end_thought();
            i += 1;
        }
        assert(entry_view::entry_views(self.entries@) =~= thoughts_ended(before));
    }

    /// Adds words to the answer.
    pub fn answer(&mut self, words: &str, clock: &str)
        ensures
            *final(self) == (Transcript { entries: final(self).entries, ..*old(self) }),
            entry_view::entry_views(final(self).entries@) == answered(
                entry_view::entry_views(old(self).entries@),
                words@,
                clock@,
            ),
    {
        self.end_thoughts();
        let ghost quiet = entry_view::entry_views(self.entries@);
        let count: usize = self.entries.len();
        assert(quiet.len() == count);
        if count > 0 && self.entries[count - 1].is_assistant() {
            assert(quiet.last() == entry_view::entry_view(self.entries@[count - 1]));
            let ghost told = self.entries@;
            self.entries[count - 1].add_words(words);
            proof {
                assert(entry_view::entry_views(self.entries@) =~= quiet.drop_last().push(
                    entry_view::entry_view(self.entries@[count - 1]),
                ));
            }
        } else {
            if count > 0 {
                assert(quiet.last() == entry_view::entry_view(self.entries@[count - 1]));
            }
            let entry: Entry = Entry::Assistant {
                lines: text::split_text(words, '\n'),
                timestamp: clock.to_owned(),
            };
            let ghost told = entry_view::entry_view(entry);
            self.entries.push(entry);
            assert(entry_view::entry_views(self.entries@) =~= quiet.push(told));
        }
    }

    /// Adds words of the model, thoughts or answer by the tags in them.
    pub fn stream(&mut self, words: &str, clock: &str)
        ensures
            *final(self) == (Transcript {
                entries: final(self).entries,
                think_tag_open: final(self).think_tag_open,
                ..*old(self)
            }),
            told(
                Stream {
                    entries: entry_view::entry_views(old(self).entries@),
                    thinking: old(self).think_tag_open,
                },
                words@,
                clock@,
            ) == (Stream {
                entries: entry_view::entry_views(final(self).entries@),
                thinking: final(self).think_tag_open,
            }),
    {
        let ghost start = *self;
        let opening: Vec<char> = text::chars_of("<think>");
        let closing: Vec<char> = text::chars_of("</think>");
        proof {
            reveal_strlit("<think>");
            reveal_strlit("</think>");
        }
        let mut rest: Vec<char> = text::chars_of(words);
        let ghost goal = told(
            Stream {
                entries: entry_view::entry_views(self.entries@),
                thinking: self.think_tag_open,
            },
            words@,
            clock@,
        );
        loop
            invariant_except_break
                told(
                    Stream {
                        entries: entry_view::entry_views(self.entries@),
                        thinking: self.think_tag_open,
                    },
                    rest@,
                    clock@,
                ) == goal,
            invariant
                opening@ == "<think>"@,
                closing@ == "</think>"@,
                opening@.len() == 7,
                closing@.len() == 8,
                *self == (Transcript {
                    entries: self.entries,
                    think_tag_open: self.think_tag_open,
                    ..start
                }),
            ensures
                *self == (Transcript {
                    entries: self.entries,
                    think_tag_open: self.think_tag_open,
                    ..start
                }),
                goal == (Stream {
                    entries: entry_view::entry_views(self.entries@),
                    thinking: self.think_tag_open,
                }),
            decreases rest@.len(),
        {
            let at: usize = if self.think_tag_open {
                text::find_at(&rest, &closing, 0)
            } else {
                text::find_at(&rest, &opening, 0)
            };
            let length: usize = if self.think_tag_open {
                8
            } else {
                7
            };
            if length > rest.len() - at {
                let part: String = text::string_of(&rest);
                self.tell(part.as_str(), clock);
                break;
            }
            let part: String = text::string_between(&rest, 0, at);
            assert(part@ =~= rest@.take(at as int));
            self.tell(part.as_str(), clock);
            self.think_tag_open = !self.think_tag_open;
            let ghost behind = rest@.skip(at + length);
            rest = text::chars_of(text::string_between(&rest, at + length, rest.len()).as_str());
            assert(rest@ =~= behind);
        }
    }

    fn tell(&mut self, words: &str, clock: &str)
        ensures
            *final(self) == (Transcript { entries: final(self).entries, ..*old(self) }),
            entry_view::entry_views(final(self).entries@) == part_told(
                Stream {
                    entries: entry_view::entry_views(old(self).entries@),
                    thinking: old(self).think_tag_open,
                },
                words@,
                clock@,
            ),
    {
        if !words.is_empty() {
            if self.think_tag_open {
                self.think(words);
            } else {
                self.answer(words, clock);
            }
        }
    }

    /// Begins a turn unless one runs: when it began, and how much of the
    /// context was used.
    pub fn begin_turn(&mut self, used: u64, now: u64)
        ensures
            *final(self) == turn_begun(*old(self), used, now),
    {
        self.streaming = true;
        if self.turn_started_at.is_none() {
            self.turn_started_at = Some(now);
            self.turn_input_tokens = used;
            self.turn_output_chars = 0;
        }
    }

    /// Ends the turn, and with it all thoughts.
    pub fn end_turn(&mut self)
        ensures
            turn_ended(*old(self), *final(self)),
    {
        self.end_thoughts();
        self.streaming = false;
        self.turn_started_at = None;
        self.turn_output_chars = 0;
        self.think_tag_open = false;
    }
}

/// A turn runs: the present one, or one that begins now.
pub open spec fn turn_begun(t: Transcript, used: u64, now: u64) -> Transcript {
    match t.turn_started_at {
        Some(_) => Transcript { streaming: true, ..t },
        None => Transcript {
            streaming: true,
            turn_started_at: Some(now),
            turn_input_tokens: used,
            turn_output_chars: 0,
            ..t
        },
    }
}

/// No turn runs.
pub open spec fn turn_ended(before: Transcript, after: Transcript) -> bool {
    &&& after == (Transcript {
        entries: after.entries,
        streaming: false,
        turn_started_at: None,
        turn_output_chars: 0,
        think_tag_open: false,
        ..before
    })
    &&& entry_view::entry_views(after.entries@) == thoughts_ended(
        entry_view::entry_views(before.entries@),
    )
}

/// A second thought of a turn joins the first: no block is added.
pub proof fn thoughts_gather(entries: Seq<EntryView>, first: Seq<char>, second: Seq<char>)
    ensures
        thought(thought(entries, first), second) == thought(entries, first + second),
    decreases entries.len(),
{
    let after = thought(entries, first);
    match open_thought(entries) {
        Some(i) => {
            thought_is_open(entries);
            updated_thought_is_open(entries, i, thought_on(entries[i], first));
            match entries[i] {
                EntryView::Reasoning { text, .. } => {
                    assert(text + first + second =~= text + (first + second));
                },
                _ => {},
            }
            assert(thought(after, second) =~= thought(entries, first + second));
        },
        None => {
            assert(after.last() is Reasoning);
            assert(thought(after, second) =~= thought(entries, first + second));
        },
    }
}

proof fn thought_is_open(entries: Seq<EntryView>)
    ensures
        open_thought(entries) matches Some(i) ==> 0 <= i < entries.len() && entries[i] is Reasoning,
    decreases entries.len(),
{
    if entries.len() > 0 {
        thought_is_open(entries.drop_last());
    }
}

proof fn updated_thought_is_open(entries: Seq<EntryView>, i: int, entry: EntryView)
    requires
        open_thought(entries) == Some(i),
        0 <= i < entries.len(),
        entries[i] is Reasoning,
        entry is Reasoning,
    ensures
        open_thought(entries.update(i, entry)) == Some(i),
    decreases entries.len(),
{
    let after = entries.update(i, entry);
    if i != entries.len() - 1 {
        assert(after.last() == entries.last());
        assert(after.drop_last() =~= entries.drop_last().update(i, entry));
        thought_is_open(entries.drop_last());
        updated_thought_is_open(entries.drop_last(), i, entry);
    }
}

} // verus!
