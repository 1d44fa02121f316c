//! The transcript: its blocks, which of them are folded, and the places that
//! the keys and the pointer can go to.

use vstd::prelude::*;

use crate::dialog;
use crate::idset::IdSet;
use crate::state_types::Entry;
use crate::state_types::SectionTarget;
use crate::text;

verus! {

broadcast use vstd::string::group_string_axioms;

/// The transcript. A group is named by the place of its first tool call.
#[derive(Clone, Debug)]
pub struct Transcript {
    pub entries: Vec<Entry>,
    pub entry_epoch: u64,
    pub streaming: bool,
    pub turn_started_at: Option<u64>,
    pub turn_input_tokens: u64,
    pub turn_output_chars: usize,
    pub think_tag_open: bool,
    pub queued_steering: Vec<String>,
    pub queued_follow_up: Vec<String>,
    pub queue_visible: bool,
    pub focused_entry: Option<usize>,
    pub focused_target_id: Option<String>,
    pub focused_tool: Option<usize>,
    pub focused_section: Option<usize>,
    pub hovered_entry: Option<usize>,
    pub hovered_target_id: Option<String>,
    pub pending_transcript_click: Option<SectionTarget>,
    pub viewed_entry: Option<usize>,
    pub expanded_tool_groups: Vec<usize>,
    pub pinned_entry_modes: IdSet,
}

/// An empty transcript.
pub open spec fn fresh(t: Transcript) -> bool {
    &&& t.entries@.len() == 0
    &&& t.entry_epoch == 0
    &&& !t.streaming
    &&& t.turn_started_at is None
    &&& t.turn_input_tokens == 0
    &&& t.turn_output_chars == 0
    &&& !t.think_tag_open
    &&& t.queued_steering@.len() == 0
    &&& t.queued_follow_up@.len() == 0
    &&& t.queue_visible
    &&& t.focused_entry is None
    &&& t.focused_target_id is None
    &&& t.focused_tool is None
    &&& t.focused_section is None
    &&& t.hovered_entry is None
    &&& t.hovered_target_id is None
    &&& t.pending_transcript_click is None
    &&& t.viewed_entry is None
    &&& t.expanded_tool_groups@.len() == 0
    &&& t.pinned_entry_modes@ == Set::<Seq<char>>::empty()
    &&& t.pinned_entry_modes.wf()
}

impl Default for Transcript {
    fn default() -> (r: Self)
        ensures
            fresh(r),
    {
        Transcript {
            entries: Vec::new(),
            entry_epoch: 0,
            streaming: false,
            turn_started_at: None,
            turn_input_tokens: 0,
            turn_output_chars: 0,
            think_tag_open: false,
            queued_steering: Vec::new(),
            queued_follow_up: Vec::new(),
            queue_visible: true,
            focused_entry: None,
            focused_target_id: None,
            focused_tool: None,
            focused_section: None,
            hovered_entry: None,
            hovered_target_id: None,
            pending_transcript_click: None,
            viewed_entry: None,
            expanded_tool_groups: Vec::new(),
            pinned_entry_modes: IdSet::new(),
        }
    }
}

/// The kinds of blocks that are folded together.
#[derive(Clone, Copy, Debug, PartialEq, Eq, Structural)]
pub enum BlockKind {
    Tool,
    Diff,
    Reasoning,
}

/// A block is of this kind.
pub open spec fn of_kind(entry: Entry, kind: BlockKind) -> bool {
    match kind {
        BlockKind::Tool => entry is Tool,
        BlockKind::Diff => entry is Diff,
        BlockKind::Reasoning => entry is Reasoning,
    }
}

/// The last block of a kind.
pub open spec fn latest(entries: Seq<Entry>, kind: BlockKind, i: int) -> bool {
    &&& 0 <= i < entries.len()
    &&& of_kind(entries[i], kind)
    &&& forall|j: int| i < j < entries.len() ==> !of_kind(#[trigger] entries[j], kind)
}

/// A block folded the other way; one that cannot be folded stays as it is.
pub open spec fn flipped(entry: Entry) -> Entry {
    match entry.unfolded() {
        Some(open) => entry.folded_to(!open),
        None => entry,
    }
}

/// All blocks of a kind are unfolded.
pub open spec fn all_unfolded(entries: Seq<Entry>, kind: BlockKind) -> bool {
    forall|i: int|
        0 <= i < entries.len() && of_kind(#[trigger] entries[i], kind) ==> entries[i].unfolded()
            == Some(true)
}

/// The blocks with all of one kind folded or unfolded.
pub open spec fn with_all(entries: Seq<Entry>, kind: BlockKind, to: bool) -> Seq<Entry> {
    entries.map_values(
        |entry: Entry|
            if of_kind(entry, kind) {
                entry.folded_to(to)
            } else {
                entry
            },
    )
}

/// Two blocks are calls of the same tool.
pub open spec fn alike(a: Entry, b: Entry) -> bool {
    match (a, b) {
        (Entry::Tool { label: x, .. }, Entry::Tool { label: y, .. }) => x@ == y@,
        _ => false,
    }
}

/// A group begins here: two calls of the same tool, and not one more in front
/// of them.
pub open spec fn heads_group(entries: Seq<Entry>, i: int) -> bool {
    &&& 0 <= i
    &&& i + 1 < entries.len()
    &&& alike(entries[i], entries[i + 1])
    &&& i == 0 || !alike(entries[i - 1], entries[i])
}

/// The places at which groups begin, in their order, among the first `n` blocks.
pub open spec fn group_heads(entries: Seq<Entry>, n: int) -> Seq<usize>
    decreases n,
{
    if n <= 0 {
        Seq::empty()
    } else if heads_group(entries, n - 1) {
        group_heads(entries, n - 1).push((n - 1) as usize)
    } else {
        group_heads(entries, n - 1)
    }
}

fn is_of_kind(entry: &Entry, kind: BlockKind) -> (r: bool)
    ensures
        r == of_kind(*entry, kind),
{
    match kind {
        BlockKind::Tool => entry.is_tool(),
        BlockKind::Diff => entry.is_diff(),
        BlockKind::Reasoning => entry.is_reasoning(),
    }
}

fn are_alike(a: &Entry, b: &Entry) -> (r: bool)
    ensures
        r == alike(*a, *b),
{
    match (a, b) {
        (Entry::Tool { label: x, .. }, Entry::Tool { label: y, .. }) => text::same_text(
            x.as_str(),
            y.as_str(),
        ),
        _ => false,
    }
}

/// Only the blocks have changed.
pub open spec fn refolded(before: Transcript, after: Transcript, entries: Seq<Entry>) -> bool {
    &&& after == (Transcript { entries: after.entries, ..before })
    &&& after.entries@ == entries
}

impl Transcript {
    /// Folds or unfolds the last block of a kind.
    pub fn toggle_latest(&mut self, kind: BlockKind)
        ensures
            forall|i: int| #[trigger]
                latest(old(self).entries@, kind, i) ==> refolded(
                    *old(self),
                    *final(self),
                    old(self).entries@.update(i, flipped(old(self).entries@[i])),
                ),
            (forall|i: int| !#[trigger] latest(old(self).entries@, kind, i)) ==> *final(self)
                == *old(self),
    {
        let mut i: usize = self.entries.len();
        while i > 0
            invariant
                *self == *old(self),
                i <= self.entries@.len(),
                forall|j: int| i <= j < self.entries@.len() ==> !of_kind(
                    #[trigger] self.entries@[j],
                    kind,
                ),
            decreases i,
        {
            i -= 1;
            if is_of_kind(&self.entries[i], kind) {
                assert(latest(old(self).entries@, kind, i as int));
                assert forall|j: int| #[trigger] latest(old(self).entries@, kind, j) implies j
                    == i by {}
                self.flip_entry(i);
                return ;
            }
        }
        assert forall|j: int| !#[trigger] latest(old(self).entries@, kind, j) by {}
    }

    /// Folds a block the other way.
    fn flip_entry(&mut self, i: usize)
        requires
            i < old(self).entries@.len(),
        ensures
            refolded(
                *old(self),
                *final(self),
                old(self).entries@.update(i as int, flipped(old(self).entries@[i as int])),
            ),
    {
        if let Some(open) = self.entries[i].expansion() {
            let ghost before = self.entries@;
            self.entries[i].set_expanded(!open);
            assert(self.entries@ =~= before.update(i as int, flipped(before[i as int])));
        } else {
            assert(self.entries@ =~= self.entries@.update(
                i as int,
                flipped(self.entries@[i as int]),
            ));
        }
    }

    /// Whether all blocks of a kind are unfolded.
    pub fn all_expanded(&self, kind: BlockKind) -> (r: bool)
        ensures
            r == all_unfolded(self.entries@, kind),
    {
        let mut i: usize = 0;
        while i < self.entries.len()
            invariant
                i <= self.entries@.len(),
                forall|j: int|
                    0 <= j < i && of_kind(#[trigger] self.entries@[j], kind)
                        ==> self.entries@[j].unfolded() == Some(true),
            decreases self.entries@.len() - i,
        {
            if is_of_kind(&self.entries[i], kind) {
                match self.entries[i].expansion() {
                    Some(true) => {},
                    _ => {
                        return false;
                    },
                }
            }
            i += 1;
        }
        true
    }

    /// Folds or unfolds all blocks of a kind.
    pub fn set_all(&mut self, kind: BlockKind, to: bool)
        ensures
            refolded(*old(self), *final(self), with_all(old(self).entries@, kind, to)),
    {
        let ghost before = self.entries@;
        let mut i: usize = 0;
        while i < self.entries.len()
            invariant
                *self == (Transcript { entries: self.entries, ..*old(self) }),
                before == old(self).entries@,
                self.entries@.len() == before.len(),
                i <= before.len(),
                forall|j: int|
                    0 <= j < i ==> #[trigger] self.entries@[j] == with_all(before, kind, to)[j],
                forall|j: int| i <= j < before.len() ==> #[trigger] self.entries@[j] == before[j],
            decreases before.len() - i,
        {
            if is_of_kind(&self.entries[i], kind) {
                self.entries[i].set_expanded(to);
            }
            i += 1;
        }
        assert(self.entries@ =~= with_all(before, kind, to));
    }

    /// The places at which groups begin.
    fn find_groups(&self) -> (r: Vec<usize>)
        ensures
            r@ == group_heads(self.entries@, self.entries@.len() as int),
    {
        let mut heads: Vec<usize> = Vec::new();
        let mut i: usize = 0;
        while i < self.entries.len()
            invariant
                i <= self.entries@.len(),
                heads@ == group_heads(self.entries@, i as int),
            decreases self.entries@.len() - i,
        {
            if self.begins_group(i) {
                heads.push(i);
            }
            i += 1;
        }
        heads
    }

    /// Whether a group begins at a place.
    fn begins_group(&self, i: usize) -> (r: bool)
        ensures
            r == heads_group(self.entries@, i as int),
    {
        let n: usize = self.entries.len();
        i < n && n - i > 1 && are_alike(&self.entries[i], &self.entries[i + 1]) && (i == 0
            || !are_alike(&self.entries[i - 1], &self.entries[i]))
    }

    /// Unfolds all tool calls and their groups, or folds them if all tool
    /// calls are unfolded.
    pub fn toggle_all_tools(&mut self)
        ensures
            *final(self) == (Transcript {
                entries: final(self).entries,
                expanded_tool_groups: final(self).expanded_tool_groups,
                ..*old(self)
            }),
            final(self).entries@ == with_all(
                old(self).entries@,
                BlockKind::Tool,
                !all_unfolded(old(self).entries@, BlockKind::Tool),
            ),
            final(self).expanded_tool_groups@ == if all_unfolded(
                old(self).entries@,
                BlockKind::Tool,
            ) {
                Seq::empty()
            } else {
                group_heads(old(self).entries@, old(self).entries@.len() as int)
            },
    {
        let folding: bool = self.all_expanded(BlockKind::Tool);
        let heads: Vec<usize> = if folding {
            Vec::new()
        } else {
            self.find_groups()
        };
        assert(folding ==> heads@ =~= Seq::<usize>::empty());
        self.set_all(BlockKind::Tool, !folding);
        self.expanded_tool_groups = heads;
    }

    /// Unfolds all diffs, or folds them if all are unfolded.
    pub fn toggle_all_diffs(&mut self)
        ensures
            refolded(
                *old(self),
                *final(self),
                with_all(
                    old(self).entries@,
                    BlockKind::Diff,
                    !all_unfolded(old(self).entries@, BlockKind::Diff),
                ),
            ),
    {
        let folding: bool = self.all_expanded(BlockKind::Diff);
        self.set_all(BlockKind::Diff, !folding);
    }

    /// Whether a group is unfolded.
    pub fn group_expanded(&self, head: usize) -> (r: bool)
        ensures
            r == self.expanded_tool_groups@.contains(head),
    {
        let mut i: usize = 0;
        while i < self.expanded_tool_groups.len()
            invariant
                i <= self.expanded_tool_groups@.len(),
                forall|j: int| 0 <= j < i ==> #[trigger] self.expanded_tool_groups@[j] != head,
            decreases self.expanded_tool_groups@.len() - i,
        {
            if self.expanded_tool_groups[i] == head {
                return true;
            }
            i += 1;
        }
        false
    }

    /// Folds or unfolds a group.
    pub fn toggle_tool_group(&mut self, head: usize)
        ensures
            *final(self) == (Transcript {
                expanded_tool_groups: final(self).expanded_tool_groups,
                ..*old(self)
            }),
            forall|i: usize| #[trigger]
                final(self).expanded_tool_groups@.contains(i) == if i == head {
                    !old(self).expanded_tool_groups@.contains(head)
                } else {
                    old(self).expanded_tool_groups@.contains(i)
                },
    {
        let ghost before = self.expanded_tool_groups@;
        if self.group_expanded(head) {
            let mut kept: Vec<usize> = Vec::new();
            let mut i: usize = 0;
            while i < self.expanded_tool_groups.len()
                invariant
                    *self == *old(self),
                    before == self.expanded_tool_groups@,
                    i <= before.len(),
                    forall|g: usize| #[trigger]
                        kept@.contains(g) == (g != head && before.take(i as int).contains(g)),
                decreases before.len() - i,
            {
                let g: usize = self.expanded_tool_groups[i];
                proof {
                    assert(before.take(i + 1) =~= before.take(i as int).push(g));
                    broadcast use vstd::seq_lib::group_seq_properties;

                }
                if g != head {
                    kept.push(g);
                }
                i += 1;
            }
            assert(before.take(before.len() as int) =~= before);
            self.expanded_tool_groups = kept;
        } else {
            self.expanded_tool_groups.push(head);
            proof {
                broadcast use vstd::seq_lib::group_seq_properties;

            }
        }
    }
}

/// The identifier of a block. Tool calls and diffs carry their own; the others
/// are counted anew in every session.
pub open spec fn block_id(t: Transcript, i: int) -> Seq<char> {
    match t.entries@[i] {
        Entry::Tool { id, .. } => "tool:"@ + id@,
        Entry::Diff { id, .. } => "diff:"@ + id@,
        _ => "entry:"@ + text::decimal(t.entry_epoch as nat) + ":"@ + text::decimal(i as nat),
    }
}

/// The identifier of a group that begins with a tool call.
pub open spec fn group_id(entry: Entry) -> Seq<char> {
    match entry {
        Entry::Tool { id, .. } => "tool-group:"@ + id@,
        _ => "tool-group:"@,
    }
}

/// Where the run of calls of the same tool begins that holds block `i`.
pub open spec fn run_start(entries: Seq<Entry>, i: int) -> int
    decreases i,
{
    if i > 0 && alike(entries[i - 1], entries[i]) {
        run_start(entries, i - 1)
    } else {
        i
    }
}

/// The targets of a block: a group has one for itself, and its calls have
/// theirs only while it is unfolded.
pub open spec fn block_targets(t: Transcript, i: int) -> Seq<(int, Seq<char>)> {
    let head = run_start(t.entries@, i);
    if !heads_group(t.entries@, head) {
        seq![(i, block_id(t, i))]
    } else {
        (if i == head {
            seq![(i, group_id(t.entries@[i]))]
        } else {
            Seq::empty()
        }) + (if t.expanded_tool_groups@.contains(head as usize) {
            seq![(i, block_id(t, i))]
        } else {
            Seq::empty()
        })
    }
}

/// The targets of the first `n` blocks.
pub open spec fn targets(t: Transcript, n: int) -> Seq<(int, Seq<char>)>
    decreases n,
{
    if n <= 0 {
        Seq::empty()
    } else {
        targets(t, n - 1) + block_targets(t, n - 1)
    }
}

/// All targets of a transcript.
pub open spec fn all_targets(t: Transcript) -> Seq<(int, Seq<char>)> {
    targets(t, t.entries@.len() as int)
}

/// A target as a place and an identifier.
pub open spec fn target_view(target: SectionTarget) -> (int, Seq<char>) {
    (target.index as int, target.id@)
}

/// Targets as places and identifiers.
pub open spec fn target_views(v: Seq<SectionTarget>) -> Seq<(int, Seq<char>)> {
    v.map_values(|target: SectionTarget| target_view(target))
}

/// The first target with an identifier.
pub open spec fn place_of(list: Seq<(int, Seq<char>)>, id: Option<String>, k: int) -> bool {
    &&& 0 <= k < list.len()
    &&& id matches Some(wanted) && list[k].1 == wanted@ && forall|j: int|
        0 <= j < k ==> (#[trigger] list[j]).1 != wanted@
}

/// The target that comes next in a direction: from nowhere the first one, or
/// the last one going back.
pub open spec fn next_place(
    list: Seq<(int, Seq<char>)>,
    id: Option<String>,
    direction: int,
    to: int,
) -> bool {
    if exists|k: int| place_of(list, id, k) {
        exists|k: int|
            #![trigger place_of(list, id, k)]
            place_of(list, id, k) && to == dialog::stepped(k, direction, list.len() as int)
    } else if direction < 0 {
        to == list.len() - 1
    } else {
        to == 0
    }
}

/// The focus is on the target `k` of the list; nothing else has changed.
pub open spec fn focused_on(
    before: Transcript,
    after: Transcript,
    list: Seq<(int, Seq<char>)>,
    k: int,
) -> bool {
    &&& 0 <= k < list.len()
    &&& after == (Transcript {
        focused_entry: after.focused_entry,
        focused_target_id: after.focused_target_id,
        focused_tool: after.focused_tool,
        focused_section: after.focused_section,
        ..before
    })
    &&& after.focused_entry == Some(list[k].0 as usize)
    &&& after.focused_target_id matches Some(id) && id@ == list[k].1
    &&& after.focused_section == Some(k as usize)
    &&& after.focused_tool == if before.entries@[list[k].0] is Tool {
        Some(list[k].0 as usize)
    } else {
        None
    }
}

/// What moving the focus does: nothing without a target.
pub open spec fn focus_moved(before: Transcript, after: Transcript, direction: int) -> bool {
    if all_targets(before).len() == 0 {
        after == before
    } else {
        exists|to: int| #[trigger]
            next_place(all_targets(before), before.focused_target_id, direction, to) && focused_on(
                before,
                after,
                all_targets(before),
                to,
            )
    }
}

/// What entering the transcript does to its focus: a target that is still
/// there keeps it, otherwise the last one gets it.
pub open spec fn focus_entered(before: Transcript, after: Transcript) -> bool {
    let list = all_targets(before);
    if list.len() == 0 {
        after == before
    } else if exists|k: int| place_of(list, before.focused_target_id, k) {
        exists|k: int| #[trigger]
            place_of(list, before.focused_target_id, k) && focused_on(before, after, list, k)
    } else {
        focused_on(before, after, list, list.len() - 1)
    }
}

/// Every target of a transcript stands for one of its blocks.
pub proof fn targets_stand_for_blocks(t: Transcript, n: int, k: int)
    requires
        0 <= n <= t.entries@.len(),
        0 <= k < targets(t, n).len(),
    ensures
        0 <= targets(t, n)[k].0 < n,
    decreases n,
{
    if n > 0 {
        let before = targets(t, n - 1);
        if k < before.len() {
            targets_stand_for_blocks(t, n - 1, k);
            assert(targets(t, n)[k] == before[k]);
        } else {
            assert(targets(t, n)[k] == block_targets(t, n - 1)[k - before.len()]);
        }
    }
}

/// A call in a folded group is no target: the focus never goes to a block
/// that is not shown.
pub proof fn folded_calls_are_no_targets(t: Transcript, n: int, k: int)
    requires
        0 <= n <= t.entries@.len(),
        0 <= k < targets(t, n).len(),
        heads_group(t.entries@, run_start(t.entries@, targets(t, n)[k].0)),
        !t.expanded_tool_groups@.contains(
            run_start(t.entries@, targets(t, n)[k].0) as usize,
        ),
    ensures
        targets(t, n)[k].0 == run_start(t.entries@, targets(t, n)[k].0),
        targets(t, n)[k].1 == group_id(t.entries@[targets(t, n)[k].0]),
    decreases n,
{
    if n > 0 {
        let before = targets(t, n - 1);
        if k < before.len() {
            assert(targets(t, n)[k] == before[k]);
            folded_calls_are_no_targets(t, n - 1, k);
        } else {
            assert(targets(t, n)[k] == block_targets(t, n - 1)[k - before.len()]);
        }
    }
}

impl Transcript {
    /// The identifier of a block.
    pub fn entry_target_id(&self, i: usize) -> (r: Option<String>)
        ensures
            match r {
                Some(id) => i < self.entries@.len() && id@ == block_id(*self, i as int),
                None => i >= self.entries@.len(),
            },
    {
        if i >= self.entries.len() {
            return None;
        }
        match &self.entries[i] {
            Entry::Tool { id, .. } => Some(text::joined("tool:", id.as_str())),
            Entry::Diff { id, .. } => Some(text::joined("diff:", id.as_str())),
            _ => {
                let front: String = text::joined3(
                    "entry:",
                    text::decimal_text(self.entry_epoch).as_str(),
                    ":",
                );
                Some(text::joined(front.as_str(), text::decimal_text(i as u64).as_str()))
            },
        }
    }

    /// The identifier of a group.
    fn group_target_id(&self, i: usize) -> (r: String)
        requires
            i < self.entries@.len(),
        ensures
            r@ == group_id(self.entries@[i as int]),
    {
        match &self.entries[i] {
            Entry::Tool { id, .. } => text::joined("tool-group:", id.as_str()),
            _ => "tool-group:".to_owned(),
        }
    }

    /// All targets, from the first block to the last.
    pub fn section_targets(&self) -> (r: Vec<SectionTarget>)
        ensures
            target_views(r@) == all_targets(*self),
    {
        let mut out: Vec<SectionTarget> = Vec::new();
        let mut head: usize = 0;
        let mut i: usize = 0;
        assert(target_views(out@) =~= Seq::<(int, Seq<char>)>::empty());
        while i < self.entries.len()
            invariant
                i <= self.entries@.len(),
                i > 0 ==> head == run_start(self.entries@, i - 1),
                head <= i,
                target_views(out@) == targets(*self, i as int),
            decreases self.entries@.len() - i,
        {
            if i == 0 || !are_alike(&self.entries[i - 1], &self.entries[i]) {
                head = i;
            }
            let ghost before = target_views(out@);
            assert(head == run_start(self.entries@, i as int));
            let grouped: bool = self.begins_group(head);
            if grouped && i == head {
                out.push(SectionTarget { index: i, id: self.group_target_id(i) });
            }
            let ghost between = target_views(out@);
            proof {
                if grouped && i == head {
                    assert(between =~= before + seq![(i as int, group_id(self.entries@[i as int]))]);
                }
            }
            if !grouped || self.group_expanded(head) {
                if let Some(id) = self.entry_target_id(i) {
                    out.push(SectionTarget { index: i, id });
                    assert(target_views(out@) =~= between + seq![
                        (i as int, block_id(*self, i as int)),
                    ]);
                }
            }
            assert(target_views(out@) =~= before + block_targets(*self, i as int));
            i += 1;
        }
        out
    }

    /// The first target in a list that has the focus.
    fn find_focus(&self, list: &Vec<SectionTarget>) -> (r: Option<usize>)
        ensures
            match r {
                Some(k) => place_of(target_views(list@), self.focused_target_id, k as int),
                None => forall|k: int|
                    !place_of(target_views(list@), self.focused_target_id, k),
            },
    {
        match &self.focused_target_id {
            None => None,
            Some(wanted) => {
                let mut k: usize = 0;
                while k < list.len()
                    invariant
                        k <= list@.len(),
                        self.focused_target_id == Some(*wanted),
                        forall|j: int| 0 <= j < k ==> (#[trigger] target_views(list@)[j]).1 != wanted@,
                    decreases list@.len() - k,
                {
                    assert(target_views(list@)[k as int].1 == list@[k as int].id@);
                    if text::same_text(list[k].id.as_str(), wanted.as_str()) {
                        return Some(k);
                    }
                    k += 1;
                }
                None
            },
        }
    }

    /// Puts the focus on a target.
    fn focus_target(&mut self, list: &Vec<SectionTarget>, k: usize)
        requires
            k < list@.len(),
            target_views(list@) == all_targets(*old(self)),
        ensures
            focused_on(*old(self), *final(self), all_targets(*old(self)), k as int),
    {
        proof {
            targets_stand_for_blocks(*self, self.entries@.len() as int, k as int);
            assert(target_views(list@)[k as int] == target_view(list@[k as int]));
        }
        let index: usize = list[k].index;
        self.focused_tool = if self.entries[index].is_tool() {
            Some(index)
        } else {
            None
        };
        self.focused_entry = Some(index);
        self.focused_target_id = Some(list[k].id.clone());
        self.focused_section = Some(k);
    }

    /// Moves the focus to the next target in a direction.
    pub fn move_focus(&mut self, direction: isize)
        ensures
            focus_moved(*old(self), *final(self), direction as int),
    {
        let list: Vec<SectionTarget> = self.section_targets();
        if list.len() == 0 {
            return ;
        }
        let ghost views = all_targets(*self);
        let found: Option<usize> = self.find_focus(&list);
        let to: usize = match found {
            Some(k) => dialog::step(k, direction, list.len()),
            None => if direction < 0 {
                list.len() - 1
            } else {
                0
            },
        };
        proof {
            if let Some(k) = found {
                assert(place_of(views, self.focused_target_id, k as int));
            }
            assert(next_place(views, self.focused_target_id, direction as int, to as int));
        }
        self.focus_target(&list, to);
    }

    /// Puts the focus on the target that had it, or on the last one.
    pub fn enter_focus(&mut self)
        ensures
            focus_entered(*old(self), *final(self)),
    {
        let list: Vec<SectionTarget> = self.section_targets();
        if list.len() == 0 {
            return ;
        }
        let found: Option<usize> = self.find_focus(&list);
        let to: usize = match found {
            Some(k) => k,
            None => list.len() - 1,
        };
        proof {
            if let Some(k) = found {
                assert(place_of(all_targets(*self), self.focused_target_id, k as int));
            }
        }
        self.focus_target(&list, to);
    }

    /// Folds a block the other way and remembers that this was asked for.
    pub fn toggle_entry_at(&mut self, i: usize)
        requires
            old(self).pinned_entry_modes.wf(),
        ensures
            *final(self) == (Transcript {
                entries: final(self).entries,
                pinned_entry_modes: final(self).pinned_entry_modes,
                ..*old(self)
            }),
            i < old(self).entries@.len() ==> final(self).entries@ == old(self).entries@.update(
                i as int,
                flipped(old(self).entries@[i as int]),
            ) && final(self).pinned_entry_modes@ == old(self).pinned_entry_modes@.insert(
                block_id(*old(self), i as int),
            ),
            i >= old(self).entries@.len() ==> *final(self) == *old(self),
            final(self).pinned_entry_modes.wf(),
    {
        if let Some(id) = self.entry_target_id(i) {
            self.flip_entry(i);
            self.pinned_entry_modes.insert(id);
        }
    }

    /// The target that is hovered.
    pub open spec fn hovered(self) -> Option<(usize, Seq<char>)> {
        match (self.hovered_entry, self.hovered_target_id) {
            (Some(i), Some(id)) => Some((i, id@)),
            _ => None,
        }
    }

    /// Hovers a target, or none. Whether that was another one before.
    pub fn set_hovered_transcript_target(&mut self, target: Option<SectionTarget>) -> (r: bool)
        ensures
            *final(self) == (Transcript {
                hovered_entry: final(self).hovered_entry,
                hovered_target_id: final(self).hovered_target_id,
                ..*old(self)
            }),
            match target {
                Some(hit) => {
                    &&& final(self).hovered() == Some((hit.index, hit.id@))
                    &&& r == (old(self).hovered() != Some((hit.index, hit.id@)))
                },
                None => {
                    &&& final(self).hovered_entry is None
                    &&& final(self).hovered_target_id is None
                    &&& r == (old(self).hovered_entry is Some || old(
                        self,
                    ).hovered_target_id is Some)
                },
            },
    {
        match target {
            Some(hit) => {
                let same: bool = match (&self.hovered_entry, &self.hovered_target_id) {
                    (Some(i), Some(id)) => *i == hit.index && text::same_text(
                        id.as_str(),
                        hit.id.as_str(),
                    ),
                    _ => false,
                };
                self.hovered_entry = Some(hit.index);
                self.hovered_target_id = Some(hit.id);
                !same
            },
            None => {
                let had: bool = self.hovered_entry.is_some() || self.hovered_target_id.is_some();
                self.hovered_entry = None;
                self.hovered_target_id = None;
                had
            },
        }
    }
}

/// When the latest compaction that is still running was started.
pub open spec fn compacting_since(entries: Seq<Entry>) -> Option<u64>
    decreases entries.len(),
{
    if entries.len() == 0 {
        None
    } else {
        match entries.last() {
            Entry::Compaction { active: true, started_at: Some(at), .. } => Some(at),
            _ => compacting_since(entries.drop_last()),
        }
    }
}

impl Transcript {
    /// When the latest compaction that is still running was started.
    pub fn active_compaction_started_at(&self) -> (r: Option<u64>)
        ensures
            r == compacting_since(self.entries@),
    {
        let mut i: usize = self.entries.len();
        assert(self.entries@.take(i as int) =~= self.entries@);
        while i > 0
            invariant
                i <= self.entries@.len(),
                compacting_since(self.entries@) == compacting_since(self.entries@.take(i as int)),
            decreases i,
        {
            proof {
                let front = self.entries@.take(i as int);
                assert(front.drop_last() =~= self.entries@.take(i - 1));
            }
            i -= 1;
            if let Entry::Compaction { active, started_at, .. } = &self.entries[i] {
                if *active {
                    if let Some(at) = started_at {
                        return Some(*at);
                    }
                }
            }
        }
        None
    }
}

/// Folding a block twice leaves it as it was.
pub proof fn folds_come_back(entry: Entry)
    ensures
        flipped(flipped(entry)) == entry,
{
}

} // verus!
