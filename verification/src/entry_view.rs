//! The contents of the blocks of the transcript.

use vstd::prelude::*;

use crate::state_types::DiffKind;
use crate::state_types::DiffLine;
use crate::state_types::Entry;
use crate::state_types::ToolStatus;
use crate::text;

verus! {

broadcast use vstd::string::group_string_axioms;

/// The contents of a line of a diff.
pub struct DiffView {
    pub number: Option<u32>,
    pub text: Seq<char>,
    pub kind: DiffKind,
}

/// The contents of a block.
pub enum EntryView {
    User { text: Seq<char>, timestamp: Seq<char> },
    Assistant { lines: Seq<Seq<char>>, timestamp: Seq<char> },
    Reasoning { text: Seq<char>, active: bool, expanded: bool },
    Tool {
        id: Seq<char>,
        label: Seq<char>,
        detail: Seq<char>,
        status: ToolStatus,
        duration: Option<Seq<char>>,
        started_at: Option<u64>,
        result: Option<Seq<char>>,
        expanded: bool,
    },
    Diff { id: Seq<char>, path: Seq<char>, lines: Seq<DiffView>, expanded: bool },
    Plan { expanded: bool },
    Compaction {
        summary: Seq<char>,
        active: bool,
        tokens_before: Option<u64>,
        tokens_after: Option<u64>,
        error: Option<Seq<char>>,
        started_at: Option<u64>,
    },
}

/// The words of a text that may be missing.
pub open spec fn option_view(o: Option<String>) -> Option<Seq<char>> {
    match o {
        Some(s) => Some(s@),
        None => None,
    }
}

/// The contents of the lines of a diff.
pub open spec fn diff_views(lines: Seq<DiffLine>) -> Seq<DiffView> {
    lines.map_values(
        |line: DiffLine| DiffView { number: line.number, text: line.text@, kind: line.kind },
    )
}

/// The contents of a block.
pub open spec fn entry_view(entry: Entry) -> EntryView {
    match entry {
        Entry::User { text, timestamp } => EntryView::User { text: text@, timestamp: timestamp@ },
        Entry::Assistant { lines, timestamp } => EntryView::Assistant {
            lines: text::views(lines@),
            timestamp: timestamp@,
        },
        Entry::Reasoning { text, active, expanded } => EntryView::Reasoning {
            text: text@,
            active,
            expanded,
        },
        Entry::Tool { id, label, detail, status, duration, started_at, result, expanded } =>
            EntryView::Tool {
            id: id@,
            label: label@,
            detail: detail@,
            status,
            duration: option_view(duration),
            started_at,
            result: option_view(result),
            expanded,
        },
        Entry::Diff { id, path, lines, expanded } => EntryView::Diff {
            id: id@,
            path: path@,
            lines: diff_views(lines@),
            expanded,
        },
        Entry::Plan { expanded } => EntryView::Plan { expanded },
        Entry::Compaction { summary, active, tokens_before, tokens_after, error, started_at } =>
            EntryView::Compaction {
            summary: summary@,
            active,
            tokens_before,
            tokens_after,
            error: option_view(error),
            started_at,
        },
    }
}

/// The contents of the blocks.
pub open spec fn entry_views(entries: Seq<Entry>) -> Seq<EntryView> {
    entries.map_values(|entry: Entry| entry_view(entry))
}

} // verus!
