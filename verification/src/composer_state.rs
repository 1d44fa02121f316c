//! The composer: editing the draft, attaching images, sending, and recalling
//! what was sent.

use vstd::prelude::*;

use crate::composer;
use crate::composer::Draft;
use crate::composer::PasteBlock;
use crate::harness::MessageImage;
use crate::state_types::ImageAttachment;
use crate::text;

verus! {

broadcast use vstd::string::group_string_axioms;

/// The draft, its attachments and the lines sent before. Times are
/// milliseconds; positions count characters.
#[derive(Clone, Debug)]
pub struct Composer {
    pub prompt: String,
    pub cursor: usize,
    pub paste_blocks: Vec<PasteBlock>,
    pub next_paste_id: u64,
    pub multiline_mode: bool,
    pub history: Vec<String>,
    pub history_index: Option<usize>,
    pub history_draft: String,
    pub image_attachments: Vec<ImageAttachment>,
    pub next_image_id: u64,
    pub viewed_image_id: Option<u64>,
    pub image_processing_started_at: Option<u64>,
    pub escape_armed_at: Option<u64>,
}

/// An empty composer.
pub open spec fn fresh(s: Composer) -> bool {
    &&& s.prompt@ == ""@
    &&& s.cursor == 0
    &&& s.paste_blocks@.len() == 0
    &&& s.next_paste_id == 0
    &&& !s.multiline_mode
    &&& s.history@.len() == 0
    &&& s.history_index is None
    &&& s.history_draft@ == ""@
    &&& s.image_attachments@.len() == 0
    &&& s.next_image_id == 0
    &&& s.viewed_image_id is None
    &&& s.image_processing_started_at is None
    &&& s.escape_armed_at is None
}

impl Default for Composer {
    fn default() -> (r: Self)
        ensures
            fresh(r),
            r.wf(),
    {
        proof {
            reveal_strlit("");
        }
        Composer {
            prompt: "".to_owned(),
            cursor: 0,
            paste_blocks: Vec::new(),
            next_paste_id: 0,
            multiline_mode: false,
            history: Vec::new(),
            history_index: None,
            history_draft: "".to_owned(),
            image_attachments: Vec::new(),
            next_image_id: 0,
            viewed_image_id: None,
            image_processing_started_at: None,
            escape_armed_at: None,
        }
    }
}

impl Composer {
    /// The draft in the composer.
    pub open spec fn draft(self) -> composer::DraftView {
        composer::DraftView {
            text: self.prompt@,
            cursor: self.cursor as int,
            blocks: self.paste_blocks@,
        }
    }

    /// The draft is well formed.
    pub open spec fn wf(self) -> bool {
        &&& self.cursor <= self.prompt@.len() <= usize::MAX
        &&& composer::blocks_fit(self.prompt@.len() as int, self.paste_blocks@)
    }
}

/// Only the draft and the place in the history have changed: the draft is `d`
/// and the history is left.
pub open spec fn edited(before: Composer, after: Composer, d: composer::DraftView) -> bool {
    &&& after == (Composer {
        prompt: after.prompt,
        cursor: after.cursor,
        paste_blocks: after.paste_blocks,
        history_index: None,
        ..before
    })
    &&& after.draft() == d
}

/// A draft that holds `s` with the cursor behind it.
pub open spec fn plain_draft(s: Seq<char>) -> composer::DraftView {
    composer::DraftView { text: s, cursor: s.len() as int, blocks: Seq::empty() }
}

/// What pasting into the composer does.
pub open spec fn pasted_into(before: Composer, after: Composer, content: Seq<char>) -> bool {
    &&& after == (Composer {
        prompt: after.prompt,
        cursor: after.cursor,
        paste_blocks: after.paste_blocks,
        next_paste_id: after.next_paste_id,
        history_index: None,
        ..before
    })
    &&& composer::pasted(
        before.draft(),
        before.next_paste_id,
        composer::line_feeds(content),
        after.draft(),
    )
    &&& after.next_paste_id == if before.next_paste_id < u64::MAX {
        (before.next_paste_id + 1) as u64
    } else {
        0
    }
}

/// What replacing the text of a pasted block does; `found` says whether there
/// is such a block.
pub open spec fn block_rewritten(
    before: Composer,
    after: Composer,
    id: u64,
    content: Seq<char>,
    found: bool,
) -> bool {
    &&& found == exists|k: int| composer::names_block(before.draft(), id, k)
    &&& !found ==> after == before
    &&& found ==> edited(before, after, after.draft())
    &&& found ==> exists|k: int| #[trigger]
        composer::names_block(before.draft(), id, k) && after.draft() == composer::block_replaced(
            before.draft(),
            k,
            composer::line_feeds(content),
        )
}

/// The cursor stands behind a pasted block; `found` says whether there is
/// such a block.
pub open spec fn behind_block(before: Composer, after: Composer, id: u64, found: bool) -> bool {
    &&& found == exists|k: int| composer::names_block(before.draft(), id, k)
    &&& after == (Composer { cursor: after.cursor, ..before })
    &&& !found ==> after == before
    &&& found ==> exists|k: int| #[trigger]
        composer::names_block(before.draft(), id, k) && after.cursor == before.paste_blocks@[k].end
}

/// The composer is empty and without attachments.
pub open spec fn cleared(before: Composer, after: Composer) -> bool {
    &&& after == (Composer {
        prompt: after.prompt,
        cursor: after.cursor,
        paste_blocks: after.paste_blocks,
        history_index: None,
        image_attachments: after.image_attachments,
        ..before
    })
    &&& after.draft() == plain_draft(Seq::empty())
    &&& after.image_attachments@.len() == 0
}

impl Composer {
    /// Takes the draft out to edit it.
    fn take_draft(&mut self) -> (r: Draft)
        ensures
            r@ == old(self).draft(),
            r.blocks == old(self).paste_blocks,
            *final(self) == (Composer { paste_blocks: final(self).paste_blocks, ..*old(self) }),
    {
        let mut blocks: Vec<PasteBlock> = Vec::new();
        core::mem::swap(&mut blocks, &mut self.paste_blocks);
        Draft { text: text::chars_of(self.prompt.as_str()), cursor: self.cursor, blocks }
    }

    /// Puts an edited draft back.
    fn put_draft(&mut self, draft: Draft)
        ensures
            edited(*old(self), *final(self), draft@),
    {
        self.prompt = text::string_of(&draft.text);
        self.cursor = draft.cursor;
        self.paste_blocks = draft.blocks;
        self.history_index = None;
    }

    /// Puts a text into the composer, with the cursor behind it.
    pub fn set_prompt(&mut self, s: String)
        ensures
            edited(*old(self), *final(self), plain_draft(s@)),
            s@.len() <= usize::MAX ==> final(self).draft().wf(),
    {
        let chars: Vec<char> = text::chars_of(s.as_str());
        self.cursor = chars.len();
        self.prompt = s;
        self.paste_blocks = Vec::new();
        self.history_index = None;
        assert(self.paste_blocks@ =~= Seq::<PasteBlock>::empty());
    }

    /// Types a character at the cursor.
    pub fn insert_char(&mut self, c: char)
        requires
            old(self).wf(),
        ensures
            edited(*old(self), *final(self), composer::typed(old(self).draft(), seq![c])),
            final(self).wf(),
    {
        let mut draft: Draft = self.take_draft();
        let mut one: Vec<char> = Vec::new();
        one.push(c);
        assert(one@ =~= seq![c]);
        draft.type_text(&one);
        self.put_draft(draft);
    }

    /// Types a text at the cursor.
    pub fn type_text(&mut self, added: &str)
        requires
            old(self).wf(),
        ensures
            edited(*old(self), *final(self), composer::typed(old(self).draft(), added@)),
            final(self).wf(),
    {
        let mut draft: Draft = self.take_draft();
        draft.type_text(&text::chars_of(added));
        self.put_draft(draft);
    }

    /// Deletes what stands in front of the cursor.
    pub fn backspace(&mut self)
        requires
            old(self).wf(),
        ensures
            edited(*old(self), *final(self), final(self).draft()),
            composer::after_backspace(old(self).draft(), final(self).draft()),
            final(self).wf(),
    {
        let mut draft: Draft = self.take_draft();
        draft.backspace();
        self.put_draft(draft);
    }

    /// Deletes what the cursor touches.
    pub fn delete(&mut self)
        requires
            old(self).wf(),
        ensures
            edited(*old(self), *final(self), final(self).draft()),
            composer::after_delete(old(self).draft(), final(self).draft()),
            final(self).wf(),
    {
        let mut draft: Draft = self.take_draft();
        draft.delete();
        self.put_draft(draft);
    }

    /// Replaces the word between two positions.
    pub fn replace_word(&mut self, from: usize, to: usize, word: &str)
        requires
            old(self).wf(),
            from <= to <= old(self).prompt@.len(),
            word@.len() > 0,
        ensures
            edited(
                *old(self),
                *final(self),
                composer::word_replaced(old(self).draft(), from as int, to as int, word@),
            ),
            final(self).wf(),
    {
        let mut draft: Draft = self.take_draft();
        draft.replace_word(from, to, &text::chars_of(word));
        self.put_draft(draft);
    }

    /// Pastes text at the cursor.
    pub fn insert_paste(&mut self, content: String)
        requires
            old(self).wf(),
        ensures
            pasted_into(*old(self), *final(self), content@),
            final(self).wf(),
    {
        let chars: Vec<char> = composer::normalized(content.as_str());
        let mut draft: Draft = self.take_draft();
        draft.paste(self.next_paste_id, &chars);
        self.put_draft(draft);
        self.next_paste_id = if self.next_paste_id < u64::MAX {
            self.next_paste_id + 1
        } else {
            0
        };
    }

    /// Replaces the text of a pasted block. Whether there is such a block.
    pub fn replace_paste(&mut self, id: u64, content: String) -> (r: bool)
        requires
            old(self).wf(),
        ensures
            block_rewritten(*old(self), *final(self), id, content@, r),
            final(self).wf(),
    {
        let ghost before = self.draft();
        let mut draft: Draft = self.take_draft();
        let found: Option<usize> = draft.find_block(id);
        match found {
            None => {
                self.paste_blocks = draft.blocks;
                assert(!exists|k: int| composer::names_block(before, id, k));
                false
            },
            Some(k) => {
                assert(composer::names_block(before, id, k as int));
                let chars: Vec<char> = composer::normalized(content.as_str());
                draft.replace_block(k, &chars);
                self.put_draft(draft);
                true
            },
        }
    }

    /// Puts the cursor behind a pasted block. Whether there is such a block.
    pub fn focus_paste(&mut self, id: u64) -> (r: bool)
        requires
            old(self).wf(),
        ensures
            behind_block(*old(self), *final(self), id, r),
            final(self).wf(),
    {
        let ghost before = self.draft();
        let mut k: usize = 0;
        while k < self.paste_blocks.len()
            invariant
                *self == *old(self),
                before == self.draft(),
                self.wf(),
                k <= self.paste_blocks@.len(),
                forall|j: int| 0 <= j < k ==> (#[trigger] before.blocks[j]).id != id,
            decreases self.paste_blocks@.len() - k,
        {
            if self.paste_blocks[k].id == id {
                assert(composer::names_block(before, id, k as int));
                assert(before.blocks[k as int].end <= before.text.len());
                self.cursor = self.paste_blocks[k].end;
                return true;
            }
            k += 1;
        }
        assert(!exists|k: int| composer::names_block(before, id, k));
        false
    }

    /// Empties the composer but keeps the attachments.
    pub fn clear_prompt_text(&mut self)
        ensures
            edited(*old(self), *final(self), plain_draft(Seq::empty())),
            final(self).draft().wf(),
    {
        self.set_prompt("".to_owned());
        proof {
            reveal_strlit("");
            assert(""@ =~= Seq::<char>::empty());
        }
    }

    /// Empties the composer and drops the attachments.
    pub fn clear_prompt(&mut self)
        ensures
            cleared(*old(self), *final(self)),
            final(self).wf(),
    {
        self.clear_prompt_text();
        self.image_attachments = Vec::new();
    }
}

/// The composer is empty and the history ends with `line`; nothing else has
/// changed but the attachments.
pub open spec fn sent(before: Composer, after: Composer, line: Seq<char>) -> bool {
    &&& after == (Composer {
        prompt: after.prompt,
        cursor: after.cursor,
        paste_blocks: after.paste_blocks,
        history: after.history,
        history_index: None,
        image_attachments: after.image_attachments,
        ..before
    })
    &&& after.draft() == plain_draft(Seq::empty())
    &&& after.history@.len() == before.history@.len() + 1
    &&& after.history@.drop_last() == before.history@
    &&& after.history@.last()@ == line
}

/// The command of a prompt that starts with an exclamation mark and whether
/// it starts with two, which keeps its output out of the context.
pub open spec fn bash_command(prompt: Seq<char>) -> Option<(Seq<char>, bool)> {
    let line = text::trim(prompt);
    if text::begins_with(line, "!!"@) {
        Some((text::trim(line.skip(2)), true))
    } else if text::begins_with(line, "!"@) {
        Some((text::trim(line.skip(1)), false))
    } else {
        None
    }
}

/// The attachments as they go with a message.
pub open spec fn message_images(attached: Seq<ImageAttachment>, sent: Seq<MessageImage>) -> bool {
    &&& sent.len() == attached.len()
    &&& forall|k: int|
        0 <= k < attached.len() ==> (#[trigger] sent[k]).path == attached[k].path
            && sent[k].mime_type == attached[k].mime_type
}

/// What taking the draft as a prompt does: a blank draft is not taken.
pub open spec fn prompt_taken(before: Composer, after: Composer, r: Option<String>) -> bool {
    match r {
        Some(line) => {
            &&& line@ == text::trim(before.prompt@)
            &&& line@.len() > 0
            &&& sent(before, after, line@)
            &&& after.image_attachments == before.image_attachments
        },
        None => text::trim(before.prompt@).len() == 0 && after == before,
    }
}

/// What taking the draft as a shell command does: a draft without a command
/// is not taken.
pub open spec fn command_taken(
    before: Composer,
    after: Composer,
    r: Option<(String, bool)>,
) -> bool {
    match r {
        Some((command, excluded)) => {
            &&& bash_command(before.prompt@) == Some((command@, excluded))
            &&& command@.len() > 0
            &&& sent(before, after, text::trim(before.prompt@))
            &&& after.image_attachments == before.image_attachments
        },
        None => {
            &&& match bash_command(before.prompt@) {
                Some((command, excluded)) => command.len() == 0,
                None => true,
            }
            &&& after == before
        },
    }
}

/// What taking the draft and the attachments as a message does: a blank draft
/// without attachments is not taken.
pub open spec fn message_taken(
    before: Composer,
    after: Composer,
    r: Option<(String, Vec<MessageImage>)>,
) -> bool {
    match r {
        Some((line, images)) => {
            &&& line@ == text::trim(before.prompt@)
            &&& line@.len() > 0 || before.image_attachments@.len() > 0
            &&& message_images(before.image_attachments@, images@)
            &&& after.image_attachments@.len() == 0
            &&& line@.len() > 0 ==> sent(before, after, line@)
            &&& line@.len() == 0 ==> after == (Composer {
                prompt: after.prompt,
                cursor: after.cursor,
                paste_blocks: after.paste_blocks,
                history_index: None,
                image_attachments: after.image_attachments,
                ..before
            }) && after.draft() == plain_draft(Seq::empty())
        },
        None => {
            &&& text::trim(before.prompt@).len() == 0
            &&& before.image_attachments@.len() == 0
            &&& after == before
        },
    }
}

/// The draft shows an earlier line of the history, or the draft that was
/// there before.
pub open spec fn recalled(
    before: Composer,
    after: Composer,
    line: Seq<char>,
    index: Option<usize>,
) -> bool {
    &&& after == (Composer {
        prompt: after.prompt,
        cursor: after.cursor,
        paste_blocks: after.paste_blocks,
        history_index: index,
        history_draft: after.history_draft,
        ..before
    })
    &&& after.draft() == plain_draft(line)
}

/// The line of the history above the one shown.
pub open spec fn line_above(s: Composer) -> Option<usize> {
    if s.history.len() == 0 {
        None
    } else {
        match s.history_index {
            None => Some((s.history.len() - 1) as usize),
            Some(i) => if i == 0 {
                Some(0)
            } else if i <= s.history.len() {
                Some((i - 1) as usize)
            } else {
                Some((s.history.len() - 1) as usize)
            },
        }
    }
}

/// What recalling an earlier line does: the draft is put aside first.
pub open spec fn recalls_previous(before: Composer, after: Composer) -> bool {
    match line_above(before) {
        None => after == before,
        Some(i) => {
            &&& recalled(before, after, before.history@[i as int]@, Some(i))
            &&& after.history_draft == if before.history_index is None {
                before.prompt
            } else {
                before.history_draft
            }
        },
    }
}

/// What recalling a later line does: below the last one the draft comes back.
pub open spec fn recalls_next(before: Composer, after: Composer) -> bool {
    match before.history_index {
        None => after == before,
        Some(i) => {
            &&& after.history_draft == before.history_draft
            &&& if i + 1 < before.history.len() {
                recalled(before, after, before.history@[i + 1]@, Some((i + 1) as usize))
            } else {
                recalled(before, after, before.history_draft@, None)
            }
        },
    }
}

/// Recalling the last line and going on below it gives the draft back.
pub proof fn recalling_gives_the_draft_back(
    before: Composer,
    between: Composer,
    after: Composer,
)
    requires
        before.history@.len() > 0,
        before.history_index is None,
        recalls_previous(before, between),
        recalls_next(between, after),
    ensures
        between.prompt@ == before.history@.last()@,
        after.prompt@ == before.prompt@,
        after.history_index is None,
        after.history == before.history,
{
}

impl Composer {
    /// Moves the cursor one character to the left.
    pub fn move_cursor_left(&mut self)
        ensures
            *final(self) == (Composer { cursor: final(self).cursor, ..*old(self) }),
            final(self).cursor == if old(self).cursor > 0 {
                old(self).cursor - 1
            } else {
                0
            },
            old(self).wf() ==> final(self).wf(),
    {
        if self.cursor > 0 {
            self.cursor = self.cursor - 1;
        }
    }

    /// Moves the cursor one character to the right.
    pub fn move_cursor_right(&mut self)
        requires
            old(self).wf(),
        ensures
            *final(self) == (Composer { cursor: final(self).cursor, ..*old(self) }),
            final(self).cursor == if old(self).cursor < old(self).prompt@.len() {
                old(self).cursor + 1
            } else {
                old(self).cursor as int
            },
            final(self).wf(),
    {
        let chars: Vec<char> = text::chars_of(self.prompt.as_str());
        if self.cursor < chars.len() {
            self.cursor = self.cursor + 1;
        }
    }

    /// Moves the cursor in front of the draft.
    pub fn move_cursor_home(&mut self)
        ensures
            *final(self) == (Composer { cursor: 0, ..*old(self) }),
            old(self).wf() ==> final(self).wf(),
    {
        self.cursor = 0;
    }

    /// Moves the cursor behind the draft.
    pub fn move_cursor_end(&mut self)
        ensures
            *final(self) == (Composer { cursor: final(self).cursor, ..*old(self) }),
            final(self).cursor == old(self).prompt@.len(),
            old(self).wf() ==> final(self).wf(),
    {
        let chars: Vec<char> = text::chars_of(self.prompt.as_str());
        self.cursor = chars.len();
    }

    /// Adds a line to the history and empties the composer.
    fn send_line(&mut self, line: String)
        ensures
            sent(*old(self), *final(self), line@),
            final(self).image_attachments == old(self).image_attachments,
            final(self).draft().wf(),
    {
        self.history.push(line);
        assert(self.history@.drop_last() =~= old(self).history@);
        self.clear_prompt_text();
    }

    /// Takes the draft as a prompt; nothing happens if it is blank.
    pub fn submit_prompt(&mut self) -> (r: Option<String>)
        ensures
            prompt_taken(*old(self), *final(self), r),
            old(self).wf() ==> final(self).wf(),
    {
        let line: String = text::trimmed(self.prompt.as_str());
        if line.as_str().is_empty() {
            return None;
        }
        self.send_line(line.clone());
        Some(line)
    }

    /// Takes the draft as a shell command. The flag says that its output stays
    /// out of the context. Nothing happens without a command.
    pub fn submit_bash(&mut self) -> (r: Option<(String, bool)>)
        ensures
            command_taken(*old(self), *final(self), r),
            old(self).wf() ==> final(self).wf(),
    {
        let line: String = text::trimmed(self.prompt.as_str());
        proof {
            reveal_strlit("!!");
            reveal_strlit("!");
        }
        let (rest, excluded): (Option<String>, bool) = match text::strip_prefix(
            line.as_str(),
            "!!",
        ) {
            Some(rest) => (Some(rest), true),
            None => (text::strip_prefix(line.as_str(), "!"), false),
        };
        match rest {
            None => None,
            Some(rest) => {
                let command: String = text::trimmed(rest.as_str());
                if command.as_str().is_empty() {
                    return None;
                }
                self.send_line(line);
                Some((command, excluded))
            },
        }
    }

    /// Takes the draft and the attachments as a message; nothing happens if
    /// there is neither text nor image.
    pub fn submit_message(&mut self) -> (r: Option<(String, Vec<MessageImage>)>)
        ensures
            message_taken(*old(self), *final(self), r),
            old(self).wf() ==> final(self).wf(),
    {
        let line: String = text::trimmed(self.prompt.as_str());
        if line.as_str().is_empty() && self.image_attachments.len() == 0 {
            return None;
        }
        let mut images: Vec<MessageImage> = Vec::new();
        let mut i: usize = 0;
        while i < self.image_attachments.len()
            invariant
                *self == *old(self),
                i <= self.image_attachments@.len(),
                images@.len() == i,
                forall|k: int|
                    0 <= k < i ==> (#[trigger] images@[k]).path == self.image_attachments@[k].path
                        && images@[k].mime_type == self.image_attachments@[k].mime_type,
            decreases self.image_attachments@.len() - i,
        {
            images.push(
                MessageImage {
                    path: self.image_attachments[i].path.clone(),
                    mime_type: self.image_attachments[i].mime_type.clone(),
                },
            );
            i += 1;
        }
        if line.as_str().is_empty() {
            self.clear_prompt_text();
        } else {
            self.send_line(line.clone());
        }
        self.image_attachments = Vec::new();
        Some((line, images))
    }

    /// Shows an earlier line of the history in the composer.
    pub fn previous_prompt(&mut self)
        ensures
            recalls_previous(*old(self), *final(self)),
            old(self).wf() ==> final(self).wf(),
    {
        if self.history.len() == 0 {
            return ;
        }
        let index: usize = match self.history_index {
            None => self.history.len() - 1,
            Some(i) => if i == 0 {
                0
            } else if i <= self.history.len() {
                i - 1
            } else {
                self.history.len() - 1
            },
        };
        let draft: String = if self.history_index.is_none() {
            self.prompt.clone()
        } else {
            self.history_draft.clone()
        };
        let line: String = self.history[index].clone();
        let _size: usize = text::chars_of(line.as_str()).len();
        self.set_prompt(line);
        self.history_index = Some(index);
        self.history_draft = draft;
    }

    /// Shows a later line of the history, and at its end the draft.
    pub fn next_prompt(&mut self)
        ensures
            recalls_next(*old(self), *final(self)),
            old(self).wf() ==> final(self).wf(),
    {
        match self.history_index {
            None => {},
            Some(i) => {
                let (line, index): (String, Option<usize>) = if i < self.history.len()
                    && self.history.len() - i > 1 {
                    (self.history[i + 1].clone(), Some(i + 1))
                } else {
                    (self.history_draft.clone(), None)
                };
                let _size: usize = text::chars_of(line.as_str()).len();
                self.set_prompt(line);
                self.history_index = index;
            },
        }
    }
}

/// The first attachment with an identifier.
pub open spec fn names_image(images: Seq<ImageAttachment>, id: u64, k: int) -> bool {
    &&& 0 <= k < images.len()
    &&& images[k].id == id
    &&& forall|j: int| 0 <= j < k ==> (#[trigger] images[j]).id != id
}

/// The place of the attachment that is looked at.
pub open spec fn viewed_place(s: Composer, k: int) -> bool {
    s.viewed_image_id matches Some(id) && names_image(s.image_attachments@, id, k)
}

/// An image was attached under an identifier of its own.
pub open spec fn image_added(before: Composer, after: Composer, image: ImageAttachment) -> bool {
    &&& after == (Composer {
        image_attachments: after.image_attachments,
        next_image_id: after.next_image_id,
        ..before
    })
    &&& after.image_attachments@ == before.image_attachments@.push(
        ImageAttachment { id: before.next_image_id, ..image },
    )
    &&& after.next_image_id == if before.next_image_id < u64::MAX {
        (before.next_image_id + 1) as u64
    } else {
        0
    }
}

/// The attachment that was looked at is gone.
pub open spec fn viewed_dropped(before: Composer, after: Composer) -> bool {
    &&& after == (Composer {
        image_attachments: after.image_attachments,
        viewed_image_id: None,
        ..before
    })
    &&& forall|k: int| #[trigger]
        viewed_place(before, k) ==> after.image_attachments@ == before.image_attachments@.remove(k)
    &&& (forall|k: int| !#[trigger] viewed_place(before, k)) ==> after.image_attachments
        == before.image_attachments
}

impl Composer {
    /// Attaches an image under an identifier of its own.
    pub fn attach_image(&mut self, image: ImageAttachment)
        ensures
            image_added(*old(self), *final(self), image),
            old(self).wf() ==> final(self).wf(),
    {
        let id: u64 = self.next_image_id;
        self.next_image_id = if id < u64::MAX {
            id + 1
        } else {
            0
        };
        let mut image = image;
        image.id = id;
        self.image_attachments.push(image);
    }

    /// The place of the first attachment with an identifier.
    pub fn find_image(&self, id: u64) -> (r: Option<usize>)
        ensures
            match r {
                Some(k) => names_image(self.image_attachments@, id, k as int),
                None => forall|j: int|
                    0 <= j < self.image_attachments@.len() ==> (
                    #[trigger] self.image_attachments@[j]).id != id,
            },
    {
        let mut k: usize = 0;
        while k < self.image_attachments.len()
            invariant
                k <= self.image_attachments@.len(),
                forall|j: int| 0 <= j < k ==> (#[trigger] self.image_attachments@[j]).id != id,
            decreases self.image_attachments@.len() - k,
        {
            if self.image_attachments[k].id == id {
                return Some(k);
            }
            k += 1;
        }
        None
    }

    /// The attachment that is looked at.
    pub fn viewed_image(&self) -> (r: Option<&ImageAttachment>)
        ensures
            match r {
                Some(image) => exists|k: int| #[trigger]
                    viewed_place(*self, k) && *image == self.image_attachments@[k],
                None => forall|k: int| !#[trigger] viewed_place(*self, k),
            },
    {
        match self.viewed_image_id {
            None => None,
            Some(id) => match self.find_image(id) {
                None => None,
                Some(k) => {
                    assert(viewed_place(*self, k as int));
                    Some(&self.image_attachments[k])
                },
            },
        }
    }

    /// Drops the attachment that is looked at.
    pub fn drop_viewed_image(&mut self)
        ensures
            viewed_dropped(*old(self), *final(self)),
            old(self).wf() ==> final(self).wf(),
    {
        if let Some(id) = self.viewed_image_id {
            if let Some(k) = self.find_image(id) {
                let _image: ImageAttachment = self.image_attachments.remove(k);
                assert(viewed_place(*old(self), k as int));
                assert forall|j: int| #[trigger] viewed_place(*old(self), j) implies j == k by {}
            }
        }
        self.viewed_image_id = None;
    }
}

/// A message that is sent has the words of the draft without the white space around them and
/// all attached images in their order. The draft is empty afterwards, and what was sent can be
/// recalled.
pub proof fn messages_hold_the_draft(
    before: Composer,
    after: Composer,
    line: String,
    images: Vec<MessageImage>,
)
    requires
        message_taken(before, after, Some((line, images))),
    ensures
        line@ == text::trim(before.prompt@),
        images@.len() == before.image_attachments@.len(),
        forall|k: int|
            0 <= k < images@.len() ==> (#[trigger] images@[k]).path
                == before.image_attachments@[k].path && images@[k].mime_type
                == before.image_attachments@[k].mime_type,
        after.prompt@.len() == 0,
        after.cursor == 0,
        after.paste_blocks@.len() == 0,
        after.image_attachments@.len() == 0,
        line@.len() > 0 ==> after.history@.len() == before.history@.len() + 1
            && after.history@.last()@ == line@,
        line@.len() == 0 ==> after.history == before.history,
{
    assert(after.draft().text.len() == 0);
}

/// A draft is sent where there is a word or an image in it, and kept where there is neither.
pub proof fn blank_drafts_are_not_sent(
    before: Composer,
    after: Composer,
    r: Option<(String, Vec<MessageImage>)>,
)
    requires
        message_taken(before, after, r),
    ensures
        r is Some <==> text::trim(before.prompt@).len() > 0 || before.image_attachments@.len() > 0,
        r is None ==> after == before,
{
}

/// A line with an exclamation mark in front is a command, and with two its output stays out of
/// the context; other lines are no commands.
pub proof fn marked_lines_are_commands(prompt: Seq<char>)
    ensures
        ({
            let line = text::trim(prompt);
            &&& line.len() == 0 || line[0] != '!' ==> bash_command(prompt) is None
            &&& line.len() > 0 && line[0] == '!' && (line.len() == 1 || line[1] != '!')
                ==> bash_command(prompt) == Some((text::trim(line.skip(1)), false))
            &&& line.len() > 1 && line[0] == '!' && line[1] == '!' ==> bash_command(prompt) == Some(
                (text::trim(line.skip(2)), true),
            )
        }),
{
    reveal_strlit("!!");
    reveal_strlit("!");
    let line = text::trim(prompt);
    assert("!!"@ =~= seq!['!', '!']);
    assert("!"@ =~= seq!['!']);
    if line.len() > 0 {
        assert(line.subrange(0, 1) =~= seq![line[0]]);
        assert(seq![line[0]][0] == line[0]);
        assert("!"@[0] == '!');
    }
    if line.len() > 1 {
        assert(line.subrange(0, 2) =~= seq![line[0], line[1]]);
        assert(seq![line[0], line[1]][0] == line[0] && seq![line[0], line[1]][1] == line[1]);
        assert("!!"@[0] == '!' && "!!"@[1] == '!');
    }
}

/// Going back shows the line before the one that is shown, from the last one on, and stops at
/// the first. The draft is kept.
pub proof fn earlier_lines_come_in_order(before: Composer, after: Composer)
    requires
        before.history@.len() > 0,
        recalls_previous(before, after),
        before.history_index matches Some(i) ==> i < before.history@.len(),
    ensures
        before.history_index is None ==> after.prompt@ == before.history@.last()@
            && after.history_draft@ == before.prompt@,
        before.history_index matches Some(i) ==> (i > 0 ==> after.prompt@ == before.history@[i - 1]@
            && after.history_index == Some((i - 1) as usize)) && after.history_draft
            == before.history_draft,
        before.history_index == Some(0usize) ==> after.prompt@ == before.history@[0]@
            && after.history_index == Some(0usize),
        after.cursor == after.prompt@.len(),
        after.history == before.history,
{
    assert(before.history.len() == before.history@.len());
}

/// Going forward shows the line behind the one that is shown, and below the last one the
/// draft.
pub proof fn later_lines_come_in_order(before: Composer, after: Composer)
    requires
        recalls_next(before, after),
    ensures
        before.history_index is None ==> after == before,
        before.history_index matches Some(i) ==> (i + 1 < before.history@.len() ==> after.prompt@
            == before.history@[i + 1]@ && after.history_index == Some((i + 1) as usize)) && (i + 1
            >= before.history@.len() ==> after.prompt@ == before.history_draft@
            && after.history_index is None),
        after.history == before.history,
{
    assert(before.history.len() == before.history@.len());
}

/// An attached image comes last, under the next number, and the others stay.
pub proof fn images_are_attached_in_order(before: Composer, after: Composer, image: ImageAttachment)
    requires
        image_added(before, after, image),
    ensures
        after.image_attachments@.len() == before.image_attachments@.len() + 1,
        after.image_attachments@.drop_last() == before.image_attachments@,
        after.image_attachments@.last().path == image.path,
        after.image_attachments@.last().id == before.next_image_id,
        before.next_image_id < u64::MAX ==> after.next_image_id > before.next_image_id,
        after.prompt == before.prompt,
{
    assert(after.image_attachments@.drop_last() =~= before.image_attachments@);
}

/// The image that is looked at is the one that is dropped.
pub proof fn viewed_images_are_dropped(before: Composer, after: Composer, k: int)
    requires
        viewed_dropped(before, after),
        0 <= k < before.image_attachments@.len(),
        before.viewed_image_id == Some(before.image_attachments@[k].id),
        forall|j: int|
            0 <= j < k ==> (#[trigger] before.image_attachments@[j]).id
                != before.image_attachments@[k].id,
    ensures
        after.image_attachments@ == before.image_attachments@.remove(k),
        after.viewed_image_id is None,
        after.prompt == before.prompt,
{
    assert(viewed_place(before, k));
}

/// A line that is taken for a command or an answer is the draft without white space at its
/// ends; it is remembered, and the draft is empty. A blank draft stays.
pub proof fn taken_lines_are_remembered(before: Composer, after: Composer, r: Option<String>)
    requires
        prompt_taken(before, after, r),
    ensures
        r is None <==> text::trim(before.prompt@).len() == 0,
        r is None ==> after == before,
        r matches Some(line) ==> {
            &&& line@ == text::trim(before.prompt@)
            &&& after.prompt@.len() == 0
            &&& after.cursor == 0
            &&& after.paste_blocks@.len() == 0
            &&& after.history@.len() == before.history@.len() + 1
            &&& after.history@[before.history@.len() as int]@ == line@
            &&& forall|k: int|
                0 <= k < before.history@.len() ==> #[trigger] after.history@[k]
                    == before.history@[k]
            &&& after.history_index is None
            &&& after.image_attachments == before.image_attachments
        },
{
    if r is Some {
        assert(after.draft().text == after.prompt@);
        assert(after.draft().blocks == after.paste_blocks@);
        assert(after.draft().cursor == after.cursor);
        assert forall|k: int| 0 <= k < before.history@.len() implies #[trigger] after.history@[k]
            == before.history@[k] by {
            assert(after.history@.drop_last()[k] == after.history@[k]);
        }
    }
}

/// Going behind a stretch of pasted text sets the cursor to its end and leaves the text as it
/// is; a stretch that is not there moves nothing.
pub proof fn the_cursor_goes_behind_the_stretch(
    before: Composer,
    after: Composer,
    id: u64,
    found: bool,
    k: int,
)
    requires
        behind_block(before, after, id, found),
        0 <= k < before.paste_blocks@.len(),
        before.paste_blocks@[k].id == id,
        forall|j: int| 0 <= j < k ==> (#[trigger] before.paste_blocks@[j]).id != id,
    ensures
        found,
        after.cursor == before.paste_blocks@[k].end,
        after.prompt == before.prompt,
        after.paste_blocks == before.paste_blocks,
{
    assert(before.draft().blocks == before.paste_blocks@);
    assert(composer::names_block(before.draft(), id, k));
    let n = choose|n: int| #[trigger]
        composer::names_block(before.draft(), id, n) && after.cursor == before.paste_blocks@[n].end;
    if n < k {
        assert(before.paste_blocks@[n].id != id);
    } else if k < n {
        assert(before.draft().blocks[k].id != id);
    }
}

} // verus!
