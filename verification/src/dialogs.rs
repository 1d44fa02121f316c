//! What the dialogs do to the state: opening, closing, typing and moving.

use vstd::prelude::*;

use crate::composer;
use crate::composer_state;
use crate::composer_state::Composer;
use crate::dialog;
use crate::dialog::Dialog;
use crate::geometry::Rect;
use crate::paste_editor::EditorFrame;
use crate::paste_editor;
use crate::paste_editor::PasteEditor;
use crate::screen;
use crate::state::AppState;
use crate::state_types;
use crate::state_types::ImageAttachment;
use crate::state_types::OverlayKind;
use crate::text;

verus! {

broadcast use vstd::string::group_string_axioms;

/// A dialog was opened; nothing else has changed.
pub open spec fn opens(before: AppState, after: AppState, kind: OverlayKind) -> bool {
    &&& after == (AppState { dialog: after.dialog, ..before })
    &&& dialog::opened(after.dialog, kind, 0, None)
}

/// The dialog was closed, and with it the editor and the viewer.
pub open spec fn closes(before: AppState, after: AppState) -> bool {
    &&& after == (AppState {
        dialog: after.dialog,
        editor: PasteEditor { editing_paste: None, ..before.editor },
        composer: Composer { viewed_image_id: None, ..before.composer },
        ..before
    })
    &&& dialog::closed_to(before.dialog, after.dialog)
}

/// The screen shows a status text; nothing else has changed.
pub open spec fn says(before: AppState, after: AppState, words: Seq<char>) -> bool {
    &&& after == (AppState { status: after.status, ..before })
    &&& after.status@ == words
}

/// An image was attached, and the status says so.
pub open spec fn attaches(before: AppState, after: AppState, image: ImageAttachment) -> bool {
    &&& after == (AppState { composer: after.composer, status: after.status, ..before })
    &&& composer_state::image_added(before.composer, after.composer, image)
    &&& after.status@ == "attached "@ + image.name@
}

/// An attachment is looked at; `found` says whether there is such an
/// attachment.
pub open spec fn views_image(before: AppState, after: AppState, id: u64, found: bool) -> bool {
    &&& found == exists|k: int|
        composer_state::names_image(before.composer.image_attachments@, id, k)
    &&& !found ==> after == before
    &&& found ==> after == (AppState {
        composer: Composer { viewed_image_id: Some(id), ..before.composer },
        dialog: after.dialog,
        ..before
    }) && dialog::opened(after.dialog, OverlayKind::ImageViewer, 0, None)
}

/// The attachment that is looked at was dropped and the viewer closed.
pub open spec fn drops_image(before: AppState, after: AppState) -> bool {
    &&& after == (AppState {
        dialog: after.dialog,
        editor: PasteEditor { editing_paste: None, ..before.editor },
        composer: after.composer,
        ..before
    })
    &&& composer_state::viewed_dropped(before.composer, after.composer)
    &&& dialog::closed_to(before.dialog, after.dialog)
}

/// A pasted block is edited: the editor holds its text, with the cursor behind
/// it. `found` says whether there is such a block.
pub open spec fn edits_paste(before: AppState, after: AppState, id: u64, found: bool) -> bool {
    let draft = before.composer.draft();
    &&& found == exists|k: int| composer::names_block(draft, id, k)
    &&& !found ==> after == before
    &&& found ==> {
        &&& after == (AppState {
            dialog: after.dialog,
            editor: PasteEditor {
                editing_paste: Some(id),
                paste_editor_scroll: 0,
                paste_editor_follow_cursor: true,
                ..before.editor
            },
            ..before
        })
        &&& after.dialog.overlay == OverlayKind::PasteEditor
        &&& after.dialog.overlay_cursor == after.dialog.overlay_query@.len()
        &&& after.dialog.overlay_selected == 0
        &&& after.dialog.overlay_hovered is None
        &&& !after.dialog.overlay_close_hovered
        &&& after.dialog.overlay_parent is None
        &&& exists|k: int| #[trigger]
            composer::names_block(draft, id, k) && after.dialog.overlay_query@ == draft.block_text(
                k,
            )
    }
}

/// Only the text and the cursor of the editor have changed, and it follows
/// the cursor.
pub open spec fn editor_moved(before: AppState, after: AppState) -> bool {
    after == (AppState {
        dialog: Dialog {
            overlay_query: after.dialog.overlay_query,
            overlay_cursor: after.dialog.overlay_cursor,
            ..before.dialog
        },
        editor: PasteEditor { paste_editor_follow_cursor: true, ..before.editor },
        ..before
    })
}

impl AppState {
    /// Opens a dialog.
    pub fn open_overlay(&mut self, kind: OverlayKind)
        ensures
            opens(*old(self), *final(self), kind),
            old(self).wf() ==> final(self).wf(),
    {
        self.dialog.open(kind);
    }

    /// Closes the dialog.
    pub fn close_overlay(&mut self)
        ensures
            closes(*old(self), *final(self)),
            old(self).wf() ==> final(self).wf(),
    {
        self.dialog.close();
        self.editor.editing_paste = None;
        self.composer.viewed_image_id = None;
    }

    /// Attaches an image to the draft.
    pub fn attach_image(&mut self, image: ImageAttachment)
        ensures
            attaches(*old(self), *final(self), image),
            old(self).wf() ==> final(self).wf(),
    {
        self.status = text::joined("attached ", image.name.as_str());
        self.composer.attach_image(image);
    }

    /// Opens the viewer on an attachment. Whether there is such an attachment.
    pub fn begin_image_view(&mut self, id: u64) -> (r: bool)
        ensures
            views_image(*old(self), *final(self), id, r),
            old(self).wf() ==> final(self).wf(),
    {
        match self.composer.find_image(id) {
            None => {
                assert(!exists|k: int|
                    composer_state::names_image(self.composer.image_attachments@, id, k));
                false
            },
            Some(k) => {
                assert(composer_state::names_image(
                    self.composer.image_attachments@,
                    id,
                    k as int,
                ));
                self.composer.viewed_image_id = Some(id);
                self.dialog.open(OverlayKind::ImageViewer);
                true
            },
        }
    }

    /// Drops the attachment that is looked at and closes the viewer.
    pub fn remove_viewed_image(&mut self)
        ensures
            drops_image(*old(self), *final(self)),
            old(self).wf() ==> final(self).wf(),
    {
        self.composer.drop_viewed_image();
        self.dialog.close();
        self.editor.editing_paste = None;
    }

    /// Opens the editor on a pasted block. Whether there is such a block.
    pub fn begin_paste_edit(&mut self, id: u64) -> (r: bool)
        requires
            old(self).wf(),
        ensures
            edits_paste(*old(self), *final(self), id, r),
            final(self).wf(),
    {
        let ghost draft = self.composer.draft();
        let mut k: usize = 0;
        while k < self.composer.paste_blocks.len()
            invariant
                *self == *old(self),
                self.wf(),
                draft == self.composer.draft(),
                k <= draft.blocks.len(),
                forall|j: int| 0 <= j < k ==> (#[trigger] draft.blocks[j]).id != id,
            decreases draft.blocks.len() - k,
        {
            if self.composer.paste_blocks[k].id == id {
                assert(composer::names_block(draft, id, k as int));
                assert(draft.blocks[k as int].start < draft.blocks[k as int].end
                    <= draft.text.len());
                let chars: Vec<char> = text::chars_of(self.composer.prompt.as_str());
                let from: usize = self.composer.paste_blocks[k].start;
                let to: usize = self.composer.paste_blocks[k].end;
                let content: String = text::string_between(&chars, from, to);
                self.dialog.open(OverlayKind::PasteEditor);
                self.dialog.overlay_query = content;
                self.dialog.overlay_cursor = to - from;
                self.editor.editing_paste = Some(id);
                self.editor.paste_editor_scroll = 0;
                self.editor.paste_editor_follow_cursor = true;
                return true;
            }
            k += 1;
        }
        assert(!exists|k: int| composer::names_block(draft, id, k));
        false
    }

    /// Moves the cursor of the editor.
    pub fn move_paste_editor_cursor(&mut self, delta: isize)
        ensures
            editor_moved(*old(self), *final(self)),
            final(self).dialog.overlay_query == old(self).dialog.overlay_query,
            final(self).dialog.overlay_cursor == dialog::stepped(
                old(self).dialog.text_cursor(),
                delta as int,
                old(self).dialog.overlay_query@.len() as int + 1,
            ),
            old(self).wf() ==> final(self).wf(),
    {
        self.dialog.move_cursor(delta);
        self.editor.paste_editor_follow_cursor = true;
    }

    /// Moves the cursor of the editor to the start or the end of its line.
    pub fn move_paste_editor_line_edge(&mut self, end: bool)
        ensures
            editor_moved(*old(self), *final(self)),
            final(self).dialog.overlay_query == old(self).dialog.overlay_query,
            final(self).dialog.overlay_cursor == if end {
                dialog::line_end(
                    old(self).dialog.overlay_query@,
                    old(self).dialog.text_cursor(),
                )
            } else {
                dialog::line_start(
                    old(self).dialog.overlay_query@,
                    old(self).dialog.text_cursor(),
                )
            },
            old(self).wf() ==> final(self).wf(),
    {
        self.dialog.move_line_edge(end);
        self.editor.paste_editor_follow_cursor = true;
    }

    /// Moves the cursor of the editor by some rows, as they were last shown.
    pub fn move_paste_editor_vertical(&mut self, delta: isize)
        requires
            old(self).wf(),
        ensures
            editor_moved(*old(self), *final(self)),
            final(self).dialog.overlay_query == old(self).dialog.overlay_query,
            paste_editor::moved_by_rows(
                old(self).editor.paste_editor_rows@,
                old(self).dialog.overlay_cursor as int,
                delta as int,
                final(self).dialog.overlay_cursor as int,
            ),
            old(self).wf() ==> final(self).wf(),
    {
        self.dialog.overlay_cursor = paste_editor::move_by_rows(
            &self.editor.paste_editor_rows,
            self.dialog.overlay_cursor,
            delta,
        );
        self.editor.paste_editor_follow_cursor = true;
    }

    /// Inserts text into the editor.
    pub fn insert_paste_editor_text(&mut self, content: String)
        ensures
            editor_moved(*old(self), *final(self)),
            final(self).dialog.overlay_query@ == composer::replaced(
                old(self).dialog.overlay_query@,
                old(self).dialog.text_cursor(),
                old(self).dialog.text_cursor(),
                composer::line_feeds(content@),
            ),
            final(self).dialog.overlay_cursor == old(self).dialog.text_cursor()
                + composer::line_feeds(content@).len(),
            old(self).wf() ==> final(self).wf(),
    {
        let added: Vec<char> = composer::normalized(content.as_str());
        self.dialog.insert_text(&added);
        self.editor.paste_editor_follow_cursor = true;
    }

    /// Puts the cursor of the editor where a click leads. Whether it leads anywhere.
    pub fn click_paste_editor(&mut self, column: u16, row: u16) -> (r: bool)
        ensures
            match paste_editor::clicked(old(self).editor.paste_editor_targets@, column, row) {
                Some(offset) => r && *final(self) == (AppState {
                    dialog: Dialog { overlay_cursor: offset, ..old(self).dialog },
                    editor: PasteEditor { paste_editor_follow_cursor: true, ..old(self).editor },
                    ..*old(self)
                }),
                None => !r && *final(self) == *old(self),
            },
            old(self).wf() ==> final(self).wf(),
    {
        match self.editor.place_clicked(column, row) {
            Some(offset) => {
                self.dialog.overlay_cursor = offset;
                self.editor.paste_editor_follow_cursor = true;
                true
            },
            None => false,
        }
    }

    /// Scrolls the editor.
    pub fn scroll_paste_editor(&mut self, delta: isize)
        ensures
            *final(self) == (AppState {
                editor: PasteEditor {
                    paste_editor_scroll: final(self).editor.paste_editor_scroll,
                    paste_editor_follow_cursor: false,
                    ..old(self).editor
                },
                ..*old(self)
            }),
            final(self).editor.paste_editor_scroll == dialog::stepped(
                old(self).editor.paste_editor_scroll as int,
                delta as int,
                usize::MAX + 1,
            ),
            old(self).wf() ==> final(self).wf(),
    {
        self.editor.scroll_by(delta);
    }

    /// The button of the editor under a cell.
    pub fn paste_editor_action_at(&self, column: u16, row: u16) -> (r: Option<u64>)
        ensures
            r == state_types::hit(self.editor.paste_editor_actions@, column, row),
    {
        state_types::target_at(&self.editor.paste_editor_actions, column, row)
    }

    /// The button of the image viewer under a cell.
    pub fn image_view_action_at(&self, column: u16, row: u16) -> (r: Option<u64>)
        ensures
            r == state_types::hit(self.pointer.image_view_actions@, column, row),
    {
        state_types::target_at(&self.pointer.image_view_actions, column, row)
    }

    /// The part of the header under a cell.
    pub fn header_target_at(&self, column: u16, row: u16) -> (r: Option<u64>)
        ensures
            r == state_types::hit(self.pointer.header_targets@, column, row),
    {
        state_types::target_at(&self.pointer.header_targets, column, row)
    }

    /// Types a character into the dialog: into the text of the editor, or
    /// behind the query of the others.
    pub fn insert_overlay_char(&mut self, c: char)
        ensures
            typed_into(*old(self), *final(self), c),
            old(self).wf() ==> final(self).wf(),
    {
        if self.dialog.overlay == OverlayKind::PasteEditor {
            let mut one: Vec<char> = Vec::new();
            one.push(c);
            assert(one@ =~= seq![c]);
            self.dialog.insert_text(&one);
            self.editor.paste_editor_follow_cursor = true;
        } else {
            self.dialog.type_char(c);
        }
    }

    /// Takes a character of the dialog back.
    pub fn overlay_backspace(&mut self)
        ensures
            erased_from(*old(self), *final(self)),
            old(self).wf() ==> final(self).wf(),
    {
        if self.dialog.overlay == OverlayKind::PasteEditor {
            self.dialog.erase_at_cursor();
            self.editor.paste_editor_follow_cursor = true;
        } else {
            self.dialog.erase();
        }
    }
}

/// A character was typed into the dialog.
pub open spec fn typed_into(before: AppState, after: AppState, c: char) -> bool {
    if before.dialog.overlay == OverlayKind::PasteEditor {
        &&& editor_moved(before, after)
        &&& after.dialog.overlay_query@ == composer::replaced(
            before.dialog.overlay_query@,
            before.dialog.text_cursor(),
            before.dialog.text_cursor(),
            seq![c],
        )
        &&& after.dialog.overlay_cursor == before.dialog.text_cursor() + 1
    } else {
        &&& after == (AppState {
            dialog: Dialog {
                overlay_query: after.dialog.overlay_query,
                overlay_selected: 0,
                overlay_hovered: None,
                ..before.dialog
            },
            ..before
        })
        &&& after.dialog.overlay_query@ == before.dialog.overlay_query@.push(c)
    }
}

/// A character of the dialog was taken back.
pub open spec fn erased_from(before: AppState, after: AppState) -> bool {
    let query = before.dialog.overlay_query@;
    let at = before.dialog.text_cursor();
    if before.dialog.overlay == OverlayKind::PasteEditor {
        &&& editor_moved(before, after)
        &&& if at > 0 {
            &&& after.dialog.overlay_query@ == composer::replaced(query, at - 1, at, Seq::empty())
            &&& after.dialog.overlay_cursor == at - 1
        } else {
            &&& after.dialog.overlay_query == before.dialog.overlay_query
            &&& after.dialog.overlay_cursor == 0
        }
    } else {
        &&& after == (AppState {
            dialog: Dialog {
                overlay_query: after.dialog.overlay_query,
                overlay_selected: 0,
                overlay_hovered: None,
                ..before.dialog
            },
            ..before
        })
        &&& after.dialog.overlay_query@ == if query.len() > 0 {
            query.drop_last()
        } else {
            query
        }
    }
}

/// The editor was laid out for a screen, and remembers its rows.
pub open spec fn editor_drawn(
    before: AppState,
    after: AppState,
    area: Rect,
    frame: EditorFrame,
) -> bool {
    &&& paste_editor::framed(
        frame,
        area,
        before.dialog.overlay_query@,
        before.dialog.overlay_cursor,
        before.editor.paste_editor_scroll as int,
        before.editor.paste_editor_follow_cursor,
    )
    &&& after == (AppState {
        editor: PasteEditor {
            paste_editor_rows: frame.rows,
            paste_editor_scroll: frame.scroll,
            paste_editor_targets: frame.targets,
            paste_editor_actions: frame.actions,
            ..before.editor
        },
        ..before
    })
}

impl AppState {
    /// Lays the editor out for a screen.
    pub fn lay_out_editor(&mut self, area: Rect)
        requires
            old(self).wf(),
            area.fits(),
        ensures
            exists|frame: EditorFrame| #[trigger]
                editor_drawn(*old(self), *final(self), area, frame),
            final(self).wf(),
    {
        let frame: EditorFrame = paste_editor::editor_frame(
            area,
            self.dialog.overlay_query.as_str(),
            self.dialog.overlay_cursor,
            self.editor.paste_editor_scroll,
            self.editor.paste_editor_follow_cursor,
        );
        let ghost drawn = frame;
        self.editor.remember(frame);
        assert(editor_drawn(*old(self), *self, area, drawn));
    }
}

/// Closing a dialog leaves the draft, its pasted blocks and its attachments alone.
pub proof fn closing_keeps_the_draft(before: AppState, after: AppState)
    requires
        closes(before, after),
    ensures
        after.composer.prompt == before.composer.prompt,
        after.composer.paste_blocks == before.composer.paste_blocks,
        after.composer.image_attachments == before.composer.image_attachments,
{
}

/// What is typed into a dialog comes last and selects the first row again; what is typed into
/// the editor comes where the cursor is.
pub proof fn typed_characters_are_kept(before: AppState, after: AppState, c: char)
    requires
        typed_into(before, after, c),
    ensures
        !(before.dialog.overlay is PasteEditor) ==> after.dialog.overlay_query@
            == before.dialog.overlay_query@ + seq![c] && after.dialog.overlay_selected == 0,
        before.dialog.overlay is PasteEditor && before.dialog.overlay_cursor
            <= before.dialog.overlay_query@.len() ==> after.dialog.overlay_query@
            == before.dialog.overlay_query@.take(before.dialog.overlay_cursor as int) + seq![c]
            + before.dialog.overlay_query@.skip(before.dialog.overlay_cursor as int)
            && after.dialog.overlay_cursor == before.dialog.overlay_cursor + 1,
        after.composer == before.composer,
        after.transcript == before.transcript,
{
    assert(before.dialog.overlay_query@.push(c) =~= before.dialog.overlay_query@ + seq![c]);
}

/// Taking a character back undoes typing it.
pub proof fn erasing_takes_typing_back(before: AppState, typed: AppState, after: AppState, c: char)
    requires
        typed_into(before, typed, c),
        erased_from(typed, after),
        before.dialog.overlay_cursor <= before.dialog.overlay_query@.len(),
    ensures
        after.dialog.overlay_query@ == before.dialog.overlay_query@,
        before.dialog.overlay is PasteEditor ==> after.dialog.overlay_cursor
            == before.dialog.overlay_cursor,
{
    assert(after.dialog.overlay_query@ =~= before.dialog.overlay_query@);
}

/// An editor of a pasted stretch begins with the text of that stretch and the cursor behind
/// it; nothing of the draft changes.
pub proof fn editors_begin_with_the_stretch(before: AppState, after: AppState, id: u64, k: int)
    requires
        edits_paste(before, after, id, true),
        0 <= k < before.composer.paste_blocks@.len(),
        before.composer.paste_blocks@[k].id == id,
        forall|j: int|
            0 <= j < k ==> (#[trigger] before.composer.paste_blocks@[j]).id != id,
    ensures
        after.dialog.overlay is PasteEditor,
        after.dialog.overlay_query@ == before.composer.draft().block_text(k),
        after.dialog.overlay_cursor == after.dialog.overlay_query@.len(),
        after.editor.editing_paste == Some(id),
        after.composer == before.composer,
{
    let draft = before.composer.draft();
    let j = choose|j: int| #[trigger]
        composer::names_block(draft, id, j) && after.dialog.overlay_query@ == draft.block_text(j);
    if j < k {
        assert(draft.blocks[j].id != id);
    } else if k < j {
        assert(draft.blocks[k].id != id);
    }
}

/// An image is looked at where it is attached, and otherwise nothing happens.
pub proof fn attached_images_are_looked_at(
    before: AppState,
    after: AppState,
    id: u64,
    found: bool,
    k: int,
)
    requires
        views_image(before, after, id, found),
        0 <= k < before.composer.image_attachments@.len(),
        before.composer.image_attachments@[k].id == id,
        forall|j: int|
            0 <= j < k ==> (#[trigger] before.composer.image_attachments@[j]).id != id,
    ensures
        found,
        after.dialog.overlay is ImageViewer,
        after.composer.viewed_image_id == Some(id),
        after.composer.image_attachments == before.composer.image_attachments,
{
    assert(composer_state::names_image(before.composer.image_attachments@, id, k));
}

} // verus!
