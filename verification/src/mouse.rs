//! What the pointer does.

use vstd::prelude::*;

use crate::agent_keys;
use crate::agent_layout;
use crate::agent_layout::AgentLayout;
use crate::boards::Boards;
use crate::choices;
use crate::dialog;
use crate::dialog::Dialog;
use crate::dialog_keys;
use crate::dialog_keys::DialogIntent;
use crate::dialogs;
use crate::dispatch;
use crate::dispatch::Effect;
use crate::geometry;
use crate::geometry::Rect;
use crate::hits;
use crate::overlay;
use crate::panes;
use crate::paste_editor;
use crate::paste_editor::PasteEditor;
use crate::screen;
use crate::scrolling;
use crate::scrolling::Scroll;
use crate::sessions;
use crate::slash;
use crate::slash::Suggestion;
use crate::state::AppState;
use crate::state::Pointer;
use crate::state_types;
use crate::state_types::Entry;
use crate::state_types::Focus;
use crate::state_types::OverlayAction;
use crate::state_types::OverlayKind;
use crate::state_types::ScrollDrag;
use crate::state_types::SectionTarget;
use crate::transcript::Transcript;
use crate::view_keys;
use crate::view_keys::ViewIntent;

verus! {

broadcast use vstd::string::group_string_axioms;

/// What the pointer did.
#[derive(Clone, Copy, Debug, PartialEq, Eq, Structural)]
pub enum MouseKind {
    ScrollUp,
    ScrollDown,
    Moved,
    Down { left: bool },
    DragLeft,
    UpLeft,
    Other,
}

/// What the pointer did, and where.
#[derive(Clone, Copy, Debug, PartialEq, Eq, Structural)]
pub struct MouseEvent {
    pub kind: MouseKind,
    pub column: u16,
    pub row: u16,
}

/// What is known of the screen when the pointer is handled.
#[derive(Clone, Debug)]
pub struct Screen {
    pub width: u16,
    pub height: u16,
    /// How far the transcript can be scrolled.
    pub max_scroll: usize,
    /// Where the parts of the agent screen stand.
    pub layout: AgentLayout,
    /// The block of the transcript under the pointer.
    pub hit: Option<SectionTarget>,
    /// The pointer is on the button that leaves a subagent.
    pub on_subagent_close: bool,
}

impl Screen {
    /// What is under a cell of a screen: the agent screen is laid out, and the block of the
    /// transcript looked up in it. `heights` are the rows that the blocks were drawn with.
    pub fn look(
        s: &AppState,
        heights: &Vec<u16>,
        width: u16,
        height: u16,
        max_scroll: usize,
        column: u16,
        row: u16,
        subagent_close: Option<Rect>,
    ) -> (r: Screen)
        ensures
            r.width == width,
            r.height == height,
            r.max_scroll == max_scroll,
            agent_layout::laid_out(overlay::frame_of(width, height), *s, r.layout),
            agent_layout::has_room(overlay::frame_of(width, height), *s) ==> r.layout
                == agent_layout::full_layout(overlay::frame_of(width, height), *s),
            hits::block_under(*s, heights@, r.layout.scrollback, column, row, r.hit),
            r.on_subagent_close == (subagent_close matches Some(close) && close.covers(
                column as int,
                row as int,
            )),
    {
        let frame: Rect = Rect::new(0, 0, width, height);
        assert(frame == overlay::frame_of(width, height));
        let layout: AgentLayout = AgentLayout::compute(frame, s);
        Screen {
            width,
            height,
            max_scroll,
            layout,
            hit: hits::section_hit_in(s, heights, layout.scrollback, column, row),
            on_subagent_close: match subagent_close {
                Some(close) => close.contains(column, row),
                None => false,
            },
        }
    }
}

/// The terminal is of a size that dialogs can be laid out in.
pub open spec fn drawable(screen: Screen) -> bool {
    screen.width + 2 <= u16::MAX && screen.height + 5 <= u16::MAX
}

/// The editor was scrolled, and nothing is hovered.
pub open spec fn editor_scrolled(before: AppState, after: AppState, delta: int) -> bool {
    &&& after == (AppState {
        dialog: Dialog { overlay_hovered: None, ..before.dialog },
        editor: PasteEditor {
            paste_editor_scroll: after.editor.paste_editor_scroll,
            paste_editor_follow_cursor: false,
            ..before.editor
        },
        ..before
    })
    &&& after.editor.paste_editor_scroll == dialog::stepped(
        before.editor.paste_editor_scroll as int,
        delta,
        usize::MAX + 1,
    )
}

/// What is under the pointer in a dialog is hovered.
pub open spec fn dialog_hovered(
    before: AppState,
    after: AppState,
    close: bool,
    item: Option<usize>,
    column: u16,
    row: u16,
) -> bool {
    after == (AppState {
        dialog: Dialog {
            overlay_close_hovered: close,
            overlay_hovered: item,
            ..before.dialog
        },
        editor: PasteEditor {
            paste_editor_action_hover: if before.dialog.overlay == OverlayKind::PasteEditor {
                state_types::hit(before.editor.paste_editor_actions@, column, row)
            } else {
                before.editor.paste_editor_action_hover
            },
            ..before.editor
        },
        pointer: Pointer {
            image_view_action_hover: if before.dialog.overlay == OverlayKind::ImageViewer {
                state_types::hit(before.pointer.image_view_actions@, column, row)
            } else {
                before.pointer.image_view_action_hover
            },
            ..before.pointer
        },
        ..before
    })
}

/// The place of the editor's text that the pointer is on.
pub open spec fn editor_clicked(before: AppState, after: AppState, offset: usize) -> bool {
    after == (AppState {
        dialog: Dialog { overlay_cursor: offset, ..before.dialog },
        editor: PasteEditor { paste_editor_follow_cursor: true, ..before.editor },
        ..before
    })
}

/// A button was pressed in a dialog, beside the one that closes it.
pub open spec fn dialog_pressed(
    before: AppState,
    after: AppState,
    mouse: MouseEvent,
    screen: Screen,
    effect: Effect,
) -> bool {
    let kind = before.dialog.overlay;
    let viewed = state_types::hit(before.pointer.image_view_actions@, mouse.column, mouse.row);
    let edited = state_types::hit(before.editor.paste_editor_actions@, mouse.column, mouse.row);
    let place = paste_editor::clicked(
        before.editor.paste_editor_targets@,
        mouse.column,
        mouse.row,
    );
    if kind == OverlayKind::ImageViewer && viewed is Some {
        &&& effect == Effect::Nothing
        &&& if viewed == Some(0u64) {
            dialogs::drops_image(before, after)
        } else {
            dialogs::closes(before, after)
        }
    } else if kind == OverlayKind::PasteEditor && edited is Some {
        if edited == Some(0u64) {
            dialog_keys::dialog_done(before, after, DialogIntent::Confirm, 0, effect)
        } else {
            dialog_keys::dialog_done(before, after, DialogIntent::Cancel, 0, effect)
        }
    } else if kind == OverlayKind::PasteEditor && place is Some {
        effect == Effect::Nothing && editor_clicked(before, after, place->0)
    } else {
        exists|item: Option<usize>| #[trigger]
            overlay::hits_item(
                before,
                screen.width,
                screen.height,
                mouse.column,
                mouse.row,
                item,
            ) && match item {
                Some(index) => dialog_keys::dialog_done(
                    AppState {
                        dialog: Dialog { overlay_selected: index, ..before.dialog },
                        ..before
                    },
                    after,
                    DialogIntent::Confirm,
                    0,
                    effect,
                ),
                None => after == before && effect == Effect::Nothing,
            }
    }
}

/// What the pointer does while a dialog is open.
pub open spec fn dialog_mouse(
    before: AppState,
    after: AppState,
    mouse: MouseEvent,
    screen: Screen,
    effect: Effect,
) -> bool {
    let editor = before.dialog.overlay == OverlayKind::PasteEditor;
    match mouse.kind {
        MouseKind::ScrollUp => effect == Effect::Nothing && if editor {
            editor_scrolled(before, after, -3)
        } else {
            choices::selection_moved(before, after, -3)
        },
        MouseKind::ScrollDown => effect == Effect::Nothing && if editor {
            editor_scrolled(before, after, 3)
        } else {
            choices::selection_moved(before, after, 3)
        },
        MouseKind::Moved => effect == Effect::Nothing && exists|close: bool, item: Option<usize>|
            #[trigger]
            overlay::closes_at(
                before,
                screen.width,
                screen.height,
                mouse.column,
                mouse.row,
                close,
            ) && #[trigger] overlay::hits_item(
                before,
                screen.width,
                screen.height,
                mouse.column,
                mouse.row,
                item,
            ) && dialog_hovered(before, after, close, item, mouse.column, mouse.row),
        MouseKind::Down { .. } => exists|close: bool| #[trigger]
            overlay::closes_at(
                before,
                screen.width,
                screen.height,
                mouse.column,
                mouse.row,
                close,
            ) && if close {
                dialog_keys::dialog_done(before, after, DialogIntent::Cancel, 0, effect)
            } else {
                dialog_pressed(before, after, mouse, screen, effect)
            },
        _ => after == before && effect == Effect::Nothing,
    }
}

impl AppState {
    fn press_item(&mut self, mouse: MouseEvent, screen: &Screen) -> (r: Effect)
        requires
            old(self).wf(),
            drawable(*screen),
            !(old(self).dialog.overlay == OverlayKind::ImageViewer && state_types::hit(
                old(self).pointer.image_view_actions@,
                mouse.column,
                mouse.row,
            ) is Some),
            !(old(self).dialog.overlay == OverlayKind::PasteEditor && (state_types::hit(
                old(self).editor.paste_editor_actions@,
                mouse.column,
                mouse.row,
            ) is Some || paste_editor::clicked(
                old(self).editor.paste_editor_targets@,
                mouse.column,
                mouse.row,
            ) is Some)),
        ensures
            dialog_pressed(*old(self), *final(self), mouse, *screen, r),
            final(self).wf(),
    {
        let item: Option<usize> = overlay::item_at_position(
            self,
            screen.width,
            screen.height,
            mouse.column,
            mouse.row,
        );
        assert(overlay::hits_item(
            *old(self),
            screen.width,
            screen.height,
            mouse.column,
            mouse.row,
            item,
        ));
        match item {
            Some(index) => {
                self.dialog.overlay_selected = index;
                self.perform_in_dialog(DialogIntent::Confirm, 0)
            },
            None => Effect::Nothing,
        }
    }

    fn press_in_dialog(&mut self, mouse: MouseEvent, screen: &Screen) -> (r: Effect)
        requires
            old(self).wf(),
            drawable(*screen),
        ensures
            dialog_pressed(*old(self), *final(self), mouse, *screen, r),
            final(self).wf(),
    {
        if self.dialog.overlay == OverlayKind::ImageViewer {
            if let Some(action) = self.image_view_action_at(mouse.column, mouse.row) {
                if action == 0 {
                    self.remove_viewed_image();
                } else {
                    self.close_overlay();
                }
                return Effect::Nothing;
            }
        }
        if self.dialog.overlay == OverlayKind::PasteEditor {
            if let Some(action) = self.paste_editor_action_at(mouse.column, mouse.row) {
                return if action == 0 {
                    self.perform_in_dialog(DialogIntent::Confirm, 0)
                } else {
                    self.perform_in_dialog(DialogIntent::Cancel, 0)
                };
            }
            if self.click_paste_editor(mouse.column, mouse.row) {
                return Effect::Nothing;
            }
        }
        self.press_item(mouse, screen)
    }

    fn hover_dialog(&mut self, mouse: MouseEvent, screen: &Screen)
        requires
            old(self).wf(),
            drawable(*screen),
            mouse.kind == MouseKind::Moved,
        ensures
            dialog_mouse(*old(self), *final(self), mouse, *screen, Effect::Nothing),
            final(self).wf(),
    {
        let close: bool = overlay::close_at_position(
            self,
            screen.width,
            screen.height,
            mouse.column,
            mouse.row,
        );
        let item: Option<usize> = overlay::item_at_position(
            self,
            screen.width,
            screen.height,
            mouse.column,
            mouse.row,
        );
        assert(overlay::closes_at(
            *old(self),
            screen.width,
            screen.height,
            mouse.column,
            mouse.row,
            close,
        ));
        assert(overlay::hits_item(
            *old(self),
            screen.width,
            screen.height,
            mouse.column,
            mouse.row,
            item,
        ));
        if self.dialog.overlay == OverlayKind::PasteEditor {
            self.editor.paste_editor_action_hover = self.paste_editor_action_at(
                mouse.column,
                mouse.row,
            );
        } else if self.dialog.overlay == OverlayKind::ImageViewer {
            self.pointer.image_view_action_hover = self.image_view_action_at(
                mouse.column,
                mouse.row,
            );
        }
        self.dialog.overlay_close_hovered = close;
        self.dialog.overlay_hovered = item;
    }

    fn wheel_dialog(&mut self, delta: isize)
        requires
            old(self).wf(),
        ensures
            if old(self).dialog.overlay == OverlayKind::PasteEditor {
                editor_scrolled(*old(self), *final(self), delta as int)
            } else {
                choices::selection_moved(*old(self), *final(self), delta as int)
            },
            final(self).wf(),
    {
        if self.dialog.overlay == OverlayKind::PasteEditor {
            self.scroll_paste_editor(delta);
            self.dialog.overlay_hovered = None;
        } else {
            self.move_overlay_selection(delta);
        }
    }

    /// Handles the pointer while a dialog is open.
    pub fn handle_dialog_mouse(&mut self, mouse: MouseEvent, screen: &Screen) -> (r: Effect)
        requires
            old(self).wf(),
            drawable(*screen),
        ensures
            dialog_mouse(*old(self), *final(self), mouse, *screen, r),
            final(self).wf(),
    {
        match mouse.kind {
            MouseKind::ScrollUp => {
                self.wheel_dialog(-3);
                Effect::Nothing
            },
            MouseKind::ScrollDown => {
                self.wheel_dialog(3);
                Effect::Nothing
            },
            MouseKind::Moved => {
                self.hover_dialog(mouse, screen);
                Effect::Nothing
            },
            MouseKind::Down { .. } => {
                let close: bool = overlay::close_at_position(
                    self,
                    screen.width,
                    screen.height,
                    mouse.column,
                    mouse.row,
                );
                assert(overlay::closes_at(
                    *old(self),
                    screen.width,
                    screen.height,
                    mouse.column,
                    mouse.row,
                    close,
                ));
                if close {
                    self.perform_in_dialog(DialogIntent::Cancel, 0)
                } else {
                    self.press_in_dialog(mouse, screen)
                }
            },
            _ => Effect::Nothing,
        }
    }
}

/// What the pointer is to do where no dialog is open.
#[derive(Clone, Copy, Debug, PartialEq, Eq, Structural)]
pub enum MouseIntent {
    GrabBar,
    DragBar,
    DragText,
    Release,
    SuggestUp,
    SuggestDown,
    SuggestHover,
    SuggestPress,
    View(ViewIntent),
    TaskHover,
    TaskPress,
    SessionHover,
    SessionPress,
    LeaveSubagent,
    ScrollUp,
    ScrollDown,
    Hover,
    Press,
    Ignore,
}

/// Suggestions are offered to the composer that has the focus.
pub open spec fn suggesting(s: AppState) -> bool {
    s.focus == Focus::Prompt && overlay::suggested(s).len() > 0
}

/// The pointer is on the scrollbar of the transcript.
pub open spec fn on_bar(s: AppState, mouse: MouseEvent) -> bool {
    s.view == screen::View::Transcript && (s.scroll.transcript_scrollbar_rect matches Some(bar)
        && bar.covers(mouse.column as int, mouse.row as int))
}

/// What the pointer is to do where no dialog is open: the scrollbar and the
/// transcript are dragged first, then come the suggestions, then the lists.
pub open spec fn mouse_intent(s: AppState, mouse: MouseEvent, close: bool) -> MouseIntent {
    match mouse.kind {
        MouseKind::DragLeft => if s.scroll.scrollbar_dragging {
            MouseIntent::DragBar
        } else if s.scroll.scroll_drag is Some {
            MouseIntent::DragText
        } else {
            MouseIntent::Ignore
        },
        MouseKind::UpLeft => MouseIntent::Release,
        MouseKind::Down { left } => if left && on_bar(s, mouse) {
            MouseIntent::GrabBar
        } else if suggesting(s) {
            MouseIntent::SuggestPress
        } else if s.view == screen::View::Tasks {
            MouseIntent::TaskPress
        } else if s.view == screen::View::Dashboard {
            MouseIntent::SessionPress
        } else if s.view == screen::View::Subagent {
            if close {
                MouseIntent::LeaveSubagent
            } else {
                MouseIntent::Ignore
            }
        } else {
            MouseIntent::Press
        },
        MouseKind::ScrollUp => if suggesting(s) {
            MouseIntent::SuggestUp
        } else if s.view == screen::View::Tasks {
            MouseIntent::View(ViewIntent::SelectTask { down: false })
        } else if s.view == screen::View::Dashboard {
            MouseIntent::View(ViewIntent::SelectSession { down: false })
        } else {
            MouseIntent::ScrollUp
        },
        MouseKind::ScrollDown => if suggesting(s) {
            MouseIntent::SuggestDown
        } else if s.view == screen::View::Tasks {
            MouseIntent::View(ViewIntent::SelectTask { down: true })
        } else if s.view == screen::View::Dashboard {
            MouseIntent::View(ViewIntent::SelectSession { down: true })
        } else {
            MouseIntent::ScrollDown
        },
        MouseKind::Moved => if suggesting(s) {
            MouseIntent::SuggestHover
        } else if s.view == screen::View::Tasks {
            MouseIntent::TaskHover
        } else if s.view == screen::View::Dashboard {
            MouseIntent::SessionHover
        } else if s.view == screen::View::Subagent {
            MouseIntent::Ignore
        } else {
            MouseIntent::Hover
        },
        MouseKind::Other => MouseIntent::Ignore,
    }
}

/// The scrollbar was dragged to a row.
pub open spec fn bar_dragged(before: Scroll, after: Scroll, row: u16, last: usize) -> bool {
    &&& after == (Scroll { scroll_from_bottom: after.scroll_from_bottom, ..before })
    &&& match before.transcript_scrollbar_rect {
        Some(bar) => after.scroll_from_bottom == scrolling::bar_position(
            bar,
            row as int,
            last as int,
        ),
        None => after.scroll_from_bottom == before.scroll_from_bottom,
    }
}

/// The transcript was dragged to a row.
pub open spec fn text_dragged(before: Scroll, after: Scroll, row: u16, last: usize) -> bool {
    &&& after == (Scroll { scroll_from_bottom: after.scroll_from_bottom, ..before })
    &&& match before.scroll_drag {
        Some(drag) => after.scroll_from_bottom == scrolling::between(
            drag.scroll + row - drag.row,
            last as int,
        ),
        None => after.scroll_from_bottom == before.scroll_from_bottom,
    }
}

/// A state in which no click on the transcript is pending.
pub open spec fn unclicked(s: AppState) -> AppState {
    AppState {
        transcript: Transcript { pending_transcript_click: None, ..s.transcript },
        ..s
    }
}

/// The task under the pointer.
pub open spec fn task_under(s: AppState, mouse: MouseEvent) -> Option<int> {
    match s.boards.task_list_rect {
        Some(area) => {
            let at = s.boards.task_list_offset + (mouse.row - area.y) / 2;
            if area.covers(mouse.column as int, mouse.row as int) && at
                < s.boards.subagent_tasks@.len() {
                Some(at)
            } else {
                None
            }
        },
        None => None,
    }
}

/// The session under the pointer.
pub open spec fn session_under(s: AppState, mouse: MouseEvent) -> Option<usize> {
    match s.sessions.dashboard_list_rect {
        Some(area) => if area.covers(mouse.column as int, mouse.row as int) {
            sessions::session_at_row(s.sessions, mouse.row - area.y, area.height as int)
        } else {
            None
        },
        None => None,
    }
}

/// A suggestion under the pointer was chosen: its command runs.
pub open spec fn suggestion_pressed(
    before: AppState,
    after: AppState,
    mouse: MouseEvent,
    screen: Screen,
    effect: Effect,
) -> bool {
    match overlay::suggestion_hit(
        before,
        screen.layout.prompt,
        mouse.column as int,
        mouse.row as int,
    ) {
        None => after == before && effect == Effect::Nothing,
        Some(index) => {
            let chosen = AppState {
                dialog: Dialog { overlay_selected: index as usize, ..before.dialog },
                ..before
            };
            if slash::resolved(chosen) is Some {
                exists|action: OverlayAction|
                    slash::runs_command(chosen, after, Some(action)) && effect
                        == #[trigger] dispatch::dispatched(action)
            } else {
                after == chosen && effect == Effect::Nothing
            }
        },
    }
}

/// What is under the pointer is hovered; `changed` says whether that was
/// something else before.
pub open spec fn hovers(
    before: AppState,
    after: AppState,
    mouse: MouseEvent,
    screen: Screen,
    changed: bool,
) -> bool {
    let p = before.pointer;
    let pointer = Pointer {
        header_hover: state_types::hit(p.header_targets@, mouse.column, mouse.row),
        composer_hover: state_types::hit(p.composer_targets@, mouse.column, mouse.row),
        paste_hover: state_types::hit(p.paste_targets@, mouse.column, mouse.row),
        image_hover: state_types::hit(p.image_targets@, mouse.column, mouse.row),
        ..p
    };
    let t = after.transcript;
    let moved = match screen.hit {
        Some(target) => before.transcript.hovered() != Some((target.index, target.id@)),
        None => before.transcript.hovered_entry is Some
            || before.transcript.hovered_target_id is Some,
    };
    &&& after == (AppState { pointer, transcript: t, ..before })
    &&& t == (Transcript {
        hovered_entry: t.hovered_entry,
        hovered_target_id: t.hovered_target_id,
        ..before.transcript
    })
    &&& match screen.hit {
        Some(target) => t.hovered() == Some((target.index, target.id@)),
        None => t.hovered_entry is None && t.hovered_target_id is None,
    }
    &&& changed == (moved || pointer.header_hover != p.header_hover || pointer.composer_hover
        != p.composer_hover || pointer.paste_hover != p.paste_hover || pointer.image_hover
        != p.image_hover)
}

/// The last plan of the transcript.
pub open spec fn last_plan(entries: Seq<Entry>, i: int) -> bool {
    &&& 0 <= i < entries.len()
    &&& entries[i] is Plan
    &&& forall|j: int| i < j < entries.len() ==> !((#[trigger] entries[j]) is Plan)
}

/// The plan gets the focus; without one nothing happens.
pub open spec fn plan_focused(before: AppState, after: AppState) -> bool {
    if exists|i: int| last_plan(before.transcript.entries@, i) {
        exists|i: int| #[trigger]
            last_plan(before.transcript.entries@, i) && after == (AppState {
                focus: Focus::Scrollback,
                transcript: Transcript { focused_entry: Some(i as usize), ..before.transcript },
                scroll: Scroll { scroll_from_bottom: 0, ..before.scroll },
                ..before
            })
    } else {
        after == before
    }
}

/// A part of the header was pressed.
pub open spec fn header_pressed(
    before: AppState,
    after: AppState,
    target: u64,
    effect: Effect,
) -> bool {
    if target == 0 {
        after == before && effect == Effect::CopyDirectory(before.header.cwd)
    } else if target == 1 {
        after == (AppState { view: screen::View::Tasks, ..before }) && effect == Effect::Nothing
    } else if target == 2 {
        plan_focused(before, after) && effect == Effect::Nothing
    } else if target == 3 {
        effect == Effect::Nothing && after == (AppState {
            transcript: Transcript {
                queue_visible: !before.transcript.queue_visible,
                ..before.transcript
            },
            ..before
        })
    } else {
        effect == Effect::Nothing && slash::notes(
            before,
            after,
            slash::context_lines(before.offers.context_files@),
        )
    }
}

/// A part of the line below the draft was pressed.
pub open spec fn composer_pressed(
    before: AppState,
    after: AppState,
    target: u64,
    effect: Effect,
) -> bool {
    if target == 2 {
        agent_keys::cycles_mode(before, after, effect)
    } else {
        &&& effect == Effect::Nothing
        &&& dialogs::opens(
            before,
            after,
            if target == 0 {
                OverlayKind::ModelPicker
            } else {
                OverlayKind::ThinkingPicker
            },
        )
    }
}

/// The transcript was pressed: it gets the focus and is dragged, and a block
/// under the pointer is activated when it is released there.
pub open spec fn transcript_pressed(
    before: AppState,
    after: AppState,
    mouse: MouseEvent,
    screen: Screen,
) -> bool {
    let drag = Some(ScrollDrag { row: mouse.row, scroll: before.scroll.scroll_from_bottom });
    match screen.hit {
        Some(target) => {
            let t = after.transcript;
            let entries = before.transcript.entries@;
            &&& after == (AppState {
                focus: Focus::Scrollback,
                transcript: t,
                scroll: Scroll { scroll_drag: drag, ..before.scroll },
                ..before
            })
            &&& t == (Transcript {
                focused_entry: Some(target.index),
                focused_target_id: t.focused_target_id,
                focused_tool: if target.index < entries.len() && entries[target.index as int] is Tool {
                    Some(target.index)
                } else {
                    None
                },
                pending_transcript_click: t.pending_transcript_click,
                ..before.transcript
            })
            &&& t.focused_target_id matches Some(id)
            &&& id@ == target.id@
            &&& t.pending_transcript_click matches Some(click)
            &&& click.matches_target(target)
        },
        None => {
            let inside = before.scroll.transcript_rect matches Some(area) && area.covers(
                mouse.column as int,
                mouse.row as int,
            );
            after == (AppState {
                focus: Focus::Scrollback,
                transcript: Transcript { pending_transcript_click: None, ..before.transcript },
                scroll: if inside {
                    Scroll { scroll_drag: drag, ..before.scroll }
                } else {
                    before.scroll
                },
                ..before
            })
        },
    }
}

/// The target of the line below the draft: what is hovered, or else what is
/// under the pointer.
pub open spec fn composer_target(s: AppState, mouse: MouseEvent) -> Option<u64> {
    match s.pointer.composer_hover {
        Some(target) => Some(target),
        None => state_types::hit(s.pointer.composer_targets@, mouse.column, mouse.row),
    }
}

/// What a press does in the agent screen: the header comes first, then the
/// attachments, the pasted blocks and the line below the draft, then the
/// draft and the transcript.
pub open spec fn presses(
    before: AppState,
    after: AppState,
    mouse: MouseEvent,
    screen: Screen,
    effect: Effect,
) -> bool {
    let p = before.pointer;
    let header = state_types::hit(p.header_targets@, mouse.column, mouse.row);
    let image = state_types::hit(p.image_targets@, mouse.column, mouse.row);
    let paste = state_types::hit(p.paste_targets@, mouse.column, mouse.row);
    let composer = composer_target(before, mouse);
    let prompt = screen.layout.prompt;
    if header is Some {
        header_pressed(before, after, header->0, effect)
    } else if image is Some {
        effect == Effect::Nothing && exists|found: bool| #[trigger]
            dialogs::views_image(before, after, image->0, found)
    } else if paste is Some {
        effect == Effect::Nothing && exists|found: bool| #[trigger]
            dialogs::edits_paste(before, after, paste->0, found)
    } else if composer is Some {
        composer_pressed(before, after, composer->0, effect)
    } else if prompt.covers(mouse.column as int, mouse.row as int) {
        effect == Effect::Nothing && panes::focuses(before, after, Focus::Prompt)
    } else {
        effect == Effect::Nothing && transcript_pressed(before, after, mouse, screen)
    }
}

/// What an intent of the pointer does, what is left to do, and whether the
/// screen has changed.
pub open spec fn mouse_done(
    before: AppState,
    after: AppState,
    intent: MouseIntent,
    mouse: MouseEvent,
    screen: Screen,
    effect: Effect,
    changed: bool,
) -> bool {
    let at = before.dialog.overlay_selected as int;
    let calm = unclicked(before);
    match intent {
        MouseIntent::Hover => effect == Effect::Nothing && hovers(
            before,
            after,
            mouse,
            screen,
            changed,
        ),
        _ => changed && match intent {
            MouseIntent::GrabBar => {
                &&& effect == Effect::Nothing
                &&& after == (AppState { focus: Focus::Scrollback, scroll: after.scroll, ..calm })
                &&& bar_dragged(
                    Scroll { scrollbar_dragging: true, scroll_drag: None, ..before.scroll },
                    after.scroll,
                    mouse.row,
                    screen.max_scroll,
                )
            },
            MouseIntent::DragBar => {
                &&& effect == Effect::Nothing
                &&& after == (AppState { scroll: after.scroll, ..calm })
                &&& bar_dragged(before.scroll, after.scroll, mouse.row, screen.max_scroll)
            },
            MouseIntent::DragText => {
                &&& effect == Effect::Nothing
                &&& after == (AppState { scroll: after.scroll, ..calm })
                &&& text_dragged(before.scroll, after.scroll, mouse.row, screen.max_scroll)
            },
            MouseIntent::Release => effect == Effect::Nothing && panes::click_finished(
                before,
                after,
                screen.hit,
            ),
            MouseIntent::SuggestUp => effect == Effect::Nothing && dialog_keys::selected(
                before,
                after,
                geometry::less(at, 1),
            ),
            MouseIntent::SuggestDown => effect == Effect::Nothing && dialog_keys::selected(
                before,
                after,
                geometry::min(at + 1, geometry::less(overlay::suggested(before).len() as int, 1)),
            ),
            MouseIntent::SuggestHover => {
                &&& effect == Effect::Nothing
                &&& after == (AppState {
                    dialog: Dialog {
                        overlay_hovered: after.dialog.overlay_hovered,
                        ..before.dialog
                    },
                    ..before
                })
                &&& overlay::place_is(
                    after.dialog.overlay_hovered,
                    overlay::suggestion_hit(
                        before,
                        screen.layout.prompt,
                        mouse.column as int,
                        mouse.row as int,
                    ),
                )
            },
            MouseIntent::SuggestPress => suggestion_pressed(before, after, mouse, screen, effect),
            MouseIntent::View(inner) => view_keys::view_done(before, after, inner, 1, effect),
            MouseIntent::TaskHover => effect == Effect::Nothing && match task_under(before, mouse) {
                Some(i) => view_keys::task_selected(before, after, i),
                None => after == before,
            },
            MouseIntent::TaskPress => effect == Effect::Nothing && match task_under(before, mouse) {
                Some(i) => panes::subagent_opened(
                    AppState {
                        boards: Boards { task_selected: i as usize, ..before.boards },
                        ..before
                    },
                    after,
                ),
                None => after == before,
            },
            MouseIntent::SessionHover => effect == Effect::Nothing && match session_under(
                before,
                mouse,
            ) {
                Some(i) => view_keys::session_selected(before, after, i as int),
                None => after == before,
            },
            MouseIntent::SessionPress => match session_under(before, mouse) {
                Some(i) => view_keys::session_opened(
                    AppState {
                        sessions: sessions::SessionList {
                            dashboard_selected: i,
                            ..before.sessions
                        },
                        ..before
                    },
                    after,
                    effect,
                ),
                None => after == before && effect == Effect::Nothing,
            },
            MouseIntent::LeaveSubagent => effect == Effect::Nothing && after == (AppState {
                view: screen::View::Tasks,
                scroll: Scroll { scroll_from_bottom: 0, ..before.scroll },
                ..before
            }),
            MouseIntent::ScrollUp => effect == Effect::Nothing && view_keys::scrolled(
                before,
                after,
                geometry::min(before.scroll.scroll_from_bottom + 1, screen.max_scroll as int),
            ),
            MouseIntent::ScrollDown => effect == Effect::Nothing && view_keys::scrolled(
                before,
                after,
                geometry::less(before.scroll.scroll_from_bottom as int, 1),
            ),
            MouseIntent::Press => presses(before, after, mouse, screen, effect),
            _ => after == before && effect == Effect::Nothing,
        },
    }
}

impl AppState {
    fn offers_suggestions(&self) -> (r: bool)
        requires
            self.wf(),
        ensures
            r == suggesting(*self),
    {
        if self.focus != Focus::Prompt {
            return false;
        }
        let list: Vec<Suggestion> = self.slash_suggestions();
        assert(slash::offers_of(list@).len() == list@.len());
        list.len() > 0
    }

    /// What the pointer is to do where no dialog is open.
    pub fn read_mouse(&self, mouse: MouseEvent, close: bool) -> (r: MouseIntent)
        requires
            self.wf(),
        ensures
            r == mouse_intent(*self, mouse, close),
    {
        let offered: bool = self.offers_suggestions();
        match mouse.kind {
            MouseKind::DragLeft => if self.scroll.scrollbar_dragging {
                MouseIntent::DragBar
            } else if self.scroll.scroll_drag.is_some() {
                MouseIntent::DragText
            } else {
                MouseIntent::Ignore
            },
            MouseKind::UpLeft => MouseIntent::Release,
            MouseKind::Down { left } => if left && self.view == screen::View::Transcript
                && self.scroll.transcript_scrollbar_contains(mouse.column, mouse.row) {
                MouseIntent::GrabBar
            } else if offered {
                MouseIntent::SuggestPress
            } else if self.view == screen::View::Tasks {
                MouseIntent::TaskPress
            } else if self.view == screen::View::Dashboard {
                MouseIntent::SessionPress
            } else if self.view == screen::View::Subagent {
                if close {
                    MouseIntent::LeaveSubagent
                } else {
                    MouseIntent::Ignore
                }
            } else {
                MouseIntent::Press
            },
            MouseKind::ScrollUp => if offered {
                MouseIntent::SuggestUp
            } else if self.view == screen::View::Tasks {
                MouseIntent::View(ViewIntent::SelectTask { down: false })
            } else if self.view == screen::View::Dashboard {
                MouseIntent::View(ViewIntent::SelectSession { down: false })
            } else {
                MouseIntent::ScrollUp
            },
            MouseKind::ScrollDown => if offered {
                MouseIntent::SuggestDown
            } else if self.view == screen::View::Tasks {
                MouseIntent::View(ViewIntent::SelectTask { down: true })
            } else if self.view == screen::View::Dashboard {
                MouseIntent::View(ViewIntent::SelectSession { down: true })
            } else {
                MouseIntent::ScrollDown
            },
            MouseKind::Moved => if offered {
                MouseIntent::SuggestHover
            } else if self.view == screen::View::Tasks {
                MouseIntent::TaskHover
            } else if self.view == screen::View::Dashboard {
                MouseIntent::SessionHover
            } else if self.view == screen::View::Subagent {
                MouseIntent::Ignore
            } else {
                MouseIntent::Hover
            },
            MouseKind::Other => MouseIntent::Ignore,
        }
    }

    fn drag(&mut self, intent: MouseIntent, mouse: MouseEvent, screen: &Screen)
        requires
            old(self).wf(),
            intent == MouseIntent::GrabBar || intent == MouseIntent::DragBar || intent
                == MouseIntent::DragText,
        ensures
            mouse_done(
                *old(self),
                *final(self),
                intent,
                mouse,
                *screen,
                Effect::Nothing,
                true,
            ),
            final(self).wf(),
    {
        self.transcript.pending_transcript_click = None;
        match intent {
            MouseIntent::GrabBar => {
                self.focus_scrollback();
                self.scroll.scrollbar_dragging = true;
                self.scroll.scroll_drag = None;
                self.scroll.drag_scrollbar_to(mouse.row, screen.max_scroll);
            },
            MouseIntent::DragBar => self.scroll.drag_scrollbar_to(mouse.row, screen.max_scroll),
            _ => self.scroll.drag_scrollback_to(mouse.row, screen.max_scroll),
        }
    }

    fn press_suggestion(&mut self, mouse: MouseEvent, screen: &Screen) -> (r: Effect)
        requires
            old(self).wf(),
        ensures
            suggestion_pressed(*old(self), *final(self), mouse, *screen, r),
            final(self).wf(),
    {
        match overlay::slash_item_above(
            self,
            screen.layout.prompt,
            mouse.column,
            mouse.row,
        ) {
            None => Effect::Nothing,
            Some(index) => {
                self.dialog.overlay_selected = index;
                let ghost chosen = *self;
                match self.activate_slash_command() {
                    Some(action) => {
                        let ghost told = action;
                        let effect: Effect = dispatch::dispatch_overlay_action(action);
                        assert(slash::runs_command(chosen, *self, Some(told)));
                        assert(effect == dispatch::dispatched(told));
                        effect
                    },
                    None => Effect::Nothing,
                }
            },
        }
    }

    fn suggest(&mut self, intent: MouseIntent, mouse: MouseEvent, screen: &Screen)
        requires
            old(self).wf(),
            intent == MouseIntent::SuggestUp || intent == MouseIntent::SuggestDown || intent
                == MouseIntent::SuggestHover,
        ensures
            mouse_done(
                *old(self),
                *final(self),
                intent,
                mouse,
                *screen,
                Effect::Nothing,
                true,
            ),
            final(self).wf(),
    {
        match intent {
            MouseIntent::SuggestUp => {
                self.dialog.overlay_hovered = None;
                self.dialog.overlay_selected = self.dialog.overlay_selected.saturating_sub(1);
            },
            MouseIntent::SuggestDown => {
                let list: Vec<Suggestion> = self.slash_suggestions();
                assert(slash::offers_of(list@).len() == list@.len());
                self.dialog.overlay_hovered = None;
                self.dialog.overlay_selected = geometry::smaller(
                    self.dialog.overlay_selected.saturating_add(1),
                    list.len().saturating_sub(1),
                );
            },
            _ => {
                self.dialog.overlay_hovered = overlay::slash_item_above(
                    self,
                    screen.layout.prompt,
                    mouse.column,
                    mouse.row,
                );
            },
        }
    }

    fn find_task(&self, mouse: MouseEvent) -> (r: Option<usize>)
        ensures
            overlay::place_is(r, task_under(*self, mouse)),
    {
        match &self.boards.task_list_rect {
            Some(area) => {
                if !area.contains(mouse.column, mouse.row) {
                    return None;
                }
                let down: usize = ((mouse.row - area.y) / 2) as usize;
                let first: usize = self.boards.task_list_offset;
                let count: usize = self.boards.subagent_tasks.len();
                if first < count && down < count - first {
                    Some(first + down)
                } else {
                    None
                }
            },
            None => None,
        }
    }

    fn find_session(&self, mouse: MouseEvent) -> (r: Option<usize>)
        ensures
            r == session_under(*self, mouse),
    {
        match &self.sessions.dashboard_list_rect {
            Some(area) => {
                if !area.contains(mouse.column, mouse.row) {
                    return None;
                }
                self.sessions.dashboard_session_at_row(
                    (mouse.row - area.y) as usize,
                    area.height as usize,
                )
            },
            None => None,
        }
    }

    fn use_lists(&mut self, intent: MouseIntent, mouse: MouseEvent, screen: &Screen) -> (r: Effect)
        requires
            old(self).wf(),
            intent == MouseIntent::TaskHover || intent == MouseIntent::TaskPress || intent
                == MouseIntent::SessionHover || intent == MouseIntent::SessionPress,
        ensures
            mouse_done(*old(self), *final(self), intent, mouse, *screen, r, true),
            final(self).wf(),
    {
        match intent {
            MouseIntent::TaskHover => {
                if let Some(i) = self.find_task(mouse) {
                    self.boards.task_selected = i;
                }
                Effect::Nothing
            },
            MouseIntent::TaskPress => {
                if let Some(i) = self.find_task(mouse) {
                    self.boards.task_selected = i;
                    self.open_selected_subagent();
                }
                Effect::Nothing
            },
            MouseIntent::SessionHover => {
                if let Some(i) = self.find_session(mouse) {
                    self.sessions.dashboard_selected = i;
                }
                Effect::Nothing
            },
            _ => {
                if let Some(i) = self.find_session(mouse) {
                    self.sessions.dashboard_selected = i;
                    return self.open_dashboard_session();
                }
                Effect::Nothing
            },
        }
    }

    fn hover(&mut self, mouse: MouseEvent, screen: &Screen) -> (r: bool)
        requires
            old(self).wf(),
        ensures
            hovers(*old(self), *final(self), mouse, *screen, r),
            final(self).wf(),
    {
        let header: Option<u64> = self.header_target_at(mouse.column, mouse.row);
        let composer: Option<u64> = state_types::target_at(
            &self.pointer.composer_targets,
            mouse.column,
            mouse.row,
        );
        let paste: Option<u64> = state_types::target_at(
            &self.pointer.paste_targets,
            mouse.column,
            mouse.row,
        );
        let image: Option<u64> = state_types::target_at(
            &self.pointer.image_targets,
            mouse.column,
            mouse.row,
        );
        let changed: bool = self.pointer.header_hover != header || self.pointer.composer_hover
            != composer || self.pointer.paste_hover != paste || self.pointer.image_hover != image;
        self.pointer.header_hover = header;
        self.pointer.composer_hover = composer;
        self.pointer.paste_hover = paste;
        self.pointer.image_hover = image;
        let target: Option<SectionTarget> = match &screen.hit {
            Some(hit) => Some(hit.copy()),
            None => None,
        };
        let moved: bool = self.transcript.set_hovered_transcript_target(target);
        changed || moved
    }

    fn focus_plan(&mut self)
        requires
            old(self).wf(),
        ensures
            plan_focused(*old(self), *final(self)),
            final(self).wf(),
    {
        let mut i: usize = self.transcript.entries.len();
        while i > 0
            invariant
                *self == *old(self),
                old(self).wf(),
                i <= self.transcript.entries@.len(),
                forall|j: int|
                    i <= j < self.transcript.entries@.len() ==> !((
                    #[trigger] self.transcript.entries@[j]) is Plan),
            decreases i,
        {
            i -= 1;
            if self.transcript.entries[i].is_plan() {
                assert(last_plan(old(self).transcript.entries@, i as int));
                self.focus_scrollback();
                self.transcript.focused_entry = Some(i);
                self.scroll.scroll_from_bottom = 0;
                return ;
            }
        }
        assert(forall|j: int| !last_plan(self.transcript.entries@, j));
    }

    fn press_header(&mut self, target: u64) -> (r: Effect)
        requires
            old(self).wf(),
        ensures
            header_pressed(*old(self), *final(self), target, r),
            final(self).wf(),
    {
        if target == 0 {
            return Effect::CopyDirectory(self.header.cwd.clone());
        }
        if target == 1 {
            self.view = screen::View::Tasks;
        } else if target == 2 {
            self.focus_plan();
        } else if target == 3 {
            self.transcript.queue_visible = !self.transcript.queue_visible;
        } else {
            self.show_context_info();
        }
        Effect::Nothing
    }

    fn press_composer(&mut self, target: u64) -> (r: Effect)
        requires
            old(self).wf(),
        ensures
            composer_pressed(*old(self), *final(self), target, r),
            final(self).wf(),
    {
        if target == 2 {
            self.next_permission_mode()
        } else {
            self.open_overlay(
                if target == 0 {
                    OverlayKind::ModelPicker
                } else {
                    OverlayKind::ThinkingPicker
                },
            );
            Effect::Nothing
        }
    }

    fn press_transcript(&mut self, mouse: MouseEvent, screen: &Screen)
        requires
            old(self).wf(),
        ensures
            transcript_pressed(*old(self), *final(self), mouse, *screen),
            final(self).wf(),
    {
        self.focus_scrollback();
        match &screen.hit {
            Some(target) => {
                self.transcript.focused_entry = Some(target.index);
                self.transcript.focused_target_id = Some(target.id.clone());
                self.transcript.focused_tool = if target.index < self.transcript.entries.len()
                    && self.transcript.entries[target.index].is_tool() {
                    Some(target.index)
                } else {
                    None
                };
                self.transcript.pending_transcript_click = Some(target.copy());
                self.scroll.begin_scrollback_drag(mouse.row);
            },
            None => {
                self.transcript.pending_transcript_click = None;
                if self.scroll.transcript_contains(mouse.column, mouse.row) {
                    self.scroll.begin_scrollback_drag(mouse.row);
                }
            },
        }
    }

    fn press(&mut self, mouse: MouseEvent, screen: &Screen) -> (r: Effect)
        requires
            old(self).wf(),
        ensures
            presses(*old(self), *final(self), mouse, *screen, r),
            final(self).wf(),
    {
        if let Some(target) = self.header_target_at(mouse.column, mouse.row) {
            return self.press_header(target);
        }
        if let Some(id) = state_types::target_at(
            &self.pointer.image_targets,
            mouse.column,
            mouse.row,
        ) {
            let found: bool = self.begin_image_view(id);
            assert(dialogs::views_image(*old(self), *self, id, found));
            return Effect::Nothing;
        }
        if let Some(id) = state_types::target_at(
            &self.pointer.paste_targets,
            mouse.column,
            mouse.row,
        ) {
            let found: bool = self.begin_paste_edit(id);
            assert(dialogs::edits_paste(*old(self), *self, id, found));
            return Effect::Nothing;
        }
        let composer: Option<u64> = match self.pointer.composer_hover {
            Some(target) => Some(target),
            None => state_types::target_at(
                &self.pointer.composer_targets,
                mouse.column,
                mouse.row,
            ),
        };
        if let Some(target) = composer {
            return self.press_composer(target);
        }
        if screen.layout.prompt.contains(mouse.column, mouse.row) {
            self.focus_prompt();
        } else {
            self.press_transcript(mouse, screen);
        }
        Effect::Nothing
    }

    /// Does what the pointer is to do where no dialog is open. What is left to
    /// do, and whether the screen has changed.
    pub fn perform_mouse(&mut self, intent: MouseIntent, mouse: MouseEvent, screen: &Screen) -> (r:
        (Effect, bool))
        requires
            old(self).wf(),
        ensures
            mouse_done(*old(self), *final(self), intent, mouse, *screen, r.0, r.1),
            final(self).wf(),
    {
        match intent {
            MouseIntent::Hover => {
                let changed: bool = self.hover(mouse, screen);
                return (Effect::Nothing, changed);
            },
            MouseIntent::GrabBar => self.drag(intent, mouse, screen),
            MouseIntent::DragBar => self.drag(intent, mouse, screen),
            MouseIntent::DragText => self.drag(intent, mouse, screen),
            MouseIntent::Release => {
                let target: Option<SectionTarget> = match &screen.hit {
                    Some(hit) => Some(hit.copy()),
                    None => None,
                };
                self.finish_transcript_click(target);
            },
            MouseIntent::SuggestUp => self.suggest(intent, mouse, screen),
            MouseIntent::SuggestDown => self.suggest(intent, mouse, screen),
            MouseIntent::SuggestHover => self.suggest(intent, mouse, screen),
            MouseIntent::SuggestPress => {
                return (self.press_suggestion(mouse, screen), true);
            },
            MouseIntent::View(inner) => {
                return (self.perform_in_view(inner, 1), true);
            },
            MouseIntent::TaskHover => {
                return (self.use_lists(intent, mouse, screen), true);
            },
            MouseIntent::TaskPress => {
                return (self.use_lists(intent, mouse, screen), true);
            },
            MouseIntent::SessionHover => {
                return (self.use_lists(intent, mouse, screen), true);
            },
            MouseIntent::SessionPress => {
                return (self.use_lists(intent, mouse, screen), true);
            },
            MouseIntent::LeaveSubagent => {
                self.view = screen::View::Tasks;
                self.scroll.scroll_from_bottom = 0;
            },
            MouseIntent::ScrollUp => self.scroll.scroll_up(1, screen.max_scroll),
            MouseIntent::ScrollDown => self.scroll.scroll_down(1),
            MouseIntent::Press => {
                return (self.press(mouse, screen), true);
            },
            MouseIntent::Ignore => {},
        }
        (Effect::Nothing, true)
    }
}

/// What the pointer does, what is left to do, and whether the screen has
/// changed.
pub open spec fn mouse_handled(
    before: AppState,
    after: AppState,
    mouse: MouseEvent,
    screen: Screen,
    effect: Effect,
    changed: bool,
) -> bool {
    if before.dialog.overlay != OverlayKind::Closed {
        changed && dialog_mouse(before, after, mouse, screen, effect)
    } else {
        mouse_done(
            before,
            after,
            mouse_intent(before, mouse, screen.on_subagent_close),
            mouse,
            screen,
            effect,
            changed,
        )
    }
}

impl AppState {
    /// Handles the pointer. What is left to do, and whether the screen has
    /// changed.
    pub fn handle_mouse(&mut self, mouse: MouseEvent, screen: &Screen) -> (r: (Effect, bool))
        requires
            old(self).wf(),
            drawable(*screen),
        ensures
            mouse_handled(*old(self), *final(self), mouse, *screen, r.0, r.1),
            final(self).wf(),
    {
        if self.dialog.overlay != OverlayKind::Closed {
            return (self.handle_dialog_mouse(mouse, screen), true);
        }
        let intent: MouseIntent = self.read_mouse(mouse, screen.on_subagent_close);
        self.perform_mouse(intent, mouse, screen)
    }
}

} // verus!
