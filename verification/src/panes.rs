//! What the panes and the dialogs over them do beside choosing a row.

use vstd::prelude::*;

use crate::boards::Boards;
use crate::composer;
use crate::composer_state;
use crate::composer_state::Composer;
use crate::dialog;
use crate::dialog::Dialog;
use crate::dialogs;
use crate::harness::RuntimeSettings;
use crate::harness::SessionInfo;
use crate::offers::Offers;
use crate::overlay;
use crate::paste_editor::PasteEditor;
use crate::pickers;
use crate::screen;
use crate::scrolling::Scroll;
use crate::sessions::SessionList;
use crate::slash;
use crate::slash::Suggestion;
use crate::state::AppState;
use crate::state_types::Entry;
use crate::state_types::Focus;
use crate::state_types::ImageAttachment;
use crate::state_types::OverlayAction;
use crate::state_types::OverlayKind;
use crate::state_types::SectionTarget;
use crate::text;
use crate::transcript;
use crate::transcript::Transcript;
use crate::tree;
use crate::tree::SessionTree;
use crate::tree::TreeTopology;

verus! {

broadcast use vstd::string::group_string_axioms;

/// The open dialog was left: a login that waits for a reply gets none.
pub open spec fn cancels(before: AppState, after: AppState, action: OverlayAction) -> bool {
    let asks = before.dialog.overlay == OverlayKind::OauthPrompt || before.dialog.overlay
        == OverlayKind::OauthSelect;
    if asks && before.pending_oauth is Some {
        &&& dialogs::closes(AppState { pending_oauth: None, ..before }, after)
        &&& action matches OverlayAction::OauthReply { id, value }
        &&& id@ == before.pending_oauth->0.id@
        &&& value is None
    } else {
        dialogs::closes(before, after) && action == OverlayAction::Nothing
    }
}

/// The list of sessions was changed, and its first row is selected.
pub open spec fn relists(before: AppState, after: AppState, list: SessionList) -> bool {
    after == (AppState {
        sessions: list,
        dialog: Dialog { overlay_selected: 0, ..before.dialog },
        ..before
    })
}

/// A dialog on a session was opened: it is remembered which one.
pub open spec fn asks_about(before: AppState, after: AppState, path: Seq<char>) -> bool {
    &&& after == (AppState {
        dialog: after.dialog,
        sessions: SessionList {
            pending_session_path: after.sessions.pending_session_path,
            ..before.sessions
        },
        ..before
    })
    &&& after.sessions.pending_session_path matches Some(pending)
    &&& pending@ == path
}

/// The session in use is not deleted.
pub open spec fn keeps_active(before: AppState, after: AppState) -> bool {
    dialogs::says(before, after, "cannot delete the active session"@)
}

/// A session is to be deleted.
pub open spec fn asks_delete(
    before: AppState,
    after: AppState,
    session: SessionInfo,
    parent: Option<(OverlayKind, usize)>,
) -> bool {
    if session.current {
        keeps_active(before, after)
    } else {
        &&& asks_about(before, after, session.path@)
        &&& dialog::opened(after.dialog, OverlayKind::SessionDeleteConfirm, 0, parent)
    }
}

/// A session is to be renamed.
pub open spec fn asks_name(
    before: AppState,
    after: AppState,
    session: SessionInfo,
    parent: Option<(OverlayKind, usize)>,
) -> bool {
    &&& asks_about(before, after, session.path@)
    &&& dialog::opened(after.dialog, OverlayKind::SessionRename, 0, parent)
}

/// What is open now, to come back to.
pub open spec fn here(s: AppState) -> Option<(OverlayKind, usize)> {
    Some((s.dialog.overlay, s.dialog.overlay_selected))
}

/// The session picker's selected session is to be deleted or renamed; without
/// one nothing happens.
pub open spec fn picker_asks(before: AppState, after: AppState, delete: bool) -> bool {
    exists|place: Option<usize>| #[trigger]
        pickers::selects(before, place) && match place {
            None => after == before,
            Some(at) => {
                let session = before.sessions.available_sessions@[at as int];
                if before.dialog.overlay != OverlayKind::SessionPicker {
                    after == before
                } else if delete {
                    asks_delete(before, after, session, here(before))
                } else {
                    asks_name(before, after, session, here(before))
                }
            },
        }
}

/// The dashboard's selected session is to be deleted or renamed; without one
/// nothing happens.
pub open spec fn dashboard_asks(before: AppState, after: AppState, delete: bool) -> bool {
    let at = before.sessions.dashboard_selected as int;
    let list = before.sessions.available_sessions@;
    if at >= list.len() {
        after == before
    } else if delete {
        asks_delete(before, after, list[at], None)
    } else {
        asks_name(before, after, list[at], None)
    }
}

/// The tree's selected entry is to be labelled; without one nothing happens.
pub open spec fn asks_label(before: AppState, after: AppState) -> bool {
    exists|place: Option<usize>| #[trigger]
        pickers::selects(before, place) && match place {
            None => after == before,
            Some(at) => {
                &&& after == (AppState {
                    dialog: after.dialog,
                    tree: SessionTree { tree_target: after.tree.tree_target, ..before.tree },
                    ..before
                })
                &&& after.tree.tree_target matches Some(id)
                &&& id@ == before.tree.session_tree@[at as int].id@
                &&& dialog::opened(after.dialog, OverlayKind::LabelEditor, 0, here(before))
            },
        }
}

/// The rows that hang on each other among some rows of the tree.
pub open spec fn shaped(
    all: Seq<crate::harness::SessionTreeEntry>,
    places: Seq<usize>,
    parents: Seq<Option<usize>>,
) -> bool {
    &&& parents.len() == places.len()
    &&& forall|v: int|
        0 <= v < places.len() ==> tree::hangs_on(all, places, v, #[trigger] parents[v])
}

/// The selected row of the tree after a step to the left or to the right.
pub open spec fn row_after(parents: Seq<Option<usize>>, v: int, right: bool) -> int {
    if right {
        if v + 1 < parents.len() && parents[v + 1] == Some(v as usize) {
            v + 1
        } else {
            v
        }
    } else {
        match parents[v] {
            Some(p) => p as int,
            None => v,
        }
    }
}

/// The selected row was folded or unfolded, or, where that is not possible,
/// the selection has moved: to the left to the row it hangs on, to the right
/// to the first row that hangs on it.
pub open spec fn folds_or_moves(
    before: AppState,
    after: AppState,
    right: bool,
    places: Seq<usize>,
    parents: Seq<Option<usize>>,
) -> bool {
    let v = before.dialog.overlay_selected as int;
    let id = before.tree.session_tree@[places[v] as int].id@;
    let folded = before.tree.tree_folded@;
    if right && folded.contains(id) {
        &&& after == (AppState {
            tree: SessionTree { tree_folded: after.tree.tree_folded, ..before.tree },
            ..before
        })
        &&& after.tree.tree_folded@ == folded.remove(id)
    } else if !right && tree::foldable(parents, v) && !folded.contains(id) {
        &&& after == (AppState {
            tree: SessionTree { tree_folded: after.tree.tree_folded, ..before.tree },
            ..before
        })
        &&& after.tree.tree_folded@ == folded.insert(id)
    } else {
        after == (AppState {
            dialog: Dialog {
                overlay_selected: row_after(parents, v, right) as usize,
                ..before.dialog
            },
            ..before
        })
    }
}

/// What a step to the left or to the right does in the tree.
pub open spec fn tree_stepped(before: AppState, after: AppState, right: bool) -> bool {
    let places = tree::all_listed(before.tree, before.dialog.overlay_query@);
    if before.dialog.overlay_selected >= places.len() {
        after == before
    } else {
        exists|parents: Seq<Option<usize>>| #[trigger]
            shaped(before.tree.session_tree@, places, parents) && folds_or_moves(
                before,
                after,
                right,
                places,
                parents,
            )
    }
}

impl AppState {
    /// Leaves the open dialog.
    pub fn cancel_oauth(&mut self) -> (r: OverlayAction)
        ensures
            cancels(*old(self), *final(self), r),
            old(self).wf() ==> final(self).wf(),
    {
        let asks: bool = self.dialog.overlay == OverlayKind::OauthPrompt || self.dialog.overlay
            == OverlayKind::OauthSelect;
        let mut action: OverlayAction = OverlayAction::Nothing;
        if asks {
            if let Some(request) = &self.pending_oauth {
                action = OverlayAction::OauthReply { id: request.id.clone(), value: None };
            }
            self.pending_oauth = None;
        }
        self.close_overlay();
        action
    }

    /// Lists the sessions in another order.
    pub fn cycle_session_sort(&mut self)
        ensures
            relists(
                *old(self),
                *final(self),
                SessionList {
                    session_sort: old(self).sessions.session_sort.following(),
                    ..old(self).sessions
                },
            ),
            old(self).wf() ==> final(self).wf(),
    {
        self.sessions.session_sort = self.sessions.session_sort.next();
        self.dialog.overlay_selected = 0;
    }

    /// Lists only the sessions with a name, or all of them again.
    pub fn toggle_named_sessions(&mut self)
        ensures
            relists(
                *old(self),
                *final(self),
                SessionList {
                    session_named_only: !old(self).sessions.session_named_only,
                    ..old(self).sessions
                },
            ),
            old(self).wf() ==> final(self).wf(),
    {
        self.sessions.session_named_only = !self.sessions.session_named_only;
        self.dialog.overlay_selected = 0;
    }

    /// Shows the paths of the sessions, or hides them again.
    pub fn toggle_session_paths(&mut self)
        ensures
            *final(self) == (AppState {
                sessions: SessionList {
                    session_show_path: !old(self).sessions.session_show_path,
                    ..old(self).sessions
                },
                ..*old(self)
            }),
            old(self).wf() ==> final(self).wf(),
    {
        self.sessions.session_show_path = !self.sessions.session_show_path;
    }

    fn ask_delete(&mut self, at: usize, over: bool)
        requires
            at < old(self).sessions.available_sessions@.len(),
        ensures
            asks_delete(
                *old(self),
                *final(self),
                old(self).sessions.available_sessions@[at as int],
                if over {
                    here(*old(self))
                } else {
                    None
                },
            ),
            old(self).wf() ==> final(self).wf(),
    {
        if self.sessions.available_sessions[at].current {
            self.status = "cannot delete the active session".to_owned();
            return ;
        }
        self.sessions.pending_session_path = Some(self.sessions.available_sessions[at].path.clone());
        if over {
            self.dialog.open_over(OverlayKind::SessionDeleteConfirm);
        } else {
            self.dialog.open(OverlayKind::SessionDeleteConfirm);
        }
    }

    fn ask_name(&mut self, at: usize, over: bool)
        requires
            at < old(self).sessions.available_sessions@.len(),
        ensures
            asks_name(
                *old(self),
                *final(self),
                old(self).sessions.available_sessions@[at as int],
                if over {
                    here(*old(self))
                } else {
                    None
                },
            ),
            old(self).wf() ==> final(self).wf(),
    {
        self.sessions.pending_session_path = Some(self.sessions.available_sessions[at].path.clone());
        if over {
            self.dialog.open_over(OverlayKind::SessionRename);
        } else {
            self.dialog.open(OverlayKind::SessionRename);
        }
    }

    fn ask_from_picker(&mut self, delete: bool)
        ensures
            picker_asks(*old(self), *final(self), delete),
            old(self).wf() ==> final(self).wf(),
    {
        let place: Option<usize> = self.selected_place();
        if self.dialog.overlay == OverlayKind::SessionPicker {
            if let Some(at) = place {
                if delete {
                    self.ask_delete(at, true);
                } else {
                    self.ask_name(at, true);
                }
            }
        }
        assert(pickers::selects(*old(self), place));
    }

    /// Asks for a name for the session that is selected in the picker.
    pub fn begin_session_rename(&mut self)
        ensures
            picker_asks(*old(self), *final(self), false),
            old(self).wf() ==> final(self).wf(),
    {
        self.ask_from_picker(false);
    }

    /// Asks whether the session that is selected in the picker is to be deleted.
    pub fn begin_session_delete(&mut self)
        ensures
            picker_asks(*old(self), *final(self), true),
            old(self).wf() ==> final(self).wf(),
    {
        self.ask_from_picker(true);
    }

    /// Asks for a name for the session that is selected on the dashboard.
    pub fn begin_dashboard_rename(&mut self)
        ensures
            dashboard_asks(*old(self), *final(self), false),
            old(self).wf() ==> final(self).wf(),
    {
        if self.sessions.dashboard_selected < self.sessions.available_sessions.len() {
            self.ask_name(self.sessions.dashboard_selected, false);
        }
    }

    /// Asks whether the session that is selected on the dashboard is to be
    /// deleted.
    pub fn begin_dashboard_delete(&mut self)
        ensures
            dashboard_asks(*old(self), *final(self), true),
            old(self).wf() ==> final(self).wf(),
    {
        if self.sessions.dashboard_selected < self.sessions.available_sessions.len() {
            self.ask_delete(self.sessions.dashboard_selected, false);
        }
    }

    /// Lists other kinds of entries of the tree.
    pub fn cycle_tree_filter(&mut self)
        ensures
            *final(self) == (AppState {
                tree: SessionTree {
                    tree_filter: old(self).tree.tree_filter.following(),
                    ..old(self).tree
                },
                dialog: Dialog { overlay_selected: 0, ..old(self).dialog },
                ..*old(self)
            }),
            old(self).wf() ==> final(self).wf(),
    {
        self.tree.tree_filter = self.tree.tree_filter.next();
        self.dialog.overlay_selected = 0;
    }

    /// Shows the times of the entries of the tree, or hides them again.
    pub fn toggle_tree_timestamps(&mut self)
        ensures
            *final(self) == (AppState {
                tree: SessionTree {
                    tree_show_timestamps: !old(self).tree.tree_show_timestamps,
                    ..old(self).tree
                },
                ..*old(self)
            }),
            old(self).wf() ==> final(self).wf(),
    {
        self.tree.tree_show_timestamps = !self.tree.tree_show_timestamps;
    }

    /// Asks for a label for the selected entry of the tree.
    pub fn begin_tree_label(&mut self)
        requires
            old(self).dialog.overlay == OverlayKind::TreePicker || old(self).dialog.overlay
                == OverlayKind::ForkPicker,
        ensures
            asks_label(*old(self), *final(self)),
            old(self).wf() ==> final(self).wf(),
    {
        let place: Option<usize> = self.selected_place();
        if let Some(at) = place {
            self.tree.tree_target = Some(self.tree.session_tree[at].id.clone());
            self.dialog.open_over(OverlayKind::LabelEditor);
        }
        assert(pickers::selects(*old(self), place));
    }

    /// Folds or unfolds the selected row of the tree, or moves to another one.
    pub fn fold_or_move_tree(&mut self, right: bool)
        requires
            old(self).wf(),
        ensures
            tree_stepped(*old(self), *final(self), right),
            final(self).wf(),
    {
        let places: Vec<usize> = self.tree.filtered(self.dialog.overlay_query.as_str());
        let v: usize = self.dialog.overlay_selected;
        if v >= places.len() {
            return ;
        }
        let _entries: usize = self.tree.session_tree.len();
        proof {
            tree::listings_ascend(
                self.tree,
                self.dialog.overlay_query@,
                self.tree.session_tree@.len() as int,
            );
        }
        let topology: TreeTopology = TreeTopology::new(&places, &self.tree.session_tree);
        assert(shaped(self.tree.session_tree@, places@, topology.parents@));
        let id: String = self.tree.session_tree[places[v]].id.clone();
        let folded: bool = self.tree.tree_folded.contains(id.as_str());
        if right && folded {
            self.tree.tree_folded.remove(id.as_str());
        } else if !right && topology.is_foldable(v) && !folded {
            self.tree.tree_folded.insert(id);
        } else if right {
            if v + 1 < topology.parents.len() {
                if let Some(p) = topology.parents[v + 1] {
                    if p == v {
                        self.dialog.overlay_selected = v + 1;
                    }
                }
            }
        } else {
            if let Some(p) = topology.parents[v] {
                self.dialog.overlay_selected = p;
            }
        }
    }
}

/// The rows of a page, as far as they can be counted.
pub open spec fn capped(page: int) -> int {
    if page <= isize::MAX {
        page
    } else {
        isize::MAX as int
    }
}

/// The rows of a page, as far as they can be counted.
pub fn page_rows(page: usize) -> (r: isize)
    ensures
        r == capped(page as int),
        r >= 0,
{
    if page <= isize::MAX as usize {
        page as isize
    } else {
        isize::MAX
    }
}

/// The selected entry of the tree is gone to, with a summary of the branch
/// that is left; any other dialog is confirmed.
pub open spec fn activates_with_summary(
    before: AppState,
    after: AppState,
    action: OverlayAction,
) -> bool {
    if before.dialog.overlay != OverlayKind::TreePicker {
        pickers::activates(before, after, action)
    } else {
        exists|place: Option<usize>| #[trigger]
            pickers::selects(before, place) && match place {
                None => pickers::ignored(before, after, action),
                Some(at) => {
                    &&& dialogs::closes(before, after)
                    &&& action matches OverlayAction::NavigateTree {
                        entry_id,
                        summarize,
                        instructions,
                    }
                    &&& entry_id@ == before.tree.session_tree@[at as int].id@
                    &&& summarize
                    &&& instructions is None
                },
            }
    }
}

/// The models that are cycled through, with one more or one less.
pub open spec fn toggled_model(models: Seq<Seq<char>>, id: Seq<char>) -> Seq<Seq<char>> {
    if models.contains(id) {
        models.filter(|m: Seq<char>| m != id)
    } else {
        models.push(id)
    }
}

/// The selected model is cycled through, or no longer.
pub open spec fn scopes(before: AppState, after: AppState) -> bool {
    exists|place: Option<usize>| #[trigger]
        pickers::selects(before, place) && match place {
            None => after == before,
            Some(at) => if before.dialog.overlay != OverlayKind::ScopedModels {
                after == before
            } else {
                &&& after == (AppState {
                    offers: Offers {
                        runtime_settings: RuntimeSettings {
                            enabled_models: after.offers.runtime_settings.enabled_models,
                            ..before.offers.runtime_settings
                        },
                        ..before.offers
                    },
                    ..before
                })
                &&& text::views(after.offers.runtime_settings.enabled_models@) == toggled_model(
                    text::views(before.offers.runtime_settings.enabled_models@),
                    before.offers.available_models@[at as int].id@,
                )
            },
        }
}

/// The names of a list but one.
fn without(list: &Vec<String>, id: &str) -> (r: Vec<String>)
    ensures
        text::views(r@) == text::views(list@).filter(|m: Seq<char>| m != id@),
{
    let ghost keeps = |m: Seq<char>| m != id@;
    let ghost all = text::views(list@);
    let mut out: Vec<String> = Vec::new();
    let mut i: usize = 0;
    proof {
        reveal(Seq::filter);
        assert(all.take(0) =~= Seq::<Seq<char>>::empty());
        assert(text::views(out@) =~= all.take(0).filter(keeps));
    }
    while i < list.len()
        invariant
            i <= list@.len(),
            all == text::views(list@),
            keeps == (|m: Seq<char>| m != id@),
            text::views(out@) == all.take(i as int).filter(keeps),
        decreases list@.len() - i,
    {
        proof {
            reveal(Seq::filter);
            assert(all.take(i + 1).drop_last() =~= all.take(i as int));
            assert(all.take(i + 1).last() == list@[i as int]@);
        }
        if !text::same_text(list[i].as_str(), id) {
            let ghost before = text::views(out@);
            out.push(list[i].clone());
            assert(text::views(out@) =~= before.push(list@[i as int]@));
        }
        i += 1;
    }
    assert(all.take(list@.len() as int) =~= all);
    out
}

/// An image was attached in place of the mark that asks for a file.
pub open spec fn refers_image(before: AppState, after: AppState, image: ImageAttachment) -> bool {
    exists|between: AppState| #[trigger]
        unmarked(before, between) && dialogs::attaches(between, after, image)
}

/// What stands in front of the cursor is deleted and the dialog closed.
pub open spec fn unmarked(before: AppState, after: AppState) -> bool {
    let closed = Composer { viewed_image_id: None, ..before.composer };
    &&& after == (AppState {
        dialog: after.dialog,
        editor: PasteEditor { editing_paste: None, ..before.editor },
        composer: after.composer,
        ..before
    })
    &&& dialog::closed_to(before.dialog, after.dialog)
    &&& composer_state::edited(closed, after.composer, after.composer.draft())
    &&& composer::after_backspace(before.composer.draft(), after.composer.draft())
}

/// A block was activated: a subagent is looked at, a block that folds is
/// folded the other way, and any other one is shown in the viewer.
pub open spec fn entry_activated(before: AppState, after: AppState, i: int) -> bool {
    let entries = before.transcript.entries@;
    if i >= entries.len() {
        after == before
    } else if entries[i] matches Entry::Tool { id, .. } && text::begins_with(id@, "subagent:"@) {
        &&& after == (AppState {
            view: screen::View::Subagent,
            boards: Boards {
                inspected_subagent: after.boards.inspected_subagent,
                ..before.boards
            },
            scroll: Scroll { scroll_from_bottom: 0, ..before.scroll },
            ..before
        })
        &&& after.boards.inspected_subagent matches Some(task)
        &&& entries[i]->Tool_id@ == "subagent:"@ + task@
    } else if entries[i].unfolded() is Some {
        &&& after == (AppState { transcript: after.transcript, ..before })
        &&& after.transcript == (Transcript {
            entries: after.transcript.entries,
            pinned_entry_modes: after.transcript.pinned_entry_modes,
            ..before.transcript
        })
        &&& after.transcript.entries@ == entries.update(i, transcript::flipped(entries[i]))
        &&& after.transcript.pinned_entry_modes@ == before.transcript.pinned_entry_modes@.insert(
            transcript::block_id(before.transcript, i),
        )
    } else {
        after == (AppState {
            view: screen::View::BlockViewer,
            transcript: Transcript { viewed_entry: Some(i as usize), ..before.transcript },
            scroll: Scroll { scroll_from_bottom: 0, ..before.scroll },
            ..before
        })
    }
}

/// A group of tool calls was folded the other way.
pub open spec fn group_toggled(before: AppState, after: AppState, head: usize) -> bool {
    &&& after == (AppState {
        transcript: Transcript {
            expanded_tool_groups: after.transcript.expanded_tool_groups,
            ..before.transcript
        },
        ..before
    })
    &&& forall|i: usize| #[trigger]
        after.transcript.expanded_tool_groups@.contains(i) == if i == head {
            !before.transcript.expanded_tool_groups@.contains(head)
        } else {
            before.transcript.expanded_tool_groups@.contains(i)
        }
}

/// A target stands for a group of tool calls.
pub open spec fn names_group(id: Option<String>) -> bool {
    id matches Some(name) && text::begins_with(name@, "tool-group:"@)
}

/// A target was activated.
pub open spec fn target_activated(
    before: AppState,
    after: AppState,
    index: int,
    id: Option<String>,
) -> bool {
    if names_group(id) {
        group_toggled(before, after, index as usize)
    } else {
        entry_activated(before, after, index)
    }
}

/// The button was released: the target that it was pressed on is activated if
/// it is still under the pointer, and nothing is dragged any more.
pub open spec fn click_finished(
    before: AppState,
    after: AppState,
    released: Option<SectionTarget>,
) -> bool {
    let calm = AppState {
        transcript: Transcript { pending_transcript_click: None, ..before.transcript },
        scroll: Scroll { scroll_drag: None, scrollbar_dragging: false, ..before.scroll },
        ..before
    };
    match (before.transcript.pending_transcript_click, released) {
        (Some(pressed), Some(target)) => if pressed.matches_target(target) {
            target_activated(calm, after, target.index as int, Some(target.id))
        } else {
            after == calm
        },
        _ => after == calm,
    }
}

/// The selected subagent is looked at; without one nothing happens.
pub open spec fn subagent_opened(before: AppState, after: AppState) -> bool {
    let at = before.boards.task_selected as int;
    let tasks = before.boards.subagent_tasks@;
    if at >= tasks.len() {
        after == before
    } else {
        &&& after == (AppState {
            view: screen::View::Subagent,
            boards: Boards {
                inspected_subagent: after.boards.inspected_subagent,
                ..before.boards
            },
            scroll: Scroll { scroll_from_bottom: 0, ..before.scroll },
            ..before
        })
        &&& after.boards.inspected_subagent matches Some(id)
        &&& id@ == tasks[at].task_id@
    }
}

/// The focus has moved; nothing else has changed.
pub open spec fn focuses(before: AppState, after: AppState, focus: Focus) -> bool {
    after == (AppState { focus, ..before })
}

/// The other focus.
pub open spec fn other_focus(focus: Focus) -> Focus {
    match focus {
        Focus::Prompt => Focus::Scrollback,
        Focus::Scrollback => Focus::Prompt,
    }
}

/// The selection among the suggestions has moved.
pub open spec fn suggestion_moved(before: AppState, after: AppState, delta: int) -> bool {
    &&& after == (AppState {
        dialog: Dialog {
            overlay_selected: after.dialog.overlay_selected,
            overlay_hovered: None,
            ..before.dialog
        },
        ..before
    })
    &&& after.dialog.overlay_selected == dialog::stepped(
        before.dialog.overlay_selected as int,
        delta,
        overlay::suggested(before).len() as int,
    )
}

impl AppState {
    /// Goes to the selected entry of the tree and asks for a summary; confirms
    /// any other dialog.
    pub fn activate_tree_with_summary(&mut self) -> (r: OverlayAction)
        requires
            old(self).wf(),
        ensures
            activates_with_summary(*old(self), *final(self), r),
            final(self).wf(),
    {
        if self.dialog.overlay != OverlayKind::TreePicker {
            return self.activate_overlay();
        }
        let place: Option<usize> = self.selected_place();
        let mut action: OverlayAction = OverlayAction::Nothing;
        if let Some(at) = place {
            action = OverlayAction::NavigateTree {
                entry_id: self.tree.session_tree[at].id.clone(),
                summarize: true,
                instructions: None,
            };
            self.close_overlay();
        }
        assert(pickers::selects(*old(self), place));
        action
    }

    /// Cycles through the selected model, or no longer.
    pub fn toggle_scoped_model(&mut self)
        ensures
            scopes(*old(self), *final(self)),
            old(self).wf() ==> final(self).wf(),
    {
        let place: Option<usize> = self.selected_place();
        if self.dialog.overlay == OverlayKind::ScopedModels {
            if let Some(at) = place {
                let id: String = self.offers.available_models[at].id.clone();
                let ghost before = self.offers.runtime_settings.enabled_models@;
                if text::list_has(&self.offers.runtime_settings.enabled_models, id.as_str()) {
                    proof {
                        let k = choose|k: int| 0 <= k < before.len() && before[k]@ == id@;
                        assert(text::views(before)[k] == id@);
                    }
                    self.offers.runtime_settings.enabled_models = without(
                        &self.offers.runtime_settings.enabled_models,
                        id.as_str(),
                    );
                } else {
                    proof {
                        if text::views(before).contains(id@) {
                            let k = choose|k: int|
                                0 <= k < text::views(before).len() && text::views(before)[k] == id@;
                            assert(before[k]@ == id@);
                        }
                    }
                    self.offers.runtime_settings.enabled_models.push(id);
                    assert(text::views(self.offers.runtime_settings.enabled_models@)
                        =~= text::views(before).push(id@));
                }
            }
        }
        assert(pickers::selects(*old(self), place));
    }

    /// Attaches an image in place of the mark that asks for a file.
    pub fn attach_referenced(&mut self, image: ImageAttachment)
        requires
            old(self).wf(),
        ensures
            refers_image(*old(self), *final(self), image),
            final(self).wf(),
    {
        self.close_overlay();
        self.composer.backspace();
        let ghost between = *self;
        self.attach_image(image);
        assert(unmarked(*old(self), between));
    }

    /// The next permission mode.
    pub fn cycle_permission_mode(&mut self)
        ensures
            *final(self) == (AppState {
                permission_mode: old(self).permission_mode.following(),
                ..*old(self)
            }),
            old(self).wf() ==> final(self).wf(),
    {
        self.permission_mode = self.permission_mode.next();
    }

    /// Moves the focus to the other pane.
    pub fn toggle_focus(&mut self)
        ensures
            focuses(*old(self), *final(self), other_focus(old(self).focus)),
            old(self).wf() ==> final(self).wf(),
    {
        self.focus = match self.focus {
            Focus::Prompt => Focus::Scrollback,
            Focus::Scrollback => Focus::Prompt,
        };
    }

    /// Moves the focus to the composer.
    pub fn focus_prompt(&mut self)
        ensures
            focuses(*old(self), *final(self), Focus::Prompt),
            old(self).wf() ==> final(self).wf(),
    {
        self.focus = Focus::Prompt;
    }

    /// Moves the focus to the transcript.
    pub fn focus_scrollback(&mut self)
        ensures
            focuses(*old(self), *final(self), Focus::Scrollback),
            old(self).wf() ==> final(self).wf(),
    {
        self.focus = Focus::Scrollback;
    }

    /// Activates a block.
    pub fn activate_entry_at(&mut self, i: usize)
        requires
            old(self).wf(),
        ensures
            entry_activated(*old(self), *final(self), i as int),
            final(self).wf(),
    {
        if i >= self.transcript.entries.len() {
            return ;
        }
        if let Entry::Tool { id, .. } = &self.transcript.entries[i] {
            if let Some(task) = text::strip_prefix(id.as_str(), "subagent:") {
                assert(id@ =~= "subagent:"@ + task@);
                self.boards.inspected_subagent = Some(task);
                self.view = screen::View::Subagent;
                self.scroll.scroll_from_bottom = 0;
                return ;
            }
        }
        if self.transcript.entries[i].expansion().is_some() {
            self.transcript.toggle_entry_at(i);
        } else {
            self.transcript.viewed_entry = Some(i);
            self.view = screen::View::BlockViewer;
            self.scroll.scroll_from_bottom = 0;
        }
    }

    /// Activates a target.
    pub fn activate_target(&mut self, index: usize, id: &Option<String>)
        requires
            old(self).wf(),
        ensures
            target_activated(*old(self), *final(self), index as int, *id),
            final(self).wf(),
    {
        let group: bool = match id {
            Some(name) => text::starts_with(name.as_str(), "tool-group:"),
            None => false,
        };
        if group {
            self.transcript.toggle_tool_group(index);
        } else {
            self.activate_entry_at(index);
        }
    }

    /// Finishes a click on the transcript.
    pub fn finish_transcript_click(&mut self, released: Option<SectionTarget>)
        requires
            old(self).wf(),
        ensures
            click_finished(*old(self), *final(self), released),
            final(self).wf(),
    {
        let pressed: Option<SectionTarget> = match &self.transcript.pending_transcript_click {
            Some(target) => Some(target.copy()),
            None => None,
        };
        self.transcript.pending_transcript_click = None;
        self.scroll.scroll_drag = None;
        self.scroll.scrollbar_dragging = false;
        match (pressed, released) {
            (Some(start), Some(target)) => {
                if start.index == target.index && text::same_text(
                    start.id.as_str(),
                    target.id.as_str(),
                ) {
                    let id: Option<String> = Some(target.id);
                    self.activate_target(target.index, &id);
                }
            },
            _ => {},
        }
    }

    /// Looks at the selected subagent.
    pub fn open_selected_subagent(&mut self)
        ensures
            subagent_opened(*old(self), *final(self)),
            old(self).wf() ==> final(self).wf(),
    {
        if let Some(id) = self.boards.selected_subagent_id() {
            self.boards.inspected_subagent = Some(id);
            self.view = screen::View::Subagent;
            self.scroll.scroll_from_bottom = 0;
        }
    }

    /// Moves the selection among the suggestions.
    pub fn move_slash_selection(&mut self, delta: isize)
        requires
            old(self).wf(),
        ensures
            suggestion_moved(*old(self), *final(self), delta as int),
            final(self).wf(),
    {
        let list: Vec<Suggestion> = self.slash_suggestions();
        assert(slash::offers_of(list@).len() == list@.len());
        self.dialog.move_selection(delta, list.len());
    }
}

} // verus!
