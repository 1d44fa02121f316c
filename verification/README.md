# Torii

Torii is a terminal client for a coding agent. This crate is its logic, written
in Verus: every item under `src/` is verified, and the contracts of the public
functions say what they return and what they change.

* `src/` holds the library.
  * Screen: `state`, with its parts (`composer_state`, `transcript`, `scrolling`,
    `dialog`, `sessions`, `tree`, `offers`, `boards`), and what acts on it
    (`dispatch`, `agent_keys`, `dialog_keys`, `view_keys`, `transcript_keys`,
    `mouse`, `events`, `pickers`, `panes`, `dialogs`, `slash`, `choices`).
  * Conversation: `incoming`, `streaming`, `tool_calls`, `line_diff`,
    `result_diff`, `entry_view`.
  * Layout and text: `geometry`, `agent_layout`, `overlay`, `picker`, `prompt`,
    `paste_editor`, `hits`, `wrap`, `markdown`, `markdown_table`, `styled`,
    `width`, `text`.
  * Agents, tasks and workflows: `harness`, `requests`, `connection`, `mock`,
    `task`, `workflow`, `workflow_run`, `workflow_store`, `supervisor`.
  * Program: `startup`, `update`, `places`, `images`, `clipboard`, `digest`,
    `fixtures`.
* `app/` is the program around it: the terminal, files, processes, the network
  and the clipboard.
* `tests/` runs the library.

Laws that relate several functions are public proof functions, next to the
functions that they speak of: for example that a request is answered
once (`connection::replies_come_once`), that writers of a workflow never overlap
(`workflow_run::writers_never_overlap`), that wrapping a prompt loses no text
(`prompt::wrapping_keeps_the_text`), that drawn lines stay within the width
(`markdown::drawn_lines_stay_within`) and that a diff holds both texts
(`line_diff::diffs_hold_both_texts`).

What is called in other crates stands behind functions marked
`#[verifier::external_body]`. Their contracts are believed, and the comment above
each names the function that it calls.
