//! A backend that answers from a script.

use vstd::prelude::*;

use crate::connection::SessionStats;
use crate::harness::AgentEvent;
use crate::harness::CompactionPhase;
use crate::harness::ModelInfo;
use crate::harness::SessionId;
use crate::harness::ToolResult;
use crate::harness::Usage;
use crate::idset::IdSet;
use crate::requests;
use crate::requests::Field;
use crate::requests::FieldView;
use crate::text;

verus! {

broadcast use vstd::string::group_string_axioms;

/// The pause before each event of a turn, in milliseconds.
pub const TURN_PAUSE_MS: u64 = 180;

/// The pause within a compaction, in milliseconds.
pub const COMPACTION_PAUSE_MS: u64 = 240;

/// A backend that answers from a script.
#[derive(Clone, Debug)]
pub struct MockHarness {
    pub next_session: u64,
    pub sessions: IdSet,
}

/// The name of a session.
pub open spec fn session_name(n: nat) -> Seq<char> {
    "mock-"@ + text::decimal(n)
}

impl Default for MockHarness {
    fn default() -> (r: Self)
        ensures
            r.next_session == 1,
            r.sessions@ == Set::<Seq<char>>::empty(),
            r.sessions.wf(),
    {
        MockHarness { next_session: 1, sessions: IdSet::new() }
    }
}

/// The event is a text of the answer.
pub open spec fn says(event: AgentEvent, words: Seq<char>) -> bool {
    match event {
        AgentEvent::TextDelta { text } => text@ == words,
        _ => false,
    }
}

/// The event is a thought.
pub open spec fn thinks(event: AgentEvent, words: Seq<char>) -> bool {
    match event {
        AgentEvent::ReasoningDelta { text } => text@ == words,
        _ => false,
    }
}

/// The event starts a tool call.
pub open spec fn calls(
    event: AgentEvent,
    call: Seq<char>,
    tool: Seq<char>,
    arguments: Seq<char>,
) -> bool {
    match event {
        AgentEvent::ToolCallStart { id, name, args } => id@ == call && name@ == tool && args@
            == arguments,
        _ => false,
    }
}

/// The event ends a tool call that succeeded.
pub open spec fn returns_text(
    event: AgentEvent,
    call: Seq<char>,
    output: Seq<char>,
    milliseconds: u64,
) -> bool {
    match event {
        AgentEvent::ToolCallResult { id, result, is_error, duration_ms } => id@ == call
            && result.content@ == output && result.details is None && !is_error && duration_ms
            == Some(milliseconds),
        _ => false,
    }
}

/// The events of a turn.
pub open spec fn turn(prompt: Seq<char>, events: Seq<AgentEvent>) -> bool {
    &&& events.len() == 6
    &&& thinks(events[0], "Inspecting the workspace..."@)
    &&& says(events[1], "I will handle: "@ + prompt + "\n\n"@)
    &&& calls(events[2], "tool-1"@, "read"@, "{\"path\":\"README.md\"}"@)
    &&& returns_text(events[3], "tool-1"@, "Mock file contents loaded successfully."@, 180)
    &&& says(events[4], "The mock harness is connected and streaming events."@)
    &&& match events[5] {
        AgentEvent::TurnComplete { usage, stop_reason } => usage == (Usage {
            input_tokens: 42,
            output_tokens: 21,
        }) && stop_reason@ == "end_turn"@,
        _ => false,
    }
}

/// The arguments of a shell command.
pub open spec fn bash_arguments(command: Seq<char>) -> Option<Seq<char>> {
    requests::json_object(seq![("command"@, FieldView::Text(command))])
}

/// The events of a shell command.
pub open spec fn bash(command: Seq<char>, events: Seq<AgentEvent>) -> bool {
    &&& events.len() == 2
    &&& calls(
        events[0],
        "interactive-bash"@,
        "bash"@,
        match bash_arguments(command) {
            Some(arguments) => arguments,
            None => "null"@,
        },
    )
    &&& returns_text(events[1], "interactive-bash"@, "mock bash output"@, 1)
}

/// The event is one end of a compaction that was asked for.
pub open spec fn compacts(
    event: AgentEvent,
    end: CompactionPhase,
    outcome: Option<Seq<char>>,
    before: Option<u64>,
    after: Option<u64>,
) -> bool {
    match event {
        AgentEvent::Compaction { phase, reason, summary, tokens_before, tokens_after, error } => {
            &&& phase == end
            &&& reason matches Some(why) && why@ == "manual"@
            &&& crate::entry_view::option_view(summary) == outcome
            &&& tokens_before == before
            &&& tokens_after == after
            &&& error is None
        },
        _ => false,
    }
}

/// What a compaction leaves.
pub open spec fn summary_text(instructions: Option<String>) -> Seq<char> {
    match instructions {
        Some(custom) => "Compacted with custom instructions: "@ + custom@,
        None => "Compacted to summarize earlier context."@,
    }
}

/// The two events of a compaction.
pub open spec fn compaction(instructions: Option<String>, events: Seq<AgentEvent>) -> bool {
    &&& events.len() == 2
    &&& compacts(events[0], CompactionPhase::Start, None, None, None)
    &&& compacts(
        events[1],
        CompactionPhase::End,
        Some(summary_text(instructions)),
        Some(184320),
        Some(22140),
    )
}

/// The answer for a session: its events, or the message that there is no such
/// session.
pub open spec fn unknown(id: SessionId, error: String) -> bool {
    error@ == "unknown session: "@ + id@
}

impl MockHarness {
    /// Opens a session.
    pub fn open_session(&mut self) -> (r: SessionId)
        requires
            old(self).sessions.wf(),
        ensures
            r@ == session_name(old(self).next_session as nat),
            final(self).sessions@ == old(self).sessions@.insert(r@),
            final(self).sessions.wf(),
            final(self).next_session == if old(self).next_session == u64::MAX {
                0
            } else {
                (old(self).next_session + 1) as u64
            },
    {
        let number: String = text::decimal_text(self.next_session);
        if self.next_session == u64::MAX {
            self.next_session = 0;
        } else {
            self.next_session = self.next_session + 1;
        }
        let id: String = text::joined("mock-", number.as_str());
        self.sessions.insert(id.clone());
        SessionId(id)
    }

    /// Whether the session is open.
    pub fn sender(&self, id: &SessionId) -> (r: Result<(), String>)
        ensures
            match r {
                Ok(_) => self.sessions@.contains(id@),
                Err(error) => !self.sessions@.contains(id@) && unknown(*id, error),
            },
    {
        if self.sessions.contains(id.0.as_str()) {
            Ok(())
        } else {
            Err(text::joined("unknown session: ", id.0.as_str()))
        }
    }

    /// The events of a turn.
    pub fn prompt(&self, id: &SessionId, prompt: &str) -> (r: Result<Vec<AgentEvent>, String>)
        ensures
            match r {
                Ok(events) => self.sessions@.contains(id@) && turn(prompt@, events@),
                Err(error) => !self.sessions@.contains(id@) && unknown(*id, error),
            },
    {
        match self.sender(id) {
            Err(error) => Err(error),
            Ok(_) => {
                let mut events: Vec<AgentEvent> = Vec::new();
                events.push(
                    AgentEvent::ReasoningDelta { text: "Inspecting the workspace...".to_owned() },
                );
                events.push(
                    AgentEvent::TextDelta { text: text::joined3("I will handle: ", prompt, "\n\n") },
                );
                events.push(
                    AgentEvent::ToolCallStart {
                        id: "tool-1".to_owned(),
                        name: "read".to_owned(),
                        args: "{\"path\":\"README.md\"}".to_owned(),
                    },
                );
                events.push(finished("tool-1", "Mock file contents loaded successfully.", 180));
                events.push(
                    AgentEvent::TextDelta {
                        text: "The mock harness is connected and streaming events.".to_owned(),
                    },
                );
                events.push(
                    AgentEvent::TurnComplete {
                        usage: Usage { input_tokens: 42, output_tokens: 21 },
                        stop_reason: "end_turn".to_owned(),
                    },
                );
                Ok(events)
            },
        }
    }

    /// The events of a shell command.
    pub fn execute_bash(&self, id: &SessionId, command: String) -> (r: Result<
        Vec<AgentEvent>,
        String,
    >)
        ensures
            match r {
                Ok(events) => self.sessions@.contains(id@) && bash(command@, events@),
                Err(error) => !self.sessions@.contains(id@) && unknown(*id, error),
            },
    {
        match self.sender(id) {
            Err(error) => Err(error),
            Ok(_) => {
                let arguments: Option<String> = requests::object_text(
                    requests::one("command", Field::Text(command)),
                );
                let args: String = match arguments {
                    Some(object) => object,
                    None => "null".to_owned(),
                };
                let mut events: Vec<AgentEvent> = Vec::new();
                events.push(
                    AgentEvent::ToolCallStart {
                        id: "interactive-bash".to_owned(),
                        name: "bash".to_owned(),
                        args,
                    },
                );
                events.push(finished("interactive-bash", "mock bash output", 1));
                Ok(events)
            },
        }
    }

    /// The two events of a compaction.
    pub fn compact(&self, id: &SessionId, instructions: Option<String>) -> (r: Result<
        Vec<AgentEvent>,
        String,
    >)
        ensures
            match r {
                Ok(events) => self.sessions@.contains(id@) && compaction(instructions, events@),
                Err(error) => !self.sessions@.contains(id@) && unknown(*id, error),
            },
    {
        match self.sender(id) {
            Err(error) => Err(error),
            Ok(_) => {
                let summary: String = match &instructions {
                    Some(custom) => text::joined(
                        "Compacted with custom instructions: ",
                        custom.as_str(),
                    ),
                    None => "Compacted to summarize earlier context.".to_owned(),
                };
                let mut events: Vec<AgentEvent> = Vec::new();
                events.push(
                    AgentEvent::Compaction {
                        phase: CompactionPhase::Start,
                        reason: Some("manual".to_owned()),
                        summary: None,
                        tokens_before: None,
                        tokens_after: None,
                        error: None,
                    },
                );
                events.push(
                    AgentEvent::Compaction {
                        phase: CompactionPhase::End,
                        reason: Some("manual".to_owned()),
                        summary: Some(summary),
                        tokens_before: Some(184320),
                        tokens_after: Some(22140),
                        error: None,
                    },
                );
                Ok(events)
            },
        }
    }

    /// The event of a changed thinking level.
    pub fn cycle_thinking(&self, id: &SessionId) -> (r: Result<AgentEvent, String>)
        ensures
            match r {
                Ok(AgentEvent::ThinkingChanged { level }) => self.sessions@.contains(id@) && level@
                    == "medium"@,
                Ok(_) => false,
                Err(error) => !self.sessions@.contains(id@) && unknown(*id, error),
            },
    {
        match self.sender(id) {
            Err(error) => Err(error),
            Ok(_) => Ok(AgentEvent::ThinkingChanged { level: "medium".to_owned() }),
        }
    }

    /// The event of an emptied queue.
    pub fn clear_queue(&self, id: &SessionId) -> (r: Result<AgentEvent, String>)
        ensures
            match r {
                Ok(AgentEvent::QueueChanged { steering, follow_up }) => self.sessions@.contains(id@)
                    && steering@.len() == 0 && follow_up@.len() == 0,
                Ok(_) => false,
                Err(error) => !self.sessions@.contains(id@) && unknown(*id, error),
            },
    {
        match self.sender(id) {
            Err(error) => Err(error),
            Ok(_) => Ok(
                AgentEvent::QueueChanged { steering: Vec::new(), follow_up: Vec::new() },
            ),
        }
    }

    /// The event of a finished sign-in.
    pub fn begin_oauth(&self, id: &SessionId, provider: String) -> (r: Result<AgentEvent, String>)
        ensures
            match r {
                Ok(AgentEvent::OauthComplete { provider: signed }) => self.sessions@.contains(id@)
                    && signed == provider,
                Ok(_) => false,
                Err(error) => !self.sessions@.contains(id@) && unknown(*id, error),
            },
    {
        match self.sender(id) {
            Err(error) => Err(error),
            Ok(_) => Ok(AgentEvent::OauthComplete { provider }),
        }
    }

    /// The event of an empty list of file versions.
    pub fn list_rewinds(&self, id: &SessionId) -> (r: Result<AgentEvent, String>)
        ensures
            match r {
                Ok(AgentEvent::RewindList { checkpoints }) => self.sessions@.contains(id@)
                    && checkpoints@.len() == 0,
                Ok(_) => false,
                Err(error) => !self.sessions@.contains(id@) && unknown(*id, error),
            },
    {
        match self.sender(id) {
            Err(error) => Err(error),
            Ok(_) => Ok(AgentEvent::RewindList { checkpoints: Vec::new() }),
        }
    }

    /// The one model.
    pub fn list_models(&self) -> (r: Vec<ModelInfo>)
        ensures
            r@.len() == 1,
            r@[0].id@ == "mock"@,
            r@[0].display_name@ == "Mock model"@,
            r@[0].context_window is None,
    {
        let mut models: Vec<ModelInfo> = Vec::new();
        models.push(
            ModelInfo {
                id: "mock".to_owned(),
                display_name: "Mock model".to_owned(),
                context_window: None,
            },
        );
        models
    }

    /// The two files.
    pub fn list_files(&self) -> (r: Vec<String>)
        ensures
            text::views(r@) == seq!["README.md"@, "src/main.rs"@],
    {
        let mut files: Vec<String> = Vec::new();
        files.push("README.md".to_owned());
        files.push("src/main.rs".to_owned());
        assert(text::views(files@) =~= seq!["README.md"@, "src/main.rs"@]);
        files
    }

    /// A session that has used nothing.
    pub fn session_stats(&self, id: &SessionId) -> (r: SessionStats)
        ensures
            r.id == id.0,
            r.path is None,
            r.name is None,
            r.user_messages == 0,
            r.assistant_messages == 0,
            r.tool_calls == 0,
            r.total_messages == 0,
            r.input_tokens == 0,
            r.output_tokens == 0,
            r.cost@ == "0"@,
    {
        SessionStats {
            id: id.0.clone(),
            path: None,
            name: None,
            user_messages: 0,
            assistant_messages: 0,
            tool_calls: 0,
            total_messages: 0,
            input_tokens: 0,
            output_tokens: 0,
            cost: "0".to_owned(),
        }
    }
}

fn finished(call: &str, output: &str, milliseconds: u64) -> (r: AgentEvent)
    ensures
        returns_text(r, call@, output@, milliseconds),
{
    AgentEvent::ToolCallResult {
        id: call.to_owned(),
        result: ToolResult { content: output.to_owned(), details: None },
        is_error: false,
        duration_ms: Some(milliseconds),
    }
}

/// Every turn ends: its last event, and no other, completes it.
pub proof fn turns_complete_once(prompt: Seq<char>, events: Seq<AgentEvent>)
    requires
        turn(prompt, events),
    ensures
        forall|i: int|
            0 <= i < events.len() ==> ((#[trigger] events[i]) is TurnComplete <==> i == events.len()
                - 1),
{
    assert(thinks(events[0], "Inspecting the workspace..."@));
    assert(says(events[1], "I will handle: "@ + prompt + "\n\n"@));
    assert(says(events[4], "The mock harness is connected and streaming events."@));
    assert forall|i: int| 0 <= i < events.len() implies ((#[trigger] events[i]) is TurnComplete
        <==> i == events.len() - 1) by {
        if i == 2 {
            assert(calls(events[2], "tool-1"@, "read"@, "{\"path\":\"README.md\"}"@));
        }
    }
}

/// A turn of the scripted backend answers the prompt: its words stand in the answer.
pub proof fn turns_answer_the_prompt(prompt: Seq<char>, events: Seq<AgentEvent>) -> (r: (
    Seq<char>,
    Seq<char>,
))
    requires
        turn(prompt, events),
    ensures
        events.len() > 1,
        events[1] is TextDelta,
        events[1]->TextDelta_text@ == r.0 + prompt + r.1,
{
    ("I will handle: "@, "\n\n"@)
}

/// A tool that the scripted backend calls comes to its end, without an error.
pub proof fn calls_come_to_their_end(prompt: Seq<char>, events: Seq<AgentEvent>)
    requires
        turn(prompt, events),
    ensures
        events[2] is ToolCallStart,
        events[3] is ToolCallResult,
        events[3]->ToolCallResult_id@ == events[2]->ToolCallStart_id@,
        !events[3]->ToolCallResult_is_error,
{
}

/// A compaction of the scripted backend begins and ends, and leaves less than there was. The
/// instructions stand in its summary.
pub proof fn compactions_leave_less(instructions: Option<String>, events: Seq<AgentEvent>)
    requires
        compaction(instructions, events),
    ensures
        events[0] is Compaction,
        events[0]->Compaction_phase is Start,
        events[1] is Compaction,
        events[1]->Compaction_phase is End,
        events[1]->Compaction_error is None,
        events[1]->Compaction_tokens_after is Some,
        events[1]->Compaction_tokens_before is Some,
        events[1]->Compaction_tokens_after->0 < events[1]->Compaction_tokens_before->0,
        instructions matches Some(words) ==> text::finishes_with(
            summary_text(instructions),
            words@,
        ),
{
    match instructions {
        Some(words) => {
            let all = summary_text(instructions);
            assert(all.subrange(all.len() - words@.len(), all.len() as int) =~= words@);
        },
        None => {},
    }
}

/// No two sessions of the scripted backend have the same name.
pub proof fn session_names_differ(m: nat, n: nat)
    requires
        m != n,
    ensures
        session_name(m) != session_name(n),
{
    if session_name(m) == session_name(n) {
        let head = "mock-"@;
        assert(text::decimal(m) =~= session_name(m).subrange(
            head.len() as int,
            session_name(m).len() as int,
        ));
        assert(text::decimal(n) =~= session_name(n).subrange(
            head.len() as int,
            session_name(n).len() as int,
        ));
        text::decimal_is_injective(m, n);
    }
}

} // verus!
