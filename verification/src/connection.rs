//! The backend process as the client sees it: which requests wait for an
//! answer, which sessions are open, and what becomes of each message.

use vstd::prelude::*;

use crate::harness::AgentErrorKind;
use crate::harness::AgentEvent;
use crate::harness::AuthProviderInfo;
use crate::harness::ModelInfo;
use crate::harness::RewindCheckpoint;
use crate::harness::RuntimeResources;
use crate::harness::RuntimeSettings;
use crate::harness::SessionId;
use crate::harness::SessionInfo;
use crate::harness::SessionTreeEntry;
use crate::idset::IdSet;
use crate::requests::Command;
use crate::text;

verus! {

broadcast use vstd::string::group_string_axioms;

/// The version of the protocol that the client speaks.
pub const PROTOCOL_VERSION: u32 = 1;

/// What a session has used. `cost` is the number as it was written.
#[derive(Clone, Debug)]
pub struct SessionStats {
    pub id: String,
    pub path: Option<String>,
    pub name: Option<String>,
    pub user_messages: usize,
    pub assistant_messages: usize,
    pub tool_calls: usize,
    pub total_messages: usize,
    pub input_tokens: u64,
    pub output_tokens: u64,
    pub cost: String,
}

/// The answer to a request.
#[derive(Clone, Debug)]
pub struct Response {
    pub session_id: Option<String>,
    pub models: Option<Vec<ModelInfo>>,
    pub files: Option<Vec<String>>,
    pub resources: Option<RuntimeResources>,
    pub settings: Option<RuntimeSettings>,
    pub providers: Option<Vec<AuthProviderInfo>>,
    pub history: Option<Vec<AgentEvent>>,
    pub sessions: Option<Vec<SessionInfo>>,
    pub session_info: Option<SessionStats>,
    pub tree: Option<Vec<SessionTreeEntry>>,
    pub rewinds: Option<Vec<RewindCheckpoint>>,
}

/// A message of the backend process.
#[derive(Clone, Debug)]
pub enum WireMessage {
    Ready { protocol_version: u32 },
    Response { request_id: String, response: Response },
    Event { session_id: String, event: AgentEvent },
    Error { request_id: Option<String>, message: String },
}

/// What becomes of a message.
#[derive(Debug)]
pub enum Delivery {
    /// Nobody waits for it.
    Nobody,
    /// The request is answered.
    Reply { request_id: String, reply: Result<Response, String> },
    /// The subscribers of the session get the event.
    Publish { session_id: String, event: AgentEvent },
}

/// Why the backend cannot be used.
#[derive(Clone, Debug)]
pub enum ConnectionError {
    UnsupportedProtocol(u32),
    NotReady,
    OmittedSession,
    OmittedSessionInfo,
    UnknownSession(String),
}

impl ConnectionError {
    /// The message's text.
    pub open spec fn text(self) -> Seq<char> {
        match self {
            ConnectionError::UnsupportedProtocol(version) => "unsupported Pi sidecar protocol "@
                + text::decimal(version as nat) + "; expected 1"@,
            ConnectionError::NotReady => "Pi sidecar did not send a ready message"@,
            ConnectionError::OmittedSession => "Pi sidecar omitted session_id"@,
            ConnectionError::OmittedSessionInfo => "Pi sidecar omitted session info"@,
            ConnectionError::UnknownSession(id) => "unknown Pi session: "@ + id@,
        }
    }

    /// The message shown to the user.
    pub fn message(&self) -> (r: String)
        ensures
            r@ == self.text(),
    {
        match self {
            ConnectionError::UnsupportedProtocol(version) => text::joined3(
                "unsupported Pi sidecar protocol ",
                text::decimal_text(*version as u64).as_str(),
                "; expected 1",
            ),
            ConnectionError::NotReady => "Pi sidecar did not send a ready message".to_owned(),
            ConnectionError::OmittedSession => "Pi sidecar omitted session_id".to_owned(),
            ConnectionError::OmittedSessionInfo => "Pi sidecar omitted session info".to_owned(),
            ConnectionError::UnknownSession(id) => text::joined("unknown Pi session: ", id.as_str()),
        }
    }
}

/// Checks the first message of the backend process.
pub fn check_greeting(message: &WireMessage) -> (r: Result<(), ConnectionError>)
    ensures
        match message {
            WireMessage::Ready { protocol_version } => if *protocol_version == PROTOCOL_VERSION {
                r is Ok
            } else {
                r == Err::<(), ConnectionError>(
                    ConnectionError::UnsupportedProtocol(*protocol_version),
                )
            },
            _ => r == Err::<(), ConnectionError>(ConnectionError::NotReady),
        },
{
    match message {
        WireMessage::Ready { protocol_version } => {
            if *protocol_version == PROTOCOL_VERSION {
                Ok(())
            } else {
                Err(ConnectionError::UnsupportedProtocol(*protocol_version))
            }
        },
        _ => Err(ConnectionError::NotReady),
    }
}

/// The events that a session's first subscriber gets.
#[derive(Clone, Debug)]
pub struct History {
    pub session: String,
    pub events: Vec<AgentEvent>,
}

/// The requests that wait, the open sessions, and their histories.
#[derive(Clone, Debug)]
pub struct Connection {
    pub next_request: u64,
    pub pending: IdSet,
    pub sessions: IdSet,
    pub histories: Vec<History>,
}

/// The number of a request.
pub open spec fn request_number(n: nat) -> Seq<char> {
    "rust-"@ + text::decimal(n)
}

/// The history of a session, if one is kept.
pub open spec fn history_at(histories: Seq<History>, session: Seq<char>, i: int) -> bool {
    0 <= i < histories.len() && histories[i].session@ == session
}

/// The histories without that of a session.
pub open spec fn histories_without(histories: Seq<History>, session: Seq<char>) -> Seq<History> {
    histories.filter(|h: History| h.session@ != session)
}

/// What becomes of a message, by the requests that wait and the open sessions.
pub open spec fn delivered(
    pending: Set<Seq<char>>,
    sessions: Set<Seq<char>>,
    message: WireMessage,
) -> Delivery {
    match message {
        WireMessage::Response { request_id, response } => if pending.contains(request_id@) {
            Delivery::Reply { request_id, reply: Ok(response) }
        } else {
            Delivery::Nobody
        },
        WireMessage::Event { session_id, event } => if sessions.contains(session_id@) {
            Delivery::Publish { session_id, event }
        } else {
            Delivery::Nobody
        },
        WireMessage::Error { request_id: Some(request_id), message } => if pending.contains(
            request_id@,
        ) {
            Delivery::Reply { request_id, reply: Err(message) }
        } else {
            Delivery::Nobody
        },
        WireMessage::Error { request_id: None, .. } => Delivery::Nobody,
        WireMessage::Ready { .. } => Delivery::Nobody,
    }
}

/// The request that a message answers.
pub open spec fn answered(message: WireMessage) -> Option<Seq<char>> {
    match message {
        WireMessage::Response { request_id, .. } => Some(request_id@),
        WireMessage::Error { request_id: Some(request_id), .. } => Some(request_id@),
        _ => None,
    }
}

/// The requests that wait after a message.
pub open spec fn still_pending(pending: Set<Seq<char>>, message: WireMessage) -> Set<Seq<char>> {
    match answered(message) {
        Some(id) => pending.remove(id),
        None => pending,
    }
}

/// The room for events of a session: that of its history and a few more.
pub open spec fn channel_room(history: Option<Vec<AgentEvent>>) -> int {
    let replayed = match history {
        Some(events) => events@.len() as int,
        None => 0,
    };
    if replayed + 16 > 256 {
        replayed + 16
    } else {
        256
    }
}

impl Connection {
    /// Neither a request nor a session is listed twice, and each session has
    /// at most one history.
    pub open spec fn wf(self) -> bool {
        &&& self.pending.wf()
        &&& self.sessions.wf()
        &&& forall|i: int, j: int|
            0 <= i < j < self.histories@.len() ==> (#[trigger] self.histories@[i]).session@ != (
            #[trigger] self.histories@[j]).session@
    }

    /// A connection on which nothing has happened.
    pub fn new() -> (r: Connection)
        ensures
            r.next_request == 1,
            r.pending@ == Set::<Seq<char>>::empty(),
            r.sessions@ == Set::<Seq<char>>::empty(),
            r.histories@.len() == 0,
            r.wf(),
    {
        Connection {
            next_request: 1,
            pending: IdSet::new(),
            sessions: IdSet::new(),
            histories: Vec::new(),
        }
    }

    /// Registers a request, under its own name or under the next number.
    pub fn begin(&mut self, fixed: Option<String>) -> (r: String)
        requires
            old(self).wf(),
        ensures
            r@ == match fixed {
                Some(id) => id@,
                None => request_number(old(self).next_request as nat),
            },
            final(self).pending@ == old(self).pending@.insert(r@),
            final(self).next_request == if fixed is Some {
                old(self).next_request
            } else if old(self).next_request == u64::MAX {
                0
            } else {
                (old(self).next_request + 1) as u64
            },
            *final(self) == (Connection {
                next_request: final(self).next_request,
                pending: final(self).pending,
                ..*old(self)
            }),
            final(self).wf(),
    {
        let id: String = match fixed {
            Some(id) => id,
            None => {
                let number: String = text::decimal_text(self.next_request);
                if self.next_request == u64::MAX {
                    self.next_request = 0;
                } else {
                    self.next_request = self.next_request + 1;
                }
                text::joined("rust-", number.as_str())
            },
        };
        self.pending.insert(id.clone());
        id
    }

    /// Forgets a request that could not be sent.
    pub fn abandon(&mut self, id: &str)
        requires
            old(self).wf(),
        ensures
            final(self).pending@ == old(self).pending@.remove(id@),
            *final(self) == (Connection { pending: final(self).pending, ..*old(self) }),
            final(self).wf(),
    {
        self.pending.remove(id);
    }

    /// Takes a message of the backend process.
    pub fn receive(&mut self, message: WireMessage) -> (r: Delivery)
        requires
            old(self).wf(),
        ensures
            r == delivered(old(self).pending@, old(self).sessions@, message),
            final(self).pending@ == still_pending(old(self).pending@, message),
            *final(self) == (Connection { pending: final(self).pending, ..*old(self) }),
            final(self).wf(),
    {
        match message {
            WireMessage::Response { request_id, response } => {
                let waits: bool = self.pending.contains(request_id.as_str());
                self.pending.remove(request_id.as_str());
                if waits {
                    Delivery::Reply { request_id, reply: Ok(response) }
                } else {
                    Delivery::Nobody
                }
            },
            WireMessage::Event { session_id, event } => {
                if self.sessions.contains(session_id.as_str()) {
                    Delivery::Publish { session_id, event }
                } else {
                    Delivery::Nobody
                }
            },
            WireMessage::Error { request_id, message } => {
                match request_id {
                    Some(request_id) => {
                        let waits: bool = self.pending.contains(request_id.as_str());
                        self.pending.remove(request_id.as_str());
                        if waits {
                            Delivery::Reply { request_id, reply: Err(message) }
                        } else {
                            Delivery::Nobody
                        }
                    },
                    None => Delivery::Nobody,
                }
            },
            WireMessage::Ready { .. } => Delivery::Nobody,
        }
    }

    /// The backend process has ended: the requests that waited, which all fail
    /// with `Pi sidecar exited`.
    pub fn end(&mut self) -> (r: Vec<String>)
        ensures
            forall|id: Seq<char>| #[trigger]
                text::lists(r@, id) <==> old(self).pending@.contains(id),
            r@ == old(self).pending.items@,
            final(self).pending@ == Set::<Seq<char>>::empty(),
            *final(self) == (Connection { pending: final(self).pending, ..*old(self) }),
            old(self).wf() ==> final(self).wf(),
    {
        let mut none: IdSet = IdSet::new();
        std::mem::swap(&mut none, &mut self.pending);
        none.items
    }

    /// Whether the session is open.
    pub fn knows(&self, id: &SessionId) -> (r: bool)
        ensures
            r == self.sessions@.contains(id@),
    {
        self.sessions.contains(id.0.as_str())
    }

    fn find_history(&self, session: &str) -> (r: Option<usize>)
        ensures
            match r {
                Some(i) => history_at(self.histories@, session@, i as int),
                None => forall|i: int| !history_at(self.histories@, session@, i),
            },
    {
        let mut i: usize = 0;
        while i < self.histories.len()
            invariant
                i <= self.histories@.len(),
                forall|j: int| 0 <= j < i ==> !history_at(self.histories@, session@, j),
            decreases self.histories@.len() - i,
        {
            if text::same_text(self.histories[i].session.as_str(), session) {
                return Some(i);
            }
            i += 1;
        }
        None
    }

    fn take_history(&mut self, session: &str) -> (r: Option<Vec<AgentEvent>>)
        requires
            old(self).wf(),
        ensures
            match r {
                Some(events) => exists|i: int| #[trigger]
                    history_at(old(self).histories@, session@, i) && events
                        == old(self).histories@[i].events,
                None => forall|i: int| !history_at(old(self).histories@, session@, i),
            },
            final(self).histories@ == histories_without(old(self).histories@, session@),
            *final(self) == (Connection { histories: final(self).histories, ..*old(self) }),
            final(self).wf(),
    {
        let ghost before = self.histories@;
        match self.find_history(session) {
            Some(i) => {
                proof {
                    lone_history_removed(before, session@, i as int);
                }
                let taken: History = self.histories.remove(i);
                assert(history_at(before, session@, i as int));
                Some(taken.events)
            },
            None => {
                proof {
                    nothing_filtered(before, session@);
                }
                None
            },
        }
    }

    /// Registers the session that a request has opened, and how much room its
    /// events need.
    pub fn open(&mut self, response: Response) -> (r: Result<(SessionId, usize), ConnectionError>)
        requires
            old(self).wf(),
        ensures
            match response.session_id {
                None => r == Err::<(SessionId, usize), ConnectionError>(
                    ConnectionError::OmittedSession,
                ) && *final(self) == *old(self),
                Some(id) => match r {
                    Ok((opened, room)) => opened@ == id@ && room == (if channel_room(
                        response.history,
                    ) > usize::MAX {
                        usize::MAX as int
                    } else {
                        channel_room(response.history)
                    }) && final(self).sessions@ == old(self).sessions@.insert(id@)
                        && final(self).histories@ == match response.history {
                        None => old(self).histories@,
                        Some(events) => histories_without(old(self).histories@, id@).push(
                            History { session: id, events },
                        ),
                    } && *final(self) == (Connection {
                        sessions: final(self).sessions,
                        histories: final(self).histories,
                        ..*old(self)
                    }),
                    Err(_) => false,
                },
            },
            final(self).wf(),
    {
        match response.session_id {
            None => Err(ConnectionError::OmittedSession),
            Some(id) => {
                let replayed: usize = match &response.history {
                    Some(events) => events.len(),
                    None => 0,
                };
                let wanted: usize = replayed.saturating_add(16);
                let room: usize = if wanted > 256 {
                    wanted
                } else {
                    256
                };
                self.sessions.insert(id.clone());
                if let Some(events) = response.history {
                    let ghost before = self.histories@;
                    let _replaced: Option<Vec<AgentEvent>> = self.take_history(id.as_str());
                    proof {
                        filtered_lacks(before, id@);
                    }
                    self.histories.push(History { session: id.clone(), events });
                }
                Ok((SessionId(id), room))
            },
        }
    }

    /// The events that a new subscriber of a session gets: the history, once.
    pub fn subscribe(&mut self, id: &SessionId) -> (r: Result<Vec<AgentEvent>, ConnectionError>)
        requires
            old(self).wf(),
        ensures
            if old(self).sessions@.contains(id@) {
                &&& match r {
                    Ok(events) => replayed(old(self).histories@, id@, events@),
                    Err(_) => false,
                }
                &&& final(self).histories@ == histories_without(old(self).histories@, id@)
                &&& *final(self) == (Connection { histories: final(self).histories, ..*old(self) })
            } else {
                r == Err::<Vec<AgentEvent>, ConnectionError>(
                    ConnectionError::UnknownSession(id.0),
                ) && *final(self) == *old(self)
            },
            final(self).wf(),
    {
        if !self.knows(id) {
            return Err(ConnectionError::UnknownSession(id.0.clone()));
        }
        match self.take_history(id.0.as_str()) {
            Some(events) => Ok(events),
            None => {
                let none: Vec<AgentEvent> = Vec::new();
                assert(none@ =~= Seq::<AgentEvent>::empty());
                Ok(none)
            },
        }
    }

    /// Forgets a session that was closed.
    pub fn close(&mut self, id: &SessionId)
        requires
            old(self).wf(),
        ensures
            final(self).sessions@ == old(self).sessions@.remove(id@),
            final(self).histories@ == histories_without(old(self).histories@, id@),
            *final(self) == (Connection {
                sessions: final(self).sessions,
                histories: final(self).histories,
                ..*old(self)
            }),
            final(self).wf(),
    {
        self.sessions.remove(id.0.as_str());
        let _forgotten: Option<Vec<AgentEvent>> = self.take_history(id.0.as_str());
    }

    /// The events of the session that takes the place of an open one.
    pub fn replacement(&self, id: &SessionId, history: Option<Vec<AgentEvent>>) -> (r: Result<
        Vec<AgentEvent>,
        ConnectionError,
    >)
        ensures
            match history {
                None => r matches Ok(events) && events@.len() == 0,
                Some(events) => if self.sessions@.contains(id@) {
                    r == Ok::<Vec<AgentEvent>, ConnectionError>(events)
                } else {
                    r == Err::<Vec<AgentEvent>, ConnectionError>(
                        ConnectionError::UnknownSession(id.0),
                    )
                },
            },
    {
        match history {
            None => Ok(Vec::new()),
            Some(events) => {
                if self.knows(id) {
                    Ok(events)
                } else {
                    Err(ConnectionError::UnknownSession(id.0.clone()))
                }
            },
        }
    }

    /// The event that tells the subscribers of an open session that a request
    /// has failed.
    pub fn failure(&self, id: &SessionId, message: String) -> (r: Option<AgentEvent>)
        ensures
            r == if self.sessions@.contains(id@) {
                Some(AgentEvent::Error { kind: AgentErrorKind::Internal, message })
            } else {
                None::<AgentEvent>
            },
    {
        if self.knows(id) {
            Some(AgentEvent::Error { kind: AgentErrorKind::Internal, message })
        } else {
            None
        }
    }
}

/// The events of a session's history, none if it has none.
pub open spec fn replayed(
    histories: Seq<History>,
    session: Seq<char>,
    events: Seq<AgentEvent>,
) -> bool {
    ||| exists|i: int| #[trigger] history_at(histories, session, i) && events
        == histories[i].events@
    ||| (forall|i: int| !history_at(histories, session, i)) && events == Seq::<AgentEvent>::empty()
}

proof fn nothing_filtered(histories: Seq<History>, session: Seq<char>)
    requires
        forall|i: int| !history_at(histories, session, i),
    ensures
        histories_without(histories, session) == histories,
    decreases histories.len(),
{
    reveal(Seq::filter);
    if histories.len() > 0 {
        let rest = histories.drop_last();
        assert forall|i: int| !history_at(rest, session, i) by {
            assert(!history_at(histories, session, i));
        }
        nothing_filtered(rest, session);
        assert(!history_at(histories, session, histories.len() - 1));
        assert(histories =~= rest.push(histories.last()));
    }
}

proof fn lone_history_removed(histories: Seq<History>, session: Seq<char>, at: int)
    requires
        history_at(histories, session, at),
        forall|i: int, j: int|
            0 <= i < j < histories.len() ==> (#[trigger] histories[i]).session@ != (
            #[trigger] histories[j]).session@,
    ensures
        histories_without(histories, session) == histories.remove(at),
    decreases histories.len(),
{
    reveal(Seq::filter);
    let rest = histories.drop_last();
    if at == histories.len() - 1 {
        assert forall|i: int| !history_at(rest, session, i) by {
            if history_at(rest, session, i) {
                assert(histories[i].session@ != histories[at].session@);
            }
        }
        nothing_filtered(rest, session);
        assert(histories.remove(at) =~= rest);
    } else {
        assert(history_at(rest, session, at));
        lone_history_removed(rest, session, at);
        assert(histories[at].session@ != histories.last().session@);
        assert(histories.remove(at) =~= rest.remove(at).push(histories.last()));
    }
}

proof fn filtered_lacks(histories: Seq<History>, session: Seq<char>)
    ensures
        forall|i: int| !history_at(histories_without(histories, session), session, i),
    decreases histories.len(),
{
    reveal(Seq::filter);
    if histories.len() > 0 {
        filtered_lacks(histories.drop_last(), session);
        let kept = histories_without(histories, session);
        let before = histories_without(histories.drop_last(), session);
        assert forall|i: int| !history_at(kept, session, i) by {
            assert(!history_at(before, session, i));
        }
    }
}

/// The models to choose from, as a list of the providers to sign in with.
pub open spec fn provider_choice(provider: AuthProviderInfo, choice: ModelInfo) -> bool {
    &&& choice.id == provider.id
    &&& choice.display_name@ == provider.display_name@ + if provider.configured {
        "  ✓ configured"@
    } else {
        ""@
    }
    &&& choice.context_window is None
}

/// The providers to sign in with, those that have credentials marked.
pub fn provider_choices(providers: &Vec<AuthProviderInfo>) -> (r: Vec<ModelInfo>)
    ensures
        r@.len() == providers@.len(),
        forall|i: int| 0 <= i < r@.len() ==> provider_choice(providers@[i], #[trigger] r@[i]),
{
    let mut out: Vec<ModelInfo> = Vec::new();
    let mut i: usize = 0;
    while i < providers.len()
        invariant
            i <= providers@.len(),
            out@.len() == i,
            forall|k: int| 0 <= k < i ==> provider_choice(providers@[k], #[trigger] out@[k]),
        decreases providers@.len() - i,
    {
        let provider: &AuthProviderInfo = &providers[i];
        let mark: &str = if provider.configured {
            "  ✓ configured"
        } else {
            ""
        };
        out.push(
            ModelInfo {
                id: provider.id.clone(),
                display_name: text::joined(provider.display_name.as_str(), mark),
                context_window: None,
            },
        );
        i += 1;
    }
    out
}

/// The event that shows the subscribers what an answer holds.
pub open spec fn told_event(command: Command, response: Response) -> Option<AgentEvent> {
    match command {
        Command::ListRewinds => match response.rewinds {
            Some(checkpoints) => Some(AgentEvent::RewindList { checkpoints }),
            None => None,
        },
        Command::RuntimeResources => match response.resources {
            Some(resources) => Some(AgentEvent::ResourcesChanged { resources }),
            None => None,
        },
        Command::RenameSession { .. } => match response.sessions {
            Some(sessions) => Some(AgentEvent::SessionsChanged { sessions }),
            None => None,
        },
        Command::DeleteSession { .. } => match response.sessions {
            Some(sessions) => Some(AgentEvent::SessionsChanged { sessions }),
            None => None,
        },
        Command::SessionTree { user_only } => match response.tree {
            Some(entries) => Some(AgentEvent::SessionTree { entries, user_only }),
            None => None,
        },
        _ => None,
    }
}

/// An answer that left its list out means an empty one.
pub open spec fn is_empty_event(command: Command, event: AgentEvent) -> bool {
    match (command, event) {
        (Command::ListRewinds, AgentEvent::RewindList { checkpoints }) => checkpoints@.len() == 0,
        (Command::RuntimeResources, AgentEvent::ResourcesChanged { resources }) =>
            resources.commands@.len() == 0 && resources.context_files@.len() == 0
                && resources.extensions@.len() == 0,
        (Command::RenameSession { .. }, AgentEvent::SessionsChanged { sessions }) => sessions@.len()
            == 0,
        (Command::DeleteSession { .. }, AgentEvent::SessionsChanged { sessions }) => sessions@.len()
            == 0,
        (
            Command::SessionTree { user_only },
            AgentEvent::SessionTree { entries, user_only: shown },
        ) => entries@.len() == 0 && shown == user_only,
        _ => false,
    }
}

/// The answer is also shown to the subscribers.
pub open spec fn is_shown(command: Command) -> bool {
    match command {
        Command::ListRewinds => true,
        Command::RuntimeResources => true,
        Command::RenameSession { .. } => true,
        Command::DeleteSession { .. } => true,
        Command::SessionTree { .. } => true,
        _ => false,
    }
}

/// A copy of a request whose answer is shown.
pub fn shown_request(command: &Command) -> (r: Option<Command>)
    ensures
        r == (if is_shown(*command) {
            Some(*command)
        } else {
            None
        }),
{
    match command {
        Command::ListRewinds => Some(Command::ListRewinds),
        Command::RuntimeResources => Some(Command::RuntimeResources),
        Command::RenameSession { target, name } => Some(
            Command::RenameSession { target: target.clone(), name: name.clone() },
        ),
        Command::DeleteSession { target } => Some(
            Command::DeleteSession { target: target.clone() },
        ),
        Command::SessionTree { user_only } => Some(Command::SessionTree { user_only: *user_only }),
        _ => None,
    }
}

/// The event that shows the subscribers what an answer holds; what the answer
/// leaves out is empty.
pub fn shown_answer(command: &Command, response: Response) -> (r: Option<AgentEvent>)
    ensures
        r is Some <==> is_shown(*command),
        told_event(*command, response) is Some ==> r == told_event(*command, response),
        told_event(*command, response) is None && is_shown(*command) ==> is_empty_event(
            *command,
            r->0,
        ),
{
    match command {
        Command::ListRewinds => {
            let checkpoints: Vec<RewindCheckpoint> = match response.rewinds {
                Some(checkpoints) => checkpoints,
                None => Vec::new(),
            };
            Some(AgentEvent::RewindList { checkpoints })
        },
        Command::RuntimeResources => {
            let resources: RuntimeResources = match response.resources {
                Some(resources) => resources,
                None => RuntimeResources::default(),
            };
            Some(AgentEvent::ResourcesChanged { resources })
        },
        Command::RenameSession { .. } => Some(
            AgentEvent::SessionsChanged { sessions: listed_sessions(response) },
        ),
        Command::DeleteSession { .. } => Some(
            AgentEvent::SessionsChanged { sessions: listed_sessions(response) },
        ),
        Command::SessionTree { user_only } => {
            let entries: Vec<SessionTreeEntry> = match response.tree {
                Some(entries) => entries,
                None => Vec::new(),
            };
            Some(AgentEvent::SessionTree { entries, user_only: *user_only })
        },
        _ => None,
    }
}

/// The stored sessions of an answer, none if it leaves them out.
pub fn listed_sessions(response: Response) -> (r: Vec<SessionInfo>)
    ensures
        match response.sessions {
            Some(sessions) => r == sessions,
            None => r@.len() == 0,
        },
{
    match response.sessions {
        Some(sessions) => sessions,
        None => Vec::new(),
    }
}

/// The use of a session, which the answer must hold.
pub fn session_stats(response: Response) -> (r: Result<SessionStats, ConnectionError>)
    ensures
        r == match response.session_info {
            Some(stats) => Ok::<SessionStats, ConnectionError>(stats),
            None => Err::<SessionStats, ConnectionError>(ConnectionError::OmittedSessionInfo),
        },
{
    match response.session_info {
        Some(stats) => Ok(stats),
        None => Err(ConnectionError::OmittedSessionInfo),
    }
}

/// A request is answered at most once: a second answer to it reaches nobody.
pub proof fn replies_come_once(
    pending: Set<Seq<char>>,
    sessions: Set<Seq<char>>,
    first: WireMessage,
    second: WireMessage,
)
    requires
        answered(first) is Some,
        answered(first) == answered(second),
    ensures
        delivered(still_pending(pending, first), sessions, second) == Delivery::Nobody,
{
}

/// An answer to one request leaves every other request waiting.
pub proof fn other_requests_wait_on(pending: Set<Seq<char>>, message: WireMessage, id: Seq<char>)
    requires
        pending.contains(id),
        answered(message) != Some(id),
    ensures
        still_pending(pending, message).contains(id),
{
}

/// A history is replayed once: after a subscription the session has none left.
pub proof fn histories_are_replayed_once(
    histories: Seq<History>,
    session: Seq<char>,
    events: Seq<AgentEvent>,
)
    requires
        replayed(histories_without(histories, session), session, events),
    ensures
        events == Seq::<AgentEvent>::empty(),
{
    filtered_lacks(histories, session);
}

/// Two numbered requests have different numbers.
pub proof fn request_numbers_differ(m: nat, n: nat)
    requires
        m != n,
    ensures
        request_number(m) != request_number(n),
{
    if request_number(m) == request_number(n) {
        let head = "rust-"@;
        assert(text::decimal(m) =~= request_number(m).subrange(
            head.len() as int,
            request_number(m).len() as int,
        ));
        assert(text::decimal(n) =~= request_number(n).subrange(
            head.len() as int,
            request_number(n).len() as int,
        ));
        text::decimal_is_injective(m, n);
    }
}

/// An answer reaches the request that it answers, as it came, and a failure with its message;
/// what nobody waits for reaches nobody.
pub proof fn answers_reach_their_request(
    pending: Set<Seq<char>>,
    sessions: Set<Seq<char>>,
    id: String,
    response: Response,
    words: String,
)
    ensures
        pending.contains(id@) ==> delivered(
            pending,
            sessions,
            WireMessage::Response { request_id: id, response },
        ) == (Delivery::Reply { request_id: id, reply: Ok(response) }),
        pending.contains(id@) ==> delivered(
            pending,
            sessions,
            WireMessage::Error { request_id: Some(id), message: words },
        ) == (Delivery::Reply { request_id: id, reply: Err(words) }),
        !pending.contains(id@) ==> delivered(
            pending,
            sessions,
            WireMessage::Response { request_id: id, response },
        ) is Nobody && delivered(
            pending,
            sessions,
            WireMessage::Error { request_id: Some(id), message: words },
        ) is Nobody,
        !still_pending(pending, WireMessage::Response { request_id: id, response }).contains(id@),
        !still_pending(
            pending,
            WireMessage::Error { request_id: Some(id), message: words },
        ).contains(id@),
{
}

/// An event reaches the subscribers of its session, and nobody where that is not open; no
/// request is answered by it.
pub proof fn events_reach_their_session(
    pending: Set<Seq<char>>,
    sessions: Set<Seq<char>>,
    id: String,
    event: AgentEvent,
)
    ensures
        sessions.contains(id@) ==> delivered(
            pending,
            sessions,
            WireMessage::Event { session_id: id, event },
        ) == (Delivery::Publish { session_id: id, event }),
        !sessions.contains(id@) ==> delivered(
            pending,
            sessions,
            WireMessage::Event { session_id: id, event },
        ) is Nobody,
        still_pending(pending, WireMessage::Event { session_id: id, event }) == pending,
{
}

/// There is always room for a whole history and more.
pub proof fn histories_have_room(history: Vec<AgentEvent>)
    ensures
        channel_room(Some(history)) > history@.len(),
        channel_room(Some(history)) >= 256,
        channel_room(None) >= 256,
{
}

proof fn kept_histories(histories: Seq<History>, session: Seq<char>)
    ensures
        forall|i: int|
            0 <= i < histories_without(histories, session).len() ==> (
            #[trigger] histories_without(histories, session)[i]).session@ != session
                && histories.contains(histories_without(histories, session)[i]),
        forall|i: int|
            0 <= i < histories.len() && histories[i].session@ != session ==> histories_without(
                histories,
                session,
            ).contains(#[trigger] histories[i]),
    decreases histories.len(),
{
    reveal(Seq::filter);
    let some = histories_without(histories, session);
    if histories.len() > 0 {
        let front = histories.drop_last();
        let less = histories_without(front, session);
        kept_histories(front, session);
        assert(some == if histories.last().session@ != session {
            less.push(histories.last())
        } else {
            less
        });
        assert forall|i: int| 0 <= i < some.len() implies (#[trigger] some[i]).session@ != session
            && histories.contains(some[i]) by {
            if i < less.len() {
                assert(some[i] == less[i]);
                let k = choose|k: int| 0 <= k < front.len() && front[k] == less[i];
                assert(histories[k] == some[i]);
            } else {
                assert(histories[histories.len() - 1] == some[i]);
            }
        }
        assert forall|i: int|
            0 <= i < histories.len() && histories[i].session@ != session implies some.contains(
            #[trigger] histories[i],
        ) by {
            if i < front.len() {
                assert(less.contains(front[i]));
                let k = choose|k: int| 0 <= k < less.len() && less[k] == front[i];
                assert(some[k] == histories[i]);
            } else {
                assert(some[less.len() as int] == histories[i]);
            }
        }
    }
}

/// A history that is forgotten is gone, and the others are kept.
pub proof fn other_histories_are_kept(histories: Seq<History>, session: Seq<char>, h: History)
    ensures
        histories_without(histories, session).contains(h) <==> histories.contains(h)
            && h.session@ != session,
{
    let some = histories_without(histories, session);
    kept_histories(histories, session);
    assert forall|h: History| #[trigger] some.contains(h) implies histories.contains(h)
        && h.session@ != session by {
        let i = choose|i: int| 0 <= i < some.len() && some[i] == h;
        assert(some[i] == h);
    }
    if histories.contains(h) && h.session@ != session {
        let i = choose|i: int| 0 <= i < histories.len() && histories[i] == h;
        assert(some.contains(histories[i]));
    }
}

/// A provider to sign in with is offered under its name, and marked where it is configured.
pub proof fn configured_providers_are_marked(provider: AuthProviderInfo, choice: ModelInfo)
    requires
        provider_choice(provider, choice),
    ensures
        choice.id == provider.id,
        text::begins_with(choice.display_name@, provider.display_name@),
        provider.configured <==> choice.display_name@ != provider.display_name@,
{
    reveal_strlit("  ✓ configured");
    reveal_strlit("");
    assert("  ✓ configured"@.len() > 0);
    assert(choice.display_name@.subrange(0, provider.display_name@.len() as int)
        =~= provider.display_name@);
    if !provider.configured {
        assert(choice.display_name@ =~= provider.display_name@);
    }
}

/// What the backend answers is told as it stands: the list that came, under the command that
/// asked for it, and nothing where the answer holds no such list.
pub proof fn answers_are_told_as_they_stand(command: Command, response: Response)
    ensures
        told_event(command, response) is Some ==> is_shown(command),
        command is ListRewinds ==> (told_event(command, response) is Some
            <==> response.rewinds is Some),
        command is RuntimeResources ==> (told_event(command, response) is Some
            <==> response.resources is Some),
        command is RenameSession || command is DeleteSession ==> (told_event(command, response)
            is Some <==> response.sessions is Some),
        command is SessionTree ==> (told_event(command, response) is Some
            <==> response.tree is Some),
        told_event(command, response) matches Some(event) ==> {
            &&& event is RewindList ==> command is ListRewinds && response.rewinds == Some(
                event->RewindList_checkpoints,
            )
            &&& event is ResourcesChanged ==> command is RuntimeResources && response.resources
                == Some(event->ResourcesChanged_resources)
            &&& event is SessionsChanged ==> (command is RenameSession || command is DeleteSession)
                && response.sessions == Some(event->SessionsChanged_sessions)
            &&& event is SessionTree ==> command is SessionTree && response.tree == Some(
                event->SessionTree_entries,
            ) && event->SessionTree_user_only == command->SessionTree_user_only
            &&& event is RewindList || event is ResourcesChanged || event is SessionsChanged
                || event is SessionTree
        },
{
}

/// What is told of an answer without its list holds nothing, and is the same kind of news.
pub proof fn empty_answers_are_told_as_empty(command: Command, event: AgentEvent)
    requires
        is_empty_event(command, event),
    ensures
        is_shown(command),
        command is ListRewinds <==> event is RewindList,
        command is RuntimeResources <==> event is ResourcesChanged,
        command is RenameSession || command is DeleteSession <==> event is SessionsChanged,
        command is SessionTree <==> event is SessionTree,
        event is RewindList ==> event->RewindList_checkpoints@.len() == 0,
        event is ResourcesChanged ==> event->ResourcesChanged_resources.commands@.len() == 0
            && event->ResourcesChanged_resources.context_files@.len() == 0
            && event->ResourcesChanged_resources.extensions@.len() == 0,
        event is SessionsChanged ==> event->SessionsChanged_sessions@.len() == 0,
        event is SessionTree ==> event->SessionTree_entries@.len() == 0
            && event->SessionTree_user_only == command->SessionTree_user_only,
{
}

} // verus!
