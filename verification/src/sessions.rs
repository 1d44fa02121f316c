//! The lists of stored sessions: the picker and the dashboard.

use vstd::prelude::*;

use crate::geometry;
use crate::geometry::Rect;
use crate::harness::RuntimeSessionInfo;
use crate::harness::SessionInfo;
use crate::state_types::SessionSort;
use crate::text;

verus! {

broadcast use vstd::string::group_string_axioms;

/// The stored sessions, which of them are resident, and how they are listed.
#[derive(Clone, Debug)]
pub struct SessionList {
    pub available_sessions: Vec<SessionInfo>,
    pub runtime_sessions: Vec<RuntimeSessionInfo>,
    pub session_sort: SessionSort,
    pub session_named_only: bool,
    pub session_show_path: bool,
    pub pending_session_path: Option<String>,
    pub dashboard_selected: usize,
    pub dashboard_list_rect: Option<Rect>,
}

/// No sessions, listed as they come.
pub open spec fn fresh(s: SessionList) -> bool {
    &&& s.available_sessions@.len() == 0
    &&& s.runtime_sessions@.len() == 0
    &&& s.session_sort == SessionSort::Threaded
    &&& !s.session_named_only
    &&& !s.session_show_path
    &&& s.pending_session_path is None
    &&& s.dashboard_selected == 0
    &&& s.dashboard_list_rect is None
}

impl Default for SessionList {
    fn default() -> (r: Self)
        ensures
            fresh(r),
    {
        SessionList {
            available_sessions: Vec::new(),
            runtime_sessions: Vec::new(),
            session_sort: SessionSort::Threaded,
            session_named_only: false,
            session_show_path: false,
            pending_session_path: None,
            dashboard_selected: 0,
            dashboard_list_rect: None,
        }
    }
}

/// A query occurs in a text, whatever the case of its ASCII letters. An empty
/// query occurs everywhere.
pub open spec fn found(query: Seq<char>, s: Seq<char>) -> bool {
    text::occurs_in(text::ascii_lowered(query), text::ascii_lowered(s))
}

/// Whether a query occurs in a text.
pub fn finds(query: &str, s: &str) -> (r: bool)
    ensures
        r == found(query@, s@),
{
    text::contains(text::to_ascii_lower(s).as_str(), text::to_ascii_lower(query).as_str())
}

/// The title of a session: its name, or its first message.
pub open spec fn title(session: SessionInfo) -> Seq<char> {
    match session.name {
        Some(name) => name@,
        None => session.first_message@,
    }
}

/// A session is listed: the query occurs in its title or its first message,
/// and it has a name if only those are asked for.
pub open spec fn listed(list: SessionList, query: Seq<char>, i: int) -> bool {
    let session = list.available_sessions@[i];
    &&& 0 <= i < list.available_sessions@.len()
    &&& list.session_named_only ==> session.name is Some
    &&& found(query, title(session)) || found(query, session.first_message@)
}

/// A session stands in front of another one.
pub open spec fn ahead(list: SessionList, i: int, j: int) -> bool {
    match list.session_sort {
        SessionSort::Threaded => i < j,
        SessionSort::Recent => {
            let a = list.available_sessions@[i].modified_at_ms;
            let b = list.available_sessions@[j].modified_at_ms;
            a > b || (a == b && i < j)
        },
    }
}

/// The places of the sessions listed, in the order of the list.
pub open spec fn listing(list: SessionList, query: Seq<char>, places: Seq<usize>) -> bool {
    &&& forall|k: int| 0 <= k < places.len() ==> listed(list, query, #[trigger] places[k] as int)
    &&& forall|i: int| #[trigger]
        listed(list, query, i) ==> exists|k: int| 0 <= k < places.len() && places[k] == i
    &&& forall|a: int, b: int|
        0 <= a < b < places.len() ==> ahead(
            list,
            #[trigger] places[a] as int,
            #[trigger] places[b] as int,
        )
}

fn session_listed(list: &SessionList, query: &str, i: usize) -> (r: bool)
    requires
        i < list.available_sessions@.len(),
    ensures
        r == listed(*list, query@, i as int),
{
    let session: &SessionInfo = &list.available_sessions[i];
    if list.session_named_only && session.name.is_none() {
        return false;
    }
    let in_title: bool = match &session.name {
        Some(name) => finds(query, name.as_str()),
        None => false,
    };
    in_title || finds(query, session.first_message.as_str())
}

impl SessionList {
    /// The sessions that a query lists, in the order of the list.
    pub fn filtered(&self, query: &str) -> (r: Vec<usize>)
        ensures
            listing(*self, query@, r@),
    {
        let mut places: Vec<usize> = Vec::new();
        let mut i: usize = 0;
        while i < self.available_sessions.len()
            invariant
                i <= self.available_sessions@.len(),
                forall|k: int|
                    0 <= k < places@.len() ==> listed(*self, query@, #[trigger] places@[k] as int)
                        && places@[k] < i,
                forall|j: int|
                    0 <= j < i && #[trigger] listed(*self, query@, j) ==> exists|k: int|
                        0 <= k < places@.len() && places@[k] == j,
                forall|a: int, b: int|
                    0 <= a < b < places@.len() ==> ahead(
                        *self,
                        #[trigger] places@[a] as int,
                        #[trigger] places@[b] as int,
                    ),
            decreases self.available_sessions@.len() - i,
        {
            if session_listed(self, query, i) {
                let mut at: usize = places.len();
                if self.session_sort == SessionSort::Recent {
                    while at > 0 && self.available_sessions[places[at - 1]].modified_at_ms
                        < self.available_sessions[i].modified_at_ms
                        invariant
                            i < self.available_sessions@.len(),
                            at <= places@.len(),
                            self.session_sort == SessionSort::Recent,
                            forall|k: int|
                                0 <= k < places@.len() ==> #[trigger] places@[k] < i,
                            forall|k: int|
                                at <= k < places@.len() ==> self.available_sessions@[
                                    #[trigger] places@[k] as int
                                ].modified_at_ms
                                    < self.available_sessions@[i as int].modified_at_ms,
                        decreases at,
                    {
                        at -= 1;
                    }
                }
                let ghost before = places@;
                places.insert(at, i);
                proof {
                    assert forall|k: int| 0 <= k < places@.len() implies listed(
                        *self,
                        query@,
                        #[trigger] places@[k] as int,
                    ) && places@[k] < i + 1 by {
                        if k < at {
                            assert(places@[k] == before[k]);
                        } else if k > at {
                            assert(places@[k] == before[k - 1]);
                        }
                    }
                    assert forall|j: int|
                        0 <= j < i + 1 && #[trigger] listed(*self, query@, j) implies exists|k: int|
                        0 <= k < places@.len() && places@[k] == j by {
                        if j == i {
                            assert(places@[at as int] == j);
                        } else {
                            let k = choose|k: int| 0 <= k < before.len() && before[k] == j;
                            if k < at {
                                assert(places@[k] == j);
                            } else {
                                assert(places@[k + 1] == j);
                            }
                        }
                    }
                    assert forall|a: int, b: int| 0 <= a < b < places@.len() implies ahead(
                        *self,
                        #[trigger] places@[a] as int,
                        #[trigger] places@[b] as int,
                    ) by {
                        let x = if a < at {
                            a
                        } else {
                            a - 1
                        };
                        let y = if b < at {
                            b
                        } else {
                            b - 1
                        };
                        if a == at {
                            assert(places@[b] == before[y]);
                        } else if b == at {
                            assert(places@[a] == before[a]);
                            if self.session_sort == SessionSort::Recent && at > 0 {
                                assert(before[at - 1] < i);
                                if a < at - 1 {
                                    assert(ahead(
                                        *self,
                                        before[a] as int,
                                        before[at - 1] as int,
                                    ));
                                }
                            }
                        } else {
                            assert(places@[a] == before[x]);
                            assert(places@[b] == before[y]);
                        }
                    }
                }
            }
            i += 1;
        }
        proof {
            assert forall|j: int| #[trigger] listed(*self, query@, j) implies exists|k: int|
                0 <= k < places@.len() && places@[k] == j by {}
        }
        places
    }

    /// The row of a session in the picker: its title, and its path if asked for.
    pub open spec fn row_text(self, i: int) -> Seq<char> {
        let session = self.available_sessions@[i];
        if self.session_show_path {
            title(session) + "  ·  "@ + session.path@
        } else {
            title(session)
        }
    }

    /// The row of a session in the picker.
    pub fn session_row(&self, i: usize) -> (r: String)
        requires
            i < self.available_sessions@.len(),
        ensures
            r@ == self.row_text(i as int),
    {
        let session: &SessionInfo = &self.available_sessions[i];
        let shown: String = match &session.name {
            Some(name) => name.clone(),
            None => session.first_message.clone(),
        };
        if self.session_show_path {
            text::joined3(shown.as_str(), "  ·  ", session.path.as_str())
        } else {
            shown
        }
    }

    /// The session at a place has become the current one.
    pub open spec fn made_current(before: Seq<SessionInfo>, i: int) -> Seq<SessionInfo> {
        Seq::new(before.len(), |k: int| SessionInfo { current: k == i, ..before[k] })
    }

    /// Makes a session the current one.
    pub fn make_current(&mut self, i: usize)
        ensures
            *final(self) == (SessionList {
                available_sessions: final(self).available_sessions,
                ..*old(self)
            }),
            final(self).available_sessions@ == SessionList::made_current(
                old(self).available_sessions@,
                i as int,
            ),
    {
        let ghost before = self.available_sessions@;
        let mut k: usize = 0;
        while k < self.available_sessions.len()
            invariant
                *self == (SessionList {
                    available_sessions: self.available_sessions,
                    ..*old(self)
                }),
                before == old(self).available_sessions@,
                k <= before.len() == self.available_sessions@.len(),
                forall|j: int|
                    0 <= j < k ==> #[trigger] self.available_sessions@[j] == (SessionInfo {
                        current: j == i,
                        ..before[j]
                    }),
                forall|j: int|
                    k <= j < before.len() ==> #[trigger] self.available_sessions@[j] == before[j],
            decreases before.len() - k,
        {
            self.available_sessions[k].current = k == i;
            k += 1;
        }
        assert(self.available_sessions@ =~= SessionList::made_current(before, i as int));
    }

    /// The resident state of a session: the first one with its path.
    pub open spec fn resident(self, path: Seq<char>, k: int) -> bool {
        &&& 0 <= k < self.runtime_sessions@.len()
        &&& self.runtime_sessions@[k].path@ == path
        &&& forall|j: int| 0 <= j < k ==> (#[trigger] self.runtime_sessions@[j]).path@ != path
    }

    /// The place of the resident state of a session.
    pub fn find_resident(&self, path: &str) -> (r: Option<usize>)
        ensures
            match r {
                Some(k) => self.resident(path@, k as int),
                None => forall|k: int| !self.resident(path@, k),
            },
    {
        let mut k: usize = 0;
        while k < self.runtime_sessions.len()
            invariant
                k <= self.runtime_sessions@.len(),
                forall|j: int|
                    0 <= j < k ==> (#[trigger] self.runtime_sessions@[j]).path@ != path@,
            decreases self.runtime_sessions@.len() - k,
        {
            if text::same_text(self.runtime_sessions[k].path.as_str(), path) {
                return Some(k);
            }
            k += 1;
        }
        None
    }

    /// One of the resident sessions runs.
    pub open spec fn running(self) -> bool {
        exists|k: int|
            0 <= k < self.runtime_sessions@.len() && (
            #[trigger] self.runtime_sessions@[k]).status@ == "running"@
    }

    /// Whether a resident session is running.
    pub fn any_running(&self) -> (r: bool)
        ensures
            r == self.running(),
    {
        let mut k: usize = 0;
        while k < self.runtime_sessions.len()
            invariant
                k <= self.runtime_sessions@.len(),
                forall|j: int|
                    0 <= j < k ==> (#[trigger] self.runtime_sessions@[j]).status@ != "running"@,
            decreases self.runtime_sessions@.len() - k,
        {
            if text::same_text(self.runtime_sessions[k].status.as_str(), "running") {
                return true;
            }
            k += 1;
        }
        false
    }
}

/// What can be done with the session selected on the dashboard.
#[derive(Clone, Copy, Debug, PartialEq, Eq, Structural)]
pub struct DashboardActions {
    pub stop: bool,
    pub close: bool,
    pub delete: bool,
}

/// A running session can be stopped, a resident one closed, and one that is
/// neither resident nor current deleted.
pub open spec fn actions_of(list: SessionList) -> DashboardActions {
    let i = list.dashboard_selected as int;
    let path = list.available_sessions@[i].path@;
    if i >= list.available_sessions@.len() {
        DashboardActions { stop: false, close: false, delete: false }
    } else {
        DashboardActions {
            stop: exists|k: int| #[trigger]
                list.resident(path, k) && list.runtime_sessions@[k].status@ == "running"@,
            close: exists|k: int| #[trigger] list.resident(path, k),
            delete: !list.available_sessions@[i].current && !exists|k: int| #[trigger]
                list.resident(path, k),
        }
    }
}

/// The session that a row of the dashboard's list shows, with the selected
/// one in its middle where possible.
pub open spec fn session_at_row(list: SessionList, row: int, rows: int) -> Option<usize> {
    let total = list.available_sessions@.len() as int;
    let at = geometry::window_start(list.dashboard_selected as int, total, rows) + row;
    if at < total {
        Some(at as usize)
    } else {
        None
    }
}

impl SessionList {
    /// What can be done with the selected session.
    pub fn dashboard_actions(&self) -> (r: DashboardActions)
        ensures
            r == actions_of(*self),
    {
        let i: usize = self.dashboard_selected;
        if i >= self.available_sessions.len() {
            return DashboardActions { stop: false, close: false, delete: false };
        }
        let ghost path = self.available_sessions@[i as int].path@;
        match self.find_resident(self.available_sessions[i].path.as_str()) {
            Some(k) => {
                let stop: bool = text::same_text(
                    self.runtime_sessions[k].status.as_str(),
                    "running",
                );
                assert(self.resident(path, k as int));
                assert forall|j: int| #[trigger] self.resident(path, j) implies j == k by {}
                DashboardActions { stop, close: true, delete: false }
            },
            None => DashboardActions {
                stop: false,
                close: false,
                delete: !self.available_sessions[i].current,
            },
        }
    }

    /// The path of the selected session.
    pub fn dashboard_selected_path(&self) -> (r: Option<String>)
        ensures
            match r {
                Some(path) => self.dashboard_selected < self.available_sessions@.len() && path
                    == self.available_sessions@[self.dashboard_selected as int].path,
                None => self.dashboard_selected >= self.available_sessions@.len(),
            },
    {
        if self.dashboard_selected < self.available_sessions.len() {
            Some(self.available_sessions[self.dashboard_selected].path.clone())
        } else {
            None
        }
    }

    /// The session that a row of the dashboard's list shows.
    pub fn dashboard_session_at_row(&self, row: usize, rows: usize) -> (r: Option<usize>)
        ensures
            r == session_at_row(*self, row as int, rows as int),
    {
        let total: usize = self.available_sessions.len();
        let start: usize = geometry::centered_window(self.dashboard_selected, total, rows);
        if start < total && row < total - start {
            Some(start + row)
        } else {
            None
        }
    }

    /// Makes the selected session the current one. Its path, if it was not
    /// current yet.
    pub fn activate_dashboard_session(&mut self) -> (r: Option<String>)
        ensures
            *final(self) == (SessionList {
                available_sessions: final(self).available_sessions,
                ..*old(self)
            }),
            match r {
                Some(path) => {
                    let i = old(self).dashboard_selected as int;
                    &&& i < old(self).available_sessions@.len()
                    &&& !old(self).available_sessions@[i].current
                    &&& path == old(self).available_sessions@[i].path
                    &&& final(self).available_sessions@ == SessionList::made_current(
                        old(self).available_sessions@,
                        i,
                    )
                },
                None => {
                    let i = old(self).dashboard_selected as int;
                    &&& i >= old(self).available_sessions@.len() || old(
                        self,
                    ).available_sessions@[i].current
                    &&& *final(self) == *old(self)
                },
            },
    {
        let i: usize = self.dashboard_selected;
        if i < self.available_sessions.len() && !self.available_sessions[i].current {
            let path: String = self.available_sessions[i].path.clone();
            self.make_current(i);
            Some(path)
        } else {
            None
        }
    }
}

/// A query is found in every text that holds it, whatever the case of its letters, and an
/// empty one everywhere.
pub proof fn queries_are_found(query: Seq<char>, a: Seq<char>, b: Seq<char>)
    ensures
        found(query, a + query + b),
        found(Seq::empty(), a),
        found(text::ascii_lowered(query), a + query + b),
{
    let all = text::ascii_lowered(a + query + b);
    let low = text::ascii_lowered(query);
    assert(all.subrange(a.len() as int, (a.len() + query.len()) as int) =~= low);
    assert(text::has_at(all, low, a.len() as int));
    let twice = text::ascii_lowered(low);
    assert(twice =~= low) by {
        assert forall|i: int| 0 <= i < low.len() implies twice[i] == low[i] by {}
    }
    let some = text::ascii_lowered(a);
    let none = text::ascii_lowered(Seq::<char>::empty());
    assert(some.subrange(0, 0) =~= none);
    assert(text::has_at(some, none, 0));
}

/// The list holds each session that is looked for once: as they come, or the one that was
/// changed last in front.
pub proof fn recent_sessions_come_first(
    list: SessionList,
    query: Seq<char>,
    places: Seq<usize>,
    a: int,
    b: int,
)
    requires
        listing(list, query, places),
        0 <= a < b < places.len(),
    ensures
        places[a] != places[b],
        list.session_sort is Threaded ==> places[a] < places[b],
        list.session_sort is Recent ==> list.available_sessions@[places[a] as int].modified_at_ms
            >= list.available_sessions@[places[b] as int].modified_at_ms,
{
    assert(ahead(list, places[a] as int, places[b] as int));
}

/// With nothing looked for, all sessions are listed, or all that have a name.
pub proof fn all_sessions_are_listed(list: SessionList, places: Seq<usize>, i: int)
    requires
        listing(list, Seq::empty(), places),
        0 <= i < list.available_sessions@.len(),
    ensures
        (exists|k: int| 0 <= k < places.len() && #[trigger] places[k] == i) <==> (
        !list.session_named_only || list.available_sessions@[i].name is Some),
{
    queries_are_found(Seq::empty(), title(list.available_sessions@[i]), Seq::empty());
    let session = list.available_sessions@[i];
    assert(title(session) + Seq::<char>::empty() + Seq::<char>::empty() =~= title(session));
    if !list.session_named_only || session.name is Some {
        assert(listed(list, Seq::empty(), i));
    }
    if exists|k: int| 0 <= k < places.len() && #[trigger] places[k] == i {
        let k = choose|k: int| 0 <= k < places.len() && #[trigger] places[k] == i;
        assert(listed(list, Seq::empty(), places[k] as int));
    }
}

/// A session is called by its name, and one without a name by its first message.
pub proof fn sessions_are_called_by_their_name(session: SessionInfo)
    ensures
        session.name matches Some(name) ==> title(session) == name@,
        session.name is None ==> title(session) == session.first_message@,
{
}

/// A row begins with the title of its session, and ends with its path where that is asked for.
pub proof fn rows_show_the_title(list: SessionList, i: int)
    ensures
        text::begins_with(list.row_text(i), title(list.available_sessions@[i])),
        list.session_show_path ==> text::finishes_with(
            list.row_text(i),
            list.available_sessions@[i].path@,
        ),
        !list.session_show_path ==> list.row_text(i) == title(list.available_sessions@[i]),
{
    let row = list.row_text(i);
    let words = title(list.available_sessions@[i]);
    let path = list.available_sessions@[i].path@;
    assert(row.subrange(0, words.len() as int) =~= words);
    if list.session_show_path {
        assert(row.subrange(row.len() - path.len(), row.len() as int) =~= path);
    }
}

/// One session is the current one, and nothing else of the sessions changes.
pub proof fn one_session_is_current(before: Seq<SessionInfo>, i: int, k: int)
    requires
        0 <= k < before.len(),
    ensures
        SessionList::made_current(before, i).len() == before.len(),
        SessionList::made_current(before, i)[k].current == (k == i),
        SessionList::made_current(before, i)[k].path == before[k].path,
        SessionList::made_current(before, i)[k].id == before[k].id,
        SessionList::made_current(before, i)[k].name == before[k].name,
{
}

/// Only a running session can be stopped, only a resident one closed, and neither the current
/// session nor a resident one deleted.
pub proof fn sessions_in_use_are_not_deleted(list: SessionList, k: int)
    requires
        list.dashboard_selected < list.available_sessions@.len(),
    ensures
        ({
            let session = list.available_sessions@[list.dashboard_selected as int];
            let can = actions_of(list);
            &&& session.current ==> !can.delete
            &&& can.stop ==> can.close
            &&& can.close ==> !can.delete
            &&& 0 <= k < list.runtime_sessions@.len() && list.runtime_sessions@[k].path@
                == session.path@ && (forall|j: int|
                0 <= j < k ==> (#[trigger] list.runtime_sessions@[j]).path@ != session.path@) ==> {
                &&& can.close
                &&& can.stop == (list.runtime_sessions@[k].status@ == "running"@)
            }
            &&& !session.current && (forall|j: int|
                0 <= j < list.runtime_sessions@.len() ==> (
                #[trigger] list.runtime_sessions@[j]).path@ != session.path@) ==> can.delete
                && !can.close && !can.stop
        }),
{
    let session = list.available_sessions@[list.dashboard_selected as int];
    let path = session.path@;
    if 0 <= k < list.runtime_sessions@.len() && list.runtime_sessions@[k].path@ == path && (forall|
        j: int,
    |
        0 <= j < k ==> (#[trigger] list.runtime_sessions@[j]).path@ != path) {
        assert(list.resident(path, k));
        assert forall|m: int| #[trigger] list.resident(path, m) implies m == k by {
            if m < k {
                assert(list.runtime_sessions@[m].path@ != path);
            } else if k < m {
                assert(list.runtime_sessions@[k].path@ != path);
            }
        }
    }
}

} // verus!
