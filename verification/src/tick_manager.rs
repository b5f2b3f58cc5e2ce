//! The tick manager: a counter of ticks at a fixed rate, and the sessions and
//! clients that follow it.

use crate::clock::unix_millis;
use crate::text::{joined, str_eq};
use vstd::prelude::*;

verus! {

/// What is sent to every client at a tick.
#[derive(Debug, Clone, Copy, PartialEq, Eq, Structural)]
pub struct TickEvent {
    pub tick: u64,
    pub timestamp: u64,
    pub delta_time: u64,
}

/// What is sent to the clients of one session at a tick.
#[derive(Debug)]
pub struct SessionTickEvent {
    pub session_id: String,
    pub tick: u64,
    pub timestamp: u64,
    pub delta_time: u64,
    pub client_count: usize,
}

/// The state of a tick manager in short.
#[derive(Debug, Clone, Copy, PartialEq, Eq, Structural)]
pub struct TickManagerStatus {
    pub is_running: bool,
    pub current_tick: u64,
    pub tick_rate: u32,
    pub active_sessions: usize,
    pub total_clients: usize,
}

/// One session: its name, the last tick it has seen and its clients.
struct SessionInfo {
    id: String,
    last_tick: u64,
    clients: Vec<String>,
}

/// A session as mathematical values.
pub struct SessionView {
    pub id: Seq<char>,
    pub last_tick: u64,
    pub clients: Seq<Seq<char>>,
}

/// A tick manager as mathematical values. The sessions stand in the order in
/// which they were registered.
pub struct TickManagerView {
    pub tick_rate: u32,
    pub current_tick: u64,
    pub last_tick_time: u64,
    pub is_running: bool,
    pub sessions: Seq<SessionView>,
}

/// The names of the sessions, in order.
pub open spec fn session_ids(sessions: Seq<SessionView>) -> Seq<Seq<char>> {
    sessions.map_values(|s: SessionView| s.id)
}

/// No session is registered twice, and no client is twice in a session.
pub open spec fn sessions_wf(sessions: Seq<SessionView>) -> bool {
    &&& session_ids(sessions).no_duplicates()
    &&& forall|i: int| 0 <= i < sessions.len() ==> (#[trigger] sessions[i]).clients.no_duplicates()
}

/// Whether a session of this name is registered.
pub open spec fn has_session(sessions: Seq<SessionView>, id: Seq<char>) -> bool {
    session_ids(sessions).contains(id)
}

/// The place of the session of this name, which must be registered.
pub open spec fn session_index(sessions: Seq<SessionView>, id: Seq<char>) -> int {
    session_ids(sessions).index_of(id)
}

/// The clients of all sessions together.
pub open spec fn total_clients(sessions: Seq<SessionView>) -> nat
    decreases sessions.len(),
{
    if sessions.len() == 0 {
        0
    } else {
        total_clients(sessions.drop_last()) + sessions.last().clients.len()
    }
}

/// The time between two ticks: nothing before the first tick, and nothing
/// where the clock has gone back.
pub open spec fn tick_delta(last_tick_time: u64, now: u64) -> u64 {
    if last_tick_time > 0 && now >= last_tick_time {
        (now - last_tick_time) as u64
    } else {
        0
    }
}

/// The sessions after a tick: each has seen the tick `tick`.
pub open spec fn sessions_at_tick(sessions: Seq<SessionView>, tick: u64) -> Seq<SessionView> {
    sessions.map_values(|s: SessionView| SessionView { id: s.id, last_tick: tick, clients: s.clients })
}

/// The manager after the tick that the clock reading `now` brings.
pub open spec fn advanced(m: TickManagerView, now: u64) -> TickManagerView {
    TickManagerView {
        tick_rate: m.tick_rate,
        current_tick: (m.current_tick + 1) as u64,
        last_tick_time: now,
        is_running: m.is_running,
        sessions: sessions_at_tick(m.sessions, (m.current_tick + 1) as u64),
    }
}

/// The sessions after a session named `id` has been registered at tick `tick`.
pub open spec fn with_session(sessions: Seq<SessionView>, id: Seq<char>, tick: u64) -> Seq<SessionView> {
    if has_session(sessions, id) {
        sessions
    } else {
        sessions.push(SessionView { id, last_tick: tick, clients: Seq::empty() })
    }
}

/// The sessions without the one named `id`.
pub open spec fn without_session(sessions: Seq<SessionView>, id: Seq<char>) -> Seq<SessionView> {
    if has_session(sessions, id) {
        sessions.remove(session_index(sessions, id))
    } else {
        sessions
    }
}

/// The sessions after the client `client` has joined the session `id`.
pub open spec fn with_client(sessions: Seq<SessionView>, id: Seq<char>, client: Seq<char>) -> Seq<SessionView> {
    if has_session(sessions, id) {
        let i = session_index(sessions, id);
        let s = sessions[i];
        if s.clients.contains(client) {
            sessions
        } else {
            sessions.update(i, SessionView { id: s.id, last_tick: s.last_tick, clients: s.clients.push(client) })
        }
    } else {
        sessions
    }
}

/// The sessions after the client `client` has left the session `id`: a
/// session that is left without clients is removed.
pub open spec fn without_client(sessions: Seq<SessionView>, id: Seq<char>, client: Seq<char>) -> Seq<SessionView> {
    if has_session(sessions, id) {
        let i = session_index(sessions, id);
        let s = sessions[i];
        let left = if s.clients.contains(client) {
            s.clients.remove(s.clients.index_of(client))
        } else {
            s.clients
        };
        if left.len() == 0 {
            sessions.remove(i)
        } else {
            sessions.update(i, SessionView { id: s.id, last_tick: s.last_tick, clients: left })
        }
    } else {
        sessions
    }
}

/// A tick read as a signed 64-bit number in two's complement.
pub open spec fn as_signed(tick: u64) -> int {
    if tick <= 0x7fff_ffff_ffff_ffff {
        tick as int
    } else {
        tick - 0x1_0000_0000_0000_0000
    }
}

/// How far a client's tick lies behind the manager's, both read as signed
/// 64-bit numbers.
pub open spec fn tick_difference(current_tick: u64, client_tick: u64) -> int {
    as_signed(current_tick) - as_signed(client_tick)
}

/// The event that each session gets, in the order of the sessions.
pub open spec fn session_events(m: TickManagerView, now: u64) -> Seq<SessionTickEventView> {
    m.sessions.map_values(
        |s: SessionView|
            SessionTickEventView {
                session_id: s.id,
                tick: m.current_tick,
                timestamp: now,
                delta_time: tick_delta(m.last_tick_time, now),
                client_count: s.clients.len(),
            },
    )
}

/// A session's tick event as mathematical values.
pub struct SessionTickEventView {
    pub session_id: Seq<char>,
    pub tick: u64,
    pub timestamp: u64,
    pub delta_time: u64,
    pub client_count: nat,
}

impl View for SessionTickEvent {
    type V = SessionTickEventView;

    open spec fn view(&self) -> SessionTickEventView {
        SessionTickEventView {
            session_id: self.session_id@,
            tick: self.tick,
            timestamp: self.timestamp,
            delta_time: self.delta_time,
            client_count: self.client_count as nat,
        }
    }
}

impl DeepView for SessionTickEvent {
    type V = SessionTickEventView;

    open spec fn deep_view(&self) -> SessionTickEventView {
        self@
    }
}

impl View for SessionInfo {
    type V = SessionView;

    closed spec fn view(&self) -> SessionView {
        SessionView { id: self.id@, last_tick: self.last_tick, clients: self.clients.deep_view() }
    }
}

impl DeepView for SessionInfo {
    type V = SessionView;

    closed spec fn deep_view(&self) -> SessionView {
        self@
    }
}

/// The manager of ticks. It counts ticks at a fixed rate and keeps, for each
/// registered session, the last tick that the session has seen and the
/// session's clients.
pub struct TickManager {
    tick_rate: u32,
    current_tick: u64,
    last_tick_time: u64,
    is_running: bool,
    sessions: Vec<SessionInfo>,
}

impl View for TickManager {
    type V = TickManagerView;

    closed spec fn view(&self) -> TickManagerView {
        TickManagerView {
            tick_rate: self.tick_rate,
            current_tick: self.current_tick,
            last_tick_time: self.last_tick_time,
            is_running: self.is_running,
            sessions: self.sessions.deep_view(),
        }
    }
}

/// In well-formed sessions, a session's name leads back to its place.
pub proof fn lemma_session_index(sessions: Seq<SessionView>, i: int)
    requires
        session_ids(sessions).no_duplicates(),
        0 <= i < sessions.len(),
    ensures
        has_session(sessions, sessions[i].id),
        session_index(sessions, sessions[i].id) == i,
{
    let ids = session_ids(sessions);
    assert(ids[i] == sessions[i].id);
    let j = ids.index_of(sessions[i].id);
    assert(0 <= j < ids.len() && ids[j] == sessions[i].id);
}

/// A tick read as a signed 64-bit number.
fn signed_tick(tick: u64) -> (r: i64)
    ensures
        r == as_signed(tick),
{
    if tick <= 0x7fff_ffff_ffff_ffff {
        tick as i64
    } else {
        let low: u64 = tick - 0x8000_0000_0000_0000;
        let low_signed: i64 = low as i64;
        low_signed + i64::MIN
    }
}

/// The place of `id` in a list of strings, if it is there.
fn position(list: &Vec<String>, id: &str) -> (r: Option<usize>)
    ensures
        match r {
            Some(i) => i < list.len() && list[i as int]@ == id@,
            None => !list.deep_view().contains(id@),
        },
{
    let mut i: usize = 0;
    while i < list.len()
        invariant
            i <= list.len(),
            forall|j: int| 0 <= j < i ==> list[j]@ != id@,
        decreases list.len() - i,
    {
        if str_eq(list[i].as_str(), id) {
            return Some(i);
        }
        i = i + 1;
    }
    assert forall|j: int| 0 <= j < list.deep_view().len() implies list.deep_view()[j] != id@ by {
        assert(list.deep_view()[j] == list[j]@);
    }
    None
}

/// Removing a session keeps the others well-formed.
pub proof fn lemma_remove_keeps_wf(sessions: Seq<SessionView>, i: int)
    requires
        sessions_wf(sessions),
        0 <= i < sessions.len(),
    ensures
        sessions_wf(sessions.remove(i)),
        !has_session(sessions.remove(i), sessions[i].id),
{
    let rest = sessions.remove(i);
    let ids = session_ids(sessions);
    assert(session_ids(rest) =~= ids.remove(i));
    assert forall|a: int, b: int|
        0 <= a < rest.len() && 0 <= b < rest.len() && a != b implies session_ids(rest)[a]
        != session_ids(rest)[b] by {
        let a0 = if a < i { a } else { a + 1 };
        let b0 = if b < i { b } else { b + 1 };
        assert(session_ids(rest)[a] == ids[a0]);
        assert(session_ids(rest)[b] == ids[b0]);
    }
    assert forall|a: int| 0 <= a < rest.len() implies session_ids(rest)[a] != sessions[i].id by {
        let a0 = if a < i { a } else { a + 1 };
        assert(session_ids(rest)[a] == ids[a0]);
        assert(ids[i] == sessions[i].id);
    }
    assert forall|a: int| 0 <= a < rest.len() implies (#[trigger] rest[a]).clients.no_duplicates() by {
        let a0 = if a < i { a } else { a + 1 };
        assert(rest[a] == sessions[a0]);
    }
}

/// Changing the clients of one session, to a list without repetition, keeps
/// the sessions well-formed and every name in its place.
pub proof fn lemma_update_keeps_wf(sessions: Seq<SessionView>, i: int, clients: Seq<Seq<char>>)
    requires
        sessions_wf(sessions),
        0 <= i < sessions.len(),
        clients.no_duplicates(),
    ensures
        sessions_wf(
            sessions.update(
                i,
                SessionView { id: sessions[i].id, last_tick: sessions[i].last_tick, clients },
            ),
        ),
{
    let s = SessionView { id: sessions[i].id, last_tick: sessions[i].last_tick, clients };
    let next = sessions.update(i, s);
    assert(session_ids(next) =~= session_ids(sessions)) by {
        assert forall|a: int| 0 <= a < next.len() implies session_ids(next)[a] == session_ids(
            sessions,
        )[a] by {
            if a != i {
                assert(next[a] == sessions[a]);
            }
        }
    }
    assert forall|a: int| 0 <= a < next.len() implies (#[trigger] next[a]).clients.no_duplicates() by {
        if a != i {
            assert(next[a] == sessions[a]);
        }
    }
}

/// A list without repetition stays one when an item leaves, and the item is
/// then no longer in it.
pub proof fn lemma_remove_item(list: Seq<Seq<char>>, j: int)
    requires
        list.no_duplicates(),
        0 <= j < list.len(),
    ensures
        list.remove(j).no_duplicates(),
        !list.remove(j).contains(list[j]),
        list.index_of(list[j]) == j,
{
    let rest = list.remove(j);
    assert forall|a: int, b: int| 0 <= a < rest.len() && 0 <= b < rest.len() && a != b implies rest[a]
        != rest[b] by {
        let a0 = if a < j { a } else { a + 1 };
        let b0 = if b < j { b } else { b + 1 };
        assert(rest[a] == list[a0]);
        assert(rest[b] == list[b0]);
    }
    assert forall|a: int| 0 <= a < rest.len() implies rest[a] != list[j] by {
        let a0 = if a < j { a } else { a + 1 };
        assert(rest[a] == list[a0]);
    }
    let k = list.index_of(list[j]);
    assert(0 <= k < list.len() && list[k] == list[j]);
}

/// Lets the client `client`, who is not in it, join the session at `i`.
fn push_client(sessions: &mut Vec<SessionInfo>, i: usize, client: String)
    requires
        i < old(sessions).len(),
    ensures
        final(sessions).deep_view() == old(sessions).deep_view().update(
            i as int,
            SessionView {
                id: old(sessions).deep_view()[i as int].id,
                last_tick: old(sessions).deep_view()[i as int].last_tick,
                clients: old(sessions).deep_view()[i as int].clients.push(client@),
            },
        ),
{
    let ghost before = sessions.deep_view();
    let ghost clients = sessions[i as int].clients.deep_view();
    sessions[i].clients.push(client);
    proof {
        assert(sessions[i as int].clients.deep_view() =~= clients.push(client@));
        assert(sessions.deep_view() =~= before.update(
            i as int,
            SessionView {
                id: before[i as int].id,
                last_tick: before[i as int].last_tick,
                clients: before[i as int].clients.push(client@),
            },
        ));
    }
}

/// Lets the client at `j` leave the session at `i`.
fn drop_client(sessions: &mut Vec<SessionInfo>, i: usize, j: usize) -> (left: usize)
    requires
        i < old(sessions).len(),
        j < old(sessions)[i as int].clients.len(),
    ensures
        left == final(sessions)[i as int].clients.len(),
        final(sessions).len() == old(sessions).len(),
        final(sessions).deep_view() == old(sessions).deep_view().update(
            i as int,
            SessionView {
                id: old(sessions).deep_view()[i as int].id,
                last_tick: old(sessions).deep_view()[i as int].last_tick,
                clients: old(sessions).deep_view()[i as int].clients.remove(j as int),
            },
        ),
{
    let ghost before = sessions.deep_view();
    let ghost clients = sessions[i as int].clients.deep_view();
    let _ = sessions[i].clients.remove(j);
    proof {
        assert(sessions[i as int].clients.deep_view() =~= clients.remove(j as int));
        assert(sessions.deep_view() =~= before.update(
            i as int,
            SessionView {
                id: before[i as int].id,
                last_tick: before[i as int].last_tick,
                clients: before[i as int].clients.remove(j as int),
            },
        ));
    }
    sessions[i].clients.len()
}

/// Lets every session see the tick `tick`.
fn mark_tick(sessions: &mut Vec<SessionInfo>, tick: u64)
    ensures
        final(sessions).deep_view() == sessions_at_tick(old(sessions).deep_view(), tick),
{
    let ghost before = sessions.deep_view();
    let n = sessions.len();
    let mut i: usize = 0;
    while i < n
        invariant
            i <= n,
            n == sessions.len(),
            n == before.len(),
            forall|j: int| 0 <= j < i ==> (#[trigger] sessions[j])@ == (SessionView {
                id: before[j].id,
                last_tick: tick,
                clients: before[j].clients,
            }),
            forall|j: int| i <= j < n ==> (#[trigger] sessions[j])@ == before[j],
        decreases n - i,
    {
        sessions[i].last_tick = tick;
        i = i + 1;
    }
    assert(sessions.deep_view() =~= sessions_at_tick(before, tick));
}

impl TickManager {
    #[verifier::type_invariant]
    spec fn inv(&self) -> bool {
        sessions_wf(self.sessions.deep_view())
    }

    /// A manager that has not started, at tick 0 and without sessions.
    pub fn new(tick_rate: u32) -> (r: Self)
        ensures
            r@ == (TickManagerView {
                tick_rate,
                current_tick: 0,
                last_tick_time: 0,
                is_running: false,
                sessions: Seq::empty(),
            }),
    {
        let r = TickManager {
            tick_rate,
            current_tick: 0,
            last_tick_time: 0,
            is_running: false,
            sessions: Vec::new(),
        };
        assert(r.sessions.deep_view() =~= Seq::empty());
        assert(session_ids(Seq::<SessionView>::empty()) =~= Seq::empty());
        r
    }

    /// Hands out the list of sessions and leaves an empty one, until the
    /// caller puts a list back.
    fn take_sessions(&mut self) -> (r: Vec<SessionInfo>)
        ensures
            r == old(self).sessions,
            sessions_wf(r.deep_view()),
            final(self).sessions.len() == 0,
            final(self).tick_rate == old(self).tick_rate,
            final(self).current_tick == old(self).current_tick,
            final(self).last_tick_time == old(self).last_tick_time,
            final(self).is_running == old(self).is_running,
    {
        proof {
            use_type_invariant(&*self);
        }
        let mut sessions: Vec<SessionInfo> = Vec::new();
        proof {
            assert(sessions.deep_view() =~= Seq::empty());
            assert(session_ids(Seq::<SessionView>::empty()) =~= Seq::empty());
        }
        core::mem::swap(&mut self.sessions, &mut sessions);
        sessions
    }

    /// The place of the session named `id`, if it is registered.
    fn find_session(&self, id: &str) -> (r: Option<usize>)
        ensures
            match r {
                Some(i) => i < self.sessions.len() && self.sessions[i as int].id@ == id@
                    && has_session(self@.sessions, id@) && session_index(self@.sessions, id@) == i,
                None => !has_session(self@.sessions, id@),
            },
    {
        proof {
            use_type_invariant(self);
        }
        let ghost sessions = self@.sessions;
        let mut i: usize = 0;
        while i < self.sessions.len()
            invariant
                i <= self.sessions.len(),
                sessions == self@.sessions,
                sessions_wf(sessions),
                forall|j: int| 0 <= j < i ==> self.sessions[j].id@ != id@,
            decreases self.sessions.len() - i,
        {
            if str_eq(self.sessions[i].id.as_str(), id) {
                proof {
                    assert(sessions[i as int] == self.sessions[i as int]@);
                    lemma_session_index(sessions, i as int);
                }
                return Some(i);
            }
            i = i + 1;
        }
        assert forall|j: int| 0 <= j < session_ids(sessions).len() implies session_ids(sessions)[j]
            != id@ by {
            assert(sessions[j] == self.sessions[j]@);
        }
        None
    }

    /// Whether the manager is running.
    pub fn is_running(&self) -> (r: bool)
        ensures
            r == self@.is_running,
    {
        self.is_running
    }

    /// The number of the last tick.
    pub fn get_current_tick(&self) -> (r: u64)
        ensures
            r == self@.current_tick,
    {
        self.current_tick
    }

    /// The clock reading at the last tick, or at the start where none has
    /// passed since.
    pub fn get_current_tick_time(&self) -> (r: u64)
        ensures
            r == self@.last_tick_time,
    {
        self.last_tick_time
    }

    /// The ticks per second.
    pub fn get_tick_rate(&self) -> (r: u32)
        ensures
            r == self@.tick_rate,
    {
        self.tick_rate
    }

    /// Starts the manager at the clock reading `now`, unless it is running.
    pub fn start_at(&mut self, now: u64) -> (r: Result<(), String>)
        ensures
            sessions_wf(final(self)@.sessions),
            old(self)@.is_running ==> final(self)@ == old(self)@ && r is Err
                && r->Err_0@ == "Tick manager is already running"@,
            !old(self)@.is_running ==> r is Ok && final(self)@ == (TickManagerView {
                is_running: true,
                last_tick_time: now,
                ..old(self)@
            }),
    {
        proof {
            use_type_invariant(&*self);
        }
        if self.is_running {
            return Err("Tick manager is already running".to_owned());
        }
        self.is_running = true;
        self.last_tick_time = now;
        Ok(())
    }

    /// Starts the manager at the present reading of the clock, unless it is
    /// running.
    pub fn start(&mut self) -> (r: Result<(), String>)
        ensures
            sessions_wf(final(self)@.sessions),
            old(self)@.is_running ==> final(self)@ == old(self)@ && r is Err
                && r->Err_0@ == "Tick manager is already running"@,
            !old(self)@.is_running ==> r is Ok && final(self)@ == (TickManagerView {
                is_running: true,
                last_tick_time: final(self)@.last_tick_time,
                ..old(self)@
            }),
    {
        let now = current_timestamp();
        self.start_at(now)
    }

    /// Stops the manager, unless it is not running.
    pub fn stop(&mut self) -> (r: Result<(), String>)
        ensures
            sessions_wf(final(self)@.sessions),
            !old(self)@.is_running ==> final(self)@ == old(self)@ && r is Err
                && r->Err_0@ == "Tick manager is not running"@,
            old(self)@.is_running ==> r is Ok && final(self)@ == (TickManagerView {
                is_running: false,
                ..old(self)@
            }),
    {
        proof {
            use_type_invariant(&*self);
        }
        if !self.is_running {
            return Err("Tick manager is not running".to_owned());
        }
        self.is_running = false;
        Ok(())
    }

    /// Sets the ticks per second, which must not be 0.
    pub fn set_tick_rate(&mut self, new_rate: u32) -> (r: Result<(), String>)
        ensures
            sessions_wf(final(self)@.sessions),
            new_rate == 0 ==> final(self)@ == old(self)@ && r is Err
                && r->Err_0@ == "Tick rate must be greater than 0"@,
            new_rate != 0 ==> r is Ok && final(self)@ == (TickManagerView {
                tick_rate: new_rate,
                ..old(self)@
            }),
    {
        proof {
            use_type_invariant(&*self);
        }
        if new_rate == 0 {
            return Err("Tick rate must be greater than 0".to_owned());
        }
        self.tick_rate = new_rate;
        Ok(())
    }

    /// Counts one tick at the clock reading `now`: every session has then seen
    /// the new tick.
    pub fn advance_tick_at(&mut self, now: u64) -> (r: TickEvent)
        requires
            old(self)@.current_tick < u64::MAX,
        ensures
            sessions_wf(final(self)@.sessions),
            final(self)@ == advanced(old(self)@, now),
            r == (TickEvent {
                tick: (old(self)@.current_tick + 1) as u64,
                timestamp: now,
                delta_time: tick_delta(old(self)@.last_tick_time, now),
            }),
    {
        proof {
            use_type_invariant(&*self);
        }
        let delta_time = if self.last_tick_time > 0 && now >= self.last_tick_time {
            now - self.last_tick_time
        } else {
            0
        };
        let tick = self.current_tick + 1;
        self.current_tick = tick;
        self.last_tick_time = now;
        let mut sessions = self.take_sessions();
        mark_tick(&mut sessions, tick);
        proof {
            let before = old(self)@.sessions;
            assert(session_ids(sessions_at_tick(before, tick)) =~= session_ids(before));
        }
        self.sessions = sessions;
        TickEvent { tick, timestamp: now, delta_time }
    }

    /// Counts one tick at the present reading of the clock, which the event
    /// carries as its timestamp.
    pub fn advance_tick(&mut self) -> (r: TickEvent)
        requires
            old(self)@.current_tick < u64::MAX,
        ensures
            sessions_wf(final(self)@.sessions),
            final(self)@ == advanced(old(self)@, r.timestamp),
            r.tick == old(self)@.current_tick + 1,
            r.delta_time == tick_delta(old(self)@.last_tick_time, r.timestamp),
    {
        let now = current_timestamp();
        self.advance_tick_at(now)
    }

    /// Registers a session at the present tick and without clients, unless
    /// one of this name is registered.
    pub fn register_session(&mut self, session_id: String)
        ensures
            sessions_wf(final(self)@.sessions),
            final(self)@ == (TickManagerView {
                sessions: with_session(old(self)@.sessions, session_id@, old(self)@.current_tick),
                ..old(self)@
            }),
    {
        proof {
            use_type_invariant(&*self);
        }
        if self.find_session(session_id.as_str()).is_none() {
            let ghost before = self@.sessions;
            let last_tick = self.current_tick;
            let mut sessions = self.take_sessions();
            let info = SessionInfo { id: session_id, last_tick, clients: Vec::new() };
            proof {
                assert(info.clients.deep_view() =~= Seq::empty());
            }
            sessions.push(info);
            proof {
                let after = sessions.deep_view();
                assert(after =~= before.push(info@));
                assert(session_ids(after) =~= session_ids(before).push(info@.id));
                assert forall|a: int| 0 <= a < after.len() implies (#[trigger] after[a]).clients.no_duplicates() by {
                    if a < before.len() {
                        assert(after[a] == before[a]);
                    }
                }
            }
            self.sessions = sessions;
        }
    }

    /// Removes the session named `session_id`, if there is one.
    pub fn unregister_session(&mut self, session_id: &str)
        ensures
            sessions_wf(final(self)@.sessions),
            !has_session(final(self)@.sessions, session_id@),
            final(self)@ == (TickManagerView {
                sessions: without_session(old(self)@.sessions, session_id@),
                ..old(self)@
            }),
    {
        proof {
            use_type_invariant(&*self);
        }
        match self.find_session(session_id) {
            Some(i) => {
                let ghost before = self@.sessions;
                let mut sessions = self.take_sessions();
                let _ = sessions.remove(i);
                proof {
                    assert(sessions.deep_view() =~= before.remove(i as int));
                    lemma_remove_keeps_wf(before, i as int);
                }
                self.sessions = sessions;
            },
            None => {},
        }
    }

    /// Lets a client join a session, if the session is registered and the
    /// client is not in it.
    pub fn add_client_to_session(&mut self, session_id: String, client_id: String)
        ensures
            sessions_wf(final(self)@.sessions),
            final(self)@ == (TickManagerView {
                sessions: with_client(old(self)@.sessions, session_id@, client_id@),
                ..old(self)@
            }),
    {
        proof {
            use_type_invariant(&*self);
        }
        match self.find_session(session_id.as_str()) {
            Some(i) => {
                let ghost before = self@.sessions;
                assert(before[i as int] == self.sessions[i as int]@);
                let found = position(&self.sessions[i].clients, client_id.as_str());
                match found {
                    Some(j) => {
                        assert(before[i as int].clients[j as int] == client_id@);
                    },
                    None => {
                        let mut sessions = self.take_sessions();
                        push_client(&mut sessions, i, client_id);
                        proof {
                            let clients = before[i as int].clients;
                            assert(clients.push(client_id@).no_duplicates());
                            lemma_update_keeps_wf(before, i as int, clients.push(client_id@));
                        }
                        self.sessions = sessions;
                    },
                }
            },
            None => {},
        }
    }

    /// Lets a client leave a session, if the session is registered. A session
    /// that is then without clients is removed.
    pub fn remove_client_from_session(&mut self, session_id: &str, client_id: &str)
        ensures
            sessions_wf(final(self)@.sessions),
            final(self)@ == (TickManagerView {
                sessions: without_client(old(self)@.sessions, session_id@, client_id@),
                ..old(self)@
            }),
    {
        proof {
            use_type_invariant(&*self);
        }
        match self.find_session(session_id) {
            Some(i) => {
                let ghost before = self@.sessions;
                assert(before[i as int] == self.sessions[i as int]@);
                let found = position(&self.sessions[i].clients, client_id);
                let mut sessions = self.take_sessions();
                let ghost clients = before[i as int].clients;
                let ghost rest = if clients.contains(client_id@) {
                    clients.remove(clients.index_of(client_id@))
                } else {
                    clients
                };
                let left = match found {
                    Some(j) => {
                        proof {
                            assert(clients[j as int] == client_id@);
                            lemma_remove_item(clients, j as int);
                            lemma_update_keeps_wf(before, i as int, rest);
                        }
                        drop_client(&mut sessions, i, j)
                    },
                    None => {
                        proof {
                            assert(before.update(i as int, before[i as int]) =~= before);
                        }
                        sessions[i].clients.len()
                    },
                };
                let ghost mid = sessions.deep_view();
                proof {
                    assert(mid == before.update(
                        i as int,
                        SessionView { id: before[i as int].id, last_tick: before[i as int].last_tick, clients: rest },
                    ));
                    assert(sessions_wf(mid));
                    assert(mid[i as int] == sessions[i as int]@);
                    assert(left == rest.len());
                }
                if left == 0 {
                    let _ = sessions.remove(i);
                    proof {
                        assert(sessions.deep_view() =~= mid.remove(i as int));
                        lemma_remove_keeps_wf(mid, i as int);
                        assert(mid.remove(i as int) =~= before.remove(i as int));
                    }
                }
                self.sessions = sessions;
            },
            None => {},
        }
    }

    /// The last tick that a session has seen, and the number of its clients.
    pub fn get_session_info(&self, session_id: &str) -> (r: Option<(u64, usize)>)
        ensures
            match r {
                Some((last_tick, clients)) => {
                    &&& has_session(self@.sessions, session_id@)
                    &&& last_tick == self@.sessions[session_index(self@.sessions, session_id@)].last_tick
                    &&& clients == self@.sessions[session_index(
                        self@.sessions,
                        session_id@,
                    )].clients.len()
                },
                None => !has_session(self@.sessions, session_id@),
            },
    {
        match self.find_session(session_id) {
            Some(i) => {
                assert(self@.sessions[i as int] == self.sessions[i as int]@);
                Some((self.sessions[i].last_tick, self.sessions[i].clients.len()))
            },
            None => None,
        }
    }

    /// The names of the registered sessions, in the order of their
    /// registration.
    pub fn get_active_sessions(&self) -> (r: Vec<String>)
        ensures
            r.deep_view() == session_ids(self@.sessions),
    {
        let mut r: Vec<String> = Vec::new();
        let mut i: usize = 0;
        while i < self.sessions.len()
            invariant
                i <= self.sessions.len(),
                r.len() == i,
                forall|j: int| 0 <= j < i ==> r[j]@ == self.sessions[j].id@,
            decreases self.sessions.len() - i,
        {
            r.push(self.sessions[i].id.clone());
            i = i + 1;
        }
        proof {
            assert forall|j: int| 0 <= j < r.len() implies r.deep_view()[j] == session_ids(
                self@.sessions,
            )[j] by {
                assert(self@.sessions[j] == self.sessions[j]@);
            }
            assert(r.deep_view() =~= session_ids(self@.sessions));
        }
        r
    }

    /// How many ticks a client lies behind, where both ticks are read as
    /// signed numbers and their difference is one.
    pub fn get_tick_difference(&self, _session_id: &str, client_tick: u64) -> (r: i64)
        requires
            i64::MIN <= tick_difference(self@.current_tick, client_tick) <= i64::MAX,
        ensures
            r == tick_difference(self@.current_tick, client_tick),
    {
        signed_tick(self.current_tick) - signed_tick(client_tick)
    }

    /// Whether a client lies more than `threshold` ticks behind.
    pub fn is_session_behind(&self, session_id: &str, client_tick: u64, threshold: i64) -> (r: bool)
        requires
            i64::MIN <= tick_difference(self@.current_tick, client_tick) <= i64::MAX,
        ensures
            r == (tick_difference(self@.current_tick, client_tick) > threshold),
    {
        self.get_tick_difference(session_id, client_tick) > threshold
    }

    /// The state of the manager in short. The count of clients stops at the
    /// largest `usize`.
    pub fn get_status(&self) -> (r: TickManagerStatus)
        ensures
            r.is_running == self@.is_running,
            r.current_tick == self@.current_tick,
            r.tick_rate == self@.tick_rate,
            r.active_sessions == self@.sessions.len(),
            r.total_clients == if total_clients(self@.sessions) <= usize::MAX {
                total_clients(self@.sessions)
            } else {
                usize::MAX as nat
            },
    {
        let ghost sessions = self@.sessions;
        let mut total: usize = 0;
        let mut i: usize = 0;
        assert(sessions.take(0) =~= Seq::empty());
        while i < self.sessions.len()
            invariant
                i <= self.sessions.len(),
                sessions == self@.sessions,
                total == if total_clients(sessions.take(i as int)) <= usize::MAX {
                    total_clients(sessions.take(i as int))
                } else {
                    usize::MAX as nat
                },
            decreases self.sessions.len() - i,
        {
            let n = self.sessions[i].clients.len();
            proof {
                let next = sessions.take(i + 1);
                assert(next.drop_last() =~= sessions.take(i as int));
                assert(next.last() == self.sessions[i as int]@);
            }
            total = if total > usize::MAX - n {
                usize::MAX
            } else {
                total + n
            };
            i = i + 1;
        }
        assert(sessions.take(sessions.len() as int) =~= sessions);
        TickManagerStatus {
            is_running: self.is_running,
            current_tick: self.current_tick,
            tick_rate: self.tick_rate,
            active_sessions: self.sessions.len(),
            total_clients: total,
        }
    }

    /// The events that the sessions get at the clock reading `now`, in the
    /// order of the sessions.
    pub fn get_session_tick_events_at(&self, now: u64) -> (r: Vec<SessionTickEvent>)
        ensures
            r.deep_view() == session_events(self@, now),
    {
        let delta_time = if self.last_tick_time > 0 && now >= self.last_tick_time {
            now - self.last_tick_time
        } else {
            0
        };
        let mut r: Vec<SessionTickEvent> = Vec::new();
        let mut i: usize = 0;
        while i < self.sessions.len()
            invariant
                i <= self.sessions.len(),
                r.len() == i,
                delta_time == tick_delta(self@.last_tick_time, now),
                forall|j: int| 0 <= j < i ==> (#[trigger] r[j])@ == session_events(self@, now)[j],
            decreases self.sessions.len() - i,
        {
            assert(self@.sessions[i as int] == self.sessions[i as int]@);
            r.push(
                SessionTickEvent {
                    session_id: self.sessions[i].id.clone(),
                    tick: self.current_tick,
                    timestamp: now,
                    delta_time,
                    client_count: self.sessions[i].clients.len(),
                },
            );
            i = i + 1;
        }
        assert(r.deep_view() =~= session_events(self@, now));
        r
    }

    /// The events that the sessions get at the present reading of the clock,
    /// which each event carries as its timestamp.
    pub fn get_session_tick_events(&self) -> (r: Vec<SessionTickEvent>)
        ensures
            r.len() == self@.sessions.len(),
            forall|j: int| 0 <= j < r.len() ==> r.deep_view() == session_events(self@, (#[trigger] r[j]).timestamp),
    {
        let now = current_timestamp();
        let r = self.get_session_tick_events_at(now);
        proof {
            assert(r.deep_view().len() == r.len());
            assert forall|j: int| 0 <= j < r.len() implies (#[trigger] r[j]).timestamp == now by {
                assert(r.deep_view()[j] == r[j]@);
                assert(session_events(self@, now)[j].timestamp == now);
            }
        }
        r
    }
}

/// The present reading of the clock, in milliseconds since the Unix epoch.
pub fn current_timestamp() -> u64 {
    unix_millis()
}

/// What one round of the tick loop does.
#[derive(Debug)]
pub enum TickRound {
    /// The loop ends: the manager is not running, or its counter is spent.
    Stop,
    /// The tick is sent to all clients, and each session's event to the
    /// session's clients.
    Emit(TickEvent, Vec<SessionTickEvent>),
}

/// The milliseconds between two ticks at a rate, which must not be 0.
pub fn tick_interval_ms(tick_rate: u32) -> (r: u64)
    requires
        tick_rate > 0,
    ensures
        r == 1000int / (tick_rate as int),
{
    1000 / (tick_rate as u64)
}

/// The name of the event that carries a session's ticks.
pub fn session_event_name(session_id: &str) -> (r: String)
    ensures
        r@ == "tick:"@ + session_id@,
{
    joined("tick:", session_id)
}

impl TickManager {
    /// One round of the tick loop at the clock readings `now`, for the tick,
    /// and `later`, for the sessions' events: a manager that is not running
    /// ends the loop and stays as it is, and so does one whose counter is
    /// spent; else one tick is counted, and what is to be sent is handed out.
    pub fn tick_round_at(&mut self, now: u64, later: u64) -> (r: TickRound)
        ensures
            sessions_wf(final(self)@.sessions),
            !old(self)@.is_running || old(self)@.current_tick == u64::MAX ==> r is Stop && final(self)@
                == old(self)@,
            old(self)@.is_running && old(self)@.current_tick < u64::MAX ==> {
                &&& final(self)@ == advanced(old(self)@, now)
                &&& r is Emit
                &&& r->Emit_0 == (TickEvent {
                    tick: (old(self)@.current_tick + 1) as u64,
                    timestamp: now,
                    delta_time: tick_delta(old(self)@.last_tick_time, now),
                })
                &&& r->Emit_1.deep_view() == session_events(final(self)@, later)
            },
    {
        proof {
            use_type_invariant(&*self);
        }
        if !self.is_running || self.current_tick == u64::MAX {
            return TickRound::Stop;
        }
        let tick = self.advance_tick_at(now);
        let sessions = self.get_session_tick_events_at(later);
        TickRound::Emit(tick, sessions)
    }

    /// One round of the tick loop at the present readings of the clock.
    pub fn tick_round(&mut self) -> (r: TickRound)
        ensures
            sessions_wf(final(self)@.sessions),
            !old(self)@.is_running || old(self)@.current_tick == u64::MAX ==> r is Stop && final(self)@
                == old(self)@,
            old(self)@.is_running && old(self)@.current_tick < u64::MAX ==> {
                &&& r is Emit
                &&& final(self)@ == advanced(old(self)@, r->Emit_0.timestamp)
                &&& r->Emit_0.tick == old(self)@.current_tick + 1
                &&& r->Emit_0.delta_time == tick_delta(old(self)@.last_tick_time, r->Emit_0.timestamp)
                &&& r->Emit_1.len() == old(self)@.sessions.len()
            },
    {
        let now = current_timestamp();
        let later = current_timestamp();
        let r = self.tick_round_at(now, later);
        proof {
            if r is Emit {
                assert(r->Emit_1.deep_view().len() == r->Emit_1.len());
            }
        }
        r
    }
}

} // verus!
