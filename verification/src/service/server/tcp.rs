//! The session registry of the TCP server.
//!
//! Sessions are keyed by the peer's socket address as text. The registry
//! decides which sessions exist; accepting, reading and closing sockets is
//! the caller's part.

use vstd::prelude::*;
use vstd::string::StringExecFns;
use dashmap::DashMap;
use crate::constant::DEFAULT_TCP_PORT;
use crate::service::protocols::base::DeviceInfo;
use crate::service::txt::decimal_text;
use crate::service::txt::spec_decimal_text;
use super::listener::ServerListener;
use super::listener::SessionEvent;
use super::listener::SessionStep;
use super::listener::spec_session_step;
use super::session::SessionContext;

verus! {

/// `dashmap::DashMap`, a concurrent hash map, taken as opaque.
#[verifier::external_type_specification]
#[verifier::external_body]
#[verifier::reject_recursive_types(K)]
#[verifier::reject_recursive_types(V)]
#[verifier::reject_recursive_types(S)]
pub struct ExDashMap<K, V, S>(DashMap<K, V, S>);

/// The entries of a session map: each registered address with its session.
pub uninterp spec fn session_entries(sessions: DashMap<String, SessionContext>) -> Map<
    Seq<char>,
    SessionContext,
>;

/// The registry without any session.
pub open spec fn spec_no_sessions() -> Map<Seq<char>, SessionContext> {
    Map::empty()
}

/// `DashMap::new`: a map without entries.
#[verifier::external_body]
fn sessions_new() -> (sessions: DashMap<String, SessionContext>)
    ensures
        session_entries(sessions) == spec_no_sessions(),
{
    DashMap::new()
}

/// `DashMap::insert`: the entry under `key` becomes `value`, all others
/// stay, and the value that was under `key` before, if any, is returned.
#[verifier::external_body]
fn sessions_insert(
    sessions: &mut DashMap<String, SessionContext>,
    key: String,
    value: SessionContext,
) -> (previous: Option<SessionContext>)
    ensures
        session_entries(*final(sessions)) == session_entries(*old(sessions)).insert(key@, value),
        previous == if session_entries(*old(sessions)).contains_key(key@) {
            Some(session_entries(*old(sessions))[key@])
        } else {
            None
        },
{
    sessions.insert(key, value)
}

/// `DashMap::remove`: the entry under `key` is gone, all others stay, and
/// the value that was under `key`, if any, is returned.
#[verifier::external_body]
fn sessions_remove(sessions: &mut DashMap<String, SessionContext>, key: &str) -> (removed: Option<
    SessionContext,
>)
    ensures
        session_entries(*final(sessions)) == session_entries(*old(sessions)).remove(key@),
        removed == if session_entries(*old(sessions)).contains_key(key@) {
            Some(session_entries(*old(sessions))[key@])
        } else {
            None
        },
{
    sessions.remove(key).map(|entry| entry.1)
}

/// `DashMap::get`: a copy of the value under `key`, if there is one.
#[verifier::external_body]
fn sessions_get(sessions: &DashMap<String, SessionContext>, key: &str) -> (found: Option<
    SessionContext,
>)
    ensures
        found == if session_entries(*sessions).contains_key(key@) {
            Some(session_entries(*sessions)[key@])
        } else {
            None
        },
{
    sessions.get(key).map(|entry| entry.value().clone())
}

/// `DashMap::iter`: every key of the map once, in no particular order.
#[verifier::external_body]
fn sessions_keys(sessions: &DashMap<String, SessionContext>) -> (keys: Vec<String>)
    ensures
        forall|i: int| 0 <= i < keys@.len() ==> session_entries(*sessions).contains_key(keys@[i]@),
        forall|key: Seq<char>| #[trigger]
            session_entries(*sessions).contains_key(key) ==> exists|i: int|
                0 <= i < keys@.len() && keys@[i]@ == key,
        forall|i: int, j: int| 0 <= i < j < keys@.len() ==> keys@[i]@ != keys@[j]@,
{
    sessions.iter().map(|entry| entry.key().clone()).collect()
}

/// `DashMap::clear`: no entry is left.
#[verifier::external_body]
fn sessions_clear(sessions: &mut DashMap<String, SessionContext>)
    ensures
        session_entries(*final(sessions)) == spec_no_sessions(),
{
    sessions.clear()
}

/// The registry after `event` at `now` on the session of `addr`, and what
/// that session's reader does next; `None` where no such session exists.
/// A session that ends leaves the registry.
pub open spec fn spec_registry_step(
    sessions: Map<Seq<char>, SessionContext>,
    addr: Seq<char>,
    event: SessionEvent,
    now: u64,
) -> (Map<Seq<char>, SessionContext>, Option<SessionStep>) {
    if !sessions.contains_key(addr) {
        (sessions, None)
    } else {
        let (listener, step) = spec_session_step(sessions[addr].server_listener, event, now);
        match step {
            SessionStep::Continue => (
                sessions.insert(
                    addr,
                    SessionContext {
                        device_info: sessions[addr].device_info,
                        server_listener: listener,
                    },
                ),
                Some(step),
            ),
            SessionStep::End(_) => (sessions.remove(addr), Some(step)),
        }
    }
}

/// Something that happens to the accept loop.
#[derive(Debug, Clone, PartialEq, Eq)]
pub enum AcceptEvent {
    /// The shutdown signal arrived.
    Shutdown,
    /// A connection from `addr` was accepted; `reader_started` says whether
    /// the reader of its session could be started.
    Accepted { addr: String, reader_started: bool },
    /// Accepting a connection failed.
    AcceptFailed,
}

/// What the accept loop does next.
#[derive(Debug, Clone, PartialEq)]
pub enum AcceptStep {
    /// Leave the loop and close the listener.
    Stop,
    /// Keep accepting.
    Continue,
    /// Drop the connection, whose reader did not start, and keep accepting.
    DropConnection,
    /// The session was registered; keep accepting. A session that was
    /// registered under the same address before is handed out, for the
    /// caller to shut down.
    Registered(Option<SessionContext>),
}

/// The TCP server's registry of live sessions and its configured port.
pub struct TcpServer {
    sessions: DashMap<String, SessionContext>,
    port: u16,
}

impl TcpServer {
    /// The live sessions by peer address.
    pub closed spec fn spec_sessions(&self) -> Map<Seq<char>, SessionContext> {
        session_entries(self.sessions)
    }

    /// The port the listener binds.
    pub closed spec fn spec_port(&self) -> u16 {
        self.port
    }

    /// A server without sessions on the default port.
    pub fn new() -> (r: Self)
        ensures
            r.spec_sessions() == spec_no_sessions(),
            r.spec_port() == DEFAULT_TCP_PORT,
    {
        TcpServer { sessions: sessions_new(), port: DEFAULT_TCP_PORT }
    }

    /// The port the listener binds.
    pub fn port(&self) -> (r: u16)
        ensures
            r == self.spec_port(),
    {
        self.port
    }

    /// The socket address the listener binds: every interface, on the
    /// configured port.
    pub fn bind_address(&self) -> (r: String)
        ensures
            r@ == "0.0.0.0:"@ + spec_decimal_text(self.spec_port() as nat),
    {
        let mut address = String::from_str("0.0.0.0:");
        let port = decimal_text(self.port);
        address.append(port.as_str());
        address
    }

    /// Applies a new port, if one is given, and says whether the server has
    /// to be restarted for it: it has exactly when it is running.
    pub fn update_server_info(&mut self, port: Option<u16>, running: bool) -> (restart: bool)
        ensures
            final(self).spec_port() == match port {
                Some(p) => p,
                None => old(self).spec_port(),
            },
            final(self).spec_sessions() == old(self).spec_sessions(),
            restart == running,
    {
        if let Some(p) = port {
            self.port = p;
        }
        running
    }

    /// Registers the session of a connection accepted from `addr` at `now`.
    /// A session already registered under `addr` is replaced and returned,
    /// for the caller to shut down.
    pub fn accept(&mut self, addr: String, now: u64) -> (replaced: Option<SessionContext>)
        ensures
            final(self).spec_port() == old(self).spec_port(),
            final(self).spec_sessions() == old(self).spec_sessions().insert(
                addr@,
                SessionContext::spec_new(ServerListener::spec_new(now)),
            ),
            replaced == if old(self).spec_sessions().contains_key(addr@) {
                Some(old(self).spec_sessions()[addr@])
            } else {
                None
            },
    {
        sessions_insert(&mut self.sessions, addr, SessionContext::new(ServerListener::new(now)))
    }

    /// Takes in an event of the accept loop at `now` and says what the loop
    /// does next. Only a connection whose reader started is registered; a
    /// failure to accept ends nothing.
    pub fn handle_accept(&mut self, event: AcceptEvent, now: u64) -> (step: AcceptStep)
        ensures
            final(self).spec_port() == old(self).spec_port(),
            match event {
                AcceptEvent::Shutdown => step == AcceptStep::Stop && final(self).spec_sessions()
                    == old(self).spec_sessions(),
                AcceptEvent::AcceptFailed => step == AcceptStep::Continue
                    && final(self).spec_sessions() == old(self).spec_sessions(),
                AcceptEvent::Accepted { addr, reader_started } => if reader_started {
                    &&& final(self).spec_sessions() == old(self).spec_sessions().insert(
                        addr@,
                        SessionContext::spec_new(ServerListener::spec_new(now)),
                    )
                    &&& step == AcceptStep::Registered(
                        if old(self).spec_sessions().contains_key(addr@) {
                            Some(old(self).spec_sessions()[addr@])
                        } else {
                            None
                        },
                    )
                } else {
                    step == AcceptStep::DropConnection
                        && final(self).spec_sessions() == old(self).spec_sessions()
                },
            },
    {
        match event {
            AcceptEvent::Shutdown => AcceptStep::Stop,
            AcceptEvent::AcceptFailed => AcceptStep::Continue,
            AcceptEvent::Accepted { addr, reader_started } => {
                if reader_started {
                    AcceptStep::Registered(self.accept(addr, now))
                } else {
                    AcceptStep::DropConnection
                }
            },
        }
    }

    /// The session of `addr`, if there is one.
    pub fn session(&self, addr: &str) -> (r: Option<SessionContext>)
        ensures
            r == if self.spec_sessions().contains_key(addr@) {
                Some(self.spec_sessions()[addr@])
            } else {
                None
            },
    {
        sessions_get(&self.sessions, addr)
    }

    /// Attaches `device_info` to the session of `addr`. `false`, and nothing
    /// changed, where there is no such session.
    pub fn set_device_info(&mut self, addr: &str, device_info: DeviceInfo) -> (found: bool)
        ensures
            final(self).spec_port() == old(self).spec_port(),
            found == old(self).spec_sessions().contains_key(addr@),
            found ==> final(self).spec_sessions() == old(self).spec_sessions().insert(
                addr@,
                SessionContext {
                    device_info: Some(device_info),
                    server_listener: old(self).spec_sessions()[addr@].server_listener,
                },
            ),
            !found ==> final(self).spec_sessions() == old(self).spec_sessions(),
    {
        match sessions_get(&self.sessions, addr) {
            Some(mut session) => {
                session.set_device_info(device_info);
                let key = addr.to_owned();
                sessions_insert(&mut self.sessions, key, session);
                true
            },
            None => false,
        }
    }

    /// Takes in `event` at `now` for the session of `addr` and says what its
    /// reader does next. Where the session ends, for whatever reason, its
    /// entry leaves the registry; the caller stops the reader and closes the
    /// writer. `None`, and nothing changed, where there is no such session.
    pub fn handle_event(&mut self, addr: &str, event: SessionEvent, now: u64) -> (step: Option<
        SessionStep,
    >)
        ensures
            final(self).spec_port() == old(self).spec_port(),
            (final(self).spec_sessions(), step) == spec_registry_step(
                old(self).spec_sessions(),
                addr@,
                event,
                now,
            ),
    {
        match sessions_get(&self.sessions, addr) {
            Some(mut session) => {
                let step = session.server_listener.handle_event(event, now);
                match step {
                    SessionStep::Continue => {
                        let key = addr.to_owned();
                        sessions_insert(&mut self.sessions, key, session);
                    },
                    SessionStep::End(_) => {
                        sessions_remove(&mut self.sessions, addr);
                    },
                }
                Some(step)
            },
            None => None,
        }
    }

    /// Removes the session of `addr` and returns it, if there is one.
    pub fn end_session(&mut self, addr: &str) -> (removed: Option<SessionContext>)
        ensures
            final(self).spec_port() == old(self).spec_port(),
            final(self).spec_sessions() == old(self).spec_sessions().remove(addr@),
            removed == if old(self).spec_sessions().contains_key(addr@) {
                Some(old(self).spec_sessions()[addr@])
            } else {
                None
            },
    {
        sessions_remove(&mut self.sessions, addr)
    }

    /// The addresses of all live sessions, each once.
    pub fn session_keys(&self) -> (keys: Vec<String>)
        ensures
            forall|i: int|
                0 <= i < keys@.len() ==> self.spec_sessions().contains_key(#[trigger] keys@[i]@),
            forall|key: Seq<char>| #[trigger]
                self.spec_sessions().contains_key(key) ==> exists|i: int|
                    0 <= i < keys@.len() && keys@[i]@ == key,
            forall|i: int, j: int| 0 <= i < j < keys@.len() ==> keys@[i]@ != keys@[j]@,
    {
        sessions_keys(&self.sessions)
    }

    /// Stops the server's sessions: empties the registry and returns the
    /// address of every session that was live, each once, for the caller to
    /// shut down before it stops the accept loop.
    pub fn stop(&mut self) -> (keys: Vec<String>)
        ensures
            final(self).spec_port() == old(self).spec_port(),
            final(self).spec_sessions() == spec_no_sessions(),
            forall|i: int|
                0 <= i < keys@.len() ==> old(self).spec_sessions().contains_key(
                    #[trigger] keys@[i]@,
                ),
            forall|key: Seq<char>| #[trigger]
                old(self).spec_sessions().contains_key(key) ==> exists|i: int|
                    0 <= i < keys@.len() && keys@[i]@ == key,
            forall|i: int, j: int| 0 <= i < j < keys@.len() ==> keys@[i]@ != keys@[j]@,
    {
        let keys = sessions_keys(&self.sessions);
        sessions_clear(&mut self.sessions);
        keys
    }
}

/// Idle eviction: an idle check on a session that has received no frame
/// for longer than its threshold removes it from the registry.
pub proof fn lemma_idle_session_evicted(
    sessions: Map<Seq<char>, SessionContext>,
    addr: Seq<char>,
    now: u64,
)
    requires
        sessions.contains_key(addr),
        now - sessions[addr].server_listener.last_activity
            > sessions[addr].server_listener.idle_threshold,
    ensures
        !spec_registry_step(sessions, addr, SessionEvent::IdleCheck, now).0.contains_key(addr),
        spec_registry_step(sessions, addr, SessionEvent::IdleCheck, now).0 == sessions.remove(addr),
{
}

/// A frame keeps a session: after a frame at `frame_at`, an idle check at
/// any `now` up to `frame_at` plus the threshold leaves the session in the
/// registry.
pub proof fn lemma_active_session_survives(
    sessions: Map<Seq<char>, SessionContext>,
    addr: Seq<char>,
    frame_at: u64,
    now: u64,
)
    requires
        sessions.contains_key(addr),
        now <= frame_at + sessions[addr].server_listener.idle_threshold,
    ensures
        ({
            let after_frame = spec_registry_step(
                sessions,
                addr,
                SessionEvent::FrameReceived,
                frame_at,
            ).0;
            let after_check = spec_registry_step(after_frame, addr, SessionEvent::IdleCheck, now);
            &&& after_check.0.contains_key(addr)
            &&& after_check.1 == Some(SessionStep::Continue)
        }),
{
}

/// No orphaned entries: a session whose reader is told to end, for whatever
/// reason, is no longer registered.
pub proof fn lemma_ended_session_removed(
    sessions: Map<Seq<char>, SessionContext>,
    addr: Seq<char>,
    event: SessionEvent,
    now: u64,
)
    requires
        spec_registry_step(sessions, addr, event, now).1 matches Some(SessionStep::End(_)),
    ensures
        !spec_registry_step(sessions, addr, event, now).0.contains_key(addr),
{
}

/// Events on one session leave every other session as it was.
pub proof fn lemma_sessions_independent(
    sessions: Map<Seq<char>, SessionContext>,
    addr: Seq<char>,
    other: Seq<char>,
    event: SessionEvent,
    now: u64,
)
    requires
        addr != other,
    ensures
        spec_registry_step(sessions, addr, event, now).0.contains_key(other)
            == sessions.contains_key(other),
        sessions.contains_key(other) ==> spec_registry_step(sessions, addr, event, now).0[other]
            == sessions[other],
{
}

} // verus!
