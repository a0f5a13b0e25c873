//! The lifecycle manager: a single slot for one connection wrapper, and
//! the application-id bookkeeping.
//!
//! The manager keeps at most one active session by construction: one
//! optional slot holds the wrapper. Re-initialization records the new
//! credential first, then tears the previous session down best-effort (a
//! failure to close it is deliberately swallowed, so the slot always ends
//! up clean), and stores a fresh wrapper only if its connect succeeds.
//!
//! Besides the slot, the manager's view carries a history of every event
//! its wrappers handed to the transport, past sessions included, so the
//! teardown-before-connect order of a re-initialization stands in a
//! contract. The history is a ghost field of this module, maintained here
//! in lockstep with the wrappers' contracts; the per-session logs it
//! mirrors are written only by the trusted transport wrappers.

use vstd::prelude::*;

use crate::discord_ipc::ClientView;
use crate::discord_ipc::DiscordRpcClient;
use crate::error::PresenceError;
use crate::models::RichPresenceConfig;
use crate::payload::LinkEvent;
use crate::payload::payload_of;
use crate::payload::wire_of;

verus! {

/// Spec-level image of the manager: the recorded credential, the session
/// slot (`None` when empty, else the stored wrapper's view), and the
/// history of every transport event across all sessions, in order.
pub struct ManagerView {
    pub app_id: Seq<char>,
    pub session: Option<ClientView>,
    pub history: Seq<LinkEvent>,
}

impl ManagerView {
    /// Whether a wrapper is stored.
    pub open spec fn initialized(self) -> bool {
        self.session is Some
    }

    /// Whether a stored wrapper is connected.
    pub open spec fn connected(self) -> bool {
        self.session matches Some(s) && s.connected
    }
}

/// What a finished `initialize` guarantees: the credential is the one just
/// given, whatever the outcome; on success the slot holds a fresh wrapper
/// bound to that credential whose one event is its successful connect; on
/// failure the slot is empty. The history shows that when a session was
/// connected, its close was attempted before the new connect — with the
/// close outcome existentially bound, since a cleanup failure is
/// deliberately swallowed.
pub open spec fn initialize_transition(
    pre: ManagerView,
    post: ManagerView,
    id: Seq<char>,
    ok: bool,
) -> bool {
    &&& post.app_id == id
    &&& (ok ==> post.session == Some(
        (ClientView {
            connected: true,
            app_id: id,
            log: Seq::<LinkEvent>::empty().push((LinkEvent::Connect { ok: true })),
        }),
    ))
    &&& (!ok ==> post.session is None)
    &&& (!pre.connected() ==> post.history == pre.history.push((LinkEvent::Connect { ok })))
    &&& (pre.connected() ==> exists|closed: bool|
        post.history == pre.history.push((LinkEvent::Close { ok: closed })).push(
            (LinkEvent::Connect { ok }),
        ))
}

/// What a finished `disconnect` guarantees: the slot is empty, the
/// credential is kept, and on a connected session exactly one close was
/// attempted, the call succeeding precisely when the close did; with no
/// connected session the call succeeded and the transport was not
/// touched.
pub open spec fn disconnect_transition(pre: ManagerView, post: ManagerView, ok: bool) -> bool {
    &&& post.session is None
    &&& post.app_id == pre.app_id
    &&& (!pre.connected() ==> ok && post.history == pre.history)
    &&& (pre.connected() ==> post.history == pre.history.push((LinkEvent::Close { ok })))
}

/// The lifecycle manager: owns at most one connection wrapper, the
/// last-recorded application credential, and the ghost history of its
/// wrappers' transport events.
pub struct RichPresenceManager {
    client: Option<DiscordRpcClient>,
    app_id: String,
    history: Ghost<Seq<LinkEvent>>,
}

impl View for RichPresenceManager {
    type V = ManagerView;

    closed spec fn view(&self) -> ManagerView {
        ManagerView {
            app_id: self.app_id@,
            session: match self.client {
                Some(c) => Some(c@),
                None => None,
            },
            history: self.history@,
        }
    }
}

impl RichPresenceManager {
    /// A fresh manager: empty slot, empty credential, empty history.
    pub fn new() -> (r: Self)
        ensures
            r@.app_id == Seq::<char>::empty(),
            r@.session is None,
            r@.history == Seq::<LinkEvent>::empty(),
    {
        RichPresenceManager {
            client: None,
            app_id: String::new(),
            history: Ghost(Seq::empty()),
        }
    }

    /// Records the credential, tears any previous session down
    /// best-effort, then builds a wrapper bound to that credential and
    /// connects it. The wrapper is stored only if its connect succeeds; on
    /// failure the manager is back to uninitialized, with the new
    /// credential kept.
    pub fn initialize(&mut self, app_id: &str) -> (r: Result<(), PresenceError>)
        ensures
            initialize_transition(old(self)@, final(self)@, app_id@, r is Ok),
            r matches Err(e) ==> e is Transport,
    {
        self.app_id = app_id.to_owned();
        let ghost mut closed: Option<bool> = None;
        if let Some(previous) = &mut self.client {
            let ghost was_connected = previous@.connected;
            // swallow-and-reset: a failure to close the old session is
            // discarded, so the slot is always left clean
            let cleanup = previous.disconnect();
            proof {
                if was_connected {
                    closed = Some(cleanup is Ok);
                }
            }
        }
        self.client = None;
        self.history = Ghost(
            match closed {
                Some(ok) => self.history@.push(LinkEvent::Close { ok }),
                None => self.history@,
            },
        );
        let created = DiscordRpcClient::new(app_id);
        let r: Result<(), PresenceError> = match created {
            Ok(mut client) => {
                match client.connect() {
                    Ok(()) => {
                        self.history = Ghost(self.history@.push(LinkEvent::Connect { ok: true }));
                        self.client = Some(client);
                        Ok(())
                    },
                    Err(e) => {
                        self.history = Ghost(self.history@.push(LinkEvent::Connect { ok: false }));
                        Err(e)
                    },
                }
            },
            Err(e) => Err(e),
        };
        proof {
            if old(self)@.connected() {
                assert(closed is Some);
                if let Some(b) = closed {
                    assert(self.history@ == old(self)@.history.push(
                        LinkEvent::Close { ok: b },
                    ).push(LinkEvent::Connect { ok: r is Ok }));
                }
            }
        }
        r
    }

    /// Delegates to the stored wrapper; an empty slot yields the
    /// not-initialized error, a stored but disconnected wrapper the
    /// not-connected error, and a connected one hands the transport
    /// exactly the builder value that `payload_of(config@)` fills, the
    /// call succeeding precisely when the transmission did.
    pub fn update_presence(&mut self, config: &RichPresenceConfig) -> (r: Result<
        (),
        PresenceError,
    >)
        ensures
            final(self)@.app_id == old(self)@.app_id,
            !old(self)@.initialized() <==> (r matches Err(e) && e is NotInitialized),
            old(self)@.initialized() && !old(self)@.connected() <==> (r matches Err(e)
                && e is NotConnected),
            !old(self)@.connected() ==> final(self)@ == old(self)@,
            old(self)@.connected() ==> (old(self)@.session matches Some(s0)
                && final(self)@.session == Some(
                (ClientView {
                    connected: true,
                    app_id: s0.app_id,
                    log: s0.log.push(
                        (LinkEvent::Send { activity: wire_of(payload_of(config@)), ok: r is Ok }),
                    ),
                }),
            )),
            old(self)@.connected() ==> final(self)@.history == old(self)@.history.push(
                (LinkEvent::Send { activity: wire_of(payload_of(config@)), ok: r is Ok }),
            ),
            old(self)@.connected() ==> r is Ok || (r matches Err(e) && e is Transport),
    {
        let ghost was_connected = self@.connected();
        let r = match &mut self.client {
            Some(client) => client.update_presence(config),
            None => Err(PresenceError::NotInitialized),
        };
        self.history = Ghost(
            if was_connected {
                self.history@.push(
                    LinkEvent::Send { activity: wire_of(payload_of(config@)), ok: r is Ok },
                )
            } else {
                self.history@
            },
        );
        r
    }

    /// False on an empty slot; else the stored wrapper's flag.
    pub fn is_connected(&self) -> (r: bool)
        ensures
            r == self@.connected(),
    {
        match &self.client {
            Some(client) => client.is_connected(),
            None => false,
        }
    }

    /// Tears the session down: a stored wrapper's close is attempted,
    /// its error propagated, and the slot is emptied whatever happened.
    pub fn disconnect(&mut self) -> (r: Result<(), PresenceError>)
        ensures
            disconnect_transition(old(self)@, final(self)@, r is Ok),
            r matches Err(e) ==> e is Transport,
    {
        let ghost was_connected = self@.connected();
        let r = match &mut self.client {
            Some(client) => client.disconnect(),
            None => Ok(()),
        };
        self.client = None;
        self.history = Ghost(
            if was_connected {
                self.history@.push(LinkEvent::Close { ok: r is Ok })
            } else {
                self.history@
            },
        );
        r
    }

    /// The last-recorded credential; it survives a disconnect.
    pub fn get_app_id(&self) -> (r: &str)
        ensures
            r@ == self@.app_id,
    {
        self.app_id.as_str()
    }
}

impl Default for RichPresenceManager {
    /// Same as [`RichPresenceManager::new`].
    fn default() -> (r: Self)
        ensures
            r@.app_id == Seq::<char>::empty(),
            r@.session is None,
            r@.history == Seq::<LinkEvent>::empty(),
    {
        RichPresenceManager::new()
    }
}

/// Initializing twice leaves the credential of the second call recorded,
/// whatever either outcome was.
pub proof fn lemma_initialize_records_latest(
    m0: ManagerView,
    m1: ManagerView,
    m2: ManagerView,
    id1: Seq<char>,
    id2: Seq<char>,
    ok1: bool,
    ok2: bool,
)
    requires
        initialize_transition(m0, m1, id1, ok1),
        initialize_transition(m1, m2, id2, ok2),
    ensures
        m2.app_id == id2,
{
}

/// Re-initializing over a connected session first attempts to close it:
/// in the history, a close event stands immediately before the new
/// connect attempt, its outcome unconstrained because a cleanup failure
/// is swallowed.
pub proof fn lemma_reinitialize_closes_previous_first(
    pre: ManagerView,
    post: ManagerView,
    id: Seq<char>,
    ok: bool,
)
    requires
        initialize_transition(pre, post, id, ok),
        pre.connected(),
    ensures
        exists|closed: bool|
            post.history == pre.history.push((LinkEvent::Close { ok: closed })).push(
                (LinkEvent::Connect { ok }),
            ),
{
}

/// Disconnecting is idempotent: after one disconnect the slot is empty, so
/// a second disconnect succeeds without touching the transport, and the
/// manager reports not-connected after both calls.
pub proof fn lemma_disconnect_idempotent(
    m0: ManagerView,
    m1: ManagerView,
    m2: ManagerView,
    ok1: bool,
    ok2: bool,
)
    requires
        disconnect_transition(m0, m1, ok1),
        disconnect_transition(m1, m2, ok2),
    ensures
        ok2,
        m2.history == m1.history,
        !m1.connected(),
        !m2.connected(),
{
}

/// A failed initialize still records the credential, and leaves the
/// manager neither initialized nor connected.
pub proof fn lemma_failed_initialize_keeps_app_id(
    m0: ManagerView,
    m1: ManagerView,
    id: Seq<char>,
)
    requires
        initialize_transition(m0, m1, id, false),
    ensures
        m1.app_id == id,
        !m1.initialized(),
        !m1.connected(),
{
}

} // verus!
