//! The session core: the single authoritative connection state and its
//! explicit transition operations.
//!
//! The core owns the credentials handed off by discovery, the validity of the
//! session handle, the identity of the current control-session actor, and the
//! reconnect ledger. Every mutation is one of the named operations below; each
//! one's postcondition ties the new state to a pure transition function over
//! the abstract model, so properties of whole event sequences can be proved
//! once over the model and hold of the executable core.

use vstd::prelude::*;
use crate::config::{ConfigModel, SpotifyConfig};

verus! {

/// Reconnect attempts are only counted inside this trailing window, in seconds.
pub const RECONNECT_RATE_LIMIT_WINDOW_SECS: u64 = 600;

/// Once this many reconnect attempts sit inside the window, a further
/// disconnect is refused rather than retried.
pub const RECONNECT_RATE_LIMIT: usize = 5;

/// The connection lifecycle. `Idle` only before the first credentials arrive.
/// `DisconnectedPendingRetry` is the rest state after a failed connection
/// attempt: the core waits for the next discovery hand-off. `Terminated` is
/// final: reached by explicit shutdown, by the reconnect policy giving up, or
/// by the discovery stream ending unexpectedly.
#[derive(Clone, Copy, PartialEq, Eq, Structural, Debug)]
pub enum ConnectionState {
    Idle,
    Connecting,
    Connected,
    DisconnectedPendingRetry,
    Terminated,
}

/// Opaque authorization material handed off by discovery. Always replaced as
/// a unit, never edited in place.
pub struct Credentials {
    pub username: Option<String>,
    pub auth_type: u32,
    pub auth_data: Vec<u8>,
}

/// Abstract value of [`Credentials`].
#[verifier::ext_equal]
pub struct CredentialsModel {
    pub username: Option<Seq<char>>,
    pub auth_type: u32,
    pub auth_data: Seq<u8>,
}

impl View for Credentials {
    type V = CredentialsModel;

    open spec fn view(&self) -> CredentialsModel {
        CredentialsModel {
            username: match self.username {
                Some(ref u) => Some(u@),
                None => None,
            },
            auth_type: self.auth_type,
            auth_data: self.auth_data@,
        }
    }
}

/// Abstract state of the session core. Actors are identified by the number of
/// actors constructed before them, so every constructed actor has a distinct
/// identity.
#[verifier::ext_equal]
pub struct CoreModel {
    pub config: ConfigModel,
    pub state: ConnectionState,
    pub credentials: Option<CredentialsModel>,
    /// Timestamps (seconds, monotone clock) of recent auto-reconnect attempts.
    pub ledger: Seq<u64>,
    /// Whether the current session handle is live (not yet invalidated).
    pub session_valid: bool,
    /// Identity of the current control-session actor, if one is installed.
    pub current_actor: Option<u64>,
    /// How many actors have ever been constructed.
    pub actors_started: u64,
    pub discovery_present: bool,
    pub listener_running: bool,
}

/// The state a freshly initialized core is in: no credentials, empty ledger,
/// a live (fresh) session handle, no actor, and the event listener running.
pub open spec fn init_model(config: ConfigModel, discovery_present: bool) -> CoreModel {
    CoreModel {
        config,
        state: ConnectionState::Idle,
        credentials: None,
        ledger: Seq::empty(),
        session_valid: true,
        current_actor: None,
        actors_started: 0,
        discovery_present,
        listener_running: true,
    }
}

/// New credentials arrived: store them as a unit, clear the reconnect ledger,
/// drop the current actor (its teardown is detached by the caller), invalidate
/// the session handle, and mark the core as connecting.
pub open spec fn on_discovery(m: CoreModel, c: CredentialsModel) -> CoreModel {
    CoreModel {
        state: ConnectionState::Connecting,
        credentials: Some(c),
        ledger: Seq::empty(),
        session_valid: false,
        current_actor: None,
        ..m
    }
}

/// A connection attempt is about to start: if the session handle was
/// invalidated, a fresh one is created, so afterwards it is live either way.
pub open spec fn on_begin_attempt(m: CoreModel) -> CoreModel {
    CoreModel { session_valid: true, ..m }
}

/// The outcome of constructing the control-session actor. On success the new
/// actor (the next identity) becomes current and the core is connected. On
/// failure the credentials are cleared — a stale failed credential must not be
/// retried forever — and the core rests until the next discovery hand-off.
pub open spec fn on_attempt_outcome(m: CoreModel, ok: bool) -> CoreModel {
    if ok {
        CoreModel {
            state: ConnectionState::Connected,
            current_actor: Some(m.actors_started),
            actors_started: (m.actors_started + 1) as u64,
            ..m
        }
    } else {
        CoreModel {
            state: ConnectionState::DisconnectedPendingRetry,
            credentials: None,
            ..m
        }
    }
}

/// An auto-reconnect attempt at time `t` counts against the rate limit at time
/// `now` while less than the window has elapsed since it.
pub open spec fn in_window(t: u64, now: u64) -> bool {
    now - t < RECONNECT_RATE_LIMIT_WINDOW_SECS
}

/// The ledger with everything outside the trailing window pruned away.
pub open spec fn pruned(ledger: Seq<u64>, now: u64) -> Seq<u64>
    decreases ledger.len(),
{
    if ledger.len() == 0 {
        Seq::empty()
    } else {
        let init = pruned(ledger.drop_last(), now);
        if in_window(ledger.last(), now) {
            init.push(ledger.last())
        } else {
            init
        }
    }
}

/// Whether, at time `now`, the pruned ledger still has room for one more
/// auto-reconnect. With the limit at 5, the sixth disconnect inside one
/// window is the first one refused.
pub open spec fn reconnect_allowed(ledger: Seq<u64>, now: u64) -> bool {
    pruned(ledger, now).len() < RECONNECT_RATE_LIMIT
}

/// The current actor's background task ended. The ledger is pruned to the
/// trailing window; if the rate limit leaves room and credentials are still
/// held, this attempt is recorded, the session handle is invalidated, and the
/// core goes back to connecting. Otherwise reconnection is refused: the core
/// terminates and drops the credentials it could not use.
pub open spec fn on_actor_ended(m: CoreModel, now: u64) -> CoreModel {
    let kept = pruned(m.ledger, now);
    if m.credentials is Some && reconnect_allowed(m.ledger, now) {
        CoreModel {
            state: ConnectionState::Connecting,
            ledger: kept.push(now),
            session_valid: false,
            current_actor: None,
            ..m
        }
    } else {
        CoreModel {
            state: ConnectionState::Terminated,
            credentials: None,
            ledger: kept,
            current_actor: None,
            ..m
        }
    }
}

/// The discovery stream ended unexpectedly: no further credential hand-offs
/// are possible, so the core is finished for this run.
pub open spec fn on_discovery_ended(m: CoreModel) -> CoreModel {
    CoreModel { state: ConnectionState::Terminated, discovery_present: false, ..m }
}

/// The actor discipline: while the core is connecting no actor is installed,
/// and the current actor, if any, is one of those already constructed. Every
/// operation preserves it, so no reachable state holds two live actors and no
/// identity is ever reused.
pub open spec fn actor_inv(m: CoreModel) -> bool {
    &&& m.state is Connecting ==> m.current_actor is None
    &&& m.current_actor matches Some(g) ==> g < m.actors_started
}

/// Explicit shutdown: stop the event listener, release the actor and the
/// discovery stream.
pub open spec fn on_shutdown(m: CoreModel) -> CoreModel {
    CoreModel {
        state: ConnectionState::Terminated,
        listener_running: false,
        current_actor: None,
        discovery_present: false,
        ..m
    }
}

pub proof fn lemma_pruned_len_le(ledger: Seq<u64>, now: u64)
    ensures
        pruned(ledger, now).len() <= ledger.len(),
    decreases ledger.len(),
{
    if ledger.len() > 0 {
        lemma_pruned_len_le(ledger.drop_last(), now);
    }
}

/// Pruning keeps a ledger whose entries all lie inside the window unchanged.
pub proof fn lemma_pruned_all_in_window(ledger: Seq<u64>, now: u64)
    requires
        forall|i: int| 0 <= i < ledger.len() ==> #[trigger] in_window(ledger[i], now),
    ensures
        pruned(ledger, now) == ledger,
    decreases ledger.len(),
{
    if ledger.len() > 0 {
        assert(forall|i: int|
            0 <= i < ledger.drop_last().len() ==> #[trigger] in_window(ledger.drop_last()[i], now));
        lemma_pruned_all_in_window(ledger.drop_last(), now);
        assert(in_window(ledger[ledger.len() - 1], now));
        assert(pruned(ledger, now) =~= ledger);
    }
}

/// Pruning a ledger with at least one stale entry strictly shrinks it.
pub proof fn lemma_pruned_drops_stale(ledger: Seq<u64>, now: u64, i: int)
    requires
        0 <= i < ledger.len(),
        !in_window(ledger[i], now),
    ensures
        pruned(ledger, now).len() < ledger.len(),
    decreases ledger.len(),
{
    if i == ledger.len() - 1 {
        lemma_pruned_len_le(ledger.drop_last(), now);
    } else {
        lemma_pruned_drops_stale(ledger.drop_last(), now, i);
    }
}

/// The reconnect rate limit refuses a burst: starting from an empty ledger,
/// six disconnects in order whose span is below the trailing window see the
/// first five answered with a retry and the sixth refused.
pub proof fn lemma_reconnect_burst_refused(m0: CoreModel, t1: u64, t2: u64, t3: u64, t4: u64, t5: u64, t6: u64)
    requires
        m0.credentials is Some,
        m0.ledger.len() == 0,
        t1 <= t2 <= t3 <= t4 <= t5 <= t6,
        t6 - t1 < RECONNECT_RATE_LIMIT_WINDOW_SECS,
    ensures
        ({
            let m1 = on_actor_ended(m0, t1);
            let m2 = on_actor_ended(m1, t2);
            let m3 = on_actor_ended(m2, t3);
            let m4 = on_actor_ended(m3, t4);
            let m5 = on_actor_ended(m4, t5);
            let m6 = on_actor_ended(m5, t6);
            &&& m1.state is Connecting
            &&& m2.state is Connecting
            &&& m3.state is Connecting
            &&& m4.state is Connecting
            &&& m5.state is Connecting
            &&& m6.state is Terminated
        }),
{
    let m1 = on_actor_ended(m0, t1);
    let m2 = on_actor_ended(m1, t2);
    let m3 = on_actor_ended(m2, t3);
    let m4 = on_actor_ended(m3, t4);
    let m5 = on_actor_ended(m4, t5);

    assert(pruned(m0.ledger, t1) =~= Seq::<u64>::empty());
    assert(m1.ledger =~= seq![t1]);

    lemma_pruned_all_in_window(m1.ledger, t2);
    assert(m2.ledger =~= seq![t1, t2]);

    lemma_pruned_all_in_window(m2.ledger, t3);
    assert(m3.ledger =~= seq![t1, t2, t3]);

    lemma_pruned_all_in_window(m3.ledger, t4);
    assert(m4.ledger =~= seq![t1, t2, t3, t4]);

    lemma_pruned_all_in_window(m4.ledger, t5);
    assert(m5.ledger =~= seq![t1, t2, t3, t4, t5]);
    assert(m5.credentials is Some);

    lemma_pruned_all_in_window(m5.ledger, t6);
    assert(pruned(m5.ledger, t6).len() == 5);
    assert(!reconnect_allowed(m5.ledger, t6));
}

/// Pruning either keeps a ledger whole or strictly shrinks it.
pub proof fn lemma_pruned_id_or_shrinks(s: Seq<u64>, now: u64)
    ensures
        pruned(s, now) == s || pruned(s, now).len() < s.len(),
{
    if forall|i: int| 0 <= i < s.len() ==> #[trigger] in_window(s[i], now) {
        lemma_pruned_all_in_window(s, now);
    } else {
        let i = choose|i: int| 0 <= i < s.len() && !in_window(s[i], now);
        lemma_pruned_drops_stale(s, now, i);
    }
}

/// The same six disconnects spread over at least the trailing window are each
/// answered with a retry: the first five always are, and by the sixth either
/// some entry was already pruned along the way, or the full five are present
/// and the oldest has left the window.
pub proof fn lemma_reconnect_spread_allowed(m0: CoreModel, t1: u64, t2: u64, t3: u64, t4: u64, t5: u64, t6: u64)
    requires
        m0.credentials is Some,
        m0.ledger.len() == 0,
        t1 <= t2 <= t3 <= t4 <= t5 <= t6,
        t6 - t1 >= RECONNECT_RATE_LIMIT_WINDOW_SECS,
    ensures
        ({
            let m1 = on_actor_ended(m0, t1);
            let m2 = on_actor_ended(m1, t2);
            let m3 = on_actor_ended(m2, t3);
            let m4 = on_actor_ended(m3, t4);
            let m5 = on_actor_ended(m4, t5);
            let m6 = on_actor_ended(m5, t6);
            &&& m1.state is Connecting
            &&& m2.state is Connecting
            &&& m3.state is Connecting
            &&& m4.state is Connecting
            &&& m5.state is Connecting
            &&& m6.state is Connecting
        }),
{
    let m1 = on_actor_ended(m0, t1);
    let m2 = on_actor_ended(m1, t2);
    let m3 = on_actor_ended(m2, t3);
    let m4 = on_actor_ended(m3, t4);
    let m5 = on_actor_ended(m4, t5);

    let full1 = Seq::<u64>::empty().push(t1);
    let full2 = full1.push(t2);
    let full3 = full2.push(t3);
    let full4 = full3.push(t4);
    let full5 = full4.push(t5);

    assert(m1.ledger == full1);

    lemma_pruned_len_le(m1.ledger, t2);
    lemma_pruned_id_or_shrinks(m1.ledger, t2);
    assert(m2.state is Connecting);
    assert(m2.ledger == full2 || m2.ledger.len() <= 1);

    lemma_pruned_len_le(m2.ledger, t3);
    lemma_pruned_id_or_shrinks(m2.ledger, t3);
    assert(m3.state is Connecting);
    assert(m3.ledger == full3 || m3.ledger.len() <= 2);

    lemma_pruned_len_le(m3.ledger, t4);
    lemma_pruned_id_or_shrinks(m3.ledger, t4);
    assert(m4.state is Connecting);
    assert(m4.ledger == full4 || m4.ledger.len() <= 3);

    lemma_pruned_len_le(m4.ledger, t5);
    lemma_pruned_id_or_shrinks(m4.ledger, t5);
    assert(m5.state is Connecting);
    assert(m5.ledger == full5 || m5.ledger.len() <= 4);

    if m5.ledger == full5 {
        assert(full5[0] == t1);
        assert(!in_window(t1, t6));
        lemma_pruned_drops_stale(m5.ledger, t6, 0);
    } else {
        lemma_pruned_len_le(m5.ledger, t6);
    }
    assert(reconnect_allowed(m5.ledger, t6));
}

/// The session core. All fields are only mutated through the operations below,
/// and the orchestrator invokes those from a single task, so no transition
/// races another.
pub struct SpotifyCore {
    pub config: SpotifyConfig,
    pub state: ConnectionState,
    pub last_credentials: Option<Credentials>,
    pub auto_connect_times: Vec<u64>,
    pub session_valid: bool,
    pub current_actor: Option<u64>,
    pub actors_started: u64,
    pub discovery_present: bool,
    pub listener_running: bool,
}

impl View for SpotifyCore {
    type V = CoreModel;

    open spec fn view(&self) -> CoreModel {
        CoreModel {
            config: self.config@,
            state: self.state,
            credentials: match self.last_credentials {
                Some(ref c) => Some(c@),
                None => None,
            },
            ledger: self.auto_connect_times@,
            session_valid: self.session_valid,
            current_actor: self.current_actor,
            actors_started: self.actors_started,
            discovery_present: self.discovery_present,
            listener_running: self.listener_running,
        }
    }
}

/// What the caller must do after a discovery hand-off: ask the named actor to
/// shut down and detach its completion (never blocking the hand-off on it),
/// and invalidate the session handle if it was live.
pub struct DiscoveryAction {
    pub shutdown_actor: Option<u64>,
    pub invalidate_session: bool,
}

/// What the caller must do on explicit shutdown.
pub struct ShutdownAction {
    pub abort_listener: bool,
    pub shutdown_actor: Option<u64>,
    pub release_discovery: bool,
}

/// The reconnect policy's verdict after the actor's task ended.
#[derive(Clone, Copy, PartialEq, Eq, Structural, Debug)]
pub enum CompletionVerdict {
    /// Retry: the orchestrator should attempt a new connection; when
    /// `invalidate_session` holds, the old handle must be shut down first.
    RetryScheduled { invalidate_session: bool },
    /// The rate limit (or the absence of credentials) forbids another attempt.
    ReconnectRefused,
}

/// The result the caller observed while constructing the control-session
/// actor and fetching the access token, handed back to the core.
pub enum ActorSetup {
    /// The actor is running and this access token was fetched.
    Established(String),
    /// Construction failed.
    Failed,
}

/// The reconnect ledger with everything outside the trailing window pruned
/// away. Entries must not lie in the future of `now`.
pub fn prune_ledger(times: &Vec<u64>, now: u64) -> (kept: Vec<u64>)
    requires
        forall|i: int| 0 <= i < times@.len() ==> #[trigger] times@[i] <= now,
    ensures
        kept@ == pruned(times@, now),
{
    let mut kept: Vec<u64> = Vec::new();
    let mut i: usize = 0;
    while i < times.len()
        invariant
            i <= times@.len(),
            forall|j: int| 0 <= j < times@.len() ==> #[trigger] times@[j] <= now,
            kept@ == pruned(times@.subrange(0, i as int), now),
        decreases times@.len() - i,
    {
        let t = times[i];
        proof {
            let pre = times@.subrange(0, i as int);
            let cur = times@.subrange(0, i + 1);
            assert(cur.drop_last() =~= pre);
            assert(cur.last() == t);
        }
        if now - t < RECONNECT_RATE_LIMIT_WINDOW_SECS {
            kept.push(t);
        }
        i = i + 1;
    }
    proof {
        assert(times@.subrange(0, times@.len() as int) =~= times@);
    }
    kept
}

impl SpotifyCore {
    /// A fresh core around a configuration. `discovery_present` records
    /// whether the discovery stream could be started; its failure is
    /// non-fatal and leaves the core able to work without discovery.
    pub fn new(config: SpotifyConfig, discovery_present: bool) -> (s: Self)
        ensures
            s@ == init_model(config@, discovery_present),
            actor_inv(s@),
    {
        let s = SpotifyCore {
            config,
            state: ConnectionState::Idle,
            last_credentials: None,
            auto_connect_times: Vec::new(),
            session_valid: true,
            current_actor: None,
            actors_started: 0,
            discovery_present,
            listener_running: true,
        };
        proof {
            assert(s@ =~= init_model(s.config@, discovery_present));
        }
        s
    }

    /// Discovery handed off new credentials: see [`on_discovery`]. The
    /// returned action names the superseded actor (if any) for detached
    /// teardown and says whether the session handle must be invalidated.
    pub fn handle_discovery_event(&mut self, credentials: Credentials) -> (a: DiscoveryAction)
        ensures
            final(self)@ == on_discovery(old(self)@, credentials@),
            actor_inv(final(self)@),
            a.shutdown_actor == old(self)@.current_actor,
            a.invalidate_session == old(self)@.session_valid,
    {
        let a = DiscoveryAction {
            shutdown_actor: self.current_actor,
            invalidate_session: self.session_valid,
        };
        self.last_credentials = Some(credentials);
        self.auto_connect_times.clear();
        self.current_actor = None;
        self.session_valid = false;
        self.state = ConnectionState::Connecting;
        proof {
            assert(self@ =~= on_discovery(old(self)@, credentials@));
        }
        a
    }

    /// Starts a connection attempt: when the session handle was invalidated, a
    /// fresh one must be created and the player rebound to it; the return
    /// value says whether that is needed. Only called under the orchestrator's
    /// guard: connecting, with credentials present.
    pub fn begin_connection_attempt(&mut self) -> (recreate_session: bool)
        requires
            old(self)@.state is Connecting,
            old(self)@.credentials is Some,
        ensures
            final(self)@ == on_begin_attempt(old(self)@),
            actor_inv(old(self)@) ==> actor_inv(final(self)@),
            recreate_session == !old(self)@.session_valid,
    {
        let recreate = !self.session_valid;
        self.session_valid = true;
        proof {
            assert(self@ =~= on_begin_attempt(old(self)@));
        }
        recreate
    }

    /// Records the outcome of the connection attempt: see
    /// [`on_attempt_outcome`]. On success the access token is returned for the
    /// caller to announce; on failure the credentials are dropped and the
    /// caller must wait for the next discovery hand-off or scheduled retry.
    pub fn attempt_connection(&mut self, setup: ActorSetup) -> (r: Result<String, ()>)
        requires
            old(self)@.state is Connecting,
            old(self)@.credentials is Some,
            old(self)@.session_valid,
            old(self)@.actors_started < u64::MAX,
        ensures
            final(self)@ == on_attempt_outcome(old(self)@, setup is Established),
            actor_inv(old(self)@) ==> actor_inv(final(self)@),
            match setup {
                ActorSetup::Established(token) => r matches Ok(t) && t@ == token@,
                ActorSetup::Failed => r is Err,
            },
    {
        match setup {
            ActorSetup::Established(token) => {
                self.current_actor = Some(self.actors_started);
                self.actors_started = self.actors_started + 1;
                self.state = ConnectionState::Connected;
                proof {
                    assert(self@ =~= on_attempt_outcome(old(self)@, true));
                }
                Ok(token)
            },
            ActorSetup::Failed => {
                self.state = ConnectionState::DisconnectedPendingRetry;
                self.last_credentials = None;
                proof {
                    assert(self@ =~= on_attempt_outcome(old(self)@, false));
                }
                Err(())
            },
        }
    }

    /// The control-session actor's background task ended: evaluate the
    /// reconnect policy at time `now` (seconds on a monotone clock): see
    /// [`on_actor_ended`].
    pub fn handle_spirc_completion(&mut self, now: u64) -> (v: CompletionVerdict)
        requires
            forall|i: int|
                0 <= i < old(self)@.ledger.len() ==> #[trigger] old(self)@.ledger[i] <= now,
        ensures
            final(self)@ == on_actor_ended(old(self)@, now),
            actor_inv(final(self)@),
            v matches CompletionVerdict::RetryScheduled { invalidate_session }
                ==> (old(self)@.credentials is Some && reconnect_allowed(old(self)@.ledger, now)
                    && invalidate_session == old(self)@.session_valid),
            v is ReconnectRefused
                <==> !(old(self)@.credentials is Some && reconnect_allowed(old(self)@.ledger, now)),
    {
        self.current_actor = None;
        let mut kept = prune_ledger(&self.auto_connect_times, now);

        if self.last_credentials.is_some() && kept.len() < RECONNECT_RATE_LIMIT {
            kept.push(now);
            self.auto_connect_times = kept;
            let invalidate = self.session_valid;
            self.session_valid = false;
            self.state = ConnectionState::Connecting;
            proof {
                assert(self@ =~= on_actor_ended(old(self)@, now));
            }
            CompletionVerdict::RetryScheduled { invalidate_session: invalidate }
        } else {
            self.auto_connect_times = kept;
            self.last_credentials = None;
            self.state = ConnectionState::Terminated;
            proof {
                assert(self@ =~= on_actor_ended(old(self)@, now));
            }
            CompletionVerdict::ReconnectRefused
        }
    }

    /// Explicit shutdown: see [`on_shutdown`]. The action tells the caller to
    /// abort the event listener, shut the named actor down, and release the
    /// discovery stream.
    pub fn shutdown(&mut self) -> (a: ShutdownAction)
        ensures
            final(self)@ == on_shutdown(old(self)@),
            actor_inv(final(self)@),
            a.abort_listener == old(self)@.listener_running,
            a.shutdown_actor == old(self)@.current_actor,
            a.release_discovery == old(self)@.discovery_present,
    {
        let a = ShutdownAction {
            abort_listener: self.listener_running,
            shutdown_actor: self.current_actor,
            release_discovery: self.discovery_present,
        };
        self.listener_running = false;
        self.current_actor = None;
        self.discovery_present = false;
        self.state = ConnectionState::Terminated;
        proof {
            assert(self@ =~= on_shutdown(old(self)@));
        }
        a
    }

    /// The discovery stream ended unexpectedly: see [`on_discovery_ended`].
    pub fn handle_discovery_ended(&mut self)
        ensures
            final(self)@ == on_discovery_ended(old(self)@),
            actor_inv(old(self)@) ==> actor_inv(final(self)@),
    {
        self.discovery_present = false;
        self.state = ConnectionState::Terminated;
        proof {
            assert(self@ =~= on_discovery_ended(old(self)@));
        }
    }

    /// The orchestrator's guard for the connection-attempt branch: connecting,
    /// with credentials present.
    pub fn connection_ready(&self) -> (r: bool)
        ensures
            r == (self@.state is Connecting && self@.credentials is Some),
    {
        self.state == ConnectionState::Connecting && self.last_credentials.is_some()
    }

    /// The orchestrator's guard for awaiting the actor's background task: an
    /// actor is installed and no connection attempt is in flight.
    pub fn completion_watch_enabled(&self) -> (r: bool)
        ensures
            r == (self@.current_actor is Some && !(self@.state is Connecting)),
    {
        self.current_actor.is_some() && !(self.state == ConnectionState::Connecting)
    }
}

} // verus!
