//! The orchestrator's view of the session core: the five event sources merged
//! into one stream of [`CoreEvent`]s, a single step function with the branch
//! guards, and the one-shot start guard.
//!
//! The embedding process waits on the real sources (discovery, the in-flight
//! connection attempt, the actor's background task, the liveness check, the
//! shutdown signal) and applies exactly one event per iteration by calling the
//! session core's transition operations; each operation's postcondition ties
//! it to [`core_step`], so the lemmas here hold of every run.

use vstd::prelude::*;
use crate::session::{
    actor_inv, on_actor_ended, on_attempt_outcome, on_begin_attempt, on_discovery,
    on_discovery_ended, on_shutdown, CoreModel, CredentialsModel,
};

verus! {

/// One event from the merged stream, in the abstract: new credentials from
/// discovery, the end of the discovery stream, the outcome of a connection
/// attempt, the end of the current actor's background task (with the time it
/// was observed), or the external shutdown signal.
pub enum CoreEvent {
    Discovery(CredentialsModel),
    DiscoveryEnded,
    AttemptOutcome(bool),
    ActorEnded(u64),
    Shutdown,
}

/// One orchestrator iteration: the transition the event's branch applies, with
/// the branch guards. An event whose guard does not hold changes nothing:
/// discovery events count only while discovery is present, a connection
/// outcome only while the core is connecting with credentials in hand (and
/// actor identities have headroom, a machine limit), and the actor's task is
/// only awaited while an actor is installed and no connection attempt is in
/// flight.
pub open spec fn core_step(m: CoreModel, e: CoreEvent) -> CoreModel {
    match e {
        CoreEvent::Discovery(c) => if m.discovery_present {
            on_discovery(m, c)
        } else {
            m
        },
        CoreEvent::DiscoveryEnded => if m.discovery_present {
            on_discovery_ended(m)
        } else {
            m
        },
        CoreEvent::AttemptOutcome(ok) => if m.state is Connecting && m.credentials is Some
            && m.actors_started < u64::MAX {
            on_attempt_outcome(on_begin_attempt(m), ok)
        } else {
            m
        },
        CoreEvent::ActorEnded(now) => if m.current_actor is Some && !(m.state is Connecting) {
            on_actor_ended(m, now)
        } else {
            m
        },
        CoreEvent::Shutdown => on_shutdown(m),
    }
}

/// The core after a whole sequence of events.
pub open spec fn run_core(m: CoreModel, events: Seq<CoreEvent>) -> CoreModel
    decreases events.len(),
{
    if events.len() == 0 {
        m
    } else {
        run_core(core_step(m, events[0]), events.drop_first())
    }
}

/// One step preserves the actor discipline and never swaps one current actor
/// for another: a new actor is installed only when none is current, and it is
/// a fresh identity.
pub proof fn lemma_step_single_actor(m: CoreModel, e: CoreEvent)
    requires
        actor_inv(m),
    ensures
        actor_inv(core_step(m, e)),
        core_step(m, e).current_actor is Some ==> (core_step(m, e).current_actor
            == m.current_actor || m.current_actor is None),
        (core_step(m, e).current_actor is Some && m.current_actor is None)
            ==> core_step(m, e).current_actor == Some(m.actors_started),
{
}

/// The actor discipline holds after any sequence of events.
pub proof fn lemma_run_single_actor(m: CoreModel, events: Seq<CoreEvent>)
    requires
        actor_inv(m),
    ensures
        actor_inv(run_core(m, events)),
    decreases events.len(),
{
    if events.len() > 0 {
        lemma_step_single_actor(m, events[0]);
        lemma_run_single_actor(core_step(m, events[0]), events.drop_first());
    }
}

/// At most one control-session actor is ever current: along any event
/// sequence from a state satisfying the actor discipline, every step either
/// keeps the current actor, removes it, or installs a fresh one where none was
/// current — never two at once, never a silent swap.
pub proof fn lemma_at_most_one_actor(m: CoreModel, events: Seq<CoreEvent>, k: int)
    requires
        actor_inv(m),
        0 <= k < events.len(),
    ensures
        ({
            let before = run_core(m, events.take(k));
            let after = core_step(before, events[k]);
            &&& actor_inv(before)
            &&& (after.current_actor is Some ==> (after.current_actor == before.current_actor
                || before.current_actor is None))
            &&& ((after.current_actor is Some && before.current_actor is None)
                ==> after.current_actor == Some(before.actors_started))
        }),
{
    lemma_run_single_actor(m, events.take(k));
    lemma_step_single_actor(run_core(m, events.take(k)), events[k]);
}

/// Guard for the one-shot start signal: the first claim is granted, every
/// later one refused, so the session core is set up at most once per process.
pub struct StartGuard {
    pub started: bool,
}

/// How many claims out of `n` a guard grants, starting from `started`: a run
/// of [`StartGuard::try_claim`] calls, each of which leaves the guard spent
/// and is granted exactly when it found the guard fresh.
pub open spec fn grants(started: bool, n: nat) -> int
    decreases n,
{
    if n == 0 {
        0
    } else {
        (if started {
            0int
        } else {
            1int
        }) + grants(true, (n - 1) as nat)
    }
}

/// A fresh guard grants exactly one claim out of any positive number of
/// claims: triggering the start signal twice sets up nothing the second time.
pub proof fn lemma_start_claimed_once(n: nat)
    ensures
        grants(false, n) == if n == 0 {
            0int
        } else {
            1int
        },
        grants(true, n) == 0,
    decreases n,
{
    if n > 0 {
        lemma_start_claimed_once((n - 1) as nat);
    }
}

impl StartGuard {
    pub fn new() -> (g: Self)
        ensures
            !g.started,
    {
        StartGuard { started: false }
    }

    /// Claims the one-shot start: granted exactly when nothing had claimed it
    /// before; afterwards the guard is spent for good.
    pub fn try_claim(&mut self) -> (granted: bool)
        ensures
            granted == !old(self).started,
            final(self).started,
    {
        let granted = !self.started;
        self.started = true;
        granted
    }
}

} // verus!
