//! Webhook publish cycle: best-effort delivery of one status message per
//! cycle. Each cycle resolves the host, opens one fresh secured connection,
//! sends one POST and discards the response; any failure aborts the cycle
//! and the next cycle starts over. The transport work itself happens
//! outside; this module decides what to do with each transport answer.

use vstd::prelude::*;

verus! {

/// Port the secured transport connects to.
pub const HTTPS_PORT: u16 = 443;

/// Idle timeout carried by each transport connection, in seconds.
pub const IDLE_TIMEOUT_SECS: u64 = 10;

/// Polling tick of the publish loop, in milliseconds.
pub const PUBLISH_TICK_MS: u64 = 1000;

/// How one publish cycle ended.
#[derive(Clone, Copy, Debug, PartialEq, Eq, Structural)]
pub enum CycleOutcome {
    /// The POST went out; the response is discarded.
    Published,
    /// Host resolution failed; nothing further was attempted.
    AbortedResolve,
    /// The connection could not be opened; nothing was sent.
    AbortedConnect,
    /// The request could not be sent.
    AbortedSend,
}

/// Transient per-cycle record of one publish attempt. A step the cycle
/// never reached stays `None`.
pub struct WebhookAttempt {
    pub resolved_address: Option<u32>,
    pub connect_result: Option<bool>,
    pub send_result: Option<bool>,
}

/// What the transport answers during one cycle: the DNS answer, and how a
/// connect and a send would fare if the cycle reaches them.
#[derive(Clone, Copy, Debug, PartialEq, Eq, Structural)]
pub struct TransportCycle {
    /// The resolved IPv4 address, or `None` when resolution fails.
    pub resolved: Option<u32>,
    pub connect_ok: bool,
    pub send_ok: bool,
}

/// The outcome one cycle owes for the given transport answers: the first
/// failing step aborts the cycle.
pub open spec fn cycle_outcome(env: TransportCycle) -> CycleOutcome {
    if env.resolved is None {
        CycleOutcome::AbortedResolve
    } else if !env.connect_ok {
        CycleOutcome::AbortedConnect
    } else if !env.send_ok {
        CycleOutcome::AbortedSend
    } else {
        CycleOutcome::Published
    }
}

/// Where one publish cycle stands while the transport works.
#[derive(Clone, Copy, Debug, PartialEq, Eq, Structural)]
pub enum AttemptPhase {
    /// Waiting for the DNS answer.
    Resolving,
    /// Waiting for the connection to the resolved address to open.
    Connecting(u32),
    /// Waiting for the POST over the open connection to finish.
    Sending(u32),
    /// The cycle is over.
    Finished(CycleOutcome),
}

/// Every cycle starts by resolving the host.
pub fn begin_cycle() -> (p: AttemptPhase)
    ensures
        p == AttemptPhase::Resolving,
{
    AttemptPhase::Resolving
}

/// Act on the DNS answer: an address moves the cycle on to connecting, a
/// failure ends it. Out of the resolving phase the answer is stale and
/// changes nothing.
pub fn on_resolved(p: AttemptPhase, answer: Option<u32>) -> (q: AttemptPhase)
    ensures
        q == spec_on_resolved(p, answer),
        p == AttemptPhase::Resolving ==> (answer matches Some(a) ==> q
            == AttemptPhase::Connecting(a)),
        p == AttemptPhase::Resolving && answer is None ==> q == AttemptPhase::Finished(
            CycleOutcome::AbortedResolve,
        ),
        p != AttemptPhase::Resolving ==> q == p,
{
    match (p, answer) {
        (AttemptPhase::Resolving, Some(a)) => AttemptPhase::Connecting(a),
        (AttemptPhase::Resolving, None) => AttemptPhase::Finished(CycleOutcome::AbortedResolve),
        (other, _) => other,
    }
}

/// Act on the connect result: an open connection moves the cycle on to
/// sending, a failure ends it.
pub fn on_connected(p: AttemptPhase, ok: bool) -> (q: AttemptPhase)
    ensures
        q == spec_on_connected(p, ok),
        p matches AttemptPhase::Connecting(a) ==> ok ==> q == AttemptPhase::Sending(a),
        (p matches AttemptPhase::Connecting(a) && !ok) ==> q == AttemptPhase::Finished(
            CycleOutcome::AbortedConnect,
        ),
        !(p matches AttemptPhase::Connecting(_)) ==> q == p,
{
    match p {
        AttemptPhase::Connecting(a) => {
            if ok {
                AttemptPhase::Sending(a)
            } else {
                AttemptPhase::Finished(CycleOutcome::AbortedConnect)
            }
        },
        other => other,
    }
}

/// Act on the send result; either way the cycle is over.
pub fn on_sent(p: AttemptPhase, ok: bool) -> (q: AttemptPhase)
    ensures
        q == spec_on_sent(p, ok),
        (p matches AttemptPhase::Sending(_) && ok) ==> q == AttemptPhase::Finished(
            CycleOutcome::Published,
        ),
        (p matches AttemptPhase::Sending(_) && !ok) ==> q == AttemptPhase::Finished(
            CycleOutcome::AbortedSend,
        ),
        !(p matches AttemptPhase::Sending(_)) ==> q == p,
{
    match p {
        AttemptPhase::Sending(_) => {
            if ok {
                AttemptPhase::Finished(CycleOutcome::Published)
            } else {
                AttemptPhase::Finished(CycleOutcome::AbortedSend)
            }
        },
        other => other,
    }
}

/// The phase a whole cycle ends in when the transport answers as `env`
/// says, following the three steps in order.
pub open spec fn stepped_cycle(env: TransportCycle) -> AttemptPhase {
    spec_on_sent(spec_on_connected(spec_on_resolved(AttemptPhase::Resolving, env.resolved), env.connect_ok), env.send_ok)
}

/// Spec twin of `on_resolved`.
pub open spec fn spec_on_resolved(p: AttemptPhase, answer: Option<u32>) -> AttemptPhase {
    match (p, answer) {
        (AttemptPhase::Resolving, Some(a)) => AttemptPhase::Connecting(a),
        (AttemptPhase::Resolving, None) => AttemptPhase::Finished(CycleOutcome::AbortedResolve),
        (other, _) => other,
    }
}

/// Spec twin of `on_connected`.
pub open spec fn spec_on_connected(p: AttemptPhase, ok: bool) -> AttemptPhase {
    match p {
        AttemptPhase::Connecting(a) => if ok {
            AttemptPhase::Sending(a)
        } else {
            AttemptPhase::Finished(CycleOutcome::AbortedConnect)
        },
        other => other,
    }
}

/// Spec twin of `on_sent`.
pub open spec fn spec_on_sent(p: AttemptPhase, ok: bool) -> AttemptPhase {
    match p {
        AttemptPhase::Sending(_) => if ok {
            AttemptPhase::Finished(CycleOutcome::Published)
        } else {
            AttemptPhase::Finished(CycleOutcome::AbortedSend)
        },
        other => other,
    }
}

/// Stepping through a whole cycle ends it, and ends it in exactly the
/// outcome the transport answers owe.
pub proof fn lemma_stepped_cycle_outcome(env: TransportCycle)
    ensures
        stepped_cycle(env) == AttemptPhase::Finished(cycle_outcome(env)),
{
}

/// Best-effort periodic status delivery toward one configured host.
pub struct WebhookPublisher {
    host: String,
    path: String,
}

impl WebhookPublisher {
    /// The configured host name the status is delivered to.
    pub closed spec fn host_chars(self) -> Seq<char> {
        self.host@
    }

    /// The configured request path, access token included.
    pub closed spec fn path_chars(self) -> Seq<char> {
        self.path@
    }

    pub fn new(host: String, path: String) -> (p: WebhookPublisher)
        ensures
            p.host_chars() == host@,
            p.path_chars() == path@,
    {
        WebhookPublisher { host, path }
    }

    /// The configured host name.
    pub fn host(&self) -> (h: &String)
        ensures
            h@ == self.host_chars(),
    {
        &self.host
    }

    /// The configured request path.
    pub fn path(&self) -> (p: &String)
        ensures
            p@ == self.path_chars(),
    {
        &self.path
    }

    /// Run one publish cycle against the given transport answers: the
    /// outcome is exactly what the answers owe, the attempt record marks
    /// every step the cycle never reached as untried, and the publisher
    /// itself is left exactly as it was — no failure corrupts it, and no
    /// state is carried from one cycle into the next.
    pub fn run_cycle(&mut self, env: TransportCycle) -> (r: (CycleOutcome, WebhookAttempt))
        ensures
            *final(self) == *old(self),
            r.0 == cycle_outcome(env),
            r.1.resolved_address == env.resolved,
            env.resolved is None ==> r.1.connect_result is None && r.1.send_result is None,
            env.resolved is Some && !env.connect_ok ==> r.1.connect_result == Some(false)
                && r.1.send_result is None,
            env.resolved is Some && env.connect_ok ==> r.1.connect_result == Some(true)
                && r.1.send_result == Some(env.send_ok),
    {
        match env.resolved {
            None => (
                CycleOutcome::AbortedResolve,
                WebhookAttempt { resolved_address: None, connect_result: None, send_result: None },
            ),
            Some(address) => {
                if !env.connect_ok {
                    (
                        CycleOutcome::AbortedConnect,
                        WebhookAttempt {
                            resolved_address: Some(address),
                            connect_result: Some(false),
                            send_result: None,
                        },
                    )
                } else if !env.send_ok {
                    (
                        CycleOutcome::AbortedSend,
                        WebhookAttempt {
                            resolved_address: Some(address),
                            connect_result: Some(true),
                            send_result: Some(false),
                        },
                    )
                } else {
                    (
                        CycleOutcome::Published,
                        WebhookAttempt {
                            resolved_address: Some(address),
                            connect_result: Some(true),
                            send_result: Some(true),
                        },
                    )
                }
            },
        }
    }
}

/// The outcomes a sequence of cycles owes, one per cycle.
pub open spec fn outcomes_of(envs: Seq<TransportCycle>) -> Seq<CycleOutcome> {
    envs.map_values(|env: TransportCycle| cycle_outcome(env))
}

/// A permanently failing resolver is harmless: however many cycles run,
/// every one of them aborts the same way, and none reaches the transport.
pub proof fn lemma_resolve_failure_idempotent(envs: Seq<TransportCycle>)
    requires
        forall|i: int| 0 <= i < envs.len() ==> (#[trigger] envs[i]).resolved is None,
    ensures
        outcomes_of(envs).len() == envs.len(),
        forall|i: int| 0 <= i < envs.len() ==> outcomes_of(envs)[i]
            == CycleOutcome::AbortedResolve,
{
    assert forall|i: int| 0 <= i < envs.len() implies outcomes_of(envs)[i]
        == CycleOutcome::AbortedResolve by {
        assert(envs[i].resolved is None);
    }
}

} // verus!
