//! Network-readiness gate: one place for every component to wait until the
//! shared network stack is usable. It polls an observation of the
//! stack — link state and address configuration — and completes only on an
//! observation in which both hold at once.

use vstd::prelude::*;

verus! {

/// Pause between two readiness polls, in milliseconds.
pub const POLL_INTERVAL_MS: u64 = 500;

/// Address configuration the stack acquired: the node's own IPv4 address
/// and the DNS servers, each as a 32-bit big-endian address value.
pub struct NetConfig {
    pub address: u32,
    pub dns_servers: Vec<u32>,
}

/// One read-only observation of the shared network stack.
pub struct StackStatus {
    /// The link layer is up.
    pub link_up: bool,
    /// The acquired address configuration, once DHCP has completed.
    pub config: Option<NetConfig>,
}

/// Which condition is currently being polled for.
#[derive(Clone, Copy, Debug, PartialEq, Eq, Structural)]
pub enum GatePhase {
    /// Waiting for the link layer to come up.
    AwaitLink,
    /// Waiting for the address configuration to complete.
    AwaitConfig,
}

/// What one readiness poll decided.
pub enum GateStep {
    /// Not ready: poll again in `POLL_INTERVAL_MS` from the given phase.
    Wait(GatePhase),
    /// A condition was met: poll again at once from the given phase.
    Advance(GatePhase),
    /// Ready: the observed address configuration.
    Done(NetConfig),
}

/// Suspend-until-ready, step by step: holds the phase between polls.
pub struct ReadinessGate {
    phase: GatePhase,
}

impl ReadinessGate {
    /// The condition currently polled for.
    pub closed spec fn phase(self) -> GatePhase {
        self.phase
    }

    pub fn new() -> (g: ReadinessGate)
        ensures
            g.phase() == GatePhase::AwaitLink,
    {
        ReadinessGate { phase: GatePhase::AwaitLink }
    }

    /// Act on one observation of the stack. Readiness is reached only on an
    /// observation that shows the link up and an address configured at the
    /// same time, and then hands that configuration back unchanged. A link
    /// that drops while the address is awaited sends the poll phase back
    /// to the link.
    pub fn poll(&mut self, observed: StackStatus) -> (step: GateStep)
        ensures
            step matches GateStep::Done(c) ==> observed.link_up && (observed.config matches Some(
                oc,
            ) && c.address == oc.address && c.dns_servers@ == oc.dns_servers@),
            step matches GateStep::Done(c) ==> final(self).phase() == GatePhase::AwaitConfig,
            old(self).phase() == GatePhase::AwaitLink && !observed.link_up ==> (step matches
                GateStep::Wait(p) && p == GatePhase::AwaitLink && final(self).phase()
                == GatePhase::AwaitLink),
            old(self).phase() == GatePhase::AwaitLink && observed.link_up ==> (step matches
                GateStep::Advance(p) && p == GatePhase::AwaitConfig && final(self).phase()
                == GatePhase::AwaitConfig),
            old(self).phase() == GatePhase::AwaitConfig && !observed.link_up ==> (step matches
                GateStep::Wait(p) && p == GatePhase::AwaitLink && final(self).phase()
                == GatePhase::AwaitLink),
            old(self).phase() == GatePhase::AwaitConfig && observed.link_up && observed.config
                is None ==> (step matches GateStep::Wait(p) && p == GatePhase::AwaitConfig
                && final(self).phase() == GatePhase::AwaitConfig),
            old(self).phase() == GatePhase::AwaitConfig && observed.link_up
                && observed.config is Some ==> step matches GateStep::Done(c),
    {
        match self.phase {
            GatePhase::AwaitLink => {
                if observed.link_up {
                    self.phase = GatePhase::AwaitConfig;
                    GateStep::Advance(GatePhase::AwaitConfig)
                } else {
                    GateStep::Wait(GatePhase::AwaitLink)
                }
            },
            GatePhase::AwaitConfig => {
                if !observed.link_up {
                    self.phase = GatePhase::AwaitLink;
                    GateStep::Wait(GatePhase::AwaitLink)
                } else {
                    match observed.config {
                        Some(c) => GateStep::Done(c),
                        None => GateStep::Wait(GatePhase::AwaitConfig),
                    }
                }
            },
        }
    }
}

} // verus!
