//! Radio connection lifecycle: a state machine that starts the radio,
//! requests association, and reacts to disconnection, retrying forever
//! with a fixed backoff. The machine only decides; whoever owns the radio
//! performs the returned action and hands the resulting event back.

use vstd::prelude::*;

verus! {

/// Fixed delay inserted before a retry after an association failure or a
/// disconnection, in milliseconds.
pub const RETRY_BACKOFF_MS: u64 = 5000;

/// Connection lifecycle phase. Owned exclusively by the manager; every
/// transition is driven by one explicit radio event.
#[derive(Clone, Copy, Debug, PartialEq, Eq, Structural)]
pub enum ConnectionState {
    Disconnected,
    Starting,
    Associating,
    Connected,
}

/// What the radio driver reported since the last step.
#[derive(Clone, Copy, Debug, PartialEq, Eq, Structural)]
pub enum RadioEvent {
    /// Periodic prod while nothing else is pending.
    Tick,
    /// The radio reports that it is started.
    StartComplete,
    /// The association request succeeded.
    ConnectSucceeded,
    /// The association request failed.
    ConnectFailed,
    /// The radio lost its association.
    DisconnectDetected,
}

/// What the caller must do next with the radio hardware.
#[derive(Clone, Copy, Debug, PartialEq, Eq, Structural)]
pub enum RadioAction {
    /// Apply the client credentials and start the radio if it is not started.
    ConfigureAndStart,
    /// Issue the association request.
    RequestConnect,
    /// Wait `RETRY_BACKOFF_MS` before seeking the next event.
    Backoff,
    /// Suspend until the radio reports a disconnection.
    AwaitDisconnect,
    /// Nothing to do for this event.
    Idle,
}

/// The state after `event` arrives in `s`. Events that do not concern the
/// current state leave it unchanged.
pub open spec fn next_state(s: ConnectionState, event: RadioEvent) -> ConnectionState {
    match (s, event) {
        (ConnectionState::Disconnected, RadioEvent::Tick) => ConnectionState::Starting,
        (ConnectionState::Starting, RadioEvent::StartComplete) => ConnectionState::Associating,
        (ConnectionState::Associating, RadioEvent::ConnectSucceeded) => ConnectionState::Connected,
        (ConnectionState::Associating, RadioEvent::ConnectFailed) => ConnectionState::Starting,
        (ConnectionState::Connected, RadioEvent::DisconnectDetected) => ConnectionState::Disconnected,
        (other, _) => other,
    }
}

/// The action owed for `event` arriving in `s`.
pub open spec fn action_of(s: ConnectionState, event: RadioEvent) -> RadioAction {
    match (s, event) {
        (ConnectionState::Disconnected, RadioEvent::Tick) => RadioAction::ConfigureAndStart,
        (ConnectionState::Starting, RadioEvent::StartComplete) => RadioAction::RequestConnect,
        (ConnectionState::Associating, RadioEvent::ConnectSucceeded) => RadioAction::AwaitDisconnect,
        (ConnectionState::Associating, RadioEvent::ConnectFailed) => RadioAction::Backoff,
        (ConnectionState::Connected, RadioEvent::DisconnectDetected) => RadioAction::Backoff,
        (_, _) => RadioAction::Idle,
    }
}

/// Keeps the radio associated to the configured network, resiliently.
/// Holds the association credentials and the current lifecycle state.
pub struct ConnectivityManager {
    current: ConnectionState,
    ssid: String,
    password: String,
}

impl ConnectivityManager {
    /// The lifecycle state the manager is in.
    pub closed spec fn state(self) -> ConnectionState {
        self.current
    }

    /// The configured network name.
    pub closed spec fn ssid_chars(self) -> Seq<char> {
        self.ssid@
    }

    /// The configured network credential.
    pub closed spec fn password_chars(self) -> Seq<char> {
        self.password@
    }

    pub fn new(ssid: String, password: String) -> (m: ConnectivityManager)
        ensures
            m.state() == ConnectionState::Disconnected,
            m.ssid_chars() == ssid@,
            m.password_chars() == password@,
    {
        ConnectivityManager { current: ConnectionState::Disconnected, ssid, password }
    }

    /// Step the lifecycle on one radio event; the returned action is owed
    /// to the radio before the next event is sought. An association is
    /// never requested while already connected.
    pub fn handle(&mut self, event: RadioEvent) -> (action: RadioAction)
        ensures
            final(self).state() == next_state(old(self).state(), event),
            action == action_of(old(self).state(), event),
            old(self).state() == ConnectionState::Connected ==> action
                != RadioAction::RequestConnect,
            final(self).ssid_chars() == old(self).ssid_chars(),
            final(self).password_chars() == old(self).password_chars(),
    {
        let (next, action): (ConnectionState, RadioAction) = match (self.current, event) {
            (ConnectionState::Disconnected, RadioEvent::Tick) => (
                ConnectionState::Starting,
                RadioAction::ConfigureAndStart,
            ),
            (ConnectionState::Starting, RadioEvent::StartComplete) => (
                ConnectionState::Associating,
                RadioAction::RequestConnect,
            ),
            (ConnectionState::Associating, RadioEvent::ConnectSucceeded) => (
                ConnectionState::Connected,
                RadioAction::AwaitDisconnect,
            ),
            (ConnectionState::Associating, RadioEvent::ConnectFailed) => (
                ConnectionState::Starting,
                RadioAction::Backoff,
            ),
            (ConnectionState::Connected, RadioEvent::DisconnectDetected) => (
                ConnectionState::Disconnected,
                RadioAction::Backoff,
            ),
            (other, _) => (other, RadioAction::Idle),
        };
        self.current = next;
        action
    }

    /// Feed a whole sequence of radio events in order: the manager ends in
    /// the state the run leads to, with its credentials untouched.
    pub fn drive(&mut self, events: &Vec<RadioEvent>)
        ensures
            final(self).state() == end_state(old(self).state(), events@),
            final(self).ssid_chars() == old(self).ssid_chars(),
            final(self).password_chars() == old(self).password_chars(),
    {
        let ghost s0 = self.state();
        let ghost ssid0 = self.ssid_chars();
        let ghost password0 = self.password_chars();
        let mut i: usize = 0;
        proof {
            assert(events@.skip(0) =~= events@);
        }
        while i < events.len()
            invariant
                i <= events@.len(),
                end_state(self.state(), events@.skip(i as int)) == end_state(s0, events@),
                self.ssid_chars() == ssid0,
                self.password_chars() == password0,
            decreases events@.len() - i,
        {
            let event = events[i];
            self.handle(event);
            proof {
                let suffix = events@.skip(i as int);
                assert(suffix[0] == event);
                assert(suffix.drop_first() =~= events@.skip(i as int + 1));
            }
            i = i + 1;
        }
        proof {
            assert(events@.skip(events@.len() as int) =~= Seq::<RadioEvent>::empty());
        }
    }

    /// The current lifecycle state, for observation only.
    pub fn current_state(&self) -> (s: ConnectionState)
        ensures
            s == self.state(),
    {
        self.current
    }

    /// The configured network name.
    pub fn ssid(&self) -> (s: &String)
        ensures
            s@ == self.ssid_chars(),
    {
        &self.ssid
    }
}

/// The state a run ends in.
pub open spec fn end_state(s: ConnectionState, es: Seq<RadioEvent>) -> ConnectionState
    decreases es.len(),
{
    if es.len() == 0 {
        s
    } else {
        end_state(next_state(s, es[0]), es.drop_first())
    }
}

/// How many times a run enters `target` from a different state.
pub open spec fn entries(
    s: ConnectionState,
    es: Seq<RadioEvent>,
    target: ConnectionState,
) -> int
    decreases es.len(),
{
    if es.len() == 0 {
        0
    } else {
        let s1 = next_state(s, es[0]);
        (if s1 == target && s != target {
            1int
        } else {
            0int
        }) + entries(s1, es.drop_first(), target)
    }
}

/// Position of a state on the path from cold radio to association.
pub open spec fn rank(s: ConnectionState) -> int {
    match s {
        ConnectionState::Disconnected => 0,
        ConnectionState::Starting => 1,
        ConnectionState::Associating => 2,
        ConnectionState::Connected => 3,
    }
}

/// No association failure and no disconnection among the events.
pub open spec fn failure_free(es: Seq<RadioEvent>) -> bool {
    forall|i: int|
        0 <= i < es.len() ==> es[i] != RadioEvent::ConnectFailed && es[i]
            != RadioEvent::DisconnectDetected
}

/// On a failure-free run the lifecycle only moves forward, one phase at a
/// time, so a phase ahead of the start is entered exactly once if the run
/// gets that far and never otherwise.
proof fn lemma_entries_by_rank(s: ConnectionState, es: Seq<RadioEvent>, target: ConnectionState)
    requires
        failure_free(es),
    ensures
        rank(end_state(s, es)) >= rank(s),
        entries(s, es, target) == if rank(target) > rank(s) && rank(end_state(s, es)) >= rank(
            target,
        ) {
            1int
        } else {
            0int
        },
    decreases es.len(),
{
    if es.len() > 0 {
        let s1 = next_state(s, es[0]);
        assert(es[0] != RadioEvent::ConnectFailed && es[0] != RadioEvent::DisconnectDetected);
        assert(s1 == s || rank(s1) == rank(s) + 1);
        assert(failure_free(es.drop_first())) by {
            assert forall|i: int| 0 <= i < es.drop_first().len() implies es.drop_first()[i]
                != RadioEvent::ConnectFailed && es.drop_first()[i]
                != RadioEvent::DisconnectDetected by {
                assert(es.drop_first()[i] == es[i + 1]);
            }
        }
        lemma_entries_by_rank(s1, es.drop_first(), target);
    }
}

/// Any failure-free run that carries the lifecycle from Disconnected to
/// Connected passes through Starting exactly once and through Associating
/// exactly once: one start, one association request, per successful cycle.
pub proof fn lemma_single_pass_to_connected(es: Seq<RadioEvent>)
    requires
        failure_free(es),
        end_state(ConnectionState::Disconnected, es) == ConnectionState::Connected,
    ensures
        entries(ConnectionState::Disconnected, es, ConnectionState::Starting) == 1,
        entries(ConnectionState::Disconnected, es, ConnectionState::Associating) == 1,
{
    lemma_entries_by_rank(ConnectionState::Disconnected, es, ConnectionState::Starting);
    lemma_entries_by_rank(ConnectionState::Disconnected, es, ConnectionState::Associating);
}

/// No event can make the manager request an association while it is
/// already connected.
pub proof fn lemma_no_connect_while_connected(event: RadioEvent)
    ensures
        action_of(ConnectionState::Connected, event) != RadioAction::RequestConnect,
{
}

} // verus!
