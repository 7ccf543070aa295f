use vstd::prelude::*;

verus! {

/// Where the acceptor stands between startup and shutdown.
#[derive(Clone, Copy, Debug, PartialEq, Eq, Structural)]
pub enum Phase {
    /// The configured address is being parsed.
    Resolving,
    /// A listening socket is being bound to the address.
    Binding,
    /// Connections are being accepted.
    Listening,
    /// Nothing more is done.
    Stopped,
}

/// How the work asked for by the last action went.
#[derive(Clone, Copy, Debug, PartialEq, Eq, Structural)]
pub enum Outcome {
    Succeeded,
    Failed,
}

/// Why the acceptor gave up.
#[derive(Clone, Copy, Debug, PartialEq, Eq, Structural)]
pub enum Failure {
    /// The address could not be parsed.
    BadAddress,
    /// The socket could not be bound to the address.
    BindFailed,
    /// Accepting a connection failed.
    AcceptFailed,
}

/// What is to be done next.
#[derive(Clone, Copy, Debug, PartialEq, Eq, Structural)]
pub enum Action {
    /// Bind a listening socket to the parsed address.
    Bind,
    /// Announce the bound address, then accept the first connection.
    Listen,
    /// Hand the accepted connection to a task of its own, then accept the next.
    Serve,
    /// Stop with an error, before serving anything more.
    Abort(Failure),
    /// Do nothing: the acceptor has stopped.
    Halt,
}

/// The phase and action that follow `outcome` in `phase`.
pub open spec fn transition(phase: Phase, outcome: Outcome) -> (Phase, Action) {
    match (phase, outcome) {
        (Phase::Resolving, Outcome::Succeeded) => (Phase::Binding, Action::Bind),
        (Phase::Resolving, Outcome::Failed) => (Phase::Stopped, Action::Abort(Failure::BadAddress)),
        (Phase::Binding, Outcome::Succeeded) => (Phase::Listening, Action::Listen),
        (Phase::Binding, Outcome::Failed) => (Phase::Stopped, Action::Abort(Failure::BindFailed)),
        (Phase::Listening, Outcome::Succeeded) => (Phase::Listening, Action::Serve),
        (Phase::Listening, Outcome::Failed) => (Phase::Stopped, Action::Abort(Failure::AcceptFailed)),
        (Phase::Stopped, _) => (Phase::Stopped, Action::Halt),
    }
}

/// The actions taken from `phase` on the given outcomes, one per outcome.
pub open spec fn actions(phase: Phase, outcomes: Seq<Outcome>) -> Seq<Action>
    decreases outcomes.len(),
{
    if outcomes.len() == 0 {
        Seq::empty()
    } else {
        let (next, action) = transition(phase, outcomes[0]);
        seq![action] + actions(next, outcomes.drop_first())
    }
}

/// Decides, from the outcome of each step, how the server goes from its
/// configured address to serving connections. Errors of a single connection
/// stay within that connection's task and never reach the acceptor.
pub struct Acceptor {
    pub phase: Phase,
}

impl Acceptor {
    /// An acceptor that waits for the address to be parsed.
    pub fn new() -> (r: Acceptor)
        ensures
            r.phase == Phase::Resolving,
    {
        Acceptor { phase: Phase::Resolving }
    }

    /// Takes the outcome of the last piece of work and says what to do next.
    pub fn step(&mut self, outcome: Outcome) -> (r: Action)
        ensures
            (final(self).phase, r) == transition(old(self).phase, outcome),
    {
        let (next, action) = match (self.phase, outcome) {
            (Phase::Resolving, Outcome::Succeeded) => (Phase::Binding, Action::Bind),
            (Phase::Resolving, Outcome::Failed) => (Phase::Stopped, Action::Abort(Failure::BadAddress)),
            (Phase::Binding, Outcome::Succeeded) => (Phase::Listening, Action::Listen),
            (Phase::Binding, Outcome::Failed) => (Phase::Stopped, Action::Abort(Failure::BindFailed)),
            (Phase::Listening, Outcome::Succeeded) => (Phase::Listening, Action::Serve),
            (Phase::Listening, Outcome::Failed) => (Phase::Stopped, Action::Abort(Failure::AcceptFailed)),
            (Phase::Stopped, _) => (Phase::Stopped, Action::Halt),
        };
        self.phase = next;
        action
    }
}

/// Once stopped, the acceptor does nothing more, whatever comes.
pub proof fn lemma_stopped_stays_idle(outcomes: Seq<Outcome>)
    ensures
        forall|i: int| 0 <= i < outcomes.len() ==> #[trigger] actions(Phase::Stopped, outcomes)[i] == Action::Halt,
        actions(Phase::Stopped, outcomes).len() == outcomes.len(),
    decreases outcomes.len(),
{
    if outcomes.len() > 0 {
        lemma_stopped_stays_idle(outcomes.drop_first());
        let rest = actions(Phase::Stopped, outcomes.drop_first());
        assert forall|i: int| 0 <= i < outcomes.len() implies #[trigger] actions(Phase::Stopped, outcomes)[i] == Action::Halt by {
            if i > 0 {
                assert(actions(Phase::Stopped, outcomes)[i] == rest[i - 1]);
            }
        }
    }
}

/// An address that cannot be parsed, or a socket that cannot be bound, stops
/// the acceptor at once with that failure: no connection is ever accepted or
/// served.
pub proof fn lemma_startup_failure_serves_nothing(outcomes: Seq<Outcome>)
    requires
        outcomes.len() >= 1,
        outcomes[0] == Outcome::Failed || (outcomes.len() >= 2 && outcomes[1] == Outcome::Failed),
    ensures
        outcomes[0] == Outcome::Failed ==> actions(Phase::Resolving, outcomes)[0] == Action::Abort(Failure::BadAddress),
        outcomes[0] == Outcome::Succeeded ==> actions(Phase::Resolving, outcomes)[1] == Action::Abort(Failure::BindFailed),
        forall|i: int| 0 <= i < outcomes.len() ==> {
            let a = #[trigger] actions(Phase::Resolving, outcomes)[i];
            a != Action::Listen && a != Action::Serve
        },
{
    let acts = actions(Phase::Resolving, outcomes);
    let rest = outcomes.drop_first();
    lemma_stopped_stays_idle(rest);
    if outcomes[0] == Outcome::Succeeded {
        let tail = rest.drop_first();
        lemma_stopped_stays_idle(tail);
        let after = actions(Phase::Binding, rest);
        assert forall|i: int| 0 <= i < outcomes.len() implies acts[i] != Action::Listen && acts[i] != Action::Serve by {
            if i > 1 {
                assert(acts[i] == after[i - 1]);
                assert(after[i - 1] == actions(Phase::Stopped, tail)[i - 2]);
            }
        }
    } else {
        assert forall|i: int| 0 <= i < outcomes.len() implies acts[i] != Action::Listen && acts[i] != Action::Serve by {
            if i > 0 {
                assert(acts[i] == actions(Phase::Stopped, rest)[i - 1]);
            }
        }
    }
}

} // verus!
