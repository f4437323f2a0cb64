use vstd::prelude::*;

use crate::actuator::CommandBatch;

verus! {

/// The fixed delay, in seconds, between a retryable connection error and the
/// next connection attempt.
pub const RETRY_DELAY_SECS: u64 = 2;

/// The bus session's connection state. Owned exclusively by the session.
#[derive(Debug, Clone, Copy, PartialEq, Eq, Structural)]
pub enum ConnectionState {
    /// Not yet started.
    Disconnected,
    /// A connection attempt is underway.
    Connecting,
    /// The broker acknowledged the connection; the subscribe request is owed.
    Connected,
    /// The subscribe request was issued and is not yet acknowledged.
    Subscribing,
    /// Subscribed: telemetry flows out, commands flow in.
    Ready,
    /// A retryable error occurred; waiting the fixed delay before retrying.
    RetryWait,
    /// The broker explicitly refused the connection. Terminal.
    Aborted,
}

/// One protocol event handed to the state machine by the driver loop.
#[derive(Debug, Clone)]
pub enum BusEvent {
    /// The broker acknowledged the connection.
    ConnAck,
    /// The broker acknowledged the subscription to the command topic.
    SubAck,
    /// An application message arrived: whether it was on the command topic,
    /// and its payload decoded as a command batch (`None` when malformed).
    Message { on_command_topic: bool, batch: Option<CommandBatch> },
    /// A protocol keep-alive event, observed and otherwise ignored.
    KeepAlive,
    /// A retryable connection error: an I/O failure or an aborted connection.
    RetryableError,
    /// A fatal error: the broker explicitly refused the connection.
    FatalError,
    /// The driver is ready for the next step: at start, after the retry
    /// delay has elapsed, or after the previous action was performed.
    Tick,
}

/// What the driver loop must do after a step.
#[derive(Debug, Clone)]
pub enum BusAction {
    /// Open the connection to the broker.
    Connect,
    /// Subscribe to the command topic.
    Subscribe,
    /// Forward this decoded command batch to the output actuator.
    Forward(CommandBatch),
    /// Log and drop a malformed command payload.
    DropMalformed,
    /// Wait the fixed retry delay, then hand back a `Tick`.
    Wait,
    /// End the session's bus participation. Terminal.
    Stop,
    /// Nothing to perform.
    Ignore,
}

/// The session state machine: from a state and an event, the next state and
/// the action the driver must perform. An explicit refusal aborts from every
/// state; a retryable error sends every live state into the retry wait; the
/// aborted state never leaves and never asks for another connection.
pub open spec fn step_spec(s: ConnectionState, e: BusEvent) -> (ConnectionState, BusAction) {
    match (s, e) {
        (ConnectionState::Aborted, _) => (ConnectionState::Aborted, BusAction::Ignore),
        (_, BusEvent::FatalError) => (ConnectionState::Aborted, BusAction::Stop),
        (_, BusEvent::RetryableError) => (ConnectionState::RetryWait, BusAction::Wait),
        (ConnectionState::Disconnected, BusEvent::Tick) => (
            ConnectionState::Connecting,
            BusAction::Connect,
        ),
        (ConnectionState::RetryWait, BusEvent::Tick) => (
            ConnectionState::Connecting,
            BusAction::Connect,
        ),
        (ConnectionState::Connecting, BusEvent::ConnAck) => (
            ConnectionState::Connected,
            BusAction::Subscribe,
        ),
        (ConnectionState::Connected, BusEvent::Tick) => (
            ConnectionState::Subscribing,
            BusAction::Ignore,
        ),
        (ConnectionState::Subscribing, BusEvent::SubAck) => (
            ConnectionState::Ready,
            BusAction::Ignore,
        ),
        (ConnectionState::Ready, BusEvent::Message { on_command_topic, batch }) => if on_command_topic {
            match batch {
                Some(b) => (ConnectionState::Ready, BusAction::Forward(b)),
                None => (ConnectionState::Ready, BusAction::DropMalformed),
            }
        } else {
            (ConnectionState::Ready, BusAction::Ignore)
        },
        (_, _) => (s, BusAction::Ignore),
    }
}

/// Advance the state machine by one event, exactly as `step_spec` prescribes.
pub fn step(s: ConnectionState, e: BusEvent) -> (r: (ConnectionState, BusAction))
    ensures
        r == step_spec(s, e),
{
    match (s, e) {
        (ConnectionState::Aborted, _) => (ConnectionState::Aborted, BusAction::Ignore),
        (_, BusEvent::FatalError) => (ConnectionState::Aborted, BusAction::Stop),
        (_, BusEvent::RetryableError) => (ConnectionState::RetryWait, BusAction::Wait),
        (ConnectionState::Disconnected, BusEvent::Tick) => (
            ConnectionState::Connecting,
            BusAction::Connect,
        ),
        (ConnectionState::RetryWait, BusEvent::Tick) => (
            ConnectionState::Connecting,
            BusAction::Connect,
        ),
        (ConnectionState::Connecting, BusEvent::ConnAck) => (
            ConnectionState::Connected,
            BusAction::Subscribe,
        ),
        (ConnectionState::Connected, BusEvent::Tick) => (
            ConnectionState::Subscribing,
            BusAction::Ignore,
        ),
        (ConnectionState::Subscribing, BusEvent::SubAck) => (
            ConnectionState::Ready,
            BusAction::Ignore,
        ),
        (ConnectionState::Ready, BusEvent::Message { on_command_topic, batch }) => if on_command_topic {
            match batch {
                Some(b) => (ConnectionState::Ready, BusAction::Forward(b)),
                None => (ConnectionState::Ready, BusAction::DropMalformed),
            }
        } else {
            (ConnectionState::Ready, BusAction::Ignore)
        },
        (_, _) => (s, BusAction::Ignore),
    }
}

/// The topic commands arrive on: the configured base topic followed by
/// "/set". (Telemetry is published on the base topic itself.)
pub fn command_topic(base: &str) -> (t: String)
    ensures
        t@ == base@ + "/set"@,
{
    let mut t = String::from_str(base);
    t.append("/set");
    t
}

/// Whether an incoming message's topic is the command topic for this base
/// topic.
pub fn is_command_topic(topic: &str, base: &str) -> (r: bool)
    ensures
        r == (topic@ == base@ + "/set"@),
{
    let t = String::from_str(topic);
    let c = command_topic(base);
    t == c
}

/// The state after a whole sequence of events.
pub open spec fn run_steps(s: ConnectionState, events: Seq<BusEvent>) -> ConnectionState
    decreases events.len(),
{
    if events.len() == 0 {
        s
    } else {
        run_steps(step_spec(s, events[0]).0, events.drop_first())
    }
}

/// An explicit refusal is handled exactly once: it sends every live state to
/// Aborted with a Stop action, and in Aborted it is ignored.
pub proof fn lemma_fatal_aborts(s: ConnectionState)
    ensures
        step_spec(s, BusEvent::FatalError).0 == ConnectionState::Aborted,
        s != ConnectionState::Aborted ==> step_spec(s, BusEvent::FatalError).1 == BusAction::Stop,
        s == ConnectionState::Aborted ==> step_spec(s, BusEvent::FatalError).1 == BusAction::Ignore,
{
}

/// Aborted is terminal: no event leaves it, and no further connection attempt
/// is ever asked for.
pub proof fn lemma_aborted_terminal(e: BusEvent)
    ensures
        step_spec(ConnectionState::Aborted, e).0 == ConnectionState::Aborted,
        step_spec(ConnectionState::Aborted, e).1 == BusAction::Ignore,
{
}

/// A retryable error from any live state enters the retry wait, and the next
/// tick re-enters Connecting with a fresh connection attempt: the session
/// recovers from any run of retryable errors without operator intervention.
pub proof fn lemma_retryable_recovers(s: ConnectionState)
    requires
        s != ConnectionState::Aborted,
    ensures
        step_spec(s, BusEvent::RetryableError) == (ConnectionState::RetryWait, BusAction::Wait),
        run_steps(s, seq![BusEvent::RetryableError, BusEvent::Tick]) == ConnectionState::Connecting,
{
    let events = seq![BusEvent::RetryableError, BusEvent::Tick];
    assert(step_spec(s, BusEvent::RetryableError).0 == ConnectionState::RetryWait);
    assert(run_steps(s, events) == run_steps(ConnectionState::RetryWait, events.drop_first()));
    assert(events.drop_first() =~= seq![BusEvent::Tick]);
    assert(run_steps(ConnectionState::RetryWait, seq![BusEvent::Tick]) == run_steps(
        ConnectionState::Connecting,
        seq![BusEvent::Tick].drop_first(),
    ));
    assert(seq![BusEvent::Tick].drop_first() =~= Seq::<BusEvent>::empty());
    assert(run_steps(ConnectionState::Connecting, Seq::<BusEvent>::empty())
        == ConnectionState::Connecting);
}

/// The events of `n` consecutive retryable failures, each followed by the
/// tick that ends its retry wait.
pub open spec fn retry_cycle_events(n: nat) -> Seq<BusEvent>
    decreases n,
{
    if n == 0 {
        Seq::empty()
    } else {
        seq![BusEvent::RetryableError, BusEvent::Tick] + retry_cycle_events((n - 1) as nat)
    }
}

/// Running a sequence of events splits at any point.
pub proof fn lemma_run_steps_append(s: ConnectionState, a: Seq<BusEvent>, b: Seq<BusEvent>)
    ensures
        run_steps(s, a + b) == run_steps(run_steps(s, a), b),
    decreases a.len(),
{
    if a.len() == 0 {
        assert(a + b =~= b);
    } else {
        assert((a + b)[0] == a[0]);
        assert((a + b).drop_first() =~= a.drop_first() + b);
        lemma_run_steps_append(step_spec(s, a[0]).0, a.drop_first(), b);
    }
}

/// Any number of retryable-error/retry-wait cycles leaves the session back in
/// Connecting: it never gives up on retryable errors.
pub proof fn lemma_retry_cycles_keep_connecting(n: nat)
    ensures
        run_steps(ConnectionState::Connecting, retry_cycle_events(n))
            == ConnectionState::Connecting,
    decreases n,
{
    if n == 0 {
        assert(retry_cycle_events(0) =~= Seq::<BusEvent>::empty());
    } else {
        let cycle = seq![BusEvent::RetryableError, BusEvent::Tick];
        lemma_run_steps_append(
            ConnectionState::Connecting,
            cycle,
            retry_cycle_events((n - 1) as nat),
        );
        lemma_retryable_recovers(ConnectionState::Connecting);
        lemma_retry_cycles_keep_connecting((n - 1) as nat);
    }
}

/// However many retryable drops precede it, a later successful handshake
/// still reaches Ready: the session recovers without operator intervention.
pub proof fn lemma_retries_then_handshake_reaches_ready(n: nat)
    ensures
        run_steps(
            ConnectionState::Connecting,
            retry_cycle_events(n) + seq![BusEvent::ConnAck, BusEvent::Tick, BusEvent::SubAck],
        ) == ConnectionState::Ready,
{
    lemma_run_steps_append(
        ConnectionState::Connecting,
        retry_cycle_events(n),
        seq![BusEvent::ConnAck, BusEvent::Tick, BusEvent::SubAck],
    );
    lemma_retry_cycles_keep_connecting(n);
    lemma_handshake_reaches_ready();
}

/// From Connecting, a successful handshake (connection acknowledged, the
/// subscribe issued, the subscription acknowledged) reaches Ready.
pub proof fn lemma_handshake_reaches_ready()
    ensures
        run_steps(
            ConnectionState::Connecting,
            seq![BusEvent::ConnAck, BusEvent::Tick, BusEvent::SubAck],
        ) == ConnectionState::Ready,
{
    let events = seq![BusEvent::ConnAck, BusEvent::Tick, BusEvent::SubAck];
    assert(run_steps(ConnectionState::Connecting, events) == run_steps(
        ConnectionState::Connected,
        events.drop_first(),
    ));
    assert(events.drop_first() =~= seq![BusEvent::Tick, BusEvent::SubAck]);
    assert(run_steps(ConnectionState::Connected, seq![BusEvent::Tick, BusEvent::SubAck])
        == run_steps(
        ConnectionState::Subscribing,
        seq![BusEvent::Tick, BusEvent::SubAck].drop_first(),
    ));
    assert(seq![BusEvent::Tick, BusEvent::SubAck].drop_first() =~= seq![BusEvent::SubAck]);
    assert(run_steps(ConnectionState::Subscribing, seq![BusEvent::SubAck]) == run_steps(
        ConnectionState::Ready,
        seq![BusEvent::SubAck].drop_first(),
    ));
    assert(seq![BusEvent::SubAck].drop_first() =~= Seq::<BusEvent>::empty());
    assert(run_steps(ConnectionState::Ready, Seq::<BusEvent>::empty()) == ConnectionState::Ready);
}

} // verus!
