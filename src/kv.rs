use vstd::prelude::*;

verus! {

/// Pause before retrying a query that failed with a wait-and-retry error.
pub const WAIT_AND_RETRY_MILLIS: u64 = 100;

/// How a failed query should be retried.
#[derive(Clone, Copy, Debug, PartialEq, Eq, Structural)]
pub enum RetryClass {
    /// The connection is unusable: reconnect, then retry.
    Reconnect,
    /// Retry at once.
    RetryImmediately,
    /// Retry after a short pause.
    WaitAndRetry,
    /// Do not retry.
    Fatal,
}

/// The retry methods the key-value store's client library distinguishes.
#[derive(Clone, Copy, Debug, PartialEq, Eq, Structural)]
pub enum RetryMethodKind {
    Reconnect,
    NoRetry,
    RetryImmediately,
    WaitAndRetry,
    AskRedirect,
    MovedRedirect,
    ReconnectFromInitialConnections,
    /// A method added to the library after these were written down.
    Unrecognized,
}

#[verifier::external_type_specification]
#[verifier::external_body]
pub struct ExRedisError(redis::RedisError);

/// The retry method that `RedisError::retry_method` gives an error.
pub uninterp spec fn retry_method_name(e: redis::RedisError) -> RetryMethodKind;

/// Relies on redis's `RedisError::retry_method`, which derives the retry
/// method from the error alone (its kind and, for I/O errors, the I/O
/// error's kind).
#[verifier::external_body]
fn retry_method_of(e: &redis::RedisError) -> (r: RetryMethodKind)
    ensures
        r == retry_method_name(*e),
{
    match e.retry_method() {
        redis::RetryMethod::Reconnect => RetryMethodKind::Reconnect,
        redis::RetryMethod::NoRetry => RetryMethodKind::NoRetry,
        redis::RetryMethod::RetryImmediately => RetryMethodKind::RetryImmediately,
        redis::RetryMethod::WaitAndRetry => RetryMethodKind::WaitAndRetry,
        redis::RetryMethod::AskRedirect => RetryMethodKind::AskRedirect,
        redis::RetryMethod::MovedRedirect => RetryMethodKind::MovedRedirect,
        redis::RetryMethod::ReconnectFromInitialConnections => RetryMethodKind::ReconnectFromInitialConnections,
        _ => RetryMethodKind::Unrecognized,
    }
}

/// The query policy's class for a retry method: reconnect, retry at once
/// and wait-and-retry are kept; redirects, the cluster-only reconnect and
/// anything else are not retried.
pub open spec fn class_of_method_spec(m: RetryMethodKind) -> RetryClass {
    match m {
        RetryMethodKind::Reconnect => RetryClass::Reconnect,
        RetryMethodKind::RetryImmediately => RetryClass::RetryImmediately,
        RetryMethodKind::WaitAndRetry => RetryClass::WaitAndRetry,
        _ => RetryClass::Fatal,
    }
}

pub fn class_of_method(m: RetryMethodKind) -> (r: RetryClass)
    ensures
        r == class_of_method_spec(m),
{
    match m {
        RetryMethodKind::Reconnect => RetryClass::Reconnect,
        RetryMethodKind::RetryImmediately => RetryClass::RetryImmediately,
        RetryMethodKind::WaitAndRetry => RetryClass::WaitAndRetry,
        RetryMethodKind::NoRetry => RetryClass::Fatal,
        RetryMethodKind::AskRedirect => RetryClass::Fatal,
        RetryMethodKind::MovedRedirect => RetryClass::Fatal,
        RetryMethodKind::ReconnectFromInitialConnections => RetryClass::Fatal,
        RetryMethodKind::Unrecognized => RetryClass::Fatal,
    }
}

/// Classifies a query failure for the retry policy.
pub fn classify(e: &redis::RedisError) -> (r: RetryClass)
    ensures
        r == class_of_method_spec(retry_method_name(*e)),
{
    class_of_method(retry_method_of(e))
}

/// What a query attempt produced.
#[derive(Clone, Copy, Debug, PartialEq, Eq, Structural)]
pub enum QueryOutcome {
    Succeeded,
    Failed(RetryClass),
}

/// What happened since the last action.
#[derive(Clone, Copy, Debug, PartialEq, Eq, Structural)]
pub enum QueryEvent {
    /// A query attempt finished.
    Ran(QueryOutcome),
    /// A reconnect attempt finished, successfully or not.
    Connected(bool),
    /// The pause before the retry is over.
    Slept,
}

/// What the caller must do next.
#[derive(Clone, Copy, Debug, PartialEq, Eq, Structural)]
pub enum QueryAction {
    /// Run the query on the current connection.
    Run,
    /// Open a fresh connection.
    Connect,
    /// Pause for `millis`.
    Sleep { millis: u64 },
    /// Hand the query's value to the caller.
    ReturnOk,
    /// Hand the failure just reported to the caller.
    ReturnErr,
}

/// Where one query call stands.
#[derive(Clone, Copy, Debug, PartialEq, Eq, Structural)]
pub enum QueryPhase {
    /// The first attempt is running.
    First,
    /// A reconnect is running, before the retry.
    Reconnecting,
    /// Pausing before the retry.
    Waiting,
    /// The single retry is running.
    Retrying,
    /// The call has returned.
    Finished,
}

/// The next phase and action for an event in a phase.
pub open spec fn query_step(phase: QueryPhase, event: QueryEvent) -> (QueryPhase, QueryAction) {
    match (phase, event) {
        (QueryPhase::First, QueryEvent::Ran(QueryOutcome::Succeeded)) => (QueryPhase::Finished, QueryAction::ReturnOk),
        (QueryPhase::First, QueryEvent::Ran(QueryOutcome::Failed(c))) => match c {
            RetryClass::Reconnect => (QueryPhase::Reconnecting, QueryAction::Connect),
            RetryClass::RetryImmediately => (QueryPhase::Retrying, QueryAction::Run),
            RetryClass::WaitAndRetry => (QueryPhase::Waiting, QueryAction::Sleep { millis: WAIT_AND_RETRY_MILLIS }),
            RetryClass::Fatal => (QueryPhase::Finished, QueryAction::ReturnErr),
        },
        (QueryPhase::Reconnecting, QueryEvent::Connected(ok)) => if ok {
            (QueryPhase::Retrying, QueryAction::Run)
        } else {
            (QueryPhase::Finished, QueryAction::ReturnErr)
        },
        (QueryPhase::Waiting, QueryEvent::Slept) => (QueryPhase::Retrying, QueryAction::Run),
        (QueryPhase::Retrying, QueryEvent::Ran(QueryOutcome::Succeeded)) => (QueryPhase::Finished, QueryAction::ReturnOk),
        (QueryPhase::Retrying, QueryEvent::Ran(QueryOutcome::Failed(_))) => (QueryPhase::Finished, QueryAction::ReturnErr),
        _ => (phase, QueryAction::ReturnErr),
    }
}

/// The events a phase waits for.
pub open spec fn expects(phase: QueryPhase, event: QueryEvent) -> bool {
    match phase {
        QueryPhase::First | QueryPhase::Retrying => event is Ran,
        QueryPhase::Reconnecting => event is Connected,
        QueryPhase::Waiting => event is Slept,
        QueryPhase::Finished => false,
    }
}

/// Key-value client connection state: connected or not, how often it
/// reconnected, and whether the credentials were just refreshed.
pub struct RedisKVClient {
    connected: bool,
    reconnects: u64,
    credentials_refreshed: bool,
}

impl RedisKVClient {
    pub closed spec fn spec_connected(&self) -> bool {
        self.connected
    }

    pub closed spec fn spec_reconnects(&self) -> nat {
        self.reconnects as nat
    }

    pub closed spec fn spec_credentials_refreshed(&self) -> bool {
        self.credentials_refreshed
    }

    /// A client that has not connected yet; it connects on first need.
    pub fn new() -> (r: RedisKVClient)
        ensures
            !r.spec_connected(),
            r.spec_reconnects() == 0,
            !r.spec_credentials_refreshed(),
    {
        RedisKVClient { connected: false, reconnects: 0, credentials_refreshed: false }
    }

    pub fn is_connected(&self) -> (r: bool)
        ensures
            r == self.spec_connected(),
    {
        self.connected
    }

    /// Number of successful reconnects made by queries.
    pub fn reconnects(&self) -> (r: u64)
        ensures
            r == self.spec_reconnects(),
    {
        self.reconnects
    }

    /// Whether the credentials provider reported a refresh.
    pub fn credentials_refreshed(&self) -> (r: bool)
        ensures
            r == self.spec_credentials_refreshed(),
    {
        self.credentials_refreshed
    }

    /// Records what the credentials provider reports.
    pub fn set_credentials_refreshed(&mut self, refreshed: bool)
        ensures
            final(self).spec_credentials_refreshed() == refreshed,
            final(self).spec_connected() == old(self).spec_connected(),
            final(self).spec_reconnects() == old(self).spec_reconnects(),
    {
        self.credentials_refreshed = refreshed;
    }

    /// Records the outcome of the client's own first connect.
    pub fn set_connected(&mut self, ok: bool)
        ensures
            final(self).spec_connected() == ok,
            final(self).spec_reconnects() == old(self).spec_reconnects(),
            final(self).spec_credentials_refreshed() == old(self).spec_credentials_refreshed(),
    {
        self.connected = ok;
    }
}

/// One query call: a first attempt, and at most one retry.
pub struct QueryCall {
    phase: QueryPhase,
}

impl QueryCall {
    pub closed spec fn spec_phase(&self) -> QueryPhase {
        self.phase
    }

    /// Starts a call: the first action is to run the query.
    pub fn start() -> (r: (QueryCall, QueryAction))
        ensures
            r.0.spec_phase() == QueryPhase::First,
            r.1 == QueryAction::Run,
    {
        (QueryCall { phase: QueryPhase::First }, QueryAction::Run)
    }

    pub fn phase(&self) -> (r: QueryPhase)
        ensures
            r == self.spec_phase(),
    {
        self.phase
    }

    /// Advances the call on an event. A reconnect-classified failure marks
    /// the client disconnected; a successful reconnect marks it connected
    /// and is counted (saturating).
    pub fn step(&mut self, client: &mut RedisKVClient, event: QueryEvent) -> (r: QueryAction)
        requires
            expects(old(self).spec_phase(), event),
        ensures
            (final(self).spec_phase(), r) == query_step(old(self).spec_phase(), event),
            final(client).spec_credentials_refreshed() == old(client).spec_credentials_refreshed(),
            old(self).spec_phase() == QueryPhase::First && event == QueryEvent::Ran(
                QueryOutcome::Failed(RetryClass::Reconnect),
            ) ==> !final(client).spec_connected(),
            event == QueryEvent::Connected(true) ==> final(client).spec_connected()
                && final(client).spec_reconnects() == if old(client).spec_reconnects() < u64::MAX {
                    old(client).spec_reconnects() + 1
                } else {
                    old(client).spec_reconnects()
                },
            event == QueryEvent::Connected(false) ==> !final(client).spec_connected()
                && final(client).spec_reconnects() == old(client).spec_reconnects(),
            !(event is Connected) ==> final(client).spec_reconnects() == old(client).spec_reconnects(),
            !(event is Connected) && !(old(self).spec_phase() == QueryPhase::First && event
                == QueryEvent::Ran(QueryOutcome::Failed(RetryClass::Reconnect)))
                ==> final(client).spec_connected() == old(client).spec_connected(),
    {
        let (phase, action) = match (self.phase, event) {
            (QueryPhase::First, QueryEvent::Ran(QueryOutcome::Succeeded)) => (QueryPhase::Finished, QueryAction::ReturnOk),
            (QueryPhase::First, QueryEvent::Ran(QueryOutcome::Failed(c))) => match c {
                RetryClass::Reconnect => {
                    client.connected = false;
                    (QueryPhase::Reconnecting, QueryAction::Connect)
                },
                RetryClass::RetryImmediately => (QueryPhase::Retrying, QueryAction::Run),
                RetryClass::WaitAndRetry => (QueryPhase::Waiting, QueryAction::Sleep { millis: WAIT_AND_RETRY_MILLIS }),
                RetryClass::Fatal => (QueryPhase::Finished, QueryAction::ReturnErr),
            },
            (QueryPhase::Reconnecting, QueryEvent::Connected(ok)) => {
                client.connected = ok;
                if ok {
                    if client.reconnects < u64::MAX {
                        client.reconnects = client.reconnects + 1;
                    }
                    (QueryPhase::Retrying, QueryAction::Run)
                } else {
                    (QueryPhase::Finished, QueryAction::ReturnErr)
                }
            },
            (QueryPhase::Waiting, QueryEvent::Slept) => (QueryPhase::Retrying, QueryAction::Run),
            (QueryPhase::Retrying, QueryEvent::Ran(QueryOutcome::Succeeded)) => (QueryPhase::Finished, QueryAction::ReturnOk),
            (QueryPhase::Retrying, QueryEvent::Ran(QueryOutcome::Failed(_))) => (QueryPhase::Finished, QueryAction::ReturnErr),
            (p, _) => (p, QueryAction::ReturnErr),
        };
        self.phase = phase;
        action
    }

    /// Advances the call on a failed attempt, classified by its error.
    pub fn step_failed(&mut self, client: &mut RedisKVClient, e: &redis::RedisError) -> (r: QueryAction)
        requires
            old(self).spec_phase() == QueryPhase::First || old(self).spec_phase() == QueryPhase::Retrying,
        ensures
            old(self).spec_phase() == QueryPhase::Retrying ==> r == QueryAction::ReturnErr
                && final(self).spec_phase() == QueryPhase::Finished,
            old(self).spec_phase() == QueryPhase::First ==> (final(self).spec_phase(), r) == query_step(
                QueryPhase::First,
                QueryEvent::Ran(QueryOutcome::Failed(class_of_method_spec(retry_method_name(*e)))),
            ),
    {
        let c = classify(e);
        self.step(client, QueryEvent::Ran(QueryOutcome::Failed(c)))
    }
}

/// Replays `events` from `phase`: the final phase and the actions taken.
pub open spec fn replay(phase: QueryPhase, events: Seq<QueryEvent>) -> (QueryPhase, Seq<QueryAction>)
    decreases events.len(),
{
    if events.len() == 0 {
        (phase, Seq::empty())
    } else {
        let (next, a) = query_step(phase, events[0]);
        let (last, rest) = replay(next, events.drop_first());
        (last, seq![a] + rest)
    }
}

/// A query that fails once with a reconnect-worthy error, reconnects and
/// then succeeds returns success after exactly one reconnect and one retry;
/// and whatever the first failure's class, a failed retry is surfaced and
/// nothing is retried again.
pub proof fn lemma_query_single_retry(first: RetryClass, second: RetryClass)
    ensures
        replay(
            QueryPhase::First,
            seq![
                QueryEvent::Ran(QueryOutcome::Failed(RetryClass::Reconnect)),
                QueryEvent::Connected(true),
                QueryEvent::Ran(QueryOutcome::Succeeded),
            ],
        ) == (QueryPhase::Finished, seq![QueryAction::Connect, QueryAction::Run, QueryAction::ReturnOk]),
        first != RetryClass::Fatal ==> ({
            let (p1, a1) = query_step(QueryPhase::First, QueryEvent::Ran(QueryOutcome::Failed(first)));
            let follow = if first == RetryClass::Reconnect {
                QueryEvent::Connected(true)
            } else {
                QueryEvent::Slept
            };
            let p2 = if p1 == QueryPhase::Retrying {
                p1
            } else {
                query_step(p1, follow).0
            };
            &&& p2 == QueryPhase::Retrying
            &&& query_step(p2, QueryEvent::Ran(QueryOutcome::Failed(second))) == (QueryPhase::Finished, QueryAction::ReturnErr)
        }),
{
    let events = seq![
        QueryEvent::Ran(QueryOutcome::Failed(RetryClass::Reconnect)),
        QueryEvent::Connected(true),
        QueryEvent::Ran(QueryOutcome::Succeeded),
    ];
    assert(events.drop_first() =~= seq![QueryEvent::Connected(true), QueryEvent::Ran(QueryOutcome::Succeeded)]);
    assert(events.drop_first().drop_first() =~= seq![QueryEvent::Ran(QueryOutcome::Succeeded)]);
    assert(events.drop_first().drop_first().drop_first() =~= Seq::<QueryEvent>::empty());
    reveal_with_fuel(replay, 4);
}

} // verus!
