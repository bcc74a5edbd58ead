use vstd::prelude::*;
use crate::duration::Duration;
use crate::error::{detailed, detailed_message, Error, ErrorView};

verus! {

/// The shortest server-side wait that a blocking queue command is given.
pub const MINIMUM_BLOCKING_WAIT_MS: u64 = 10;

/// The server-side wait of a blocking command for a worker that polls every
/// `worker_poll_interval_ms` milliseconds: the poll interval, but at least
/// the minimum wait.
pub open spec fn server_wait_ms(worker_poll_interval_ms: u64) -> nat {
    if worker_poll_interval_ms >= MINIMUM_BLOCKING_WAIT_MS {
        worker_poll_interval_ms as nat
    } else {
        MINIMUM_BLOCKING_WAIT_MS as nat
    }
}

/// The server-side wait is the larger of the poll interval and the minimum
/// wait: never shorter than either, and one of the two.
pub proof fn lemma_server_wait(worker_poll_interval_ms: u64)
    ensures
        server_wait_ms(worker_poll_interval_ms) >= worker_poll_interval_ms,
        server_wait_ms(worker_poll_interval_ms) >= MINIMUM_BLOCKING_WAIT_MS,
        server_wait_ms(worker_poll_interval_ms) == worker_poll_interval_ms
            || server_wait_ms(worker_poll_interval_ms) == MINIMUM_BLOCKING_WAIT_MS,
{
}

/// Gives a blocking Redis command its finite server-side wait plus the normal
/// response budget. Matching those deadlines makes a successful nil response
/// race the client's timeout when the queue is idle.
///
/// No timeout when the response budget is 0; otherwise the server-side wait
/// plus the budget, which outlasts each of them.
pub fn blocking_response_timeout(response_timeout_ms: u64, worker_poll_interval_ms: u64) -> (r:
    Option<Duration>)
    ensures
        r is Some <==> response_timeout_ms > 0,
        r matches Some(d) ==> d@ == (server_wait_ms(worker_poll_interval_ms)
            + response_timeout_ms) * 1_000_000,
        r matches Some(d) ==> d@ > server_wait_ms(worker_poll_interval_ms) * 1_000_000,
        r matches Some(d) ==> d@ > response_timeout_ms * 1_000_000,
        r matches Some(d) ==> d@ >= (worker_poll_interval_ms + response_timeout_ms) * 1_000_000,
        r matches Some(d) ==> d@ >= (MINIMUM_BLOCKING_WAIT_MS + response_timeout_ms) * 1_000_000,
        r matches Some(d) ==> worker_poll_interval_ms >= MINIMUM_BLOCKING_WAIT_MS ==> d@ == (
        worker_poll_interval_ms + response_timeout_ms) * 1_000_000,
        r matches Some(d) ==> worker_poll_interval_ms < MINIMUM_BLOCKING_WAIT_MS ==> d@ == (
        MINIMUM_BLOCKING_WAIT_MS + response_timeout_ms) * 1_000_000,
{
    if response_timeout_ms > 0 {
        let wait: u64 = worker_poll_interval_ms.max(MINIMUM_BLOCKING_WAIT_MS);
        let server_wait = Duration::from_millis(wait);
        let budget = Duration::from_millis(response_timeout_ms);
        let total = server_wait.saturating_add(budget);
        Some(total)
    } else {
        None
    }
}

/// The kind of backend a queue runs on.
#[derive(Clone, Copy, Debug, PartialEq, Eq, Structural)]
pub enum QueueBackendKind {
    Redis,
    RedisSentinel,
    RedisCluster,
}

/// The backend of a queue over a standalone Redis client: Sentinel when the
/// client goes through Sentinel, plain Redis otherwise.
pub fn standalone_backend(is_sentinel: bool) -> (kind: QueueBackendKind)
    ensures
        kind == (if is_sentinel {
            QueueBackendKind::RedisSentinel
        } else {
            QueueBackendKind::Redis
        }),
{
    if is_sentinel {
        QueueBackendKind::RedisSentinel
    } else {
        QueueBackendKind::Redis
    }
}

/// The backend of a queue over a Redis Cluster.
pub fn cluster_backend() -> (kind: QueueBackendKind)
    ensures
        kind == QueueBackendKind::RedisCluster,
{
    QueueBackendKind::RedisCluster
}

/// The response timeouts of the two clients of a Redis Cluster queue.
pub struct ClusterTimeouts {
    /// For the client of ordinary commands.
    pub command: Option<Duration>,
    /// For the client of the workers' blocking commands.
    pub worker: Option<Duration>,
}

/// The message of the error for a cluster queue without seed nodes.
pub open spec fn no_seed_nodes_message() -> Seq<char> {
    "Redis Cluster queue requires at least one seed node"@
}

/// The timeouts a Redis Cluster queue connects with, or the error for a
/// cluster without seed nodes: the command client waits
/// `request_timeout_ms` (no limit for 0), the worker client waits as
/// [`blocking_response_timeout`] says, so that a worker's blocking command
/// outlasts the command timeout.
pub fn cluster_timeouts(nodes: &Vec<String>, request_timeout_ms: u64, worker_poll_interval_ms: u64) -> (r:
    Result<ClusterTimeouts, Error>)
    ensures
        r is Err <==> nodes@.len() == 0,
        r matches Err(e) ==> e@ == ErrorView::Config(no_seed_nodes_message()),
        r matches Ok(t) ==> {
            &&& t.command is Some <==> request_timeout_ms > 0
            &&& t.command matches Some(d) ==> d@ == request_timeout_ms * 1_000_000
            &&& t.worker is Some <==> request_timeout_ms > 0
            &&& t.worker matches Some(d) ==> d@ == (server_wait_ms(worker_poll_interval_ms)
                + request_timeout_ms) * 1_000_000
        },
        r matches Ok(t) ==> (t.command matches Some(c) ==> t.worker matches Some(w) && w@ > c@),
{
    if nodes.len() == 0 {
        return Err(
            Error::Config(String::from_str("Redis Cluster queue requires at least one seed node")),
        );
    }
    let command = if request_timeout_ms > 0 {
        Some(Duration::from_millis(request_timeout_ms))
    } else {
        None
    };
    let worker = blocking_response_timeout(request_timeout_ms, worker_poll_interval_ms);
    Ok(ClusterTimeouts { command, worker })
}

/// The context of the error for a cluster client that cannot connect.
pub open spec fn cluster_connect_context() -> Seq<char> {
    "failed to connect to Redis Cluster"@
}

/// The context of the error for a cluster client that cannot be built.
pub open spec fn cluster_build_context() -> Seq<char> {
    "failed to create Redis Cluster client"@
}

/// The error for a queue's cluster client that cannot connect, with the
/// client's error text `detail`.
pub fn cluster_connect_error(detail: &str) -> (e: Error)
    ensures
        e@ == ErrorView::Connection(detailed_message(cluster_connect_context(), detail@)),
{
    Error::Connection(detailed("failed to connect to Redis Cluster", detail))
}

/// The error for a queue's cluster client that cannot be built, with the
/// builder's error text `detail`.
pub fn cluster_build_error(detail: &str) -> (e: Error)
    ensures
        e@ == ErrorView::Config(detailed_message(cluster_build_context(), detail@)),
{
    Error::Config(detailed("failed to create Redis Cluster client", detail))
}

/// The cached command connection of a Redis Cluster queue: reused while it
/// is there, dropped when the connection is found broken, and replaced by
/// the next one built.
pub struct CommandConnectionSlot<C> {
    cached: Option<C>,
}

impl<C> View for CommandConnectionSlot<C> {
    type V = Option<C>;

    closed spec fn view(&self) -> Option<C> {
        self.cached
    }
}

impl<C: Clone> CommandConnectionSlot<C> {
    /// A slot that holds `connection`.
    pub fn holding(connection: C) -> (slot: Self)
        ensures
            slot@ == Some(connection),
    {
        CommandConnectionSlot { cached: Some(connection) }
    }

    /// A clone of the cached connection, or `None` when one must be built.
    pub fn cached_connection(&self) -> (r: Option<C>)
        ensures
            r is Some <==> self@ is Some,
            r matches Some(c) ==> cloned(self@->0, c),
    {
        match &self.cached {
            Some(c) => Some(c.clone()),
            None => None,
        }
    }

    /// Caches a clone of the newly built `connection` for the commands that
    /// follow, and hands `connection` back. Until the slot is invalidated,
    /// every `cached_connection` then gives a clone of that clone, and no
    /// connection is built.
    pub fn adopt(&mut self, connection: C) -> (r: C)
        ensures
            final(self)@ matches Some(kept) && cloned(connection, kept),
            r == connection,
    {
        self.cached = Some(connection.clone());
        connection
    }

    /// Drops the cached connection: the next command builds a new one.
    pub fn invalidate(&mut self)
        ensures
            final(self)@ is None,
    {
        self.cached = None;
    }
}

} // verus!
