use vstd::prelude::*;
use crate::counter::{
    failure_error, increment_start, CounterCommand, CounterCommandView, CounterFailure,
    IncrementAndCheck,
};
use crate::error::{detailed, detailed_message, result_view, Error, ErrorView};

verus! {

/// Seconds for which a counter key lives after its TTL is set or refreshed.
pub const COUNTER_TTL_SECONDS: u64 = 300;

/// Retries that a coordinator's Redis Cluster client makes before it gives up.
pub const CLUSTER_CLIENT_RETRIES: u32 = 3;

/// The key prefix used where none is given.
pub open spec fn default_key_prefix() -> Seq<char> {
    "sockudo"@
}

/// The key prefix that a coordinator built with `prefix` uses.
pub open spec fn key_prefix(prefix: Option<&str>) -> Seq<char> {
    match prefix {
        Some(p) => p@,
        None => default_key_prefix(),
    }
}

/// The Redis key of the counter of one conflation key of one channel of one app:
/// `{prefix}:delta_count:{app_id}:{channel}:{conflation_key}`.
pub open spec fn counter_key(
    prefix: Seq<char>,
    app_id: Seq<char>,
    channel: Seq<char>,
    conflation_key: Seq<char>,
) -> Seq<char> {
    prefix + ":delta_count:"@ + app_id + ":"@ + channel + ":"@ + conflation_key
}

/// What a coordinator is, apart from its connection.
pub struct CoordinatorView {
    pub prefix: Seq<char>,
    pub ttl_seconds: u64,
    pub backend_name: Seq<char>,
}

/// Redis-based cluster coordinator for delta interval synchronization.
///
/// It holds the connection `C` it was made with, the prefix of its keys, the
/// TTL of its counters and the name of its backend. The Redis commands it
/// needs are described by [`CounterCommand`]; whoever holds the connection
/// runs them and hands the replies back.
pub struct RedisClusterCoordinator<C> {
    connection: C,
    prefix: String,
    ttl_seconds: u64,
    backend_name: &'static str,
}

impl<C> View for RedisClusterCoordinator<C> {
    type V = CoordinatorView;

    closed spec fn view(&self) -> CoordinatorView {
        CoordinatorView {
            prefix: self.prefix@,
            ttl_seconds: self.ttl_seconds,
            backend_name: self.backend_name@,
        }
    }
}

impl<C> RedisClusterCoordinator<C> {
    #[verifier::type_invariant]
    spec fn ttl_is_counter_ttl(self) -> bool {
        self.ttl_seconds == COUNTER_TTL_SECONDS
    }

    /// The connection the coordinator was made with.
    pub closed spec fn held_connection(&self) -> C {
        self.connection
    }

    fn with_backend(connection: C, prefix: Option<&str>, backend_name: &'static str) -> (c: Self)
        ensures
            c@.prefix == key_prefix(prefix),
            prefix matches Some(p) ==> c@.prefix == p@,
            prefix is None ==> c@.prefix == "sockudo"@,
            c@.ttl_seconds == COUNTER_TTL_SECONDS,
            c@.backend_name == backend_name@,
            c.held_connection() == connection,
    {
        let chosen: &str = prefix.unwrap_or("sockudo");
        RedisClusterCoordinator {
            connection,
            prefix: String::from_str(chosen),
            ttl_seconds: COUNTER_TTL_SECONDS,
            backend_name,
        }
    }

    /// A coordinator over a connection to a standalone (or Sentinel-managed)
    /// Redis: backend `redis`, counters that live 300 seconds.
    pub fn from_standalone_connection(connection: C, prefix: Option<&str>) -> (c: Self)
        ensures
            c@.prefix == key_prefix(prefix),
            prefix matches Some(p) ==> c@.prefix == p@,
            prefix is None ==> c@.prefix == "sockudo"@,
            c@.ttl_seconds == COUNTER_TTL_SECONDS,
            c@.backend_name == "redis"@,
            c.held_connection() == connection,
    {
        Self::with_backend(connection, prefix, "redis")
    }

    /// A coordinator over a connection to a Redis Cluster: backend
    /// `redis_cluster`, counters that live 300 seconds.
    pub fn from_cluster_connection(connection: C, prefix: Option<&str>) -> (c: Self)
        ensures
            c@.prefix == key_prefix(prefix),
            prefix matches Some(p) ==> c@.prefix == p@,
            prefix is None ==> c@.prefix == "sockudo"@,
            c@.ttl_seconds == COUNTER_TTL_SECONDS,
            c@.backend_name == "redis_cluster"@,
            c.held_connection() == connection,
    {
        Self::with_backend(connection, prefix, "redis_cluster")
    }

    /// The connection the coordinator was made with.
    pub fn connection(&self) -> (c: &C)
        ensures
            *c == self.held_connection(),
    {
        &self.connection
    }

    /// The name of the backend.
    pub fn backend_name(&self) -> (name: &'static str)
        ensures
            name@ == self@.backend_name,
    {
        self.backend_name
    }

    /// The seconds a counter lives after its TTL is set.
    pub fn ttl_seconds(&self) -> (ttl: u64)
        ensures
            ttl == self@.ttl_seconds,
            ttl == COUNTER_TTL_SECONDS,
    {
        proof {
            use_type_invariant(self);
        }
        self.ttl_seconds
    }

    /// The Redis key of the counter of `conflation_key` in `channel` of `app_id`.
    pub fn get_key(&self, app_id: &str, channel: &str, conflation_key: &str) -> (key: String)
        ensures
            key@ == counter_key(self@.prefix, app_id@, channel@, conflation_key@),
            key@ == self@.prefix + ":delta_count:"@ + app_id@ + ":"@ + channel@ + ":"@
                + conflation_key@,
    {
        let mut key = self.prefix.clone();
        key.append(":delta_count:");
        key.append(app_id);
        key.append(":");
        key.append(channel);
        key.append(":");
        key.append(conflation_key);
        key
    }

    /// Starts the increment-and-check of the counter of `conflation_key` in
    /// `channel` of `app_id`: the returned command bumps that counter by one,
    /// and the state takes its reply (see [`IncrementAndCheck`]).
    pub fn increment_and_check(
        &self,
        app_id: &str,
        channel: &str,
        conflation_key: &str,
        interval: u32,
    ) -> (r: (IncrementAndCheck, CounterCommand))
        ensures
            r.0@ == increment_start(
                counter_key(self@.prefix, app_id@, channel@, conflation_key@),
                interval,
                COUNTER_TTL_SECONDS as i64,
            ),
            self@.ttl_seconds == COUNTER_TTL_SECONDS,
            r.1@ == (CounterCommandView::Increment {
                key: counter_key(self@.prefix, app_id@, channel@, conflation_key@),
                by: 1,
            }),
    {
        let ttl: u64 = self.ttl_seconds();
        let key = self.get_key(app_id, channel, conflation_key);
        IncrementAndCheck::start(key, interval, ttl as i64)
    }

    /// The command that resets the counter of `conflation_key` in `channel`
    /// of `app_id`: it deletes the key.
    pub fn reset_counter(&self, app_id: &str, channel: &str, conflation_key: &str) -> (command:
        CounterCommand)
        ensures
            command@ == (CounterCommandView::Delete {
                key: counter_key(self@.prefix, app_id@, channel@, conflation_key@),
            }),
    {
        CounterCommand::Delete { key: self.get_key(app_id, channel, conflation_key) }
    }

    /// The command that reads the counter of `conflation_key` in `channel`
    /// of `app_id`.
    pub fn get_counter(&self, app_id: &str, channel: &str, conflation_key: &str) -> (command:
        CounterCommand)
        ensures
            command@ == (CounterCommandView::Get {
                key: counter_key(self@.prefix, app_id@, channel@, conflation_key@),
            }),
    {
        CounterCommand::Get { key: self.get_key(app_id, channel, conflation_key) }
    }
}

/// The outcome of a reset, from the reply to its delete command.
pub open spec fn reset_outcome(reply: Result<(), Seq<char>>) -> Result<(), ErrorView> {
    match reply {
        Ok(()) => Ok(()),
        Err(e) => Err(failure_error(CounterFailure::DeleteCounter, e)),
    }
}

/// The outcome of a read, from the reply to its get command: a missing
/// counter counts as 0.
pub open spec fn read_outcome(reply: Result<Option<u32>, Seq<char>>) -> Result<u32, ErrorView> {
    match reply {
        Ok(Some(count)) => Ok(count),
        Ok(None) => Ok(0),
        Err(e) => Err(failure_error(CounterFailure::GetCounter, e)),
    }
}

/// The outcome of a reset, from the reply to its delete command (the Redis
/// error taken as its text).
pub fn finish_reset_counter(reply: Result<(), String>) -> (r: Result<(), Error>)
    ensures
        result_view(r) == reset_outcome(match reply {
            Ok(()) => Ok(()),
            Err(e) => Err(e@),
        }),
        r is Ok <==> reply is Ok,
        reply matches Err(text) ==> r matches Err(e) && e@ == ErrorView::Redis(
            "Failed to delete counter: "@ + text@,
        ),
{
    proof {
        lemma_reset_outcome();
    }
    match reply {
        Ok(()) => Ok(()),
        Err(e) => Err(CounterFailure::DeleteCounter.error(e.as_str())),
    }
}

/// The outcome of a read, from the reply to its get command (the Redis
/// error taken as its text).
pub fn finish_get_counter(reply: Result<Option<u32>, String>) -> (r: Result<u32, Error>)
    ensures
        result_view(r) == read_outcome(match reply {
            Ok(v) => Ok(v),
            Err(e) => Err(e@),
        }),
        r is Ok <==> reply is Ok,
        reply matches Ok(Some(count)) ==> r matches Ok(v) && v == count,
        reply matches Ok(None) ==> r matches Ok(v) && v == 0,
        reply matches Err(text) ==> r matches Err(e) && e@ == ErrorView::Redis(
            "Failed to get counter: "@ + text@,
        ),
{
    proof {
        lemma_read_outcome();
    }
    match reply {
        Ok(count) => Ok(count.unwrap_or(0)),
        Err(e) => Err(CounterFailure::GetCounter.error(e.as_str())),
    }
}

/// A given prefix is the one the keys start with; only without one is it `sockudo`.
pub proof fn lemma_key_prefix(p: &str)
    ensures
        key_prefix(Some(p)) == p@,
        key_prefix(None) == "sockudo"@,
{
}

/// A counter key lays out its parts in order: the prefix, `:delta_count:`,
/// the app id, `:`, the channel, `:`, the conflation key, each recoverable
/// from the key by its place.
pub proof fn lemma_counter_key_segments(
    prefix: Seq<char>,
    app_id: Seq<char>,
    channel: Seq<char>,
    conflation_key: Seq<char>,
)
    ensures
        ({
            let key = counter_key(prefix, app_id, channel, conflation_key);
            let app_start: int = prefix.len() as int + 13;
            let channel_start: int = app_start + app_id.len() + 1;
            let key_start: int = channel_start + channel.len() + 1;
            &&& key.len() == key_start + conflation_key.len()
            &&& key.subrange(0, prefix.len() as int) == prefix
            &&& key.subrange(prefix.len() as int, app_start) == ":delta_count:"@
            &&& key.subrange(app_start, app_start + app_id.len()) == app_id
            &&& key[app_start + app_id.len()] == ':'
            &&& key.subrange(channel_start, channel_start + channel.len()) == channel
            &&& key[channel_start + channel.len()] == ':'
            &&& key.subrange(key_start, key.len() as int) == conflation_key
        }),
{
    reveal_strlit(":delta_count:");
    reveal_strlit(":");
    let key = counter_key(prefix, app_id, channel, conflation_key);
    let app_start: int = prefix.len() as int + 13;
    let channel_start: int = app_start + app_id.len() + 1;
    let key_start: int = channel_start + channel.len() + 1;
    assert(key.subrange(0, prefix.len() as int) =~= prefix);
    assert(key.subrange(prefix.len() as int, app_start) =~= ":delta_count:"@);
    assert(key.subrange(app_start, app_start + app_id.len()) =~= app_id);
    assert(key.subrange(channel_start, channel_start + channel.len()) =~= channel);
    assert(key.subrange(key_start, key.len() as int) =~= conflation_key);
}

/// Distinct apps, distinct channels of one app, and distinct conflation
/// keys of one channel never share a counter (under one prefix).
pub proof fn lemma_counter_key_distinguishes(
    prefix: Seq<char>,
    app_id: Seq<char>,
    other_app_id: Seq<char>,
    channel: Seq<char>,
    other_channel: Seq<char>,
    conflation_key: Seq<char>,
    other_conflation_key: Seq<char>,
)
    ensures
        app_id != other_app_id ==> counter_key(prefix, app_id, channel, conflation_key)
            != counter_key(prefix, other_app_id, channel, conflation_key),
        channel != other_channel ==> counter_key(prefix, app_id, channel, conflation_key)
            != counter_key(prefix, app_id, other_channel, conflation_key),
        conflation_key != other_conflation_key ==> counter_key(
            prefix,
            app_id,
            channel,
            conflation_key,
        ) != counter_key(prefix, app_id, channel, other_conflation_key),
{
    lemma_counter_key_segments(prefix, app_id, channel, conflation_key);
    lemma_counter_key_segments(prefix, other_app_id, channel, conflation_key);
    lemma_counter_key_segments(prefix, app_id, other_channel, conflation_key);
    lemma_counter_key_segments(prefix, app_id, channel, other_conflation_key);
}

/// A failed delete is always reported, as a Redis error naming the failure
/// and carrying the error's text; a successful one is the reset.
pub proof fn lemma_reset_outcome()
    ensures
        reset_outcome(Ok(())) == Ok::<(), ErrorView>(()),
        forall|text: Seq<char>|
            #[trigger] reset_outcome(Err(text)) == Err::<(), ErrorView>(
                ErrorView::Redis("Failed to delete counter: "@ + text),
            ),
{
    reveal_strlit("Failed to delete counter");
    reveal_strlit(": ");
    reveal_strlit("Failed to delete counter: ");
    assert forall|text: Seq<char>|
        #[trigger] reset_outcome(Err(text)) == Err::<(), ErrorView>(
            ErrorView::Redis("Failed to delete counter: "@ + text),
        ) by {
        assert("Failed to delete counter"@ + ": "@ + text =~= "Failed to delete counter: "@ + text);
    }
}

/// A read gives the stored count, 0 for a missing counter, and a failed
/// read is always reported, as a Redis error naming the failure and
/// carrying the error's text.
pub proof fn lemma_read_outcome()
    ensures
        forall|count: u32| #[trigger] read_outcome(Ok(Some(count))) == Ok::<u32, ErrorView>(count),
        read_outcome(Ok(None)) == Ok::<u32, ErrorView>(0),
        forall|text: Seq<char>|
            #[trigger] read_outcome(Err(text)) == Err::<u32, ErrorView>(
                ErrorView::Redis("Failed to get counter: "@ + text),
            ),
{
    reveal_strlit("Failed to get counter");
    reveal_strlit(": ");
    reveal_strlit("Failed to get counter: ");
    assert forall|text: Seq<char>|
        #[trigger] read_outcome(Err(text)) == Err::<u32, ErrorView>(
            ErrorView::Redis("Failed to get counter: "@ + text),
        ) by {
        assert("Failed to get counter"@ + ": "@ + text =~= "Failed to get counter: "@ + text);
    }
}

/// The context of the error reported when a Redis Cluster client cannot be built.
pub open spec fn cluster_client_context() -> Seq<char> {
    "Failed to create Redis Cluster client"@
}

/// The error reported when the coordinator's Redis Cluster client cannot be
/// built, with the client's error text `detail`.
pub fn cluster_client_error(detail: &str) -> (e: Error)
    ensures
        e@ == ErrorView::Redis(detailed_message(cluster_client_context(), detail@)),
{
    Error::Redis(detailed("Failed to create Redis Cluster client", detail))
}

impl<C: Clone> Clone for RedisClusterCoordinator<C> {
    /// A coordinator with the same prefix, TTL and backend, over a clone of
    /// the connection (for a shared connection, the same one).
    fn clone(&self) -> (c: Self)
        ensures
            c@ == self@,
            cloned(self.held_connection(), c.held_connection()),
    {
        proof {
            use_type_invariant(self);
        }
        RedisClusterCoordinator {
            connection: self.connection.clone(),
            prefix: self.prefix.clone(),
            ttl_seconds: self.ttl_seconds,
            backend_name: self.backend_name,
        }
    }
}

} // verus!
