use vstd::prelude::*;
use crate::coordinator::{cluster_client_context, cluster_client_error, CLUSTER_CLIENT_RETRIES};
use crate::duration::Duration;
use crate::error::{detailed_message, Error, ErrorView};
use crate::queue::{cluster_build_context, cluster_build_error};
use redis::cluster::{ClusterClient, ClusterClientBuilder};
use redis::cluster_read_routing::RandomReplicaStrategy;

verus! {

#[verifier::external_type_specification]
#[verifier::external_body]
pub struct ExClusterClientBuilder(ClusterClientBuilder);

#[verifier::external_type_specification]
#[verifier::external_body]
pub struct ExClusterClient(ClusterClient);

/// Whether `ClusterClientBuilder::build` accepts the seed nodes `nodes`
/// (each parses as a node address, they are not empty, none is a Unix
/// socket, and they agree on password, username, protocol, database and
/// TLS mode). With no TLS feature of `redis` enabled, this is the only
/// thing the build depends on.
pub uninterp spec fn cluster_nodes_accepted(nodes: Seq<Seq<char>>) -> bool;

/// The text (`Display`) of the error that `ClusterClientBuilder::build`
/// gives for the seed nodes `nodes` when it refuses them.
pub uninterp spec fn cluster_nodes_error_text(nodes: Seq<Seq<char>>) -> Seq<char>;

/// A time limit in nanoseconds, if any.
pub open spec fn timeout_view(timeout: Option<Duration>) -> Option<nat> {
    match timeout {
        Some(d) => Some(d@),
        None => None,
    }
}

/// What is set on a Redis Cluster client builder: the seed nodes, and each
/// setting that was applied (`None`: left at the builder's default).
pub struct ClusterSettingsView {
    pub nodes: Seq<Seq<char>>,
    pub retries: Option<u32>,
    pub random_replica_reads: bool,
    pub overall_response_timeout: Option<Option<nat>>,
    pub response_timeout: Option<nat>,
}

/// The settings of a builder made over `nodes`, before anything is applied.
pub open spec fn fresh_settings(nodes: Seq<Seq<char>>) -> ClusterSettingsView {
    ClusterSettingsView {
        nodes,
        retries: None,
        random_replica_reads: false,
        overall_response_timeout: None,
        response_timeout: None,
    }
}

/// Seed nodes taken as characters.
pub open spec fn nodes_view(nodes: Seq<String>) -> Seq<Seq<char>> {
    nodes.map_values(|n: String| n@)
}

/// A Redis Cluster client builder, with the settings applied to it so far.
/// Only the calls into the builder below change either.
pub struct ClusterBuilder {
    builder: ClusterClientBuilder,
    settings: Ghost<ClusterSettingsView>,
}

/// A Redis Cluster client, with the settings it was built with.
pub struct BuiltClusterClient {
    client: ClusterClient,
    settings: Ghost<ClusterSettingsView>,
}

impl ClusterBuilder {
    /// The settings applied to the builder.
    pub closed spec fn settings(&self) -> ClusterSettingsView {
        self.settings@
    }

    /// `ClusterClientBuilder::new`: a builder over the seed nodes `nodes`,
    /// every other setting at its default.
    #[verifier::external_body]
    fn over_nodes(nodes: Vec<String>) -> (b: ClusterBuilder)
        ensures
            b.settings() == fresh_settings(nodes_view(nodes@)),
    {
        let settings = Ghost(fresh_settings(nodes_view(nodes@)));
        ClusterBuilder { builder: ClusterClientBuilder::new(nodes), settings }
    }

    /// `ClusterClientBuilder::retries`: stores the number of retries.
    #[verifier::external_body]
    fn retries(self, retries: u32) -> (b: ClusterBuilder)
        ensures
            b.settings() == (ClusterSettingsView { retries: Some(retries), ..self.settings() }),
    {
        let settings = Ghost(ClusterSettingsView { retries: Some(retries), ..self.settings@ });
        ClusterBuilder { builder: self.builder.retries(retries), settings }
    }

    /// `ClusterClientBuilder::read_routing_strategy` with
    /// `RandomReplicaStrategy`: stores that reads go to a random replica.
    #[verifier::external_body]
    fn random_replica_reads(self) -> (b: ClusterBuilder)
        ensures
            b.settings() == (ClusterSettingsView { random_replica_reads: true, ..self.settings() }),
    {
        let settings = Ghost(ClusterSettingsView { random_replica_reads: true, ..self.settings@ });
        ClusterBuilder { builder: self.builder.read_routing_strategy(RandomReplicaStrategy), settings }
    }

    /// `ClusterClientBuilder::overall_response_timeout`: stores the limit of
    /// a whole request, retries included (`None`: no limit).
    #[verifier::external_body]
    fn overall_response_timeout(self, timeout: Option<Duration>) -> (b: ClusterBuilder)
        ensures
            b.settings() == (ClusterSettingsView {
                overall_response_timeout: Some(timeout_view(timeout)),
                ..self.settings()
            }),
    {
        let settings = Ghost(ClusterSettingsView {
            overall_response_timeout: Some(timeout_view(timeout)),
            ..self.settings@
        });
        let timeout = timeout.map(|d: Duration| std::time::Duration::new(d.as_secs(), d.subsec_nanos()));
        ClusterBuilder { builder: self.builder.overall_response_timeout(timeout), settings }
    }

    /// `ClusterClientBuilder::response_timeout`: stores the limit of each response.
    #[verifier::external_body]
    fn response_timeout(self, timeout: Duration) -> (b: ClusterBuilder)
        ensures
            b.settings() == (ClusterSettingsView { response_timeout: Some(timeout@), ..self.settings() }),
    {
        let settings = Ghost(ClusterSettingsView { response_timeout: Some(timeout@), ..self.settings@ });
        let timeout = std::time::Duration::new(timeout.as_secs(), timeout.subsec_nanos());
        ClusterBuilder { builder: self.builder.response_timeout(timeout), settings }
    }

    /// `ClusterClientBuilder::build`: the client, carrying the builder's
    /// settings, exactly when the seed nodes are accepted; otherwise the
    /// text of the builder's error.
    #[verifier::external_body]
    fn build(self) -> (r: Result<BuiltClusterClient, String>)
        ensures
            r is Ok <==> cluster_nodes_accepted(self.settings().nodes),
            r matches Ok(c) ==> c.settings() == self.settings(),
            r matches Err(text) ==> text@ == cluster_nodes_error_text(self.settings().nodes),
    {
        let settings = Ghost(self.settings@);
        match self.builder.build() {
            Ok(client) => Ok(BuiltClusterClient { client, settings }),
            Err(error) => Err(error.to_string()),
        }
    }
}

impl BuiltClusterClient {
    /// The settings the client was built with.
    pub closed spec fn settings(&self) -> ClusterSettingsView {
        self.settings@
    }

    /// The client.
    pub fn client(&self) -> &ClusterClient {
        &self.client
    }

    /// The client, taken out.
    pub fn into_client(self) -> ClusterClient {
        self.client
    }
}

/// The settings a Redis Cluster client is built with: its seed nodes and
/// what is set on the builder before the client is built (`None` leaves the
/// builder's own default).
pub struct ClusterClientSettings {
    /// The seed nodes.
    pub nodes: Vec<String>,
    /// The number of retries.
    pub retries: Option<u32>,
    /// Whether reads go to a random replica.
    pub random_replica_reads: bool,
    /// The limit of a whole request, retries included (`Some(None)`: no limit).
    pub overall_response_timeout: Option<Option<Duration>>,
    /// The limit of each response.
    pub response_timeout: Option<Duration>,
}

impl View for ClusterClientSettings {
    type V = ClusterSettingsView;

    open spec fn view(&self) -> ClusterSettingsView {
        ClusterSettingsView {
            nodes: nodes_view(self.nodes@),
            retries: self.retries,
            random_replica_reads: self.random_replica_reads,
            overall_response_timeout: match self.overall_response_timeout {
                Some(t) => Some(timeout_view(t)),
                None => None,
            },
            response_timeout: timeout_view(self.response_timeout),
        }
    }
}

/// Applies `settings` to a builder over its seed nodes, one setting after
/// the other.
fn configured_builder(settings: ClusterClientSettings) -> (b: ClusterBuilder)
    ensures
        b.settings() == settings@,
{
    let ghost wanted = settings@;
    let mut builder = ClusterBuilder::over_nodes(settings.nodes);
    if let Some(retries) = settings.retries {
        builder = builder.retries(retries);
    }
    if settings.random_replica_reads {
        builder = builder.random_replica_reads();
    }
    if let Some(timeout) = settings.overall_response_timeout {
        builder = builder.overall_response_timeout(timeout);
    }
    if let Some(timeout) = settings.response_timeout {
        builder = builder.response_timeout(timeout);
    }
    assert(builder.settings() == wanted);
    builder
}

/// The builder settings of a coordinator's Redis Cluster client over the
/// seed nodes `nodes`: three retries, reads from a random replica, the
/// builder's default timeouts.
pub fn coordinator_cluster_builder(nodes: Vec<String>) -> (settings: ClusterClientSettings)
    ensures
        settings.nodes == nodes,
        settings.retries == Some(CLUSTER_CLIENT_RETRIES),
        settings.random_replica_reads,
        settings.overall_response_timeout is None,
        settings.response_timeout is None,
{
    ClusterClientSettings {
        nodes,
        retries: Some(CLUSTER_CLIENT_RETRIES),
        random_replica_reads: true,
        overall_response_timeout: None,
        response_timeout: None,
    }
}

/// Builds a coordinator's Redis Cluster client with `settings`: it succeeds
/// exactly when the builder accepts the seed nodes, and the client carries
/// the settings; otherwise the Redis error's message gives the context and
/// the builder's error text.
pub fn coordinator_cluster_client(settings: ClusterClientSettings) -> (r: Result<BuiltClusterClient, Error>)
    ensures
        r is Ok <==> cluster_nodes_accepted(settings@.nodes),
        r matches Ok(c) ==> c.settings() == settings@,
        r matches Err(e) ==> e@ == ErrorView::Redis(
            detailed_message(cluster_client_context(), cluster_nodes_error_text(settings@.nodes)),
        ),
{
    let builder = configured_builder(settings);
    match builder.build() {
        Ok(client) => Ok(client),
        Err(text) => Err(cluster_client_error(text.as_str())),
    }
}

/// The builder settings of a queue's Redis Cluster client over the seed
/// nodes `nodes`: the whole request is limited by `response_timeout` (no
/// limit for `None`), and so is each response where a timeout is given;
/// retries and read routing are left at the builder's defaults.
pub fn queue_cluster_builder(nodes: Vec<String>, response_timeout: Option<Duration>) -> (settings:
    ClusterClientSettings)
    ensures
        settings.nodes == nodes,
        settings.retries is None,
        !settings.random_replica_reads,
        settings.overall_response_timeout == Some(response_timeout),
        settings.response_timeout == response_timeout,
{
    ClusterClientSettings {
        nodes,
        retries: None,
        random_replica_reads: false,
        overall_response_timeout: Some(response_timeout),
        response_timeout,
    }
}

/// Builds a queue's Redis Cluster client with `settings`: it succeeds
/// exactly when the builder accepts the seed nodes, and the client carries
/// the settings; otherwise the configuration error's message gives the
/// context and the builder's error text.
pub fn queue_cluster_client(settings: ClusterClientSettings) -> (r: Result<BuiltClusterClient, Error>)
    ensures
        r is Ok <==> cluster_nodes_accepted(settings@.nodes),
        r matches Ok(c) ==> c.settings() == settings@,
        r matches Err(e) ==> e@ == ErrorView::Config(
            detailed_message(cluster_build_context(), cluster_nodes_error_text(settings@.nodes)),
        ),
{
    let builder = configured_builder(settings);
    match builder.build() {
        Ok(client) => Ok(client),
        Err(text) => Err(cluster_build_error(text.as_str())),
    }
}

} // verus!
