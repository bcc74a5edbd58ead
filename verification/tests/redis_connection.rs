use sockudo_redis::duration::Duration;
use sockudo_redis::error::Error;
use sockudo_redis::queue::{
    blocking_response_timeout, cluster_backend, cluster_build_error, cluster_connect_error,
    cluster_timeouts, standalone_backend, CommandConnectionSlot, QueueBackendKind,
    MINIMUM_BLOCKING_WAIT_MS,
};
use sockudo_redis::cluster_client::{queue_cluster_builder, queue_cluster_client};

#[test]
fn blocking_timeout_includes_server_wait_and_response_budget() {
    assert_eq!(
        blocking_response_timeout(500, 500),
        Some(Duration::from_secs(1))
    );
}

#[test]
fn blocking_timeout_uses_same_minimum_as_notification_wait() {
    assert_eq!(
        blocking_response_timeout(500, 1),
        Some(Duration::from_millis(510))
    );
}

#[test]
fn blocking_timeout_can_be_disabled() {
    assert_eq!(blocking_response_timeout(0, 500), None);
}

#[test]
fn blocking_timeout_outlasts_server_wait_and_budget() {
    let d = blocking_response_timeout(250, 2_000).unwrap();
    assert_eq!(d, Duration::from_millis(2_250));
    assert!(d.as_secs() == 2 && d.subsec_nanos() == 250_000_000);
    let d = blocking_response_timeout(1, 0).unwrap();
    assert_eq!(d, Duration::from_millis(MINIMUM_BLOCKING_WAIT_MS + 1));
}

#[test]
fn blocking_timeout_handles_largest_inputs() {
    let d = blocking_response_timeout(u64::MAX, u64::MAX).unwrap();
    let nanos = (d.as_secs() as u128) * 1_000_000_000 + d.subsec_nanos() as u128;
    assert_eq!(nanos, 2 * (u64::MAX as u128) * 1_000_000);
}

#[test]
fn duration_from_millis_splits_seconds() {
    let d = Duration::from_millis(1_234);
    assert_eq!(d.as_secs(), 1);
    assert_eq!(d.subsec_nanos(), 234_000_000);
    assert_eq!(Duration::from_millis(1_000), Duration::from_secs(1));
}

#[test]
fn duration_saturating_add_carries_and_saturates() {
    let a = Duration::from_millis(1_600);
    let b = Duration::from_millis(1_700);
    assert_eq!(a.saturating_add(b), Duration::from_millis(3_300));
    let max = Duration::max_value();
    assert_eq!(max.saturating_add(Duration::from_millis(1)), max);
    assert_eq!(Duration::from_secs(u64::MAX).saturating_add(Duration::from_secs(1)), max);
}

#[test]
fn standalone_backend_depends_on_sentinel() {
    assert_eq!(standalone_backend(true), QueueBackendKind::RedisSentinel);
    assert_eq!(standalone_backend(false), QueueBackendKind::Redis);
    assert_eq!(cluster_backend(), QueueBackendKind::RedisCluster);
}

#[test]
fn cluster_timeouts_reject_empty_seed_list() {
    match cluster_timeouts(&Vec::new(), 500, 500) {
        Err(Error::Config(m)) => {
            assert_eq!(m, "Redis Cluster queue requires at least one seed node")
        }
        _ => panic!("an empty seed list must be refused"),
    }
}

#[test]
fn cluster_timeouts_give_worker_longer_wait() {
    let nodes = vec!["redis://127.0.0.1:7000".to_string()];
    let t = cluster_timeouts(&nodes, 500, 500).ok().unwrap();
    assert_eq!(t.command, Some(Duration::from_millis(500)));
    assert_eq!(t.worker, Some(Duration::from_secs(1)));
    let t = cluster_timeouts(&nodes, 0, 500).ok().unwrap();
    assert_eq!(t.command, None);
    assert_eq!(t.worker, None);
}

#[test]
fn cluster_error_messages_carry_detail() {
    match cluster_connect_error("refused") {
        Error::Connection(m) => assert_eq!(m, "failed to connect to Redis Cluster: refused"),
        _ => panic!("wrong variant"),
    }
    match cluster_build_error("bad url") {
        Error::Config(m) => assert_eq!(m, "failed to create Redis Cluster client: bad url"),
        _ => panic!("wrong variant"),
    }
}

#[test]
fn command_connection_slot_caches_and_invalidates() {
    let mut slot = CommandConnectionSlot::holding(7u32);
    assert_eq!(slot.cached_connection(), Some(7));
    slot.invalidate();
    assert_eq!(slot.cached_connection(), None);
    assert_eq!(slot.adopt(9), 9);
    assert_eq!(slot.cached_connection(), Some(9));
    assert_eq!(slot.cached_connection(), Some(9));
}

#[test]
fn queue_cluster_client_builds_for_valid_nodes() {
    let nodes = vec!["redis://127.0.0.1:7000".to_string()];
    let builder = queue_cluster_builder(nodes, Some(Duration::from_millis(500)));
    assert!(queue_cluster_client(builder).is_ok());
}

#[test]
fn queue_cluster_client_reports_bad_nodes_as_config_error() {
    let nodes = vec!["not a redis url".to_string()];
    let builder = queue_cluster_builder(nodes, None);
    match queue_cluster_client(builder) {
        Err(Error::Config(m)) => {
            assert!(m.starts_with("failed to create Redis Cluster client: "));
            assert!(m.len() > "failed to create Redis Cluster client: ".len());
        }
        _ => panic!("a malformed node must be refused"),
    }
}

#[test]
fn queue_cluster_builder_sets_both_timeouts() {
    let nodes = vec!["redis://127.0.0.1:7000".to_string()];
    let s = queue_cluster_builder(nodes.clone(), Some(Duration::from_millis(500)));
    assert_eq!(s.nodes, nodes);
    assert_eq!(s.retries, None);
    assert!(!s.random_replica_reads);
    assert_eq!(s.overall_response_timeout, Some(Some(Duration::from_millis(500))));
    assert_eq!(s.response_timeout, Some(Duration::from_millis(500)));
    let s = queue_cluster_builder(nodes, None);
    assert_eq!(s.overall_response_timeout, Some(None));
    assert_eq!(s.response_timeout, None);
}

#[test]
fn queue_cluster_client_refuses_empty_seed_list() {
    match queue_cluster_client(queue_cluster_builder(Vec::new(), None)) {
        Err(Error::Config(m)) => {
            assert_eq!(m, "failed to create Redis Cluster client: Initial nodes can't be empty. - InvalidClientConfig")
        }
        _ => panic!("an empty seed list must be refused"),
    }
}
