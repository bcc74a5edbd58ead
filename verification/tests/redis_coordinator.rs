use std::collections::HashMap;

use sockudo_redis::cluster_client::{coordinator_cluster_builder, coordinator_cluster_client};
use sockudo_redis::coordinator::{
    cluster_client_error, finish_get_counter, finish_reset_counter, RedisClusterCoordinator,
    COUNTER_TTL_SECONDS,
};
use sockudo_redis::counter::{
    CommandReply, CounterCommand, CounterFailure, IncrementAndCheck, Progress,
};
use sockudo_redis::error::Error;

/// A Redis that holds counters in memory, with their TTLs.
#[derive(Default)]
struct FakeRedis {
    values: HashMap<String, (i64, Option<i64>)>,
    commands: Vec<String>,
}

impl FakeRedis {
    fn run(&mut self, command: &CounterCommand) -> Result<CommandReply, String> {
        match command {
            CounterCommand::Increment { key, by } => {
                self.commands.push(format!("INCRBY {} {}", key, by));
                let current = self.values.get(key).map(|e| e.0).unwrap_or(0);
                let next = match current.checked_add(*by as i64) {
                    Some(next) => next,
                    None => return Err("increment or decrement would overflow".to_string()),
                };
                let entry = self.values.entry(key.clone()).or_insert((0, None));
                entry.0 = next;
                // An integer reply converts to u32 by its low 32 bits.
                Ok(CommandReply::Count(next as u32))
            }
            CounterCommand::Expire { key, seconds } => {
                self.commands.push(format!("EXPIRE {} {}", key, seconds));
                if let Some(entry) = self.values.get_mut(key) {
                    entry.1 = Some(*seconds);
                }
                Ok(CommandReply::Done)
            }
            CounterCommand::Write { key, value } => {
                self.commands.push(format!("SET {} {}", key, value));
                self.values.insert(key.clone(), (*value as i64, None));
                Ok(CommandReply::Done)
            }
            CounterCommand::Delete { key } => {
                self.commands.push(format!("DEL {}", key));
                self.values.remove(key);
                Ok(CommandReply::Done)
            }
            CounterCommand::Get { key } => {
                self.commands.push(format!("GET {}", key));
                match self.values.get(key) {
                    None => Ok(CommandReply::Value(None)),
                    Some(e) => match u32::try_from(e.0) {
                        Ok(v) => Ok(CommandReply::Value(Some(v))),
                        Err(_) => Err("value out of range for u32".to_string()),
                    },
                }
            }
        }
    }
}

fn drive(
    redis: &mut FakeRedis,
    start: (IncrementAndCheck, CounterCommand),
    mut fail_at: Option<usize>,
) -> Result<(bool, u32), Error> {
    let (mut machine, mut command) = start;
    let mut step = 0usize;
    loop {
        let reply = if fail_at == Some(step) {
            fail_at = None;
            Err("boom".to_string())
        } else {
            redis.run(&command)
        };
        assert!(machine.accepts(&reply));
        match machine.on_reply(reply) {
            Progress::Send(next, next_command) => {
                machine = next;
                command = next_command;
                step += 1;
            }
            Progress::Finished(outcome) => return outcome,
        }
    }
}

fn redis_message(e: Error) -> String {
    match e {
        Error::Redis(m) => m,
        other => panic!("expected a Redis error, got {:?}", other),
    }
}

#[test]
fn key_has_prefix_and_parts() {
    let c = RedisClusterCoordinator::from_standalone_connection((), Some("myapp"));
    assert_eq!(c.get_key("app1", "chan", "ck"), "myapp:delta_count:app1:chan:ck");
    let d = RedisClusterCoordinator::from_standalone_connection((), None);
    assert_eq!(d.get_key("a", "b", "c"), "sockudo:delta_count:a:b:c");
}

#[test]
fn constructors_set_backend_and_ttl() {
    let s = RedisClusterCoordinator::from_standalone_connection(1u8, None);
    assert_eq!(s.backend_name(), "redis");
    assert_eq!(s.ttl_seconds(), 300);
    assert_eq!(*s.connection(), 1u8);
    let c = RedisClusterCoordinator::from_cluster_connection(2u8, Some("p"));
    assert_eq!(c.backend_name(), "redis_cluster");
    assert_eq!(c.ttl_seconds(), COUNTER_TTL_SECONDS);
    let copy = c.clone();
    assert_eq!(copy.backend_name(), "redis_cluster");
    assert_eq!(copy.get_key("a", "b", "c"), "p:delta_count:a:b:c");
    assert_eq!(*copy.connection(), 2u8);
}

#[test]
fn first_increment_sets_ttl_and_sends_delta() {
    let c = RedisClusterCoordinator::from_standalone_connection((), None);
    let mut redis = FakeRedis::default();
    let out = drive(&mut redis, c.increment_and_check("a", "ch", "k", 3), None);
    assert_eq!(out.ok(), Some((false, 1)));
    assert_eq!(
        redis.commands,
        vec![
            "INCRBY sockudo:delta_count:a:ch:k 1".to_string(),
            "EXPIRE sockudo:delta_count:a:ch:k 300".to_string(),
        ]
    );
}

#[test]
fn every_interval_th_message_is_full() {
    let c = RedisClusterCoordinator::from_standalone_connection((), None);
    let mut redis = FakeRedis::default();
    let mut outcomes = Vec::new();
    for _ in 0..7 {
        outcomes.push(drive(&mut redis, c.increment_and_check("a", "ch", "k", 3), None).ok().unwrap());
    }
    assert_eq!(
        outcomes,
        vec![(false, 1), (false, 2), (true, 3), (false, 1), (false, 2), (true, 3), (false, 1)]
    );
    let key = c.get_key("a", "ch", "k");
    assert_eq!(redis.values.get(&key), Some(&(1, Some(300))));
}

#[test]
fn full_message_resets_and_refreshes_ttl() {
    let c = RedisClusterCoordinator::from_standalone_connection((), None);
    let mut redis = FakeRedis::default();
    let key = c.get_key("a", "ch", "k");
    redis.values.insert(key.clone(), (4, Some(12)));
    let out = drive(&mut redis, c.increment_and_check("a", "ch", "k", 5), None);
    assert_eq!(out.ok(), Some((true, 5)));
    assert_eq!(redis.values.get(&key), Some(&(0, Some(300))));
    assert_eq!(redis.commands.len(), 3);
}

#[test]
fn zero_interval_is_always_full() {
    let c = RedisClusterCoordinator::from_standalone_connection((), None);
    let mut redis = FakeRedis::default();
    let out = drive(&mut redis, c.increment_and_check("a", "ch", "k", 0), None);
    assert_eq!(out.ok(), Some((true, 0)));
    assert_eq!(redis.commands.len(), 4);
}

#[test]
fn delta_keeps_existing_ttl() {
    let c = RedisClusterCoordinator::from_standalone_connection((), None);
    let mut redis = FakeRedis::default();
    let key = c.get_key("a", "ch", "k");
    redis.values.insert(key.clone(), (1, Some(42)));
    let out = drive(&mut redis, c.increment_and_check("a", "ch", "k", 10), None);
    assert_eq!(out.ok(), Some((false, 2)));
    assert_eq!(redis.values.get(&key), Some(&(2, Some(42))));
    assert_eq!(redis.commands.len(), 1);
}

#[test]
fn each_failing_step_names_its_context() {
    let c = RedisClusterCoordinator::from_standalone_connection((), None);
    // count 1 path: INCR, EXPIRE
    let mut redis = FakeRedis::default();
    let e = drive(&mut redis, c.increment_and_check("a", "ch", "k", 3), Some(0)).err().unwrap();
    assert_eq!(redis_message(e), "Failed to increment counter: boom");
    let mut redis = FakeRedis::default();
    let e = drive(&mut redis, c.increment_and_check("a", "ch", "k", 3), Some(1)).err().unwrap();
    assert_eq!(redis_message(e), "Failed to set TTL: boom");
    // full path from 1: INCR, SET, EXPIRE
    let key = c.get_key("a", "ch", "k");
    let mut redis = FakeRedis::default();
    redis.values.insert(key.clone(), (1, None));
    let e = drive(&mut redis, c.increment_and_check("a", "ch", "k", 2), Some(1)).err().unwrap();
    assert_eq!(redis_message(e), "Failed to reset counter: boom");
    let mut redis = FakeRedis::default();
    redis.values.insert(key.clone(), (1, None));
    let e = drive(&mut redis, c.increment_and_check("a", "ch", "k", 2), Some(2)).err().unwrap();
    assert_eq!(redis_message(e), "Failed to refresh TTL: boom");
}

#[test]
fn reset_and_read_commands_and_outcomes() {
    let c = RedisClusterCoordinator::from_standalone_connection((), None);
    match c.reset_counter("a", "ch", "k") {
        CounterCommand::Delete { key } => assert_eq!(key, "sockudo:delta_count:a:ch:k"),
        _ => panic!("reset must delete"),
    }
    match c.get_counter("a", "ch", "k") {
        CounterCommand::Get { key } => assert_eq!(key, "sockudo:delta_count:a:ch:k"),
        _ => panic!("read must get"),
    }
    assert!(finish_reset_counter(Ok(())).is_ok());
    assert_eq!(
        redis_message(finish_reset_counter(Err("down".to_string())).err().unwrap()),
        "Failed to delete counter: down"
    );
    assert_eq!(finish_get_counter(Ok(Some(4))).ok(), Some(4));
    assert_eq!(finish_get_counter(Ok(None)).ok(), Some(0));
    assert_eq!(
        redis_message(finish_get_counter(Err("down".to_string())).err().unwrap()),
        "Failed to get counter: down"
    );
}

#[test]
fn read_after_delta_and_after_reset() {
    let c = RedisClusterCoordinator::from_standalone_connection((), None);
    let mut redis = FakeRedis::default();
    drive(&mut redis, c.increment_and_check("a", "ch", "k", 5), None).ok().unwrap();
    drive(&mut redis, c.increment_and_check("a", "ch", "k", 5), None).ok().unwrap();
    let read = |redis: &mut FakeRedis| match redis.run(&c.get_counter("a", "ch", "k")) {
        Ok(CommandReply::Value(v)) => finish_get_counter(Ok(v)).ok().unwrap(),
        _ => panic!("unexpected reply"),
    };
    assert_eq!(read(&mut redis), 2);
    redis.run(&c.reset_counter("a", "ch", "k")).ok().unwrap();
    assert_eq!(read(&mut redis), 0);
}

#[test]
fn failure_contexts_and_errors() {
    assert_eq!(CounterFailure::Increment.context(), "Failed to increment counter");
    assert_eq!(redis_message(CounterFailure::RefreshTtl.error("x")), "Failed to refresh TTL: x");
    assert_eq!(
        redis_message(cluster_client_error("bad")),
        "Failed to create Redis Cluster client: bad"
    );
}

#[test]
fn machine_rejects_mismatched_reply_shape() {
    let (machine, _) = IncrementAndCheck::start("k".to_string(), 3, 300);
    assert!(machine.accepts(&Ok(CommandReply::Count(1))));
    assert!(!machine.accepts(&Ok(CommandReply::Done)));
    assert!(machine.accepts(&Err("e".to_string())));
}

#[test]
fn coordinator_cluster_client_builds_and_reports() {
    let ok = coordinator_cluster_client(coordinator_cluster_builder(vec![
        "redis://127.0.0.1:7000".to_string(),
    ]));
    assert!(ok.is_ok());
    let bad = coordinator_cluster_client(coordinator_cluster_builder(vec!["nope".to_string()]));
    let m = redis_message(bad.err().unwrap());
    assert!(m.starts_with("Failed to create Redis Cluster client: "));
}

#[test]
fn coordinator_cluster_builder_retries_and_reads_replicas() {
    let nodes = vec!["redis://127.0.0.1:7000".to_string(), "redis://127.0.0.1:7001".to_string()];
    let s = coordinator_cluster_builder(nodes.clone());
    assert_eq!(s.nodes, nodes);
    assert_eq!(s.retries, Some(3));
    assert!(s.random_replica_reads);
    assert!(s.overall_response_timeout.is_none());
    assert!(s.response_timeout.is_none());
}

#[test]
fn counter_below_zero_answers_by_low_bits_or_overflows() {
    let c = RedisClusterCoordinator::from_standalone_connection((), None);
    let key = c.get_key("a", "ch", "k");
    let mut redis = FakeRedis::default();
    redis.values.insert(key.clone(), (-1, Some(7)));
    let out = drive(&mut redis, c.increment_and_check("a", "ch", "k", 5), None);
    assert_eq!(out.ok(), Some((false, 0)));
    assert_eq!(redis.values.get(&key), Some(&(0, Some(7))));
    // -5 + 1 replies as 4294967292, which reaches the interval.
    let mut redis = FakeRedis::default();
    redis.values.insert(key.clone(), (-5, None));
    let out = drive(&mut redis, c.increment_and_check("a", "ch", "k", 3), None);
    assert_eq!(out.ok(), Some((true, 3)));
    assert_eq!(redis.values.get(&key), Some(&(0, Some(300))));
    let mut redis = FakeRedis::default();
    redis.values.insert(key.clone(), (i64::MAX, None));
    let e = drive(&mut redis, c.increment_and_check("a", "ch", "k", 3), None).err().unwrap();
    assert_eq!(redis_message(e), "Failed to increment counter: increment or decrement would overflow");
    assert_eq!(redis.values.get(&key), Some(&(i64::MAX, None)));
}
