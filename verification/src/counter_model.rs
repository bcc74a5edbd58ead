use vstd::prelude::*;
use crate::coordinator::{read_outcome, reset_outcome};
use crate::counter::{
    failure_error, increment_next, CounterFailure, increment_start, reply_fits, CommandReply, CounterCommandView,
    IncrementPhase, IncrementView, ProgressView,
};
use crate::error::ErrorView;

verus! {

/// A counter key as Redis holds it: its value and the TTL last set on it, if any.
pub struct StoredCounter {
    pub value: int,
    pub ttl_seconds: Option<i64>,
}

/// The count stored under `key`; a missing key counts as 0.
pub open spec fn stored_count(store: Map<Seq<char>, StoredCounter>, key: Seq<char>) -> int {
    if store.contains_key(key) {
        store[key].value
    } else {
        0
    }
}

/// The text of the error that a read is answered with when the stored count
/// does not parse as a `u32`.
pub open spec fn out_of_range_text() -> Seq<char> {
    "value out of range for u32"@
}

/// The text of the error that Redis answers an `INCRBY` with when the sum
/// leaves the range of an `i64`.
pub open spec fn increment_overflow_text() -> Seq<char> {
    "increment or decrement would overflow"@
}

/// The `u32` that an integer reply converts to: its low 32 bits (the
/// conversion of an integer reply to `u32` is `as u32`).
pub open spec fn reply_count(value: int) -> u32 {
    (value % 0x1_0000_0000) as u32
}

/// How Redis answers `command` on `store`, and what it then holds: `INCRBY`
/// adds to the value (a missing key counting as 0) and keeps the TTL, or
/// refuses, changing nothing, when the sum leaves the range of an `i64`; the
/// reply converts to a `u32` by its low 32 bits;
/// `EXPIRE` sets the TTL of an existing key, or removes the key for a
/// non-positive TTL; `SET` stores the value and clears the TTL; `DEL`
/// removes the key; `GET` reads it.
pub open spec fn perform(store: Map<Seq<char>, StoredCounter>, command: CounterCommandView) -> (
    Map<Seq<char>, StoredCounter>,
    Result<CommandReply, Seq<char>>,
) {
    match command {
        CounterCommandView::Increment { key, by } => {
            let value = stored_count(store, key) + by;
            let ttl_seconds = if store.contains_key(key) {
                store[key].ttl_seconds
            } else {
                None
            };
            if i64::MIN <= value <= i64::MAX {
                (
                    store.insert(key, StoredCounter { value, ttl_seconds }),
                    Ok(CommandReply::Count(reply_count(value))),
                )
            } else {
                (store, Err(increment_overflow_text()))
            }
        },
        CounterCommandView::Expire { key, seconds } => if !store.contains_key(key) {
            (store, Ok(CommandReply::Done))
        } else if seconds <= 0 {
            (store.remove(key), Ok(CommandReply::Done))
        } else {
            (
                store.insert(
                    key,
                    StoredCounter { value: store[key].value, ttl_seconds: Some(seconds) },
                ),
                Ok(CommandReply::Done),
            )
        },
        CounterCommandView::Write { key, value } => (
            store.insert(key, StoredCounter { value: value as int, ttl_seconds: None }),
            Ok(CommandReply::Done),
        ),
        CounterCommandView::Delete { key } => (store.remove(key), Ok(CommandReply::Done)),
        CounterCommandView::Get { key } => (
            store,
            if !store.contains_key(key) {
                Ok(CommandReply::Value(None))
            } else if 0 <= store[key].value <= u32::MAX {
                Ok(CommandReply::Value(Some(store[key].value as u32)))
            } else {
                Err(out_of_range_text())
            },
        ),
    }
}

/// Runs an increment-and-check in state `m`, whose pending command is
/// `command`, against `store`, for at most `fuel` further commands: the store
/// it leaves and its outcome, if it finished.
pub open spec fn run_increment(
    m: IncrementView,
    command: CounterCommandView,
    store: Map<Seq<char>, StoredCounter>,
    fuel: nat,
) -> (Map<Seq<char>, StoredCounter>, Option<Result<(bool, u32), ErrorView>>)
    decreases fuel,
{
    let (after, reply) = perform(store, command);
    match increment_next(m, reply) {
        ProgressView::Finished(r) => (after, Some(r)),
        ProgressView::Send(next, next_command) => if fuel == 0 {
            (after, None)
        } else {
            run_increment(next, next_command, after, (fuel - 1) as nat)
        },
    }
}

/// One whole increment-and-check of `key` against `store`.
pub open spec fn increment_and_check_on(
    store: Map<Seq<char>, StoredCounter>,
    key: Seq<char>,
    interval: u32,
    ttl_seconds: i64,
) -> (Map<Seq<char>, StoredCounter>, Option<Result<(bool, u32), ErrorView>>) {
    run_increment(
        increment_start(key, interval, ttl_seconds),
        CounterCommandView::Increment { key, by: 1 },
        store,
        3,
    )
}

/// Every command that an increment-and-check sends is answered, by a Redis
/// that behaves as `perform` says, with a reply that the increment-and-check
/// accepts.
pub proof fn lemma_replies_fit(
    m: IncrementView,
    reply: Result<CommandReply, Seq<char>>,
    store: Map<Seq<char>, StoredCounter>,
)
    ensures
        reply_fits(
            increment_start(m.key, m.interval, m.ttl_seconds).phase,
            perform(store, CounterCommandView::Increment { key: m.key, by: 1 }).1,
        ),
        increment_next(m, reply) matches ProgressView::Send(next, command) ==> reply_fits(
            next.phase,
            perform(store, command).1,
        ),
{
}

/// The increment-and-check of a counter that holds `v` (an `i64`, with
/// `v + 1` an `i64` too) answers by the count `c` that Redis replies with,
/// the low 32 bits of `v + 1` (just `v + 1` when that fits a `u32`). A full
/// message is due exactly when `c` reaches the interval: it then answers
/// `(true, interval)` and leaves the counter at 0 with a fresh TTL;
/// otherwise it answers `(false, c)` and leaves `v + 1`, with a fresh TTL
/// when `c` is 1 and its TTL kept otherwise. No other key changes.
pub proof fn lemma_increment_and_check(
    store: Map<Seq<char>, StoredCounter>,
    key: Seq<char>,
    interval: u32,
    ttl_seconds: i64,
)
    requires
        ttl_seconds > 0,
        i64::MIN <= stored_count(store, key),
        stored_count(store, key) + 1 <= i64::MAX,
    ensures
        ({
            let (after, outcome) = increment_and_check_on(store, key, interval, ttl_seconds);
            let next = stored_count(store, key) + 1;
            let count = reply_count(next);
            let full = count >= interval;
            &&& 0 <= next <= u32::MAX ==> count == next
            &&& outcome == Some(
                Ok::<(bool, u32), ErrorView>(
                    if full {
                        (true, interval)
                    } else {
                        (false, count)
                    },
                ),
            )
            &&& after.contains_key(key)
            &&& after[key].value == if full {
                0
            } else {
                next
            }
            &&& after[key].ttl_seconds == if full || count == 1 {
                Some(ttl_seconds)
            } else {
                store[key].ttl_seconds
            }
            &&& after.remove(key) == store.remove(key)
        }),
{
    let m0 = increment_start(key, interval, ttl_seconds);
    let (s1, r1) = perform(store, CounterCommandView::Increment { key, by: 1 });
    let next = stored_count(store, key) + 1;
    let count = reply_count(next);
    if 0 <= next <= u32::MAX {
        vstd::arithmetic::div_mod::lemma_small_mod(next as nat, 0x1_0000_0000);
    }
    assert(r1 == Ok::<CommandReply, Seq<char>>(CommandReply::Count(count)));
    assert(s1.remove(key) =~= store.remove(key));
    reveal_with_fuel(run_increment, 4);
    if count == 1 {
        let m1 = IncrementView { phase: IncrementPhase::SettingFirstTtl { count: 1 }, ..m0 };
        let (s2, r2) = perform(s1, CounterCommandView::Expire { key, seconds: ttl_seconds });
        assert(s2.remove(key) =~= store.remove(key));
        if count >= interval {
            let m2 = IncrementView { phase: IncrementPhase::Resetting, ..m0 };
            let (s3, r3) = perform(s2, CounterCommandView::Write { key, value: 0 });
            assert(s3.remove(key) =~= store.remove(key));
            let (s4, r4) = perform(s3, CounterCommandView::Expire { key, seconds: ttl_seconds });
            assert(s4.remove(key) =~= store.remove(key));
        }
    } else if count >= interval {
        let (s3, r3) = perform(s1, CounterCommandView::Write { key, value: 0 });
        assert(s3.remove(key) =~= store.remove(key));
        let (s4, r4) = perform(s3, CounterCommandView::Expire { key, seconds: ttl_seconds });
        assert(s4.remove(key) =~= store.remove(key));
    }
}

/// The increment-and-check of a counter at the top of the `i64` range fails
/// with the increment's error, and Redis keeps the store as it was.
pub proof fn lemma_increment_overflow(
    store: Map<Seq<char>, StoredCounter>,
    key: Seq<char>,
    interval: u32,
    ttl_seconds: i64,
)
    requires
        stored_count(store, key) + 1 > i64::MAX,
    ensures
        increment_and_check_on(store, key, interval, ttl_seconds) == (
            store,
            Some(
                Err::<(bool, u32), ErrorView>(
                    failure_error(CounterFailure::Increment, increment_overflow_text()),
                ),
            ),
        ),
{
    reveal_with_fuel(run_increment, 2);
}

/// `n` increment-and-checks of `key` one after the other, starting from
/// `store`: the store they leave and their outcomes in order.
pub open spec fn repeated_checks(
    store: Map<Seq<char>, StoredCounter>,
    key: Seq<char>,
    interval: u32,
    ttl_seconds: i64,
    n: nat,
) -> (Map<Seq<char>, StoredCounter>, Seq<Option<Result<(bool, u32), ErrorView>>>)
    decreases n,
{
    if n == 0 {
        (store, Seq::empty())
    } else {
        let (before, outcomes) = repeated_checks(store, key, interval, ttl_seconds, (n - 1) as nat);
        let (after, outcome) = increment_and_check_on(before, key, interval, ttl_seconds);
        (after, outcomes.push(outcome))
    }
}

/// The outcome of the `k`-th increment-and-check of a counter that started at 0.
pub open spec fn periodic_outcome(k: nat, interval: u32) -> (bool, u32) {
    if k % (interval as nat) == 0 {
        (true, interval)
    } else {
        (false, (k % (interval as nat)) as u32)
    }
}

proof fn lemma_mod_successor(n: nat, d: nat)
    requires
        d > 0,
    ensures
        (n + 1) % d == if n % d + 1 == d {
            0
        } else {
            n % d + 1
        },
{
    vstd::arithmetic::div_mod::lemma_fundamental_div_mod(n as int, d as int);
    let q = n / d;
    let r = n % d;
    if r + 1 == d {
        vstd::arithmetic::div_mod::lemma_mod_multiples_basic((q + 1) as int, d as int);
        assert((n + 1) == (q + 1) * d) by (nonlinear_arith)
            requires
                n == d * q + r,
                r + 1 == d,
        ;
    } else {
        vstd::arithmetic::div_mod::lemma_mod_multiples_vanish(q as int, (r + 1) as int, d as int);
        assert((n + 1) == d * q + (r + 1));
        vstd::arithmetic::div_mod::lemma_small_mod((r + 1) as nat, d);
    }
}

/// Starting from a counter at 0, with an interval of at least 1, the `k`-th
/// increment-and-check (counting from 1) is due a full message exactly when
/// `k` is a multiple of the interval, and otherwise answers `k` modulo the
/// interval; after `n` of them the counter holds `n` modulo the interval.
pub proof fn lemma_full_every_interval(
    store: Map<Seq<char>, StoredCounter>,
    key: Seq<char>,
    interval: u32,
    ttl_seconds: i64,
    n: nat,
)
    requires
        interval >= 1,
        ttl_seconds > 0,
        stored_count(store, key) == 0,
    ensures
        ({
            let (after, outcomes) = repeated_checks(store, key, interval, ttl_seconds, n);
            &&& outcomes.len() == n
            &&& stored_count(after, key) == n % (interval as nat)
            &&& forall|i: int|
                0 <= i < n ==> #[trigger] outcomes[i] == Some(
                    Ok::<(bool, u32), ErrorView>(periodic_outcome((i + 1) as nat, interval)),
                )
        }),
    decreases n,
{
    if n > 0 {
        let m = (n - 1) as nat;
        lemma_full_every_interval(store, key, interval, ttl_seconds, m);
        let (before, outcomes) = repeated_checks(store, key, interval, ttl_seconds, m);
        let d = interval as nat;
        let v = m % d;
        assert(stored_count(before, key) == v);
        lemma_increment_and_check(before, key, interval, ttl_seconds);
        lemma_mod_successor(m, d);
        let (after, outcome) = increment_and_check_on(before, key, interval, ttl_seconds);
        assert(outcome == Some(
            Ok::<(bool, u32), ErrorView>(periodic_outcome(n, interval)),
        ));
        assert(stored_count(after, key) == n % d);
        let all = outcomes.push(outcome);
        assert forall|i: int| 0 <= i < n implies #[trigger] all[i] == Some(
            Ok::<(bool, u32), ErrorView>(periodic_outcome((i + 1) as nat, interval)),
        ) by {
            if i < m {
                assert(all[i] == outcomes[i]);
            }
        }
    }
}

/// A read right after an increment-and-check of a counter that held `v`,
/// with `v + 1` fitting a `u32`, finds the count it answered: 0 when a full
/// message was due, `v + 1` otherwise. (Outside that range a delta leaves a
/// value that a read cannot take as a `u32`.)
pub proof fn lemma_read_after_increment(
    store: Map<Seq<char>, StoredCounter>,
    key: Seq<char>,
    interval: u32,
    ttl_seconds: i64,
)
    requires
        ttl_seconds > 0,
        -1 <= stored_count(store, key),
        stored_count(store, key) + 1 <= u32::MAX,
    ensures
        ({
            let (after, outcome) = increment_and_check_on(store, key, interval, ttl_seconds);
            let read = perform(after, CounterCommandView::Get { key }).1;
            outcome matches Some(Ok((full, count))) && {
                &&& read matches Ok(CommandReply::Value(found))
                &&& read_outcome(Ok(found)) == Ok::<u32, ErrorView>(
                    if full {
                        0u32
                    } else {
                        count
                    },
                )
            }
        }),
{
    lemma_increment_and_check(store, key, interval, ttl_seconds);
}

/// A counter kept below an interval of at least 1 stays below it across an
/// increment-and-check that succeeds, whatever `i64` it held.
pub proof fn lemma_counter_stays_below_interval(
    store: Map<Seq<char>, StoredCounter>,
    key: Seq<char>,
    interval: u32,
    ttl_seconds: i64,
)
    requires
        interval >= 1,
        ttl_seconds > 0,
        i64::MIN <= stored_count(store, key) < interval,
    ensures
        ({
            let (after, outcome) = increment_and_check_on(store, key, interval, ttl_seconds);
            outcome matches Some(Ok(_)) ==> stored_count(after, key) < interval
        }),
{
    lemma_increment_and_check(store, key, interval, ttl_seconds);
}

/// After a reset, which succeeds, a read of the counter finds 0.
pub proof fn lemma_read_after_reset(store: Map<Seq<char>, StoredCounter>, key: Seq<char>)
    ensures
        ({
            let (after, reply) = perform(store, CounterCommandView::Delete { key });
            let read = perform(after, CounterCommandView::Get { key }).1;
            &&& reply == Ok::<CommandReply, Seq<char>>(CommandReply::Done)
            &&& reset_outcome(Ok(())) == Ok::<(), ErrorView>(())
            &&& read == Ok::<CommandReply, Seq<char>>(CommandReply::Value(None))
            &&& read_outcome(Ok(None)) == Ok::<u32, ErrorView>(0)
        }),
{
}

} // verus!
