//! The lock held on several independent Redis nodes at once: it is taken
//! when a majority of the nodes grant it in time.

use vstd::prelude::*;
use crate::lock::RedisLock;
use crate::option::{
    ClientOptions, LockOptions, RedLockOptions, SingleNodeConf, default_client_options,
    default_lock_options, default_red_lock_options, repair_red_lock_options,
    repaired_lock_options, repaired_red_lock_options,
};
use crate::utils::{lemma_tokens_of_distinct_tasks_differ, token_text, TaskCounter};

verus! {

/// A multi-node lock needs an odd number of nodes, at least three.
pub open spec fn node_count_valid(n: nat) -> bool {
    n >= 3 && n % 2 == 1
}

/// With an expiry set, the time all nodes may take together (in milliseconds)
/// must stay below a tenth of the expiry.
pub open spec fn expire_thresholds_valid(n: nat, options: RedLockOptions) -> bool {
    options.expire_duration == 0 || n * options.single_nodes_timeout * 10
        < options.expire_duration * 1000
}

/// Whether a multi-node lock may be made on `n` nodes.
pub fn check_node_count(n: usize) -> (r: bool)
    ensures
        r == node_count_valid(n as nat),
{
    n >= 3 && n % 2 == 1
}

/// Whether the node timeouts of `options` fit the expiry for `n` nodes.
pub fn check_expire_thresholds(n: usize, options: &RedLockOptions) -> (r: bool)
    ensures
        r == expire_thresholds_valid(n as nat, *options),
{
    if options.expire_duration == 0 {
        return true;
    }
    let a: u128 = n as u128;
    let b: u128 = options.single_nodes_timeout as u128;
    let e: u128 = options.expire_duration as u128;
    proof {
        assert(a * b <= 0xffff_ffff_ffff_ffffu128 * 0xffff_ffff_ffff_ffffu128) by (nonlinear_arith)
            requires
                a <= 0xffff_ffff_ffff_ffffu128,
                b <= 0xffff_ffff_ffff_ffffu128,
        ;
        assert(n * options.single_nodes_timeout * 10 < options.expire_duration * 1000 <==> a * b
            < e * 100) by (nonlinear_arith)
            requires
                a == n,
                b == options.single_nodes_timeout,
                e == options.expire_duration,
        ;
    }
    a * b < e * 100
}

/// The client settings of a node: its own, or the defaults.
pub fn node_client_options(opts: Option<ClientOptions>) -> (r: ClientOptions)
    ensures
        match opts {
            Some(o) => r == o,
            None => r == default_client_options(),
        },
{
    match opts {
        None => ClientOptions::new(),
        Some(v) => v,
    }
}

/// How one node answered an attempt of the multi-node lock.
#[derive(Clone, Copy, Debug)]
pub struct NodeAttempt {
    /// The node's lock returned `Ok(true)`.
    pub locked: bool,
    /// Milliseconds the node's attempt took.
    pub elapsed_millis: u128,
}

/// A node counts toward the majority when it granted its lock within the
/// node timeout.
pub open spec fn attempt_counts(a: NodeAttempt, timeout: u64) -> bool {
    a.locked && a.elapsed_millis < timeout
}

/// The number of attempts in `s` that count toward the majority.
pub open spec fn count_successes(s: Seq<NodeAttempt>, timeout: u64) -> nat
    decreases s.len(),
{
    if s.len() == 0 {
        0
    } else {
        count_successes(s.drop_last(), timeout) + if attempt_counts(s.last(), timeout) {
            1nat
        } else {
            0nat
        }
    }
}

/// The multi-node lock is taken when the counting nodes are at least half of
/// all nodes.
pub open spec fn quorum(successes: nat, n: nat) -> bool {
    2 * successes >= n
}

proof fn lemma_count_bounded(s: Seq<NodeAttempt>, timeout: u64)
    ensures
        count_successes(s, timeout) <= s.len(),
    decreases s.len(),
{
    if s.len() > 0 {
        lemma_count_bounded(s.drop_last(), timeout);
    }
}

/// Every odd number of nodes from three up is accepted; no even number, and
/// no number below three, is.
pub proof fn lemma_node_counts_accepted(k: nat)
    ensures
        k >= 1 ==> node_count_valid(2 * k + 1),
        !node_count_valid(2 * k),
        !node_count_valid(1),
{
}

/// With an expiry set, the node timeouts are refused exactly when all `n`
/// nodes together may take at least a tenth of the expiry; without one they
/// are always accepted; and thresholds valid for `n` nodes stay valid for
/// fewer nodes (adding nodes never turns refused thresholds into accepted
/// ones).
pub proof fn lemma_expire_thresholds(n: nat, m: nat, options: RedLockOptions)
    ensures
        options.expire_duration == 0 ==> expire_thresholds_valid(n, options),
        options.expire_duration > 0 && n * options.single_nodes_timeout * 10
            >= options.expire_duration * 1000 ==> !expire_thresholds_valid(n, options),
        options.expire_duration > 0 && n * options.single_nodes_timeout * 10
            < options.expire_duration * 1000 ==> expire_thresholds_valid(n, options),
        expire_thresholds_valid(n, options) && m <= n ==> expire_thresholds_valid(m, options),
{
    if m <= n {
        assert(m * options.single_nodes_timeout * 10 <= n * options.single_nodes_timeout * 10)
            by (nonlinear_arith)
            requires
                m <= n,
        ;
    }
}

/// The counting nodes are exactly the attempts that were locked and answered
/// in less than the node timeout `timeout`: their number is the length of
/// that selection of `s`.
pub proof fn lemma_count_successes_selects(s: Seq<NodeAttempt>, timeout: u64)
    ensures
        count_successes(s, timeout) == s.filter(
            |a: NodeAttempt| a.locked && a.elapsed_millis < timeout,
        ).len(),
    decreases s.len(),
{
    reveal_with_fuel(Seq::<NodeAttempt>::filter, 1);
    if s.len() > 0 {
        lemma_count_successes_selects(s.drop_last(), timeout);
    }
}

/// One locked attempt counts exactly when it answered within the node
/// timeout, whatever that timeout is; an attempt that was not locked never
/// counts.
pub proof fn lemma_single_attempt_counts(elapsed_millis: u128, timeout: u64)
    ensures
        count_successes(seq![NodeAttempt { locked: true, elapsed_millis }], timeout) == (if elapsed_millis
            < timeout {
            1nat
        } else {
            0nat
        }),
        count_successes(seq![NodeAttempt { locked: false, elapsed_millis }], timeout) == 0,
{
    let s1 = seq![NodeAttempt { locked: true, elapsed_millis }];
    let s2 = seq![NodeAttempt { locked: false, elapsed_millis }];
    assert(count_successes(s1.drop_last(), timeout) == 0);
    assert(count_successes(s2.drop_last(), timeout) == 0);
    assert(s1.last() == NodeAttempt { locked: true, elapsed_millis });
    assert(s2.last() == NodeAttempt { locked: false, elapsed_millis });
}

/// A longer node timeout never counts fewer nodes.
pub proof fn lemma_count_successes_monotonic(s: Seq<NodeAttempt>, t1: u64, t2: u64)
    requires
        t1 <= t2,
    ensures
        count_successes(s, t1) <= count_successes(s, t2),
    decreases s.len(),
{
    if s.len() > 0 {
        lemma_count_successes_monotonic(s.drop_last(), t1, t2);
    }
}

/// On an odd number of nodes, two majorities always share a node: two owners
/// can never both hold the multi-node lock through disjoint sets of nodes.
pub proof fn lemma_quorums_overlap(a: nat, b: nat, n: nat)
    requires
        n % 2 == 1,
        quorum(a, n),
        quorum(b, n),
    ensures
        a + b > n,
{
}

/// Half of the nodes or more take the multi-node lock; fewer than half do
/// not.
pub proof fn lemma_quorum_is_half(a: nat, n: nat)
    ensures
        2 * a >= n ==> quorum(a, n),
        2 * a < n ==> !quorum(a, n),
{
}

/// More counting nodes never turn a taken multi-node lock into a failed one.
pub proof fn lemma_quorum_monotonic(a: nat, b: nat, n: nat)
    requires
        quorum(a, n),
        a <= b,
    ensures
        quorum(b, n),
{
}

/// Locks whose tokens carry consecutive task numbers have pairwise different
/// tokens.
proof fn lemma_node_tokens_differ(locks: Seq<RedisLock>, sum: nat, first: nat)
    requires
        forall|j: int|
            0 <= j < locks.len() ==> (#[trigger] locks[j]).spec_token() == token_text(
                sum,
                (first + j) as nat,
            ),
    ensures
        forall|i: int, j: int|
            0 <= i < j < locks.len() ==> #[trigger] locks[i].spec_token()
                != #[trigger] locks[j].spec_token(),
{
    assert forall|i: int, j: int| 0 <= i < j < locks.len() implies #[trigger] locks[i].spec_token()
        != #[trigger] locks[j].spec_token() by {
        lemma_tokens_of_distinct_tasks_differ(sum, (first + i) as nat, sum, (first + j) as nat);
    }
}

/// A lock on several independent Redis nodes, one single-node lock per node.
pub struct RedLock {
    locks: Vec<RedisLock>,
    red_lock_options: RedLockOptions,
}

impl RedLock {
    /// The single-node locks, one per node.
    pub closed spec fn spec_locks(&self) -> Seq<RedisLock> {
        self.locks@
    }

    /// The (repaired) multi-node settings.
    pub closed spec fn spec_options(&self) -> RedLockOptions {
        self.red_lock_options
    }

    /// The multi-node lock named `key` on the nodes of `conf`, each with the
    /// repaired default single-node options and a token whose task number
    /// `tasks` hands out, one per node in order; no two nodes share a token.
    pub fn new(key: &str, conf: &Vec<SingleNodeConf>, pid: u32, tid: u32, tasks: &mut TaskCounter) -> (r: Self)
        requires
            node_count_valid(conf.len() as nat),
            old(tasks).spec_next() + conf.len() < usize::MAX,
            pid + tid <= u32::MAX,
        ensures
            final(tasks).spec_next() == old(tasks).spec_next() + conf.len(),
            r.spec_locks().len() == conf.len(),
            r.spec_options() == default_red_lock_options(),
            forall|i: int|
                0 <= i < conf.len() ==> {
                    &&& (#[trigger] r.spec_locks()[i]).spec_key() == key@
                    &&& r.spec_locks()[i].spec_token() == token_text(
                        (pid + tid) as nat,
                        (old(tasks).spec_next() + i) as nat,
                    )
                    &&& r.spec_locks()[i].spec_options() == repaired_lock_options(
                        default_lock_options(),
                    )
                },
            forall|i: int, j: int|
                0 <= i < j < conf.len() ==> #[trigger] r.spec_locks()[i].spec_token()
                    != #[trigger] r.spec_locks()[j].spec_token(),
    {
        let ghost first = tasks.spec_next();
        let red_lock_options = RedLockOptions::default();
        let mut locks: Vec<RedisLock> = Vec::new();
        let n: usize = conf.len();
        for i in 0..n
            invariant
                n == conf.len(),
                first + n < usize::MAX,
                tasks.spec_next() == first + i,
                pid + tid <= u32::MAX,
                locks.len() == i,
                forall|j: int|
                    0 <= j < i ==> {
                        &&& (#[trigger] locks@[j]).spec_key() == key@
                        &&& locks@[j].spec_token() == token_text((pid + tid) as nat, (first + j) as nat)
                        &&& locks@[j].spec_options() == repaired_lock_options(
                            default_lock_options(),
                        )
                    },
        {
            let lock = RedisLock::new(key, pid, tid, tasks);
            locks.push(lock);
        }
        let r = RedLock { locks, red_lock_options };
        proof {
            lemma_node_tokens_differ(r.spec_locks(), (pid + tid) as nat, first);
        }
        r
    }

    /// The multi-node lock named `key` on the nodes of `conf` with
    /// `red_lock_options` repaired; every single-node lock expires after the
    /// multi-node expiry (or, with none, is renewed by its watchdog), and has
    /// a token whose task number `tasks` hands out, one per node in order; no
    /// two nodes share a token.
    pub fn new_with_options(
        key: &str,
        conf: &Vec<SingleNodeConf>,
        red_lock_options: RedLockOptions,
        pid: u32,
        tid: u32,
        tasks: &mut TaskCounter,
    ) -> (r: Self)
        requires
            node_count_valid(conf.len() as nat),
            expire_thresholds_valid(conf.len() as nat, repaired_red_lock_options(red_lock_options)),
            old(tasks).spec_next() + conf.len() < usize::MAX,
            pid + tid <= u32::MAX,
        ensures
            final(tasks).spec_next() == old(tasks).spec_next() + conf.len(),
            r.spec_locks().len() == conf.len(),
            r.spec_options() == repaired_red_lock_options(red_lock_options),
            forall|i: int|
                0 <= i < conf.len() ==> {
                    &&& (#[trigger] r.spec_locks()[i]).spec_key() == key@
                    &&& r.spec_locks()[i].spec_token() == token_text(
                        (pid + tid) as nat,
                        (old(tasks).spec_next() + i) as nat,
                    )
                    &&& r.spec_locks()[i].spec_options() == repaired_lock_options(
                        LockOptions {
                            expire_seconds: red_lock_options.expire_duration,
                            ..default_lock_options()
                        },
                    )
                },
            forall|i: int, j: int|
                0 <= i < j < conf.len() ==> #[trigger] r.spec_locks()[i].spec_token()
                    != #[trigger] r.spec_locks()[j].spec_token(),
    {
        let ghost first = tasks.spec_next();
        let mut red_lock_options = red_lock_options;
        repair_red_lock_options(&mut red_lock_options);
        let expire: u64 = red_lock_options.expire_duration;
        let mut locks: Vec<RedisLock> = Vec::new();
        let n: usize = conf.len();
        for i in 0..n
            invariant
                n == conf.len(),
                first + n < usize::MAX,
                tasks.spec_next() == first + i,
                pid + tid <= u32::MAX,
                locks.len() == i,
                forall|j: int|
                    0 <= j < i ==> {
                        &&& (#[trigger] locks@[j]).spec_key() == key@
                        &&& locks@[j].spec_token() == token_text((pid + tid) as nat, (first + j) as nat)
                        &&& locks@[j].spec_options() == repaired_lock_options(
                            LockOptions { expire_seconds: expire, ..default_lock_options() },
                        )
                    },
        {
            let options = LockOptions::default().expire_seconds(expire);
            let lock = RedisLock::new_with_options(key, pid, tid, tasks, options);
            locks.push(lock);
        }
        let r = RedLock { locks, red_lock_options };
        proof {
            lemma_node_tokens_differ(r.spec_locks(), (pid + tid) as nat, first);
        }
        r
    }

    pub fn locks(&self) -> (r: &Vec<RedisLock>)
        ensures
            r@ == self.spec_locks(),
    {
        &self.locks
    }

    pub fn red_lock_options(&self) -> (r: &RedLockOptions)
        ensures
            *r == self.spec_options(),
    {
        &self.red_lock_options
    }

    /// The number of attempts that count toward the majority.
    pub fn successes(&self, attempts: &Vec<NodeAttempt>) -> (r: usize)
        ensures
            r == count_successes(attempts@, self.spec_options().single_nodes_timeout),
    {
        let timeout: u64 = self.red_lock_options.single_nodes_timeout;
        let mut count: usize = 0;
        let n: usize = attempts.len();
        for i in 0..n
            invariant
                n == attempts.len(),
                timeout == self.spec_options().single_nodes_timeout,
                count == count_successes(attempts@.subrange(0, i as int), timeout),
                count <= i,
        {
            proof {
                assert(attempts@.subrange(0, i + 1).drop_last() =~= attempts@.subrange(0, i as int));
            }
            let a = attempts[i];
            if a.locked && a.elapsed_millis < timeout as u128 {
                count = count + 1;
            }
        }
        proof {
            assert(attempts@.subrange(0, n as int) =~= attempts@);
        }
        count
    }

    /// Whether the attempts, one per node, took the multi-node lock: at least
    /// half of the nodes granted their lock within the node timeout. When it
    /// was not taken, every node's lock is to be released.
    pub fn lock_outcome(&self, attempts: &Vec<NodeAttempt>) -> (r: bool)
        requires
            attempts.len() == self.spec_locks().len(),
        ensures
            r == quorum(
                count_successes(attempts@, self.spec_options().single_nodes_timeout),
                self.spec_locks().len(),
            ),
    {
        let count: usize = self.successes(attempts);
        let n: usize = self.locks.len();
        proof {
            lemma_count_bounded(attempts@, self.spec_options().single_nodes_timeout);
        }
        count >= n - count
    }
}

} // verus!
