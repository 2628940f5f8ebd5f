use redis_lock::option::{ClientOptions, RedLockOptions, SingleNodeConf};
use redis_lock::utils::TaskCounter;
use redis_lock::redlock::{
    check_expire_thresholds, check_node_count, node_client_options, NodeAttempt, RedLock,
};

fn three_nodes() -> Vec<SingleNodeConf> {
    vec![
        SingleNodeConf::new("default", "12345678", "101.37.89.207"),
        SingleNodeConf::new("default", "", "localhost"),
        SingleNodeConf::new("default", "", "10.0.0.106"),
    ]
}

fn counter_at(n: usize) -> TaskCounter {
    let mut c = TaskCounter::new();
    for _ in 0..n {
        c.next_task_id();
    }
    c
}

fn attempt(locked: bool, elapsed_millis: u128) -> NodeAttempt {
    NodeAttempt { locked, elapsed_millis }
}

#[test]
fn node_counts() {
    assert!(!check_node_count(0));
    assert!(!check_node_count(2));
    assert!(check_node_count(3));
    assert!(!check_node_count(4));
    assert!(check_node_count(5));
}

#[test]
fn expire_thresholds() {
    let none = RedLockOptions::new();
    assert!(check_expire_thresholds(3, &none));
    // 3 nodes * 50 ms * 10 = 1500 ms, below 2 s but not below 1.5 s
    let two = RedLockOptions::new().expire_duration(2);
    assert!(check_expire_thresholds(3, &two));
    let short = RedLockOptions::new().single_nodes_timeout(100).expire_duration(3);
    assert!(!check_expire_thresholds(3, &short));
    let huge = RedLockOptions::new().single_nodes_timeout(u64::MAX).expire_duration(1);
    assert!(!check_expire_thresholds(usize::MAX, &huge));
}

#[test]
fn node_client_options_default_or_own() {
    let d = node_client_options(None);
    assert_eq!(d.max_active, 100);
    let o = node_client_options(Some(ClientOptions::new().max_active(3)));
    assert_eq!(o.max_active, 3);
}

#[test]
fn red_lock_new_makes_one_lock_per_node() {
    let conf = three_nodes();
    let lock = RedLock::new("test", &conf, 1, 2, &mut counter_at(4));
    assert_eq!(lock.locks().len(), 3);
    assert_eq!(lock.locks()[0].token(), "ptid3taskid:4");
    assert_eq!(lock.locks()[1].token(), "ptid3taskid:5");
    assert_eq!(lock.locks()[2].token(), "ptid3taskid:6");
    assert_eq!(lock.locks()[2].get_lock_key(), "REDIS_LOCK_PREFIX_test");
    assert!(lock.locks()[0].lock_options().watch_dog_mode);
    assert_eq!(lock.red_lock_options().single_nodes_timeout, 50);
}

#[test]
fn red_lock_new_with_options_sets_expiry() {
    let conf = three_nodes();
    let lock = RedLock::new_with_options(
        "test",
        &conf,
        RedLockOptions::new().single_nodes_timeout(0).expire_duration(10),
        1,
        2,
        &mut counter_at(4),
    );
    assert_eq!(lock.red_lock_options().single_nodes_timeout, 50);
    let o = lock.locks()[0].lock_options();
    assert_eq!(o.expire_seconds, 10);
    assert!(!o.watch_dog_mode);
}

#[test]
fn majority_decides() {
    let conf = three_nodes();
    let lock = RedLock::new("test", &conf, 1, 2, &mut counter_at(4));
    let two_in_time = vec![attempt(true, 3), attempt(false, 1), attempt(true, 49)];
    assert_eq!(lock.successes(&two_in_time), 2);
    assert!(lock.lock_outcome(&two_in_time));
    let one_late = vec![attempt(true, 3), attempt(false, 1), attempt(true, 50)];
    assert_eq!(lock.successes(&one_late), 1);
    assert!(!lock.lock_outcome(&one_late));
    let none = vec![attempt(false, 0), attempt(false, 0), attempt(false, 0)];
    assert!(!lock.lock_outcome(&none));
}

#[test]
fn two_owners_cannot_both_reach_majority() {
    let conf = three_nodes();
    let first = RedLock::new("test", &conf, 1, 2, &mut counter_at(1));
    let second = RedLock::new("test", &conf, 1, 2, &mut counter_at(4));
    // each node grants its key to one owner only
    let first_attempts = vec![attempt(true, 1), attempt(true, 1), attempt(false, 1)];
    let second_attempts = vec![attempt(false, 1), attempt(false, 1), attempt(true, 1)];
    assert!(first.lock_outcome(&first_attempts));
    assert!(!second.lock_outcome(&second_attempts));
}

#[test]
fn five_nodes_need_three() {
    let conf = vec![
        SingleNodeConf::new("u", "p", "a"),
        SingleNodeConf::new("u", "p", "b"),
        SingleNodeConf::new("u", "p", "c"),
        SingleNodeConf::new("u", "p", "d"),
        SingleNodeConf::new("u", "p", "e"),
    ];
    let lock = RedLock::new("k", &conf, 0, 0, &mut counter_at(0));
    let two = vec![attempt(true, 1), attempt(true, 1), attempt(false, 1), attempt(false, 1), attempt(false, 1)];
    let three = vec![attempt(true, 1), attempt(true, 1), attempt(true, 1), attempt(false, 1), attempt(false, 1)];
    assert!(!lock.lock_outcome(&two));
    assert!(lock.lock_outcome(&three));
}
