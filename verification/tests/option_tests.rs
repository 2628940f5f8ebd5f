use redis_lock::option::{
    repair_client_options, repair_lock_option, repair_red_lock_options, ClientOptions,
    LockOptions, RedLockOptions, SingleNodeConf, BLOCK_WAITING_SECONDS,
    DEFAULT_IDLE_TIMEOUT_SECONDS, DEFAULT_LOCK_EXPIRE_SECONDS, DEFAULT_MAX_ACTIVE,
    DEFAULT_MIN_IDLE, DEFAULT_SINGLE_LOCK_TIMEOUT,
};

#[test]
fn test_lock_option_builder() {
    let options = LockOptions::new()
        .block(true)
        .block_waiting_seconds(10)
        .expire_seconds(30)
        .watch_dog_mode(true);
    assert_eq!(options.block, true);
    assert_eq!(options.block_waiting_seconds, 10);
    assert_eq!(options.expire_seconds, 30);
    assert_eq!(options.watch_dog_mode, true);
}

#[test]
fn test_repair_lock() {
    let mut options = LockOptions::new().block(true).block_waiting_seconds(10);
    repair_lock_option(&mut options);
    assert_eq!(options.block, true);
    assert_eq!(options.block_waiting_seconds, 10);
    assert_eq!(options.expire_seconds, DEFAULT_LOCK_EXPIRE_SECONDS);
    assert_eq!(options.watch_dog_mode, true);
}

#[test]
fn lock_options_default_values() {
    let o = LockOptions::default();
    assert!(!o.block);
    assert_eq!(o.block_waiting_seconds, 5);
    assert_eq!(o.expire_seconds, 0);
    assert!(!o.watch_dog_mode);
    let n = LockOptions::new();
    assert_eq!(n.block_waiting_seconds, BLOCK_WAITING_SECONDS);
}

#[test]
fn repair_default_lock_options_turns_on_watchdog() {
    let mut o = LockOptions::default();
    repair_lock_option(&mut o);
    assert!(!o.block);
    assert_eq!(o.block_waiting_seconds, 5);
    assert_eq!(o.expire_seconds, 30);
    assert!(o.watch_dog_mode);
}

#[test]
fn repair_keeps_named_expiry_and_watchdog_off() {
    let mut o = LockOptions::new().expire_seconds(7);
    repair_lock_option(&mut o);
    assert_eq!(o.expire_seconds, 7);
    assert!(!o.watch_dog_mode);
}

#[test]
fn repair_gives_blocking_lock_a_waiting_time() {
    let mut o = LockOptions::new().block(true).block_waiting_seconds(0).expire_seconds(3);
    repair_lock_option(&mut o);
    assert_eq!(o.block_waiting_seconds, 5);
    assert_eq!(o.expire_seconds, 3);
    let mut p = LockOptions::new().block(false).block_waiting_seconds(0).expire_seconds(3);
    repair_lock_option(&mut p);
    assert_eq!(p.block_waiting_seconds, 0);
}

#[test]
fn repair_lock_option_twice_is_once() {
    let mut once = LockOptions::new().block(true).block_waiting_seconds(0);
    repair_lock_option(&mut once);
    let mut twice = once;
    repair_lock_option(&mut twice);
    assert_eq!(once.block, twice.block);
    assert_eq!(once.block_waiting_seconds, twice.block_waiting_seconds);
    assert_eq!(once.expire_seconds, twice.expire_seconds);
    assert_eq!(once.watch_dog_mode, twice.watch_dog_mode);
}

#[test]
fn client_options_defaults_and_builders() {
    let d = ClientOptions::default();
    assert_eq!(d.min_idle, 20);
    assert_eq!(d.idle_timeout_seconds, 10);
    assert_eq!(d.max_active, 100);
    let o = ClientOptions::new().min_idle(1).idle_timeout_seconds(2).max_active(3);
    assert_eq!(o.min_idle, 1);
    assert_eq!(o.idle_timeout_seconds, 2);
    assert_eq!(o.max_active, 3);
}

#[test]
fn repair_client_options_fills_zeros_only() {
    let mut o = ClientOptions::new().min_idle(0).idle_timeout_seconds(0).max_active(0);
    repair_client_options(&mut o);
    assert_eq!(o.min_idle, DEFAULT_MIN_IDLE);
    assert_eq!(o.idle_timeout_seconds, DEFAULT_IDLE_TIMEOUT_SECONDS);
    assert_eq!(o.max_active, DEFAULT_MAX_ACTIVE);
    let mut p = ClientOptions::new().min_idle(4).idle_timeout_seconds(0).max_active(9);
    repair_client_options(&mut p);
    assert_eq!(p.min_idle, 4);
    assert_eq!(p.idle_timeout_seconds, 10);
    assert_eq!(p.max_active, 9);
}

#[test]
fn red_lock_options_defaults_builders_and_repair() {
    let d = RedLockOptions::default();
    assert_eq!(d.single_nodes_timeout, 50);
    assert_eq!(d.expire_duration, 0);
    let o = RedLockOptions::new().single_nodes_timeout(7).expire_duration(9);
    assert_eq!(o.single_nodes_timeout, 7);
    assert_eq!(o.expire_duration, 9);
    let mut z = RedLockOptions::new().single_nodes_timeout(0).expire_duration(9);
    repair_red_lock_options(&mut z);
    assert_eq!(z.single_nodes_timeout, DEFAULT_SINGLE_LOCK_TIMEOUT);
    assert_eq!(z.expire_duration, 9);
    let mut k = RedLockOptions::new().single_nodes_timeout(7);
    repair_red_lock_options(&mut k);
    assert_eq!(k.single_nodes_timeout, 7);
}

#[test]
fn single_node_conf_new_and_opts() {
    let c = SingleNodeConf::new("default", "12345678", "10.0.0.1");
    assert_eq!(c.username, "default");
    assert_eq!(c.password, "12345678");
    assert_eq!(c.address, "10.0.0.1");
    assert!(c.opts.is_none());
    let c = c.opts(ClientOptions::new().max_active(5));
    assert_eq!(c.username, "default");
    assert_eq!(c.opts.as_ref().map(|o| o.max_active), Some(5));
}
