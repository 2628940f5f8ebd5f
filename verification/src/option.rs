use vstd::prelude::*;

verus! {

/// Seconds after which an idle pooled connection is released.
pub const DEFAULT_IDLE_TIMEOUT_SECONDS: u64 = 10;

/// Largest number of connections a pool keeps.
pub const DEFAULT_MAX_ACTIVE: u32 = 100;

/// Smallest number of idle connections a pool keeps.
pub const DEFAULT_MIN_IDLE: u32 = 20;

/// Expiry given to a lock whose options name none (the watchdog then renews it).
pub const DEFAULT_LOCK_EXPIRE_SECONDS: u64 = 30;

/// Seconds between two renewals made by the watchdog.
pub const WATCH_DOG_WORK_STEP_SECONDS: u64 = 10;

/// Seconds a blocking lock waits when its options name no waiting time.
pub const BLOCK_WAITING_SECONDS: u64 = 5;

/// Milliseconds one node of a multi-node lock may take to answer.
pub const DEFAULT_SINGLE_LOCK_TIMEOUT: u64 = 50;

/// How a single-node lock is taken.
#[derive(Debug, Clone, Copy)]
pub struct LockOptions {
    /// Whether `lock` keeps polling while another owner holds the key.
    pub block: bool,
    /// Upper bound, in seconds, of that polling.
    pub block_waiting_seconds: u64,
    /// Expiry of the key, in seconds.
    pub expire_seconds: u64,
    /// Whether a watchdog keeps renewing the key while it is held.
    pub watch_dog_mode: bool,
}

/// The options of `LockOptions::default()`.
pub open spec fn default_lock_options() -> LockOptions {
    LockOptions {
        block: false,
        block_waiting_seconds: BLOCK_WAITING_SECONDS,
        expire_seconds: 0,
        watch_dog_mode: false,
    }
}

impl Default for LockOptions {
    fn default() -> (r: Self)
        ensures
            r == default_lock_options(),
    {
        LockOptions {
            block: false,
            block_waiting_seconds: BLOCK_WAITING_SECONDS,
            expire_seconds: 0,
            watch_dog_mode: false,
        }
    }
}

impl LockOptions {
    pub fn new() -> (r: Self)
        ensures
            r == default_lock_options(),
    {
        LockOptions::default()
    }

    pub fn block(self, block: bool) -> (r: Self)
        ensures
            r == (LockOptions { block, ..self }),
    {
        let mut s = self;
        s.block = block;
        s
    }

    pub fn block_waiting_seconds(self, block_waiting_seconds: u64) -> (r: Self)
        ensures
            r == (LockOptions { block_waiting_seconds, ..self }),
    {
        let mut s = self;
        s.block_waiting_seconds = block_waiting_seconds;
        s
    }

    pub fn expire_seconds(self, expire_seconds: u64) -> (r: Self)
        ensures
            r == (LockOptions { expire_seconds, ..self }),
    {
        let mut s = self;
        s.expire_seconds = expire_seconds;
        s
    }

    pub fn watch_dog_mode(self, watch_dog_mode: bool) -> (r: Self)
        ensures
            r == (LockOptions { watch_dog_mode, ..self }),
    {
        let mut s = self;
        s.watch_dog_mode = watch_dog_mode;
        s
    }
}

/// What `repair_lock_option` makes of `o`: a blocking lock without a waiting
/// time waits the default time, and a lock without an expiry gets the default
/// expiry and a watchdog.
pub open spec fn repaired_lock_options(o: LockOptions) -> LockOptions {
    let waiting = if o.block && o.block_waiting_seconds == 0 {
        BLOCK_WAITING_SECONDS
    } else {
        o.block_waiting_seconds
    };
    if o.expire_seconds > 0 {
        LockOptions { block_waiting_seconds: waiting, ..o }
    } else {
        LockOptions {
            block_waiting_seconds: waiting,
            expire_seconds: DEFAULT_LOCK_EXPIRE_SECONDS,
            watch_dog_mode: true,
            ..o
        }
    }
}

pub fn repair_lock_option(options: &mut LockOptions)
    ensures
        *final(options) == repaired_lock_options(*old(options)),
{
    if options.block && options.block_waiting_seconds == 0 {
        options.block_waiting_seconds = BLOCK_WAITING_SECONDS;
    }
    if options.expire_seconds > 0 {
        return ;
    }
    options.expire_seconds = DEFAULT_LOCK_EXPIRE_SECONDS;
    options.watch_dog_mode = true;
}

/// Repairing lock options twice changes nothing more than repairing them once.
pub proof fn lemma_repair_lock_option_idempotent(o: LockOptions)
    ensures
        repaired_lock_options(repaired_lock_options(o)) == repaired_lock_options(o),
{
}

/// Repaired lock options always give the key an expiry (the default 30
/// seconds when none was named, whatever the other options), give a blocking
/// lock a waiting time, keep an expiry that was named, and turn the watchdog
/// on exactly when it was on already or no expiry was named.
pub proof fn lemma_repaired_lock_options_usable(o: LockOptions)
    ensures
        repaired_lock_options(o).expire_seconds > 0,
        o.expire_seconds == 0 ==> repaired_lock_options(o).expire_seconds == 30,
        o.expire_seconds == 0 ==> repaired_lock_options(o).watch_dog_mode,
        o.block && o.block_waiting_seconds == 0 ==> repaired_lock_options(o).block_waiting_seconds
            == 5,
        repaired_lock_options(o).block ==> repaired_lock_options(o).block_waiting_seconds > 0,
        o.expire_seconds > 0 ==> repaired_lock_options(o).expire_seconds == o.expire_seconds,
        repaired_lock_options(o).watch_dog_mode == (o.watch_dog_mode || o.expire_seconds == 0),
        repaired_lock_options(o).block == o.block,
        o.block_waiting_seconds > 0 ==> repaired_lock_options(o).block_waiting_seconds
            == o.block_waiting_seconds,
{
}

/// Settings of the connection pool of one Redis node.
pub struct ClientOptions {
    pub min_idle: u32,
    pub idle_timeout_seconds: u64,
    pub max_active: u32,
}

/// The options of `ClientOptions::default()`.
pub open spec fn default_client_options() -> ClientOptions {
    ClientOptions {
        min_idle: DEFAULT_MIN_IDLE,
        idle_timeout_seconds: DEFAULT_IDLE_TIMEOUT_SECONDS,
        max_active: DEFAULT_MAX_ACTIVE,
    }
}

impl Default for ClientOptions {
    fn default() -> (r: Self)
        ensures
            r == default_client_options(),
    {
        ClientOptions {
            min_idle: DEFAULT_MIN_IDLE,
            idle_timeout_seconds: DEFAULT_IDLE_TIMEOUT_SECONDS,
            max_active: DEFAULT_MAX_ACTIVE,
        }
    }
}

impl ClientOptions {
    pub fn new() -> (r: Self)
        ensures
            r == default_client_options(),
    {
        ClientOptions::default()
    }

    pub fn min_idle(self, min_idle: u32) -> (r: Self)
        ensures
            r == (ClientOptions { min_idle, ..self }),
    {
        let mut s = self;
        s.min_idle = min_idle;
        s
    }

    pub fn idle_timeout_seconds(self, idle_timeout_seconds: u64) -> (r: Self)
        ensures
            r == (ClientOptions { idle_timeout_seconds, ..self }),
    {
        let mut s = self;
        s.idle_timeout_seconds = idle_timeout_seconds;
        s
    }

    pub fn max_active(self, max_active: u32) -> (r: Self)
        ensures
            r == (ClientOptions { max_active, ..self }),
    {
        let mut s = self;
        s.max_active = max_active;
        s
    }
}

/// What `repair_client_options` makes of `o`: every setting left at zero takes
/// its default.
pub open spec fn repaired_client_options(o: ClientOptions) -> ClientOptions {
    ClientOptions {
        min_idle: if o.min_idle == 0 { DEFAULT_MIN_IDLE } else { o.min_idle },
        idle_timeout_seconds: if o.idle_timeout_seconds == 0 {
            DEFAULT_IDLE_TIMEOUT_SECONDS
        } else {
            o.idle_timeout_seconds
        },
        max_active: if o.max_active == 0 { DEFAULT_MAX_ACTIVE } else { o.max_active },
    }
}

pub fn repair_client_options(options: &mut ClientOptions)
    ensures
        *final(options) == repaired_client_options(*old(options)),
{
    if options.min_idle == 0 {
        options.min_idle = DEFAULT_MIN_IDLE;
    }
    if options.idle_timeout_seconds == 0 {
        options.idle_timeout_seconds = DEFAULT_IDLE_TIMEOUT_SECONDS;
    }
    if options.max_active == 0 {
        options.max_active = DEFAULT_MAX_ACTIVE;
    }
}

/// Repaired client options have every setting positive, keep every setting
/// that was positive, give a zero setting its default (20 idle connections,
/// 10 seconds of idle time, 100 connections), and do not change when repaired
/// again.
pub proof fn lemma_repaired_client_options(o: ClientOptions)
    ensures
        repaired_client_options(o).min_idle > 0,
        repaired_client_options(o).idle_timeout_seconds > 0,
        repaired_client_options(o).max_active > 0,
        o.min_idle > 0 ==> repaired_client_options(o).min_idle == o.min_idle,
        o.idle_timeout_seconds > 0 ==> repaired_client_options(o).idle_timeout_seconds
            == o.idle_timeout_seconds,
        o.max_active > 0 ==> repaired_client_options(o).max_active == o.max_active,
        o.min_idle == 0 ==> repaired_client_options(o).min_idle == 20,
        o.idle_timeout_seconds == 0 ==> repaired_client_options(o).idle_timeout_seconds == 10,
        o.max_active == 0 ==> repaired_client_options(o).max_active == 100,
        repaired_client_options(repaired_client_options(o)) == repaired_client_options(o),
{
}

/// Settings of a lock held on several independent nodes.
#[derive(Debug, Clone, Copy)]
pub struct RedLockOptions {
    /// Milliseconds one node may take to grant its part of the lock.
    pub single_nodes_timeout: u64,
    /// Expiry of the lock in seconds; zero leaves the expiry to each node.
    pub expire_duration: u64,
}

/// The options of `RedLockOptions::new()`.
pub open spec fn default_red_lock_options() -> RedLockOptions {
    RedLockOptions { single_nodes_timeout: DEFAULT_SINGLE_LOCK_TIMEOUT, expire_duration: 0 }
}

impl RedLockOptions {
    pub fn new() -> (r: Self)
        ensures
            r == default_red_lock_options(),
    {
        RedLockOptions { single_nodes_timeout: DEFAULT_SINGLE_LOCK_TIMEOUT, expire_duration: 0 }
    }

    pub fn single_nodes_timeout(self, single_nodes_timeout: u64) -> (r: Self)
        ensures
            r == (RedLockOptions { single_nodes_timeout, ..self }),
    {
        let mut s = self;
        s.single_nodes_timeout = single_nodes_timeout;
        s
    }

    pub fn expire_duration(self, expire_duration: u64) -> (r: Self)
        ensures
            r == (RedLockOptions { expire_duration, ..self }),
    {
        let mut s = self;
        s.expire_duration = expire_duration;
        s
    }
}

impl Default for RedLockOptions {
    fn default() -> (r: Self)
        ensures
            r == default_red_lock_options(),
    {
        RedLockOptions::new()
    }
}

/// What `repair_red_lock_options` makes of `o`: a zero node timeout takes the
/// default.
pub open spec fn repaired_red_lock_options(o: RedLockOptions) -> RedLockOptions {
    RedLockOptions {
        single_nodes_timeout: if o.single_nodes_timeout == 0 {
            DEFAULT_SINGLE_LOCK_TIMEOUT
        } else {
            o.single_nodes_timeout
        },
        ..o
    }
}

pub fn repair_red_lock_options(options: &mut RedLockOptions)
    ensures
        *final(options) == repaired_red_lock_options(*old(options)),
{
    if options.single_nodes_timeout == 0 {
        options.single_nodes_timeout = DEFAULT_SINGLE_LOCK_TIMEOUT;
    }
}

/// Repaired multi-node options have a positive node timeout (50 ms when none
/// was named), keep a positive one and the expiry, and do not change when
/// repaired again.
pub proof fn lemma_repaired_red_lock_options(o: RedLockOptions)
    ensures
        repaired_red_lock_options(o).single_nodes_timeout > 0,
        o.single_nodes_timeout > 0 ==> repaired_red_lock_options(o).single_nodes_timeout
            == o.single_nodes_timeout,
        o.single_nodes_timeout == 0 ==> repaired_red_lock_options(o).single_nodes_timeout == 50,
        repaired_red_lock_options(o).expire_duration == o.expire_duration,
        repaired_red_lock_options(repaired_red_lock_options(o)) == repaired_red_lock_options(o),
{
}

/// Where one node of a multi-node lock is reached, and how.
pub struct SingleNodeConf {
    pub username: String,
    pub password: String,
    pub address: String,
    pub opts: Option<ClientOptions>,
}

impl SingleNodeConf {
    pub fn new(username: &str, password: &str, address: &str) -> (r: Self)
        ensures
            r.username@ == username@,
            r.password@ == password@,
            r.address@ == address@,
            r.opts is None,
    {
        SingleNodeConf {
            username: String::from_str(username),
            password: String::from_str(password),
            address: String::from_str(address),
            opts: None,
        }
    }

    pub fn opts(self, opts: ClientOptions) -> (r: Self)
        ensures
            r.username == self.username,
            r.password == self.password,
            r.address == self.address,
            r.opts == Some(opts),
    {
        let mut s = self;
        s.opts = Some(opts);
        s
    }
}

} // verus!
