//! State shared by every client entry point: the connection pool, the
//! per-connection metadata, the connection-ready notifiers, the shutdown flag
//! and the request counter, with the constants and the message-size check.

use std::sync::Arc;
use std::time::Instant;

use tokio::sync::Notify;
use vstd::hash_map::StringHashMap;
use vstd::prelude::*;
use vstd::string::*;

use crate::Error::{VineError, VineErrorV};
use crate::Runtime::{InstantNow, NewNotifier, ShareNotifier};

verus! {

/// Default timeout of a call, in milliseconds.
pub const DEFAULT_TIMEOUT_MS: u64 = 5000;

/// Consecutive failures after which a pooled client is evicted.
pub const MAX_RETRY_ATTEMPTS: usize = 10;

/// Base delay between connection attempts, in milliseconds.
pub const RETRY_BASE_DELAY_MS: u64 = 200;

/// Ceiling on the connection retry backoff, in milliseconds.
pub const MAX_BACKOFF_MS: u64 = 5000;

/// Largest payload a call may carry (4 MB, as the transport's default).
pub const MAX_MESSAGE_SIZE_BYTES: usize = 4194304;

/// Health-check interval, in milliseconds.
pub const HEALTH_CHECK_INTERVAL_MS: u64 = 30000;

/// Connection timeout, in milliseconds.
pub const CONNECTION_TIMEOUT_MS: u64 = 10000;

/// Capacity of the notification broadcast (the oldest frames drop when full).
pub const NOTIFICATION_BROADCAST_CAPACITY: usize = 4096;

/// Per-side-car connection health.
pub struct ConnectionMetadata {
    /// Instant of the latest successful call.
    pub LastActivity: Instant,
    /// Consecutive failures since the latest success.
    pub FailureCount: usize,
    /// Whether the connection is considered healthy.
    pub IsHealthy: bool,
}

/// The connection pool: one client of type `C` and one metadata record per
/// side-car, the process-wide shutdown flag, and the next request id.
#[verifier::reject_recursive_types(C)]
pub struct ClientState<C> {
    Clients: StringHashMap<C>,
    Metadata: StringHashMap<ConnectionMetadata>,
    Shutdown: bool,
    NextRequestIdentifier: u64,
}

/// The mathematical value of a [`ClientState`].
#[verifier::reject_recursive_types(C)]
pub struct ClientStateV<C> {
    pub clients: Map<Seq<char>, C>,
    pub metadata: Map<Seq<char>, ConnectionMetadata>,
    pub shutdown: bool,
    pub next_request_identifier: u64,
}

impl<C> View for ClientState<C> {
    type V = ClientStateV<C>;

    closed spec fn view(&self) -> ClientStateV<C> {
        ClientStateV {
            clients: self.Clients@,
            metadata: self.Metadata@,
            shutdown: self.Shutdown,
            next_request_identifier: self.NextRequestIdentifier,
        }
    }
}

/// `n + 1` with the wrap-around of machine arithmetic.
pub open spec fn wrapping_increment(n: usize) -> usize {
    if n == usize::MAX {
        0
    } else {
        (n + 1) as usize
    }
}

/// The pool after one failure of side-car `id`: its failure count goes up and
/// it is marked unhealthy; once the count passes [`MAX_RETRY_ATTEMPTS`] its
/// client leaves the pool. A side-car without metadata is left alone.
pub open spec fn record_failure<C>(v: ClientStateV<C>, id: Seq<char>) -> ClientStateV<C> {
    if v.metadata.contains_key(id) {
        let m = v.metadata[id];
        let count = wrapping_increment(m.FailureCount);
        ClientStateV {
            metadata: v.metadata.insert(
                id,
                ConnectionMetadata { LastActivity: m.LastActivity, FailureCount: count, IsHealthy: false },
            ),
            clients: if count > MAX_RETRY_ATTEMPTS {
                v.clients.remove(id)
            } else {
                v.clients
            },
            ..v
        }
    } else {
        v
    }
}

/// `w` is the pool `v` after a success of side-car `id`: its failure count is
/// back to 0, it is healthy, and its latest activity is some new instant.
pub open spec fn activity_updated<C>(v: ClientStateV<C>, w: ClientStateV<C>, id: Seq<char>) -> bool {
    if v.metadata.contains_key(id) {
        &&& w.metadata.contains_key(id)
        &&& w.metadata[id].FailureCount == 0
        &&& w.metadata[id].IsHealthy
        &&& w.metadata == v.metadata.insert(id, w.metadata[id])
        &&& w.clients == v.clients
        &&& w.shutdown == v.shutdown
        &&& w.next_request_identifier == v.next_request_identifier
    } else {
        w == v
    }
}

/// The pool after `k` consecutive failures of side-car `id`.
pub open spec fn repeated_failures<C>(v: ClientStateV<C>, id: Seq<char>, k: nat) -> ClientStateV<C>
    decreases k,
{
    if k == 0 {
        v
    } else {
        record_failure(repeated_failures(v, id, (k - 1) as nat), id)
    }
}

/// A pooled side-car that just succeeded keeps its client through
/// [`MAX_RETRY_ATTEMPTS`] consecutive failures and loses it at the next one;
/// its failure count is the number of failures, it is unhealthy after the
/// first, and no other side-car's client is touched.
pub proof fn lemma_eviction_after_consecutive_failures<C>(v: ClientStateV<C>, id: Seq<char>, k: nat)
    requires
        v.metadata.contains_key(id),
        v.metadata[id].FailureCount == 0,
        v.clients.contains_key(id),
        k < usize::MAX,
    ensures
        repeated_failures(v, id, k).metadata.contains_key(id),
        repeated_failures(v, id, k).metadata[id].FailureCount == k,
        k > 0 ==> !repeated_failures(v, id, k).metadata[id].IsHealthy,
        repeated_failures(v, id, k).clients.contains_key(id) <==> k <= MAX_RETRY_ATTEMPTS,
        forall|other: Seq<char>|
            other != id ==> #[trigger] repeated_failures(v, id, k).clients.contains_key(other)
                == v.clients.contains_key(other),
    decreases k,
{
    if k > 0 {
        lemma_eviction_after_consecutive_failures(v, id, (k - 1) as nat);
    }
}

/// `w` is the pool `v` after side-car `id` connected with `client`: the client
/// is pooled, and its metadata is fresh (no failures, healthy, some new
/// latest activity).
pub open spec fn connection_added<C>(v: ClientStateV<C>, w: ClientStateV<C>, id: Seq<char>, client: C) -> bool {
    &&& w.clients == v.clients.insert(id, client)
    &&& w.metadata.contains_key(id)
    &&& w.metadata[id].FailureCount == 0
    &&& w.metadata[id].IsHealthy
    &&& w.metadata == v.metadata.insert(id, w.metadata[id])
    &&& w.shutdown == v.shutdown
    &&& w.next_request_identifier == v.next_request_identifier
}

/// One change that an operation makes to the pool.
pub enum PoolStep<C> {
    /// `ShutdownFlagStore` with this value.
    Store(bool),
    /// `MarkShutdown::Fn`.
    MarkShutdown,
    /// `RecordSideCarFailure` of this side-car.
    Failure(Seq<char>),
    /// `UpdateSideCarActivity` of this side-car.
    Success(Seq<char>),
    /// `ClientState::AddConnection` of this side-car and client.
    Connect(Seq<char>, C),
    /// `ClientState::NextRequestIdentifier`, which hands out one request id.
    TakeIdentifier,
}

/// `w` is the pool `v` after the step `op`, as that operation's contract says.
pub open spec fn pool_step<C>(v: ClientStateV<C>, op: PoolStep<C>, w: ClientStateV<C>) -> bool {
    match op {
        PoolStep::Store(b) => w == ClientStateV { shutdown: b, ..v },
        PoolStep::MarkShutdown => w == ClientStateV { shutdown: true, ..v },
        PoolStep::Failure(id) => w == record_failure(v, id),
        PoolStep::Success(id) => activity_updated(v, w, id),
        PoolStep::Connect(id, client) => connection_added(v, w, id, client),
        PoolStep::TakeIdentifier => w == ClientStateV {
            next_request_identifier: v.next_request_identifier.wrapping_add(1),
            ..v
        },
    }
}

/// `views` is a run of the pool through the steps `ops`.
pub open spec fn is_run<C>(views: Seq<ClientStateV<C>>, ops: Seq<PoolStep<C>>) -> bool {
    &&& views.len() == ops.len() + 1
    &&& forall|i: int| 0 <= i < ops.len() ==> #[trigger] pool_step(views[i], ops[i], views[i + 1])
}

/// The shutdown flag after the steps `ops` from a flag `initial`: the value of
/// the latest store or mark-shutdown, or `initial` when there was none.
pub open spec fn latest_flag<C>(initial: bool, ops: Seq<PoolStep<C>>) -> bool
    decreases ops.len(),
{
    if ops.len() == 0 {
        initial
    } else {
        match ops.last() {
            PoolStep::Store(b) => b,
            PoolStep::MarkShutdown => true,
            _ => latest_flag(initial, ops.drop_last()),
        }
    }
}

/// The number of request ids the steps `ops` hand out.
pub open spec fn ids_taken<C>(ops: Seq<PoolStep<C>>) -> nat
    decreases ops.len(),
{
    if ops.len() == 0 {
        0
    } else {
        ids_taken(ops.drop_last()) + if ops.last() is TakeIdentifier {
            1nat
        } else {
            0nat
        }
    }
}

proof fn lemma_run_prefix<C>(views: Seq<ClientStateV<C>>, ops: Seq<PoolStep<C>>)
    requires
        is_run(views, ops),
        ops.len() > 0,
    ensures
        is_run(views.drop_last(), ops.drop_last()),
        pool_step(views[ops.len() - 1], ops.last(), views.last()),
{
    assert forall|i: int| 0 <= i < ops.drop_last().len() implies #[trigger] pool_step(
        views.drop_last()[i],
        ops.drop_last()[i],
        views.drop_last()[i + 1],
    ) by {
        assert(pool_step(views[i], ops[i], views[i + 1]));
    }
    assert(pool_step(views[ops.len() - 1], ops[ops.len() - 1], views[ops.len() - 1 + 1]));
}

/// The shutdown flag is the latest value stored: over any run of pool
/// operations, the flag at the end is what the latest `ShutdownFlagStore` or
/// `MarkShutdown::Fn` set, or the flag at the start when neither ran (every
/// other operation leaves it as it was).
pub proof fn lemma_shutdown_flag_is_latest_store<C>(views: Seq<ClientStateV<C>>, ops: Seq<PoolStep<C>>)
    requires
        is_run(views, ops),
    ensures
        views.last().shutdown == latest_flag(views[0].shutdown, ops),
    decreases ops.len(),
{
    if ops.len() > 0 {
        lemma_run_prefix(views, ops);
        lemma_shutdown_flag_is_latest_store(views.drop_last(), ops.drop_last());
    }
}

proof fn lemma_counter_counts_ids<C>(views: Seq<ClientStateV<C>>, ops: Seq<PoolStep<C>>)
    requires
        is_run(views, ops),
        views[0].next_request_identifier == 1,
        ids_taken(ops) < u64::MAX,
    ensures
        views.last().next_request_identifier == 1 + ids_taken(ops),
    decreases ops.len(),
{
    if ops.len() > 0 {
        lemma_run_prefix(views, ops);
        lemma_counter_counts_ids(views.drop_last(), ops.drop_last());
    }
}

proof fn lemma_ids_taken_prefix<C>(ops: Seq<PoolStep<C>>, a: int, b: int)
    requires
        0 <= a < b <= ops.len(),
    ensures
        ids_taken(ops.subrange(0, b)) >= ids_taken(ops.subrange(0, a)) + (if ops[a] is TakeIdentifier {
            1nat
        } else {
            0nat
        }),
    decreases b - a,
{
    assert(ops.subrange(0, b).drop_last() =~= ops.subrange(0, b - 1));
    if b - 1 > a {
        lemma_ids_taken_prefix(ops, a, b - 1);
    }
}

/// Request ids come from one counter that starts at 1 and moves up by one per
/// request: over any run of pool operations from a fresh pool that hands out
/// fewer than `u64::MAX` ids, a later request carries a larger id than an
/// earlier one, and none carries 0.
pub proof fn lemma_request_ids_count_up_from_one<C>(
    views: Seq<ClientStateV<C>>,
    ops: Seq<PoolStep<C>>,
    i: int,
    j: int,
)
    requires
        is_run(views, ops),
        views[0].next_request_identifier == 1,
        ids_taken(ops) < u64::MAX,
        0 <= i < j < ops.len(),
        ops[i] is TakeIdentifier,
        ops[j] is TakeIdentifier,
    ensures
        1 <= views[i].next_request_identifier < views[j].next_request_identifier,
{
    lemma_run_slice(views, ops, i);
    lemma_run_slice(views, ops, j);
    lemma_ids_taken_prefix(ops, i, j);
    lemma_ids_taken_prefix(ops, j, ops.len() as int);
    assert(ops.subrange(0, ops.len() as int) =~= ops);
    if i > 0 {
        lemma_ids_taken_prefix(ops, 0, i);
    }
    assert(ops.subrange(0, 0) =~= Seq::<PoolStep<C>>::empty());
    lemma_counter_counts_ids(views.subrange(0, i + 1), ops.subrange(0, i));
    lemma_counter_counts_ids(views.subrange(0, j + 1), ops.subrange(0, j));
}

proof fn lemma_run_slice<C>(views: Seq<ClientStateV<C>>, ops: Seq<PoolStep<C>>, k: int)
    requires
        is_run(views, ops),
        0 <= k <= ops.len(),
    ensures
        is_run(views.subrange(0, k + 1), ops.subrange(0, k)),
{
    assert forall|m: int| 0 <= m < ops.subrange(0, k).len() implies #[trigger] pool_step(
        views.subrange(0, k + 1)[m],
        ops.subrange(0, k)[m],
        views.subrange(0, k + 1)[m + 1],
    ) by {
        assert(pool_step(views[m], ops[m], views[m + 1]));
    }
}

impl<C> ClientState<C> {
    /// An empty pool, not shutting down, whose first request id is 1.
    pub fn new() -> (r: Self)
        ensures
            r@.clients == Map::<Seq<char>, C>::empty(),
            r@.metadata == Map::<Seq<char>, ConnectionMetadata>::empty(),
            !r@.shutdown,
            r@.next_request_identifier == 1,
    {
        ClientState {
            Clients: StringHashMap::new(),
            Metadata: StringHashMap::new(),
            Shutdown: false,
            NextRequestIdentifier: 1,
        }
    }

    /// Pools `Client` for the side-car after a successful handshake, with
    /// fresh metadata: no failures, healthy, active now.
    pub fn AddConnection(&mut self, SideCarIdentifier: &str, Client: C)
        ensures
            connection_added(old(self)@, final(self)@, SideCarIdentifier@, Client),
    {
        self.Clients.insert(String::from_str(SideCarIdentifier), Client);
        self.Metadata.insert(
            String::from_str(SideCarIdentifier),
            ConnectionMetadata { LastActivity: InstantNow(), FailureCount: 0, IsHealthy: true },
        );
    }

    /// Whether a client for the side-car is in the pool.
    pub fn IsClientConnected(&self, SideCarIdentifier: &str) -> (r: bool)
        ensures
            r == self@.clients.contains_key(SideCarIdentifier@),
    {
        self.Clients.contains_key(SideCarIdentifier)
    }

    /// The pooled client of the side-car, if any.
    pub fn Client(&self, SideCarIdentifier: &str) -> (r: Option<&C>)
        ensures
            match r {
                Some(c) => self@.clients.contains_key(SideCarIdentifier@) && *c == self@.clients[SideCarIdentifier@],
                None => !self@.clients.contains_key(SideCarIdentifier@),
            },
    {
        self.Clients.get(SideCarIdentifier)
    }

    /// The metadata of the side-car, if any.
    pub fn Metadata(&self, SideCarIdentifier: &str) -> (r: Option<&ConnectionMetadata>)
        ensures
            match r {
                Some(m) => self@.metadata.contains_key(SideCarIdentifier@) && *m == self@.metadata[SideCarIdentifier@],
                None => !self@.metadata.contains_key(SideCarIdentifier@),
            },
    {
        self.Metadata.get(SideCarIdentifier)
    }

    /// Takes the next request id; the counter moves on by one (wrapping).
    pub fn NextRequestIdentifier(&mut self) -> (r: u64)
        ensures
            r == old(self)@.next_request_identifier,
            final(self)@.next_request_identifier == old(self)@.next_request_identifier.wrapping_add(1),
            final(self)@.clients == old(self)@.clients,
            final(self)@.metadata == old(self)@.metadata,
            final(self)@.shutdown == old(self)@.shutdown,
    {
        let r = self.NextRequestIdentifier;
        self.NextRequestIdentifier = self.NextRequestIdentifier.wrapping_add(1);
        r
    }
}

/// Stores `Value` in the shutdown flag.
pub fn ShutdownFlagStore<C>(State: &mut ClientState<C>, Value: bool)
    ensures
        final(State)@ == (ClientStateV { shutdown: Value, ..old(State)@ }),
{
    State.Shutdown = Value;
}

/// The shutdown flag.
pub fn ShutdownFlagLoad<C>(State: &ClientState<C>) -> (r: bool)
    ensures
        r == State@.shutdown,
{
    State.Shutdown
}

/// Records a failure of the side-car (see [`record_failure`]).
pub fn RecordSideCarFailure<C>(State: &mut ClientState<C>, SideCarIdentifier: &str)
    ensures
        final(State)@ == record_failure(old(State)@, SideCarIdentifier@),
{
    let Evict = match State.Metadata.get(SideCarIdentifier) {
        Some(Connection) => {
            let Count = Connection.FailureCount.wrapping_add(1);
            let Updated = ConnectionMetadata {
                LastActivity: Connection.LastActivity,
                FailureCount: Count,
                IsHealthy: false,
            };
            State.Metadata.insert(String::from_str(SideCarIdentifier), Updated);
            Count > MAX_RETRY_ATTEMPTS
        },
        None => {
            return ;
        },
    };
    if Evict {
        State.Clients.remove(SideCarIdentifier);
    }
    assert(State@.metadata =~= record_failure(old(State)@, SideCarIdentifier@).metadata);
    assert(State@.clients =~= record_failure(old(State)@, SideCarIdentifier@).clients);
}

/// Records a success of the side-car (see [`activity_updated`]).
pub fn UpdateSideCarActivity<C>(State: &mut ClientState<C>, SideCarIdentifier: &str)
    ensures
        activity_updated(old(State)@, final(State)@, SideCarIdentifier@),
{
    if State.Metadata.contains_key(SideCarIdentifier) {
        State.Metadata.insert(
            String::from_str(SideCarIdentifier),
            ConnectionMetadata { LastActivity: InstantNow(), FailureCount: 0, IsHealthy: true },
        );
    }
}

/// Refuses a payload longer than [`MAX_MESSAGE_SIZE_BYTES`].
pub fn ValidateMessageSize(Data: &[u8]) -> (r: Result<(), VineError>)
    ensures
        Data@.len() <= MAX_MESSAGE_SIZE_BYTES ==> r is Ok,
        Data@.len() > MAX_MESSAGE_SIZE_BYTES ==> (r matches Err(e) && e@ == (VineErrorV::MessageTooLarge {
            actual: Data@.len() as usize,
            max: MAX_MESSAGE_SIZE_BYTES,
        })),
{
    if Data.len() > MAX_MESSAGE_SIZE_BYTES {
        Err(VineError::MessageTooLarge { ActualSize: Data.len(), MaxSize: MAX_MESSAGE_SIZE_BYTES })
    } else {
        Ok(())
    }
}

/// The connection-ready notifier of each side-car, created on first use.
pub struct ConnectionNotifiers {
    Notifiers: StringHashMap<Arc<Notify>>,
}

impl View for ConnectionNotifiers {
    type V = Map<Seq<char>, Arc<Notify>>;

    closed spec fn view(&self) -> Map<Seq<char>, Arc<Notify>> {
        self.Notifiers@
    }
}

impl ConnectionNotifiers {
    /// No notifiers yet.
    pub fn new() -> (r: Self)
        ensures
            r@ == Map::<Seq<char>, Arc<Notify>>::empty(),
    {
        ConnectionNotifiers { Notifiers: StringHashMap::new() }
    }
}

/// The side-car's connection-ready notifier, created when it has none yet.
pub fn GetConnectionNotify(Notifiers: &mut ConnectionNotifiers, SideCarIdentifier: &str) -> (r: Arc<Notify>)
    ensures
        final(Notifiers)@.contains_key(SideCarIdentifier@),
        r == final(Notifiers)@[SideCarIdentifier@],
        old(Notifiers)@.contains_key(SideCarIdentifier@) ==> final(Notifiers)@ == old(Notifiers)@,
        !old(Notifiers)@.contains_key(SideCarIdentifier@) ==> final(Notifiers)@ == old(Notifiers)@.insert(
            SideCarIdentifier@,
            r,
        ),
{
    if let Some(Existing) = Notifiers.Notifiers.get(SideCarIdentifier) {
        return ShareNotifier(Existing);
    }
    let Fresh = NewNotifier();
    Notifiers.Notifiers.insert(String::from_str(SideCarIdentifier), ShareNotifier(&Fresh));
    Fresh
}

/// The notifier to fire for the side-car's connection, when it has one: the
/// caller wakes every task waiting on it (`notify_waiters`). A side-car that
/// never had a waiter has no notifier, and nothing is woken.
pub fn FireConnectionNotify(Notifiers: &ConnectionNotifiers, SideCarIdentifier: &str) -> (r: Option<Arc<Notify>>)
    ensures
        match r {
            Some(n) => Notifiers@.contains_key(SideCarIdentifier@) && n == Notifiers@[SideCarIdentifier@],
            None => !Notifiers@.contains_key(SideCarIdentifier@),
        },
{
    match Notifiers.Notifiers.get(SideCarIdentifier) {
        Some(Notifier) => Some(ShareNotifier(Notifier)),
        None => None,
    }
}

} // verus!
