//! The runtime types Vine holds but does not define: clock instants, the
//! async runtime's notifiers and channels, the concurrent map of pending
//! requests, and the gRPC status. Each operation the library performs on them is declared here
//! with what the library relies on.

use std::sync::Arc;
use std::time::Instant;

use dashmap::DashMap;
use tokio::sync::{Notify, broadcast, mpsc, oneshot};
use vstd::prelude::*;

use crate::Generated::GenericResponse;

verus! {

#[verifier::external_type_specification]
#[verifier::external_body]
pub struct ExInstant(Instant);

#[verifier::external_type_specification]
#[verifier::external_body]
pub struct ExNotify(Notify);

#[verifier::external_type_specification]
#[verifier::external_body]
#[verifier::reject_recursive_types(T)]
pub struct ExBroadcastSender<T>(broadcast::Sender<T>);

#[verifier::external_type_specification]
#[verifier::external_body]
#[verifier::reject_recursive_types(T)]
pub struct ExMpscSender<T>(mpsc::Sender<T>);

#[verifier::external_type_specification]
#[verifier::external_body]
#[verifier::reject_recursive_types(T)]
pub struct ExOneshotSender<T>(oneshot::Sender<T>);

#[verifier::external_type_specification]
#[verifier::external_body]
pub struct ExTonicStatus(tonic::Status);

#[verifier::external_type_specification]
#[verifier::external_body]
#[verifier::reject_recursive_types(K)]
#[verifier::reject_recursive_types(V)]
#[verifier::reject_recursive_types(S)]
pub struct ExDashMap<K, V, S>(DashMap<K, V, S>);

/// The table of requests awaiting their response, keyed by correlation id.
pub type PendingTable = DashMap<u64, oneshot::Sender<GenericResponse>>;

/// What a pending-request table holds: the reply sender parked under each
/// correlation id.
pub uninterp spec fn pending_senders(m: DashMap<u64, oneshot::Sender<GenericResponse>>) -> Map<
    u64,
    oneshot::Sender<GenericResponse>,
>;

/// `Instant::now()`: the current instant of the monotonic clock. Nothing is
/// claimed of it.
#[verifier::external_body]
pub(crate) fn InstantNow() -> Instant {
    Instant::now()
}

/// `Arc::new(Notify::new())`: a fresh notifier with no waiters. Nothing is
/// claimed of it.
#[verifier::external_body]
pub(crate) fn NewNotifier() -> Arc<Notify> {
    Arc::new(Notify::new())
}

/// `Arc::clone`: a second handle to the same notifier.
#[verifier::external_body]
pub(crate) fn ShareNotifier(n: &Arc<Notify>) -> (r: Arc<Notify>)
    ensures
        r == *n,
{
    n.clone()
}

/// `broadcast::Sender::receiver_count`: the number of receivers subscribed at
/// the moment of the call. It changes as tasks subscribe and drop, so nothing
/// is claimed of it.
#[verifier::external_body]
pub(crate) fn ReceiverCount<T>(s: &broadcast::Sender<T>) -> usize {
    s.receiver_count()
}

/// `DashMap::new()`: an empty table.
#[verifier::external_body]
pub(crate) fn NewPendingTable() -> (r: PendingTable)
    ensures
        pending_senders(r).dom() == Set::<u64>::empty(),
{
    DashMap::new()
}

/// `DashMap::insert`: afterwards the table holds `v` under `k` (replacing any
/// earlier entry under `k`) and is otherwise unchanged.
#[verifier::external_body]
pub(crate) fn PendingInsert(m: &mut PendingTable, k: u64, v: oneshot::Sender<GenericResponse>)
    ensures
        pending_senders(*final(m)) == pending_senders(*old(m)).insert(k, v),
{
    m.insert(k, v);
}

/// `DashMap::remove`: takes the entry under `k` out of the table and gives
/// back its sender, or nothing when the table held no `k`.
#[verifier::external_body]
pub(crate) fn PendingRemove(m: &mut PendingTable, k: u64) -> (r: Option<oneshot::Sender<GenericResponse>>)
    ensures
        r == (if pending_senders(*old(m)).contains_key(k) {
            Some(pending_senders(*old(m))[k])
        } else {
            None
        }),
        pending_senders(*final(m)) == pending_senders(*old(m)).remove(k),
{
    m.remove(&k).map(|(_, v)| v)
}

/// `DashMap::iter` over the keys: every key the table holds, once each, in
/// an order the table's hashing decides.
#[verifier::external_body]
pub(crate) fn PendingKeys(m: &PendingTable) -> (r: Vec<u64>)
    ensures
        r@.to_set() == pending_senders(*m).dom(),
        r@.no_duplicates(),
{
    m.iter().map(|e| *e.key()).collect()
}

/// The number of a gRPC status's code.
pub uninterp spec fn grpc_status_code(s: tonic::Status) -> i32;

/// The text message of a gRPC status.
pub uninterp spec fn grpc_status_message(s: tonic::Status) -> Seq<char>;

/// The display rendering of a gRPC status.
pub uninterp spec fn grpc_status_rendered(s: tonic::Status) -> Seq<char>;

/// `tonic::Status::code`, as its number: the status's code, whose `Code`
/// discriminants run from 0 (`Ok`) to 16 (`Unauthenticated`).
#[verifier::external_body]
pub(crate) fn StatusCodeNumber(s: &tonic::Status) -> (r: i32)
    ensures
        r == grpc_status_code(*s),
        0 <= r <= 16,
{
    s.code() as i32
}

/// `tonic::Status::message`: the status's text message.
#[verifier::external_body]
pub(crate) fn StatusMessageText(s: &tonic::Status) -> (r: String)
    ensures
        r@ == grpc_status_message(*s),
{
    s.message().to_string()
}

/// `Display` of `tonic::Status` (`code: '…', message: "…"`): its rendering.
#[verifier::external_body]
pub(crate) fn StatusRendered(s: &tonic::Status) -> (r: String)
    ensures
        r@ == grpc_status_rendered(*s),
{
    format!("{}", s)
}

/// `tonic::Status::new(Code::from_i32(code), message)`: a status that keeps the
/// message, and the code when it is one of 0 to 16 (`from_i32` turns any other
/// number into `Unknown`, 2).
#[verifier::external_body]
pub(crate) fn MakeStatus(code: i32, message: String) -> (r: tonic::Status)
    ensures
        grpc_status_code(r) == (if 0 <= code <= 16 { code } else { 2 }),
        grpc_status_message(r) == message@,
{
    tonic::Status::new(tonic::Code::from_i32(code), message)
}

} // verus!
