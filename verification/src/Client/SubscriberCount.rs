//! Number of active notification subscribers; useful to check that
//! subscribers have not leaked.

use tokio::sync::broadcast;
use vstd::prelude::*;

use crate::Client::NotificationFrame::Struct;
use crate::Runtime::ReceiverCount;

verus! {

/// The number of receivers currently subscribed to the notification broadcast.
pub fn Fn(Broadcast: &broadcast::Sender<Struct>) -> usize {
    ReceiverCount(Broadcast)
}

} // verus!
