//! The payload kinds of an [`Envelope`](super::Envelope).

use vstd::prelude::*;

use crate::Generated::{CancelOperationRequest, GenericNotification, GenericRequest, GenericResponse};

verus! {

/// What one stream frame carries.
pub enum Payload {
    Request(GenericRequest),
    Response(GenericResponse),
    Notification(GenericNotification),
    Cancel(CancelOperationRequest),
}

} // verus!
