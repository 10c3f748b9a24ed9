//! Events reported to the application, and the reply types it answers
//! read and write requests with.

use crate::peripheral::correlator::Responder;
use crate::uuid::Uuid;
use vstd::prelude::*;

verus! {

/// One occurrence on a native backend, reported to the application.
/// Read and write requests carry the single-use responder their answer
/// must be sent on.
pub enum PeripheralEvent {
    StateUpdate { is_powered: bool },
    CharacteristicSubscriptionUpdate { request: PeripheralRequest, subscribed: bool },
    ReadRequest { request: PeripheralRequest, offset: u64, responder: Responder<ReadRequestResponse> },
    WriteRequest {
        request: PeripheralRequest,
        value: Vec<u8>,
        offset: u64,
        responder: Responder<WriteRequestResponse>,
    },
}

/// The remote client and the target attribute of one request.
#[derive(Debug, Clone)]
pub struct PeripheralRequest {
    pub client: String,
    pub service: Uuid,
    pub characteristic: Uuid,
}

/// The application's answer to a read request.
#[derive(Debug)]
pub struct ReadRequestResponse {
    pub value: Vec<u8>,
    pub response: RequestResponse,
}

/// The application's answer to a write request.
#[derive(Debug)]
pub struct WriteRequestResponse {
    pub response: RequestResponse,
}

/// The uniform outcome vocabulary the application answers requests with.
#[derive(Debug, Clone, Copy, PartialEq, Eq, Structural)]
pub enum RequestResponse {
    Success,
    InvalidHandle,
    RequestNotSupported,
    InvalidOffset,
    UnlikelyError,
}

} // verus!
