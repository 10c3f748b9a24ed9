//! The request correlator.
//!
//! Every inbound read or write allocates a fresh single-use [`Responder`],
//! publishes one correlated event, and the native call is answered from
//! the single resolution of that responder. A responder resolves at most
//! once; a reply slot abandoned without a value falls back to the
//! deterministic `UnlikelyError` outcome so the native call never hangs.

use crate::error::{Error, ErrorType};
use crate::gatt::peripheral_event::{
    PeripheralEvent, PeripheralRequest, ReadRequestResponse, RequestResponse, WriteRequestResponse,
};
use crate::peripheral::codes::ReqError;
use tokio::sync::oneshot;
use vstd::prelude::*;

verus! {

/// A single-use reply slot bound 1:1 to one inbound request.
#[verifier::reject_recursive_types(T)]
pub struct Responder<T> {
    slot: Option<oneshot::Sender<T>>,
}

impl<T> Responder<T> {
    /// Whether the single resolution has already happened.
    pub closed spec fn is_resolved(&self) -> bool {
        self.slot is None
    }

    /// A fresh responder and the receiving half its resolution arrives
    /// on.
    pub fn new() -> (r: (Responder<T>, oneshot::Receiver<T>))
        ensures
            !r.0.is_resolved(),
    {
        let (tx, rx) = oneshot::channel();
        (Responder { slot: Some(tx) }, rx)
    }

    /// Resolves the responder with `response`. The first resolution is
    /// accepted and consumes the slot; every further one is rejected,
    /// so one request receives at most one acknowledgment.
    pub fn resolve(&mut self, response: T) -> (r: Result<(), Error>)
        ensures
            final(self).is_resolved(),
            r is Ok <==> !old(self).is_resolved(),
            r matches Err(e) ==> e.spec_error_type() == ErrorType::ChannelError,
    {
        match self.slot.take() {
            Some(tx) => {
                let _ = tx.send(response);
                Ok(())
            },
            None => Err(
                Error::new("Responder", "Response already sent", ErrorType::ChannelError),
            ),
        }
    }
}

/// Builds the correlated read-request event and the receiving half on
/// which the adapter awaits the single resolution.
pub fn make_read_request(request: PeripheralRequest, offset: u64) -> (r: (
    PeripheralEvent,
    oneshot::Receiver<ReadRequestResponse>,
))
    ensures
        (r.0 matches PeripheralEvent::ReadRequest { request: q, offset: o, responder } && q
            == request && o == offset && !responder.is_resolved()),
{
    let (responder, rx) = Responder::new();
    (PeripheralEvent::ReadRequest { request, offset, responder }, rx)
}

/// Builds the correlated write-request event and the receiving half on
/// which the adapter awaits the single resolution.
pub fn make_write_request(request: PeripheralRequest, value: Vec<u8>, offset: u64) -> (r: (
    PeripheralEvent,
    oneshot::Receiver<WriteRequestResponse>,
))
    ensures
        (r.0 matches PeripheralEvent::WriteRequest { request: q, value: v, offset: o, responder }
            && q == request && v == value && o == offset && !responder.is_resolved()),
{
    let (responder, rx) = Responder::new();
    (PeripheralEvent::WriteRequest { request, value, offset, responder }, rx)
}

/// The outcome applied when a reply slot was abandoned without a value.
pub open spec fn dropped_reply_response() -> RequestResponse {
    RequestResponse::UnlikelyError
}

/// The reply the correlator acts on: the received one, or the
/// deterministic fallback when the slot was dropped without a value.
pub fn read_reply_outcome(reply: Option<ReadRequestResponse>) -> (r: ReadRequestResponse)
    ensures
        reply matches Some(v) ==> r == v,
        reply is None ==> r.response == dropped_reply_response() && r.value@.len() == 0,
{
    match reply {
        Some(v) => v,
        None => ReadRequestResponse { value: Vec::new(), response: RequestResponse::UnlikelyError },
    }
}

/// The write reply the correlator acts on, with the same fallback.
pub fn write_reply_outcome(reply: Option<WriteRequestResponse>) -> (r: WriteRequestResponse)
    ensures
        reply matches Some(v) ==> r == v,
        reply is None ==> r.response == dropped_reply_response(),
{
    match reply {
        Some(v) => v,
        None => WriteRequestResponse { response: RequestResponse::UnlikelyError },
    }
}

/// The CoreBluetooth acknowledgment of a read: the code to answer the
/// native call with, and the value bytes to attach.
pub fn cb_read_ack(reply: Option<ReadRequestResponse>) -> (r: (i64, Vec<u8>))
    ensures
        reply matches Some(v) ==> r.0 == v.response.spec_cb_error() && r.1@ == v.value@,
        reply is None ==> r.0 == dropped_reply_response().spec_cb_error() && r.1@.len() == 0,
{
    let out = read_reply_outcome(reply);
    let code = out.response.to_cb_error();
    (code, out.value)
}

/// The CoreBluetooth acknowledgment code of a write.
pub fn cb_write_ack(reply: Option<WriteRequestResponse>) -> (r: i64)
    ensures
        reply matches Some(v) ==> r == v.response.spec_cb_error(),
        reply is None ==> r == dropped_reply_response().spec_cb_error(),
{
    let out = write_reply_outcome(reply);
    out.response.to_cb_error()
}

/// The BlueZ answer to a read: the value on success, the mapped request
/// error otherwise.
pub fn bluez_read_reply(reply: Option<ReadRequestResponse>) -> (r: Result<Vec<u8>, ReqError>)
    ensures
        reply matches Some(v) ==> (v.response == RequestResponse::Success ==> (r matches Ok(val)
            && val@ == v.value@)),
        reply matches Some(v) ==> (v.response != RequestResponse::Success ==> (r matches Err(e)
            && Some(e) == v.response.spec_req_err())),
        reply is None ==> r == Err::<Vec<u8>, ReqError>(ReqError::Failed),
{
    let out = read_reply_outcome(reply);
    match out.response.to_req_err() {
        Some(e) => Err(e),
        None => Ok(out.value),
    }
}

/// The BlueZ answer to a write.
pub fn bluez_write_reply(reply: Option<WriteRequestResponse>) -> (r: Result<(), ReqError>)
    ensures
        reply matches Some(v) ==> (v.response == RequestResponse::Success ==> r is Ok),
        reply matches Some(v) ==> (v.response != RequestResponse::Success ==> (r matches Err(e)
            && Some(e) == v.response.spec_req_err())),
        reply is None ==> r == Err::<(), ReqError>(ReqError::Failed),
{
    let out = write_reply_outcome(reply);
    match out.response.to_req_err() {
        Some(e) => Err(e),
        None => Ok(()),
    }
}

/// The Windows answer to a read: the value on success, the protocol
/// error byte otherwise.
pub fn winrt_read_reply(reply: Option<ReadRequestResponse>) -> (r: Result<Vec<u8>, u8>)
    ensures
        reply matches Some(v) ==> (v.response == RequestResponse::Success ==> (r matches Ok(val)
            && val@ == v.value@)),
        reply matches Some(v) ==> (v.response != RequestResponse::Success ==> r == Err::<
            Vec<u8>,
            u8,
        >(v.response.spec_gatt_protocol_error())),
        reply is None ==> r == Err::<Vec<u8>, u8>(
            dropped_reply_response().spec_gatt_protocol_error(),
        ),
{
    let out = read_reply_outcome(reply);
    if matches!(out.response, RequestResponse::Success) {
        Ok(out.value)
    } else {
        Err(out.response.to_gatt_protocol_error())
    }
}

/// The Windows answer to a write.
pub fn winrt_write_reply(reply: Option<WriteRequestResponse>) -> (r: Result<(), u8>)
    ensures
        reply matches Some(v) ==> (v.response == RequestResponse::Success ==> r is Ok),
        reply matches Some(v) ==> (v.response != RequestResponse::Success ==> r == Err::<(), u8>(
            v.response.spec_gatt_protocol_error(),
        )),
        reply is None ==> r == Err::<(), u8>(dropped_reply_response().spec_gatt_protocol_error()),
{
    let out = write_reply_outcome(reply);
    if matches!(out.response, RequestResponse::Success) {
        Ok(())
    } else {
        Err(out.response.to_gatt_protocol_error())
    }
}

/// No-hang on drop: a reply slot abandoned without a value resolves as
/// the deterministic `UnlikelyError` fallback, which every backend table
/// maps to a defined failure code, so the native call is always
/// answered.
pub proof fn lemma_no_hang_on_drop()
    ensures
        dropped_reply_response() == RequestResponse::UnlikelyError,
        dropped_reply_response().spec_cb_error() == 14,
        dropped_reply_response().spec_gatt_protocol_error() == 14,
        dropped_reply_response().spec_req_err() == Some(ReqError::Failed),
{
}

} // verus!
