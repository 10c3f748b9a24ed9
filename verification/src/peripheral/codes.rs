//! Per-backend acknowledgment code tables.
//!
//! Each backend acknowledges a request with its own error vocabulary;
//! these tables map the uniform [`RequestResponse`] outcome onto each of
//! them. No backend-specific branching happens above this boundary.

use crate::gatt::peripheral_event::RequestResponse;
use vstd::prelude::*;

verus! {

/// The request failure vocabulary of the BlueZ GATT profile, mirroring
/// the error values its D-Bus interface defines.
#[derive(Debug, Clone, Copy, PartialEq, Eq, Structural)]
pub enum ReqError {
    Failed,
    InProgress,
    NotPermitted,
    NotAuthorized,
    NotSupported,
    InvalidOffset,
    InvalidValueLength,
}

impl RequestResponse {
    /// The CoreBluetooth acknowledgment code of this outcome: the raw
    /// value of the matching `CBATTError` constant, which follows the
    /// ATT application error codes.
    pub open spec fn spec_cb_error(&self) -> i64 {
        match self {
            RequestResponse::Success => 0,
            RequestResponse::InvalidHandle => 1,
            RequestResponse::RequestNotSupported => 6,
            RequestResponse::InvalidOffset => 7,
            RequestResponse::UnlikelyError => 14,
        }
    }

    pub fn to_cb_error(&self) -> (r: i64)
        ensures
            r == self.spec_cb_error(),
    {
        match self {
            RequestResponse::Success => 0,
            RequestResponse::InvalidHandle => 1,
            RequestResponse::RequestNotSupported => 6,
            RequestResponse::InvalidOffset => 7,
            RequestResponse::UnlikelyError => 14,
        }
    }

    /// The Windows acknowledgment byte of this outcome: the matching
    /// `GattProtocolError` value, with success as zero.
    pub open spec fn spec_gatt_protocol_error(&self) -> u8 {
        match self {
            RequestResponse::Success => 0,
            RequestResponse::InvalidHandle => 1,
            RequestResponse::RequestNotSupported => 6,
            RequestResponse::InvalidOffset => 7,
            RequestResponse::UnlikelyError => 14,
        }
    }

    pub fn to_gatt_protocol_error(&self) -> (r: u8)
        ensures
            r == self.spec_gatt_protocol_error(),
    {
        match self {
            RequestResponse::Success => 0,
            RequestResponse::InvalidHandle => 1,
            RequestResponse::RequestNotSupported => 6,
            RequestResponse::InvalidOffset => 7,
            RequestResponse::UnlikelyError => 14,
        }
    }

    /// The BlueZ request error of this outcome; only success carries
    /// none.
    pub open spec fn spec_req_err(&self) -> Option<ReqError> {
        match self {
            RequestResponse::Success => None,
            RequestResponse::InvalidHandle => Some(ReqError::Failed),
            RequestResponse::RequestNotSupported => Some(ReqError::NotSupported),
            RequestResponse::InvalidOffset => Some(ReqError::InvalidOffset),
            RequestResponse::UnlikelyError => Some(ReqError::Failed),
        }
    }

    pub fn to_req_err(&self) -> (r: Option<ReqError>)
        ensures
            r == self.spec_req_err(),
    {
        match self {
            RequestResponse::Success => None,
            RequestResponse::InvalidHandle => Some(ReqError::Failed),
            RequestResponse::RequestNotSupported => Some(ReqError::NotSupported),
            RequestResponse::InvalidOffset => Some(ReqError::InvalidOffset),
            RequestResponse::UnlikelyError => Some(ReqError::Failed),
        }
    }
}

/// Whether `c` is one of the acknowledgment codes the backends define
/// for the uniform outcomes.
pub open spec fn valid_att_code(c: int) -> bool {
    c == 0 || c == 1 || c == 6 || c == 7 || c == 14
}

/// Outcome mapping totality: every outcome has a defined code in every
/// backend table, the CoreBluetooth and Windows tables agree on it, and
/// only success maps to no BlueZ error.
pub proof fn lemma_outcome_mapping_total(outcome: RequestResponse)
    ensures
        valid_att_code(outcome.spec_cb_error() as int),
        valid_att_code(outcome.spec_gatt_protocol_error() as int),
        outcome.spec_cb_error() == outcome.spec_gatt_protocol_error() as i64,
        outcome.spec_req_err() is None <==> outcome == RequestResponse::Success,
{
}

} // verus!
