//! A small binding to a management-engine host interface (HECI) device.
//!
//! The library holds the decisions of the device channel: how the textual
//! identifiers read, how the list of device interfaces is searched, what each
//! operation asks of the operating system and what it reports back. Whoever
//! performs the operating-system calls hands their outcomes to these functions.
use vstd::prelude::*;

pub mod channel;
pub mod discovery;
pub mod guid;

pub use channel::{
    ConnectRequest, Heci, HeciOp, Transfer, TransferReply, TransferRequest, CONNECT_CONTROL_CODE,
    INVALID_HANDLE, INVALID_HANDLE_STATUS, MAX_TRANSFER, TRANSFER_FAILED,
};
pub use discovery::{DeviceError, Probe};
pub use guid::Guid;

verus! {

/// Interface class of the management-engine device.
pub const UVSS_GUID: &'static str = "4f806aa7-9f6f-4662-90e5-3f26ed87c58f";

/// Client identifier of the test service behind the device.
pub const HECI_TEST: &'static str = "a6bd915c-fe11-49f1-81c0-74b629f289ac";

/// Sum of two sizes.
pub fn add(left: usize, right: usize) -> (r: usize)
    requires
        left + right <= usize::MAX,
    ensures
        r == left + right,
{
    left + right
}

} // verus!
