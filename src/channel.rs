//! The device channel: one handle, and what each operation asks of the
//! operating system and reports to its caller.
use vstd::prelude::*;

use crate::discovery::DeviceError;
use crate::guid::{guid_bytes, Guid};

verus! {

/// The handle value that stands for "no device".
pub const INVALID_HANDLE: isize = -1;

/// What an operation reports on a channel without a device.
pub const INVALID_HANDLE_STATUS: i32 = -1;

/// What a transfer reports when the operating system failed it.
pub const TRANSFER_FAILED: i32 = -2;

/// The device-control code that names the client to talk to.
pub const CONNECT_CONTROL_CODE: u32 = 0x8000e004;

/// The most bytes that one transfer moves, so that the count fits its report.
pub const MAX_TRANSFER: u32 = 0x7fff_ffff;

/// A channel to the device: its handle, or `INVALID_HANDLE`.
#[derive(Clone, Copy, Debug, PartialEq, Eq, Structural)]
pub struct Heci {
    pub device: isize,
}

/// The device-control request that connects to a client.
#[derive(Clone, Copy, Debug, PartialEq, Eq)]
pub struct ConnectRequest {
    pub handle: isize,
    pub code: u32,
    /// The client identifier in its in-memory layout.
    pub input: [u8; 16],
}

/// An overlapped read or write of `len` bytes on `handle`.
#[derive(Clone, Copy, Debug, PartialEq, Eq, Structural)]
pub struct TransferRequest {
    pub handle: isize,
    pub len: u32,
}

/// What the operating system answered when a transfer was issued.
#[derive(Clone, Copy, Debug, PartialEq, Eq, Structural)]
pub enum TransferReply {
    /// Done at once, with this many bytes moved.
    Completed(u32),
    /// Accepted, and still under way.
    Pending,
    /// Refused.
    Failed,
}

/// What follows a reply to an issued transfer.
#[derive(Clone, Copy, Debug, PartialEq, Eq, Structural)]
pub enum Transfer {
    /// The transfer is over; report this.
    Done(i32),
    /// Wait for the overlapped transfer to complete.
    AwaitCompletion,
}

/// The operations of a device channel, one implementation per platform.
pub trait HeciOp {
    /// Names the client to talk to; reports the operating system's status.
    fn connect(&self, guid: &str) -> i32;

    /// Writes `data`; reports the bytes written or a negative status.
    fn write(&self, data: &[u8]) -> i32;

    /// Reads into `data`; reports the bytes read or a negative status.
    fn read(&self, data: &mut [u8]) -> i32;

    /// Releases the device; a second call does nothing.
    fn close(&mut self);
}

pub open spec fn is_open(h: Heci) -> bool {
    h.device != INVALID_HANDLE
}

/// The channel that the outcome of discovery gives.
pub open spec fn opened_from(found: Result<isize, DeviceError>) -> Heci {
    match found {
        Ok(handle) => Heci { device: handle },
        Err(_) => Heci { device: INVALID_HANDLE },
    }
}

/// `r` is what connecting `h` to `client` asks for: the one control request
/// that carries the client identifier, or the invalid-handle status and no request.
pub open spec fn connect_plan(h: Heci, client: Guid, r: Result<ConnectRequest, i32>) -> bool {
    if is_open(h) {
        r matches Ok(req) && req.handle == h.device && req.code == CONNECT_CONTROL_CODE
            && req.input@ == guid_bytes(client)
    } else {
        r == Err::<ConnectRequest, i32>(INVALID_HANDLE_STATUS)
    }
}

pub open spec fn min_len(a: nat, b: nat) -> nat {
    if a <= b {
        a
    } else {
        b
    }
}

/// What a transfer of `len` bytes on `h` asks for.
pub open spec fn transfer_plan(h: Heci, len: nat) -> Result<TransferRequest, i32> {
    if is_open(h) {
        Ok(TransferRequest { handle: h.device, len: min_len(len, MAX_TRANSFER as nat) as u32 })
    } else {
        Err(INVALID_HANDLE_STATUS)
    }
}

/// The count reported when the operating system says `moved` bytes went,
/// never more than were asked for.
pub open spec fn reported(req: TransferRequest, moved: u32) -> i32 {
    min_len(moved as nat, req.len as nat) as i32
}

pub open spec fn after_reply(req: TransferRequest, reply: TransferReply) -> Transfer {
    match reply {
        TransferReply::Completed(moved) => Transfer::Done(reported(req, moved)),
        TransferReply::Pending => Transfer::AwaitCompletion,
        TransferReply::Failed => Transfer::Done(TRANSFER_FAILED),
    }
}

pub open spec fn after_completion(req: TransferRequest, waited: Option<u32>) -> i32 {
    match waited {
        Some(moved) => reported(req, moved),
        None => TRANSFER_FAILED,
    }
}

/// The handle that closing `h` releases.
pub open spec fn released(h: Heci) -> Option<isize> {
    if is_open(h) {
        Some(h.device)
    } else {
        None
    }
}

pub open spec fn closed() -> Heci {
    Heci { device: INVALID_HANDLE }
}

/// A channel whose discovery failed has no device: connecting and every
/// transfer report the invalid-handle status without asking the operating
/// system for anything, and closing it releases nothing.
pub proof fn lemma_failed_discovery_is_inert(
    e: DeviceError,
    client: Guid,
    r: Result<ConnectRequest, i32>,
    len: nat,
)
    requires
        connect_plan(opened_from(Err(e)), client, r),
    ensures
        !is_open(opened_from(Err(e))),
        r == Err::<ConnectRequest, i32>(INVALID_HANDLE_STATUS),
        transfer_plan(opened_from(Err(e)), len) == Err::<TransferRequest, i32>(
            INVALID_HANDLE_STATUS,
        ),
        released(opened_from(Err(e))) is None,
{
}

/// On a channel that discovery opened, connecting asks for exactly one
/// device-control request, on that handle, with the connect code, carrying
/// the client identifier given to connect.
pub proof fn lemma_connect_sends_client(
    handle: isize,
    client: Guid,
    r: Result<ConnectRequest, i32>,
)
    requires
        handle != INVALID_HANDLE,
        connect_plan(opened_from(Ok(handle)), client, r),
    ensures
        r matches Ok(req) && req.handle == handle && req.code == CONNECT_CONTROL_CODE
            && req.input@ == guid_bytes(client),
{
}

/// A transfer of `len` bytes asks for at most `len`; when it completes at
/// once, it reports exactly the bytes the device took, as long as that is no
/// more than was asked for, and never more than `len`.
pub proof fn lemma_transfer_size_consistent(h: Heci, len: nat, moved: u32)
    requires
        is_open(h),
    ensures
        transfer_plan(h, len) is Ok,
        ({
            let req = transfer_plan(h, len)->Ok_0;
            &&& req.len as nat <= len
            &&& after_reply(req, TransferReply::Completed(moved)) == Transfer::Done(
                reported(req, moved),
            )
            &&& 0 <= reported(req, moved) <= len
            &&& moved as nat <= req.len as nat ==> reported(req, moved) == moved as int
        }),
{
}

/// Closing twice releases the device at most once: the second close finds no
/// device and releases nothing.
pub proof fn lemma_close_idempotent(h: Heci)
    ensures
        is_open(h) ==> released(h) == Some(h.device),
        !is_open(h) ==> released(h) is None,
        !is_open(closed()),
        released(closed()) is None,
{
}

impl Heci {
    /// The channel that discovery gives: its handle, or none where it failed.
    pub fn new(found: Result<isize, DeviceError>) -> (r: Heci)
        ensures
            r == opened_from(found),
    {
        match found {
            Ok(handle) => Heci { device: handle },
            Err(_) => Heci { device: INVALID_HANDLE },
        }
    }

    pub fn is_open(&self) -> (r: bool)
        ensures
            r == is_open(*self),
    {
        self.device != INVALID_HANDLE
    }

    /// The control request that connects to `client`, or the invalid-handle
    /// status where the channel has no device.
    pub fn connect_request(&self, client: &Guid) -> (r: Result<ConnectRequest, i32>)
        ensures
            connect_plan(*self, *client, r),
    {
        if !self.is_open() {
            return Err(INVALID_HANDLE_STATUS);
        }
        Ok(ConnectRequest { handle: self.device, code: CONNECT_CONTROL_CODE, input: client.to_bytes() })
    }

    /// The transfer to issue for a buffer of `len` bytes, or the invalid-handle
    /// status where the channel has no device.
    pub fn transfer_request(&self, len: usize) -> (r: Result<TransferRequest, i32>)
        ensures
            r == transfer_plan(*self, len as nat),
    {
        if !self.is_open() {
            return Err(INVALID_HANDLE_STATUS);
        }
        let n: u32 = if len <= MAX_TRANSFER as usize {
            len as u32
        } else {
            MAX_TRANSFER
        };
        Ok(TransferRequest { handle: self.device, len: n })
    }

    /// Gives up the device: returns the handle to release, at most once.
    pub fn close(&mut self) -> (r: Option<isize>)
        ensures
            r == released(*old(self)),
            *final(self) == closed(),
    {
        let r = if self.is_open() {
            Some(self.device)
        } else {
            None
        };
        self.device = INVALID_HANDLE;
        r
    }
}

impl TransferRequest {
    /// What follows the operating system's answer to the issued transfer.
    pub fn on_reply(&self, reply: TransferReply) -> (r: Transfer)
        ensures
            r == after_reply(*self, reply),
    {
        match reply {
            TransferReply::Completed(moved) => Transfer::Done(self.reported(moved)),
            TransferReply::Pending => Transfer::AwaitCompletion,
            TransferReply::Failed => Transfer::Done(TRANSFER_FAILED),
        }
    }

    /// The report once the overlapped transfer completed; `None` where waiting
    /// for it failed, so that the count is unknown.
    pub fn on_completion(&self, waited: Option<u32>) -> (r: i32)
        ensures
            r == after_completion(*self, waited),
    {
        match waited {
            Some(moved) => self.reported(moved),
            None => TRANSFER_FAILED,
        }
    }

    fn reported(&self, moved: u32) -> (r: i32)
        ensures
            r == reported(*self, moved),
    {
        if moved <= self.len {
            moved as i32
        } else {
            self.len as i32
        }
    }
}

} // verus!
