//! What the protocol engine asks of the USB transport, and what the
//! transport answers.
//!
//! The engine never touches the bus. It hands out one [`UsbRequest`] at a
//! time; the caller performs it and hands back the [`UsbReply`].
use vstd::prelude::*;

use crate::cmd::PicobootError;

verus! {

/// Timeout of a bulk read, in seconds.
pub const BULK_READ_TIMEOUT_SECS: u64 = 3;

/// Timeout of a bulk write, in seconds.
pub const BULK_WRITE_TIMEOUT_SECS: u64 = 5;

/// Timeout of a control transfer, in seconds.
pub const CONTROL_TIMEOUT_SECS: u64 = 1;

/// `bmRequestType` of the interface reset: vendor request to the interface,
/// host to device.
pub const RESET_REQUEST_TYPE: u8 = 0x41;

/// `bRequest` of the interface reset.
pub const RESET_REQUEST: u8 = 0x41;

/// `bmRequestType` of the status query: vendor request to the interface,
/// device to host.
pub const STATUS_REQUEST_TYPE: u8 = 0xC1;

/// `bRequest` of the status query.
pub const STATUS_REQUEST: u8 = 0x42;

/// Interface class of PICOBOOT: vendor specific.
pub const PICOBOOT_CLASS: u8 = 0xFF;

/// Interface subclass of PICOBOOT.
pub const PICOBOOT_SUBCLASS: u8 = 0;

/// Interface protocol of PICOBOOT.
pub const PICOBOOT_PROTOCOL: u8 = 0;

/// One operation for the transport to perform on the open device.
#[derive(Debug)]
pub enum UsbRequest {
    /// Ask whether a kernel driver is bound to the interface.
    KernelDriverActive { iface: u8 },
    DetachKernelDriver { iface: u8 },
    AttachKernelDriver { iface: u8 },
    SetActiveConfiguration { config: u8 },
    ClaimInterface { iface: u8 },
    ReleaseInterface { iface: u8 },
    SetAlternateSetting { iface: u8, setting: u8 },
    ClearHalt { endpoint: u8 },
    /// Read up to `len` bytes from a bulk endpoint.
    BulkRead { endpoint: u8, len: usize, timeout_secs: u64 },
    /// Write `data` to a bulk endpoint.
    BulkWrite { endpoint: u8, data: Vec<u8>, timeout_secs: u64 },
    /// Control transfer that reads up to `len` bytes.
    ControlRead {
        request_type: u8,
        request: u8,
        value: u16,
        index: u16,
        len: usize,
        timeout_secs: u64,
    },
    /// Control transfer that writes `data`.
    ControlWrite {
        request_type: u8,
        request: u8,
        value: u16,
        index: u16,
        data: Vec<u8>,
        timeout_secs: u64,
    },
}

/// A request as contracts speak of it: byte buffers are sequences.
pub enum Request {
    KernelDriverActive { iface: u8 },
    DetachKernelDriver { iface: u8 },
    AttachKernelDriver { iface: u8 },
    SetActiveConfiguration { config: u8 },
    ClaimInterface { iface: u8 },
    ReleaseInterface { iface: u8 },
    SetAlternateSetting { iface: u8, setting: u8 },
    ClearHalt { endpoint: u8 },
    BulkRead { endpoint: u8, len: usize, timeout_secs: u64 },
    BulkWrite { endpoint: u8, data: Seq<u8>, timeout_secs: u64 },
    ControlRead {
        request_type: u8,
        request: u8,
        value: u16,
        index: u16,
        len: usize,
        timeout_secs: u64,
    },
    ControlWrite {
        request_type: u8,
        request: u8,
        value: u16,
        index: u16,
        data: Seq<u8>,
        timeout_secs: u64,
    },
}

impl View for UsbRequest {
    type V = Request;

    open spec fn view(&self) -> Request {
        match *self {
            UsbRequest::KernelDriverActive { iface } => Request::KernelDriverActive { iface },
            UsbRequest::DetachKernelDriver { iface } => Request::DetachKernelDriver { iface },
            UsbRequest::AttachKernelDriver { iface } => Request::AttachKernelDriver { iface },
            UsbRequest::SetActiveConfiguration { config } => Request::SetActiveConfiguration {
                config,
            },
            UsbRequest::ClaimInterface { iface } => Request::ClaimInterface { iface },
            UsbRequest::ReleaseInterface { iface } => Request::ReleaseInterface { iface },
            UsbRequest::SetAlternateSetting { iface, setting } => Request::SetAlternateSetting {
                iface,
                setting,
            },
            UsbRequest::ClearHalt { endpoint } => Request::ClearHalt { endpoint },
            UsbRequest::BulkRead { endpoint, len, timeout_secs } => Request::BulkRead {
                endpoint,
                len,
                timeout_secs,
            },
            UsbRequest::BulkWrite { endpoint, data, timeout_secs } => Request::BulkWrite {
                endpoint,
                data: data@,
                timeout_secs,
            },
            UsbRequest::ControlRead { request_type, request, value, index, len, timeout_secs } => {
                Request::ControlRead { request_type, request, value, index, len, timeout_secs }
            },
            UsbRequest::ControlWrite {
                request_type,
                request,
                value,
                index,
                data,
                timeout_secs,
            } => Request::ControlWrite {
                request_type,
                request,
                value,
                index,
                data: data@,
                timeout_secs,
            },
        }
    }
}

/// What the transport reports of a request that it performed.
#[derive(Debug)]
pub enum UsbReply {
    /// The operation succeeded and has nothing to report.
    Done,
    /// Answer to a question.
    Flag(bool),
    /// Number of bytes that a write transferred.
    Transferred(usize),
    /// The bytes that a read received.
    Data(Vec<u8>),
    /// The operation failed.
    Failed(rusb::Error),
}

/// A reply as contracts speak of it.
pub enum Reply {
    Done,
    Flag(bool),
    Transferred(usize),
    Data(Seq<u8>),
    Failed(rusb::Error),
}

impl View for UsbReply {
    type V = Reply;

    open spec fn view(&self) -> Reply {
        match *self {
            UsbReply::Done => Reply::Done,
            UsbReply::Flag(b) => Reply::Flag(b),
            UsbReply::Transferred(n) => Reply::Transferred(n),
            UsbReply::Data(d) => Reply::Data(d@),
            UsbReply::Failed(e) => Reply::Failed(e),
        }
    }
}

impl Reply {
    /// The failure that the reply reports, if it reports one.
    pub open spec fn failure(self) -> Option<rusb::Error> {
        match self {
            Reply::Failed(e) => Some(e),
            _ => None,
        }
    }

    /// The bytes that the reply carries; none unless it answers a read.
    pub open spec fn bytes(self) -> Seq<u8> {
        match self {
            Reply::Data(d) => d,
            _ => Seq::empty(),
        }
    }

    /// The number of bytes that the reply says were transferred.
    pub open spec fn count(self) -> nat {
        match self {
            Reply::Transferred(n) => n as nat,
            Reply::Data(d) => d.len(),
            _ => 0,
        }
    }
}

/// What comes of a bulk read: a transport failure is reported as such; with
/// `check` set, so is a read of another length than `expected`; else the
/// bytes that were read are the result.
pub open spec fn spec_bulk_read(expected: usize, check: bool, reply: Reply) -> Result<
    Seq<u8>,
    PicobootError,
> {
    match reply.failure() {
        Some(e) => Err(PicobootError::UsbReadBulkFailure(e)),
        None => if check && reply.bytes().len() != expected {
            Err(PicobootError::UsbReadBulkMismatch)
        } else {
            Ok(reply.bytes())
        },
    }
}

/// What comes of a bulk write of `len` bytes: a transport failure is
/// reported as such; with `check` set, so is a write of another length.
pub open spec fn spec_bulk_write(len: nat, check: bool, reply: Reply) -> Result<
    (),
    PicobootError,
> {
    match reply.failure() {
        Some(e) => Err(PicobootError::UsbWriteBulkFailure(e)),
        None => if check && reply.count() != len {
            Err(PicobootError::UsbWriteBulkMismatch)
        } else {
            Ok(())
        },
    }
}

/// Whether a transport failure is a timeout: `rusb::Error::Timeout`.
pub uninterp spec fn timed_out(e: rusb::Error) -> bool;

/// Tells `rusb::Error::Timeout` from the other variants of `rusb::Error`.
/// The contract gives the answer the name `timed_out` and claims no more.
#[verifier::external_body]
pub(crate) fn is_timeout(e: &rusb::Error) -> (r: bool)
    ensures
        r == timed_out(*e),
{
    matches!(e, rusb::Error::Timeout)
}

/// What comes of the acknowledgement that ends a transaction: a write of
/// one byte after a device-to-host command, else a read of one byte. It is
/// there to keep host and device in step, so neither its length nor a
/// timeout counts against it; any other failure of the transport does.
pub open spec fn spec_ack(device_to_host: bool, reply: Reply) -> Result<(), PicobootError> {
    match reply.failure() {
        Some(e) => if timed_out(e) {
            Ok(())
        } else if device_to_host {
            Err(PicobootError::UsbWriteBulkFailure(e))
        } else {
            Err(PicobootError::UsbReadBulkFailure(e))
        },
        None => Ok(()),
    }
}

/// Judges the reply to the acknowledgement of a transaction.
pub fn ack(device_to_host: bool, reply: UsbReply) -> (r: Result<(), PicobootError>)
    ensures
        r == spec_ack(device_to_host, reply@),
{
    match reply {
        UsbReply::Failed(e) => {
            if is_timeout(&e) {
                Ok(())
            } else if device_to_host {
                Err(PicobootError::UsbWriteBulkFailure(e))
            } else {
                Err(PicobootError::UsbReadBulkFailure(e))
            }
        },
        _ => Ok(()),
    }
}

/// The bytes of a result, where it has them.
pub open spec fn bytes_result(r: Result<Vec<u8>, PicobootError>) -> Result<
    Seq<u8>,
    PicobootError,
> {
    match r {
        Ok(v) => Ok(v@),
        Err(e) => Err(e),
    }
}

/// Judges the reply to a bulk read of `expected` bytes.
pub fn bulk_read(expected: usize, check: bool, reply: UsbReply) -> (r: Result<
    Vec<u8>,
    PicobootError,
>)
    ensures
        bytes_result(r) == spec_bulk_read(expected, check, reply@),
{
    match reply {
        UsbReply::Failed(e) => Err(PicobootError::UsbReadBulkFailure(e)),
        UsbReply::Data(d) => {
            if check && d.len() != expected {
                Err(PicobootError::UsbReadBulkMismatch)
            } else {
                Ok(d)
            }
        },
        _ => {
            if check && 0 != expected {
                Err(PicobootError::UsbReadBulkMismatch)
            } else {
                Ok(Vec::new())
            }
        },
    }
}

/// Judges the reply to a bulk write of `len` bytes.
pub fn bulk_write(len: usize, check: bool, reply: UsbReply) -> (r: Result<(), PicobootError>)
    ensures
        r == spec_bulk_write(len as nat, check, reply@),
{
    match reply {
        UsbReply::Failed(e) => Err(PicobootError::UsbWriteBulkFailure(e)),
        UsbReply::Transferred(n) => {
            if check && n != len {
                Err(PicobootError::UsbWriteBulkMismatch)
            } else {
                Ok(())
            }
        },
        UsbReply::Data(d) => {
            if check && d.len() != len {
                Err(PicobootError::UsbWriteBulkMismatch)
            } else {
                Ok(())
            }
        },
        _ => {
            if check && 0 != len {
                Err(PicobootError::UsbWriteBulkMismatch)
            } else {
                Ok(())
            }
        },
    }
}

/// One move of a protocol engine: either the next request, with the engine
/// that waits for its reply, or the end.
#[derive(Debug)]
pub enum Step<M, T> {
    Next(M, UsbRequest),
    Finished(Result<T, PicobootError>),
}

} // verus!
