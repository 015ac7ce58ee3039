//! Commands, status frames and their wire codec.
//!
//! See section 2.8.5 of the RP2040 datasheet for the PICOBOOT interface.
use vstd::prelude::*;
use vstd::std_specs::convert::TryFromSpecImpl;

use crate::wire::{le_u16, le_u32, u16_from_le, u32_at, u32_from_le, u32_to_le, zeros};
use crate::PICOBOOT_MAGIC;

verus! {

/// `rusb::Error`: the failure that the USB library reports of an operation.
/// Nothing is claimed of it. The engines take it in a reply and hand it on
/// inside the error that says which step failed.
#[verifier::external_type_specification]
#[verifier::external_body]
pub struct ExUsbError(rusb::Error);

/// Error type for this crate.
#[derive(Debug)]
pub enum PicobootError {
    /// USB device not found.
    UsbDeviceNotFound,
    /// Failed to get USB bulk endpoints.
    UsbEndpointsNotFound,
    /// The bulk endpoints do not share one interface setting.
    UsbEndpointsUnexpected,
    /// Failed to detach USB kernel driver.
    UsbDetachKernelDriverFailure(rusb::Error),
    /// Failed to claim USB interface.
    UsbClaimInterfaceFailure(rusb::Error),
    /// Failed to configure alt USB setting.
    UsbSetAltSettingFailure(rusb::Error),
    /// Failed to read from USB bulk endpoint.
    UsbReadBulkFailure(rusb::Error),
    /// Read data from USB does not match expected size.
    UsbReadBulkMismatch,
    /// Failed to write to USB bulk endpoint.
    UsbWriteBulkFailure(rusb::Error),
    /// Written data to USB does not match expected size.
    UsbWriteBulkMismatch,
    /// Failed to clear USB in address halt.
    UsbClearInAddrHalt(rusb::Error),
    /// Failed to clear USB out address halt.
    UsbClearOutAddrHalt(rusb::Error),
    /// Failed to reset USB interface.
    UsbResetInterfaceFailure(rusb::Error),
    /// Failed to get command status from device.
    UsbGetCommandStatusFailure(rusb::Error),
    /// A command could not be laid out as a frame. The encoder of this crate
    /// has a fixed output size and never reports it.
    CmdSerializeFailure,
    /// A status frame did not have the length of one.
    CmdDeserializeFailure,
    /// A status frame is about another command than the one asked about.
    StaleStatus,
    /// Command is not allowed for target device.
    CmdNotAllowedForTarget,
    /// Erase command address invalid.
    EraseInvalidAddr,
    /// Erase command size invalid.
    EraseInvalidSize,
    /// Write command address invalid.
    WriteInvalidAddr,
}

impl PicobootError {
    /// The short description of each error, without the transport's detail.
    pub open spec fn spec_description(&self) -> Seq<char> {
        match self {
            PicobootError::UsbDeviceNotFound => "usb device not found"@,
            PicobootError::UsbEndpointsNotFound => "failed to get usb bulk endpoints"@,
            PicobootError::UsbEndpointsUnexpected => "usb bulk endpoints are not expected"@,
            PicobootError::UsbDetachKernelDriverFailure(_) => "failed to detach usb kernel driver"@,
            PicobootError::UsbClaimInterfaceFailure(_) => "failed to claim usb interface"@,
            PicobootError::UsbSetAltSettingFailure(_) => "failed to set alt usb setting"@,
            PicobootError::UsbReadBulkFailure(_) => "failed to read bulk"@,
            PicobootError::UsbReadBulkMismatch => "read did not match expected size"@,
            PicobootError::UsbWriteBulkFailure(_) => "failed to write bulk"@,
            PicobootError::UsbWriteBulkMismatch => "write did not match expected size"@,
            PicobootError::UsbClearInAddrHalt(_) => "failed to clear in addr halt"@,
            PicobootError::UsbClearOutAddrHalt(_) => "failed to clear out addr halt"@,
            PicobootError::UsbResetInterfaceFailure(_) => "failed to reset interface"@,
            PicobootError::UsbGetCommandStatusFailure(_) => "failed to get command status"@,
            PicobootError::CmdSerializeFailure => "cmd failed to binary serialize"@,
            PicobootError::CmdDeserializeFailure => "cmd failed to binary deserialize"@,
            PicobootError::StaleStatus => "status is of another command"@,
            PicobootError::CmdNotAllowedForTarget => "cmd not allowed for target device"@,
            PicobootError::EraseInvalidAddr => "erase address invalid"@,
            PicobootError::EraseInvalidSize => "erase size invalid"@,
            PicobootError::WriteInvalidAddr => "write address invalid"@,
        }
    }

    /// A short human-readable description of the error.
    pub fn description(&self) -> (r: &'static str)
        ensures
            r@ == self.spec_description(),
    {
        match self {
            PicobootError::UsbDeviceNotFound => "usb device not found",
            PicobootError::UsbEndpointsNotFound => "failed to get usb bulk endpoints",
            PicobootError::UsbEndpointsUnexpected => "usb bulk endpoints are not expected",
            PicobootError::UsbDetachKernelDriverFailure(_) => "failed to detach usb kernel driver",
            PicobootError::UsbClaimInterfaceFailure(_) => "failed to claim usb interface",
            PicobootError::UsbSetAltSettingFailure(_) => "failed to set alt usb setting",
            PicobootError::UsbReadBulkFailure(_) => "failed to read bulk",
            PicobootError::UsbReadBulkMismatch => "read did not match expected size",
            PicobootError::UsbWriteBulkFailure(_) => "failed to write bulk",
            PicobootError::UsbWriteBulkMismatch => "write did not match expected size",
            PicobootError::UsbClearInAddrHalt(_) => "failed to clear in addr halt",
            PicobootError::UsbClearOutAddrHalt(_) => "failed to clear out addr halt",
            PicobootError::UsbResetInterfaceFailure(_) => "failed to reset interface",
            PicobootError::UsbGetCommandStatusFailure(_) => "failed to get command status",
            PicobootError::CmdSerializeFailure => "cmd failed to binary serialize",
            PicobootError::CmdDeserializeFailure => "cmd failed to binary deserialize",
            PicobootError::StaleStatus => "status is of another command",
            PicobootError::CmdNotAllowedForTarget => "cmd not allowed for target device",
            PicobootError::EraseInvalidAddr => "erase address invalid",
            PicobootError::EraseInvalidSize => "erase size invalid",
            PicobootError::WriteInvalidAddr => "write address invalid",
        }
    }

    /// The transport failure that the error wraps, where it wraps one.
    pub open spec fn spec_source(&self) -> Option<rusb::Error> {
        match self {
            PicobootError::UsbDetachKernelDriverFailure(e)
            | PicobootError::UsbClaimInterfaceFailure(e)
            | PicobootError::UsbSetAltSettingFailure(e)
            | PicobootError::UsbReadBulkFailure(e)
            | PicobootError::UsbWriteBulkFailure(e)
            | PicobootError::UsbClearInAddrHalt(e)
            | PicobootError::UsbClearOutAddrHalt(e)
            | PicobootError::UsbResetInterfaceFailure(e)
            | PicobootError::UsbGetCommandStatusFailure(e) => Some(*e),
            _ => None,
        }
    }

    /// The transport failure that the error wraps, where it wraps one.
    pub fn source(&self) -> (r: Option<rusb::Error>)
        ensures
            r == self.spec_source(),
    {
        match self {
            PicobootError::UsbDetachKernelDriverFailure(e)
            | PicobootError::UsbClaimInterfaceFailure(e)
            | PicobootError::UsbSetAltSettingFailure(e)
            | PicobootError::UsbReadBulkFailure(e)
            | PicobootError::UsbWriteBulkFailure(e)
            | PicobootError::UsbClearInAddrHalt(e)
            | PicobootError::UsbClearOutAddrHalt(e)
            | PicobootError::UsbResetInterfaceFailure(e)
            | PicobootError::UsbGetCommandStatusFailure(e) => Some(*e),
            _ => None,
        }
    }
}

/// The type of microcontroller detected as the PICOBOOT device.
#[derive(Debug, Clone, Copy, PartialEq, Eq, Structural)]
pub enum TargetID {
    /// RP2040 MCU target.
    Rp2040,
    /// RP2350 MCU target.
    Rp2350,
}

/// Command ID of commands for PICOBOOT interface.
#[derive(Debug, Clone, Copy, PartialEq, Eq, Structural)]
pub enum PicobootCmdId {
    Unknown,
    ExclusiveAccess,
    Reboot,
    FlashErase,
    /// Reads either RAM or flash.
    Read,
    /// Writes either RAM or flash (does no erase).
    Write,
    ExitXip,
    EnterCmdXip,
    Exec,
    VectorizeFlash,
    /// RP2350 only.
    Reboot2,
    /// RP2350 only.
    GetInfo,
    /// RP2350 only.
    OtpRead,
    /// RP2350 only.
    OtpWrite,
}

impl PicobootCmdId {
    /// The opcode byte of the command.
    pub open spec fn spec_value(self) -> u8 {
        match self {
            PicobootCmdId::Unknown => 0x0,
            PicobootCmdId::ExclusiveAccess => 0x1,
            PicobootCmdId::Reboot => 0x2,
            PicobootCmdId::FlashErase => 0x3,
            PicobootCmdId::Read => 0x84,
            PicobootCmdId::Write => 0x5,
            PicobootCmdId::ExitXip => 0x6,
            PicobootCmdId::EnterCmdXip => 0x7,
            PicobootCmdId::Exec => 0x8,
            PicobootCmdId::VectorizeFlash => 0x9,
            PicobootCmdId::Reboot2 => 0xA,
            PicobootCmdId::GetInfo => 0x8B,
            PicobootCmdId::OtpRead => 0x8C,
            PicobootCmdId::OtpWrite => 0xD,
        }
    }

    /// The command with opcode `x`, if there is one.
    pub open spec fn spec_from_value(x: u8) -> Option<PicobootCmdId> {
        if x == 0x0 {
            Some(PicobootCmdId::Unknown)
        } else if x == 0x1 {
            Some(PicobootCmdId::ExclusiveAccess)
        } else if x == 0x2 {
            Some(PicobootCmdId::Reboot)
        } else if x == 0x3 {
            Some(PicobootCmdId::FlashErase)
        } else if x == 0x84 {
            Some(PicobootCmdId::Read)
        } else if x == 0x5 {
            Some(PicobootCmdId::Write)
        } else if x == 0x6 {
            Some(PicobootCmdId::ExitXip)
        } else if x == 0x7 {
            Some(PicobootCmdId::EnterCmdXip)
        } else if x == 0x8 {
            Some(PicobootCmdId::Exec)
        } else if x == 0x9 {
            Some(PicobootCmdId::VectorizeFlash)
        } else if x == 0xA {
            Some(PicobootCmdId::Reboot2)
        } else if x == 0x8B {
            Some(PicobootCmdId::GetInfo)
        } else if x == 0x8C {
            Some(PicobootCmdId::OtpRead)
        } else if x == 0xD {
            Some(PicobootCmdId::OtpWrite)
        } else {
            None
        }
    }

    /// Whether the opcode's high bit is set: the data phase then runs from
    /// the device to the host.
    pub open spec fn spec_device_to_host(x: u8) -> bool {
        x >= 0x80
    }

    /// Whether `target` accepts the command.
    pub open spec fn spec_allowed_on(self, target: TargetID) -> bool {
        match self {
            PicobootCmdId::Reboot2
            | PicobootCmdId::GetInfo
            | PicobootCmdId::OtpRead
            | PicobootCmdId::OtpWrite => target == TargetID::Rp2350,
            _ => true,
        }
    }

    /// The opcode byte of the command.
    pub fn value(self) -> (r: u8)
        ensures
            r == self.spec_value(),
    {
        match self {
            PicobootCmdId::Unknown => 0x0,
            PicobootCmdId::ExclusiveAccess => 0x1,
            PicobootCmdId::Reboot => 0x2,
            PicobootCmdId::FlashErase => 0x3,
            PicobootCmdId::Read => 0x84,
            PicobootCmdId::Write => 0x5,
            PicobootCmdId::ExitXip => 0x6,
            PicobootCmdId::EnterCmdXip => 0x7,
            PicobootCmdId::Exec => 0x8,
            PicobootCmdId::VectorizeFlash => 0x9,
            PicobootCmdId::Reboot2 => 0xA,
            PicobootCmdId::GetInfo => 0x8B,
            PicobootCmdId::OtpRead => 0x8C,
            PicobootCmdId::OtpWrite => 0xD,
        }
    }

    /// Whether the command's data phase runs from the device to the host.
    pub fn is_device_to_host(self) -> (r: bool)
        ensures
            r == Self::spec_device_to_host(self.spec_value()),
            r == (self.spec_value() & 0x80 != 0),
    {
        let v: u8 = self.value();
        assert((v >= 0x80) == (v & 0x80 != 0)) by (bit_vector);
        v & 0x80 != 0
    }

    /// Whether `target` accepts the command.
    pub fn allowed_on(self, target: TargetID) -> (r: bool)
        ensures
            r == self.spec_allowed_on(target),
    {
        match self {
            PicobootCmdId::Reboot2
            | PicobootCmdId::GetInfo
            | PicobootCmdId::OtpRead
            | PicobootCmdId::OtpWrite => match target {
                TargetID::Rp2350 => true,
                TargetID::Rp2040 => false,
            },
            _ => true,
        }
    }

    /// Every command is found again from its opcode, and an opcode names at
    /// most one command.
    pub proof fn lemma_value_round_trip(id: PicobootCmdId, x: u8)
        ensures
            Self::spec_from_value(id.spec_value()) == Some(id),
            Self::spec_from_value(x) == Some(id) <==> id.spec_value() == x,
    {
    }
}

impl TryFrom<u8> for PicobootCmdId {
    type Error = ();

    fn try_from(x: u8) -> (r: Result<Self, Self::Error>) {
        match x {
            0x0 => Ok(PicobootCmdId::Unknown),
            0x1 => Ok(PicobootCmdId::ExclusiveAccess),
            0x2 => Ok(PicobootCmdId::Reboot),
            0x3 => Ok(PicobootCmdId::FlashErase),
            0x84 => Ok(PicobootCmdId::Read),
            0x5 => Ok(PicobootCmdId::Write),
            0x6 => Ok(PicobootCmdId::ExitXip),
            0x7 => Ok(PicobootCmdId::EnterCmdXip),
            0x8 => Ok(PicobootCmdId::Exec),
            0x9 => Ok(PicobootCmdId::VectorizeFlash),
            0xA => Ok(PicobootCmdId::Reboot2),
            0x8B => Ok(PicobootCmdId::GetInfo),
            0x8C => Ok(PicobootCmdId::OtpRead),
            0xD => Ok(PicobootCmdId::OtpWrite),
            _ => Err(()),
        }
    }
}

impl TryFromSpecImpl<u8> for PicobootCmdId {
    open spec fn obeys_try_from_spec() -> bool {
        true
    }

    open spec fn try_from_spec(x: u8) -> Result<Self, ()> {
        match PicobootCmdId::spec_from_value(x) {
            Some(id) => Ok(id),
            None => Err(()),
        }
    }
}

/// Status that the device reports for a command.
#[derive(Debug, Clone, Copy, PartialEq, Eq, Structural)]
pub enum PicobootStatus {
    /// The command succeeded.
    Okay,
    UnknownCmd,
    InvalidCmdLength,
    InvalidTransferLength,
    InvalidAddress,
    BadAlignment,
    InterleavedWrite,
    Rebooting,
    UnknownError,
    InvalidState,
    NotPermitted,
    InvalidArg,
    BufferTooSmall,
    PreconditionNotMet,
    ModifiedData,
    InvalidData,
    NotFound,
    UnsupportedModification,
    /// A code that the datasheet does not list, kept as it came.
    UnknownStatus(u32),
}

impl PicobootStatus {
    /// Number of the codes that the datasheet lists: they are `0..KNOWN`.
    pub const KNOWN: u32 = 18;

    /// The status code as the device sends it.
    pub open spec fn spec_code(self) -> u32 {
        match self {
            PicobootStatus::Okay => 0,
            PicobootStatus::UnknownCmd => 1,
            PicobootStatus::InvalidCmdLength => 2,
            PicobootStatus::InvalidTransferLength => 3,
            PicobootStatus::InvalidAddress => 4,
            PicobootStatus::BadAlignment => 5,
            PicobootStatus::InterleavedWrite => 6,
            PicobootStatus::Rebooting => 7,
            PicobootStatus::UnknownError => 8,
            PicobootStatus::InvalidState => 9,
            PicobootStatus::NotPermitted => 10,
            PicobootStatus::InvalidArg => 11,
            PicobootStatus::BufferTooSmall => 12,
            PicobootStatus::PreconditionNotMet => 13,
            PicobootStatus::ModifiedData => 14,
            PicobootStatus::InvalidData => 15,
            PicobootStatus::NotFound => 16,
            PicobootStatus::UnsupportedModification => 17,
            PicobootStatus::UnknownStatus(c) => c,
        }
    }

    /// The status that stands for `code`: the listed one where the datasheet
    /// has it, else the code itself.
    pub open spec fn spec_from_code(code: u32) -> PicobootStatus {
        if code == 0 {
            PicobootStatus::Okay
        } else if code == 1 {
            PicobootStatus::UnknownCmd
        } else if code == 2 {
            PicobootStatus::InvalidCmdLength
        } else if code == 3 {
            PicobootStatus::InvalidTransferLength
        } else if code == 4 {
            PicobootStatus::InvalidAddress
        } else if code == 5 {
            PicobootStatus::BadAlignment
        } else if code == 6 {
            PicobootStatus::InterleavedWrite
        } else if code == 7 {
            PicobootStatus::Rebooting
        } else if code == 8 {
            PicobootStatus::UnknownError
        } else if code == 9 {
            PicobootStatus::InvalidState
        } else if code == 10 {
            PicobootStatus::NotPermitted
        } else if code == 11 {
            PicobootStatus::InvalidArg
        } else if code == 12 {
            PicobootStatus::BufferTooSmall
        } else if code == 13 {
            PicobootStatus::PreconditionNotMet
        } else if code == 14 {
            PicobootStatus::ModifiedData
        } else if code == 15 {
            PicobootStatus::InvalidData
        } else if code == 16 {
            PicobootStatus::NotFound
        } else if code == 17 {
            PicobootStatus::UnsupportedModification
        } else {
            PicobootStatus::UnknownStatus(code)
        }
    }

    /// The status code as the device sends it.
    pub fn code(self) -> (r: u32)
        ensures
            r == self.spec_code(),
    {
        match self {
            PicobootStatus::Okay => 0,
            PicobootStatus::UnknownCmd => 1,
            PicobootStatus::InvalidCmdLength => 2,
            PicobootStatus::InvalidTransferLength => 3,
            PicobootStatus::InvalidAddress => 4,
            PicobootStatus::BadAlignment => 5,
            PicobootStatus::InterleavedWrite => 6,
            PicobootStatus::Rebooting => 7,
            PicobootStatus::UnknownError => 8,
            PicobootStatus::InvalidState => 9,
            PicobootStatus::NotPermitted => 10,
            PicobootStatus::InvalidArg => 11,
            PicobootStatus::BufferTooSmall => 12,
            PicobootStatus::PreconditionNotMet => 13,
            PicobootStatus::ModifiedData => 14,
            PicobootStatus::InvalidData => 15,
            PicobootStatus::NotFound => 16,
            PicobootStatus::UnsupportedModification => 17,
            PicobootStatus::UnknownStatus(c) => c,
        }
    }

    /// The status that stands for `code`; a code that the datasheet does not
    /// list is kept in `UnknownStatus`.
    pub fn from_code(code: u32) -> (r: PicobootStatus)
        ensures
            r == Self::spec_from_code(code),
            r.spec_code() == code,
            r is UnknownStatus <==> code >= Self::KNOWN,
    {
        match code {
            0 => PicobootStatus::Okay,
            1 => PicobootStatus::UnknownCmd,
            2 => PicobootStatus::InvalidCmdLength,
            3 => PicobootStatus::InvalidTransferLength,
            4 => PicobootStatus::InvalidAddress,
            5 => PicobootStatus::BadAlignment,
            6 => PicobootStatus::InterleavedWrite,
            7 => PicobootStatus::Rebooting,
            8 => PicobootStatus::UnknownError,
            9 => PicobootStatus::InvalidState,
            10 => PicobootStatus::NotPermitted,
            11 => PicobootStatus::InvalidArg,
            12 => PicobootStatus::BufferTooSmall,
            13 => PicobootStatus::PreconditionNotMet,
            14 => PicobootStatus::ModifiedData,
            15 => PicobootStatus::InvalidData,
            16 => PicobootStatus::NotFound,
            17 => PicobootStatus::UnsupportedModification,
            _ => PicobootStatus::UnknownStatus(code),
        }
    }
}

impl TryFrom<u32> for PicobootStatus {
    type Error = ();

    fn try_from(x: u32) -> (r: Result<Self, Self::Error>) {
        if x < PicobootStatus::KNOWN {
            Ok(PicobootStatus::from_code(x))
        } else {
            Err(())
        }
    }
}

impl TryFromSpecImpl<u32> for PicobootStatus {
    open spec fn obeys_try_from_spec() -> bool {
        true
    }

    open spec fn try_from_spec(x: u32) -> Result<Self, ()> {
        if x < PicobootStatus::KNOWN {
            Ok(PicobootStatus::spec_from_code(x))
        } else {
            Err(())
        }
    }
}

/// Arguments of the commands that name a range: an address and a size,
/// then eight zero bytes.
pub open spec fn range_args(addr: u32, size: u32) -> Seq<u8> {
    le_u32(addr) + le_u32(size) + zeros(8)
}

/// Arguments of the reboot command: program counter, stack pointer and
/// delay in milliseconds, then four zero bytes.
pub open spec fn reboot_args(pc: u32, sp: u32, delay: u32) -> Seq<u8> {
    le_u32(pc) + le_u32(sp) + le_u32(delay) + zeros(4)
}

/// Arguments of the second reboot command: flags, delay in milliseconds and
/// two parameters.
pub open spec fn reboot2_args(flags: u32, delay: u32, p0: u32, p1: u32) -> Seq<u8> {
    le_u32(flags) + le_u32(delay) + le_u32(p0) + le_u32(p1)
}

/// Arguments of the exclusive-access command: the mode, then zero bytes.
pub open spec fn exclusive_args(mode: u8) -> Seq<u8> {
    seq![mode] + zeros(15)
}

/// Lays four words out as sixteen bytes, each word little-endian.
fn pack_words(w0: u32, w1: u32, w2: u32, w3: u32) -> (r: [u8; 16])
    ensures
        r@ == le_u32(w0) + le_u32(w1) + le_u32(w2) + le_u32(w3),
{
    let a = u32_to_le(w0);
    let b = u32_to_le(w1);
    let c = u32_to_le(w2);
    let d = u32_to_le(w3);
    let r = [
        a[0], a[1], a[2], a[3],
        b[0], b[1], b[2], b[3],
        c[0], c[1], c[2], c[3],
        d[0], d[1], d[2], d[3],
    ];
    assert(r@ =~= le_u32(w0) + le_u32(w1) + le_u32(w2) + le_u32(w3));
    r
}

/// Arguments of a command on a range of memory.
#[derive(Debug, Clone)]
pub struct PicobootRangeCmd {
    addr: u32,
    size: u32,
}

impl PicobootRangeCmd {
    /// The argument bytes for the range of `size` bytes at `addr`.
    pub fn ser(addr: u32, size: u32) -> (r: [u8; 16])
        ensures
            r@ == range_args(addr, size),
    {
        let c = PicobootRangeCmd { addr, size };
        let r = pack_words(c.addr, c.size, 0, 0);
        assert(r@ =~= range_args(addr, size));
        r
    }
}

/// Arguments of the reboot command.
#[derive(Debug, Clone)]
pub struct PicobootRebootCmd {
    pc: u32,
    sp: u32,
    delay: u32,
}

impl PicobootRebootCmd {
    /// The argument bytes for a reboot to `pc` with stack `sp` after `delay`
    /// milliseconds.
    pub fn ser(pc: u32, sp: u32, delay: u32) -> (r: [u8; 16])
        ensures
            r@ == reboot_args(pc, sp, delay),
    {
        let c = PicobootRebootCmd { pc, sp, delay };
        let r = pack_words(c.pc, c.sp, c.delay, 0);
        assert(r@ =~= reboot_args(pc, sp, delay));
        r
    }
}

/// Arguments of the second reboot command.
#[derive(Debug, Clone)]
pub struct PicobootReboot2Cmd {
    flags: u32,
    delay: u32,
    p0: u32,
    p1: u32,
}

impl PicobootReboot2Cmd {
    /// The argument bytes for a reboot of the kind that `flags` selects.
    pub fn ser(flags: u32, delay: u32, p0: u32, p1: u32) -> (r: [u8; 16])
        ensures
            r@ == reboot2_args(flags, delay, p0, p1),
    {
        let c = PicobootReboot2Cmd { flags, delay, p0, p1 };
        pack_words(c.flags, c.delay, c.p0, c.p1)
    }
}

/// What a status frame says, field by field.
pub struct StatusFrame {
    pub token: u32,
    pub status_code: u32,
    pub cmd_id: u8,
    pub in_progress: u8,
    pub reserved: Seq<u8>,
}

/// Length of a status frame on the wire.
pub const STATUS_FRAME_LEN: usize = 16;

/// Length of a command frame on the wire.
pub const COMMAND_FRAME_LEN: usize = 32;

/// The sixteen bytes of a status frame.
pub open spec fn status_bytes(f: StatusFrame) -> Seq<u8> {
    le_u32(f.token) + le_u32(f.status_code) + seq![f.cmd_id, f.in_progress] + f.reserved
}

/// The status frame that sixteen bytes hold.
pub open spec fn parse_status(b: Seq<u8>) -> StatusFrame
    recommends
        b.len() == STATUS_FRAME_LEN,
{
    StatusFrame {
        token: u32_from_le(b.subrange(0, 4)),
        status_code: u32_from_le(b.subrange(4, 8)),
        cmd_id: b[8],
        in_progress: b[9],
        reserved: b.subrange(10, 16),
    }
}

/// Status of the last command, as the device reports it.
#[derive(Debug, Clone)]
pub struct PicobootStatusCmd {
    token: u32,
    status_code: u32,
    cmd_id: u8,
    in_progress: u8,
    _unused: [u8; 6],
}

impl View for PicobootStatusCmd {
    type V = StatusFrame;

    closed spec fn view(&self) -> StatusFrame {
        StatusFrame {
            token: self.token,
            status_code: self.status_code,
            cmd_id: self.cmd_id,
            in_progress: self.in_progress,
            reserved: self._unused@,
        }
    }
}

impl PicobootStatusCmd {
    /// A status frame with the given fields and a zero reserved part.
    pub fn new(token: u32, status_code: u32, cmd_id: u8, in_progress: u8) -> (r: Self)
        ensures
            r@ == (StatusFrame { token, status_code, cmd_id, in_progress, reserved: zeros(6) }),
    {
        let r = PicobootStatusCmd { token, status_code, cmd_id, in_progress, _unused: [0u8; 6] };
        assert(r._unused@ =~= zeros(6));
        r
    }

    /// Token of the command that the status is about.
    pub fn get_token(&self) -> (r: u32)
        ensures
            r == self@.token,
    {
        self.token
    }

    /// The reported status; a code that the datasheet does not list comes
    /// back in `UnknownStatus`.
    pub fn get_status_code(&self) -> (r: PicobootStatus)
        ensures
            r == PicobootStatus::spec_from_code(self@.status_code),
            r.spec_code() == self@.status_code,
    {
        PicobootStatus::from_code(self.status_code)
    }

    /// Opcode of the command that the status is about.
    pub fn get_cmd_id(&self) -> (r: u8)
        ensures
            r == self@.cmd_id,
    {
        self.cmd_id
    }

    /// Non-zero while the command is still running.
    pub fn get_in_progress(&self) -> (r: u8)
        ensures
            r == self@.in_progress,
    {
        self.in_progress
    }

    /// Checks that the status is about the command that went out under
    /// `expected`: the device echoes the token, and a status that arrives
    /// late carries the token of an earlier command.
    pub fn verify_token(&self, expected: u32) -> (r: Result<(), PicobootError>)
        ensures
            r is Ok <==> self@.token == expected,
            r matches Err(e) ==> e == PicobootError::StaleStatus,
    {
        if self.token == expected {
            Ok(())
        } else {
            Err(PicobootError::StaleStatus)
        }
    }
}

/// Lays a status frame out as its sixteen bytes.
pub fn encode_status(frame: &PicobootStatusCmd) -> (r: [u8; 16])
    ensures
        r@ == status_bytes(frame@),
        r@.len() == STATUS_FRAME_LEN,
{
    let t = u32_to_le(frame.token);
    let s = u32_to_le(frame.status_code);
    let r = [
        t[0], t[1], t[2], t[3],
        s[0], s[1], s[2], s[3],
        frame.cmd_id, frame.in_progress,
        frame._unused[0], frame._unused[1], frame._unused[2],
        frame._unused[3], frame._unused[4], frame._unused[5],
    ];
    assert(r@ =~= status_bytes(frame@));
    r
}

/// Reads a status frame from the bytes of a status query.
///
/// Succeeds exactly on a buffer of sixteen bytes; the status code is kept
/// whatever its value.
pub fn decode_status(bytes: &[u8]) -> (r: Result<PicobootStatusCmd, PicobootError>)
    ensures
        bytes@.len() == STATUS_FRAME_LEN <==> r is Ok,
        r matches Ok(s) ==> s@ == parse_status(bytes@),
        r matches Err(e) ==> e == PicobootError::CmdDeserializeFailure,
{
    if bytes.len() != STATUS_FRAME_LEN {
        return Err(PicobootError::CmdDeserializeFailure);
    }
    let s = PicobootStatusCmd {
        token: u32_at(bytes, 0),
        status_code: u32_at(bytes, 4),
        cmd_id: bytes[8],
        in_progress: bytes[9],
        _unused: [bytes[10], bytes[11], bytes[12], bytes[13], bytes[14], bytes[15]],
    };
    assert(s._unused@ =~= bytes@.subrange(10, 16));
    Ok(s)
}

/// The parts of a concatenation are found again at their offsets.
proof fn lemma_parts(a: Seq<u8>, b: Seq<u8>, c: Seq<u8>, d: Seq<u8>)
    ensures
        ({
            let s = a + b + c + d;
            let i: int = a.len() as int;
            let j: int = i + b.len();
            let k: int = j + c.len();
            &&& s.len() == k + d.len()
            &&& s.subrange(0, i) == a
            &&& s.subrange(i, j) == b
            &&& s.subrange(j, k) == c
            &&& s.subrange(k, k + d.len()) == d
        }),
{
    let s = a + b + c + d;
    let i: int = a.len() as int;
    let j: int = i + b.len();
    let k: int = j + c.len();
    assert(s.subrange(0, i) =~= a);
    assert(s.subrange(i, j) =~= b);
    assert(s.subrange(j, k) =~= c);
    assert(s.subrange(k, k + d.len()) =~= d);
}

/// A status frame is read back from its bytes as it was.
pub proof fn lemma_status_round_trip(f: StatusFrame)
    requires
        f.reserved.len() == 6,
    ensures
        status_bytes(f).len() == STATUS_FRAME_LEN,
        parse_status(status_bytes(f)) == f,
{
    let head = seq![f.cmd_id, f.in_progress];
    crate::wire::lemma_le_u32_round_trip(f.token);
    crate::wire::lemma_le_u32_round_trip(f.status_code);
    lemma_parts(le_u32(f.token), le_u32(f.status_code), head, f.reserved);
    let b = status_bytes(f);
    assert(b[8] == head[0] && b[9] == head[1]) by {
        assert(b.subrange(8, 10) == head);
        assert(b.subrange(8, 10)[0] == b[8]);
        assert(b.subrange(8, 10)[1] == b[9]);
    }
}

/// Sixteen bytes are laid out again as they were from the status frame that
/// they hold.
pub proof fn lemma_status_bytes_round_trip(b: Seq<u8>)
    requires
        b.len() == STATUS_FRAME_LEN,
    ensures
        status_bytes(parse_status(b)) == b,
{
    crate::wire::lemma_le_u32_bytes_round_trip(b.subrange(0, 4));
    crate::wire::lemma_le_u32_bytes_round_trip(b.subrange(4, 8));
    assert(status_bytes(parse_status(b)) =~= b);
}

/// What a command frame says, field by field.
pub struct CommandFrame {
    pub magic: u32,
    pub token: u32,
    pub cmd_id: u8,
    pub cmd_size: u8,
    pub reserved: u16,
    pub transfer_len: u32,
    pub args: Seq<u8>,
}

/// The address that the arguments of a range command open with.
pub open spec fn range_addr(f: CommandFrame) -> u32
    recommends
        f.args.len() == 16,
{
    u32_from_le(f.args.subrange(0, 4))
}

/// The size that follows the address in the arguments of a range command.
pub open spec fn range_size(f: CommandFrame) -> u32
    recommends
        f.args.len() == 16,
{
    u32_from_le(f.args.subrange(4, 8))
}

/// The frame of a command that has no token yet.
pub open spec fn frame_of(id: PicobootCmdId, cmd_size: u8, transfer_len: u32, args: Seq<u8>)
    -> CommandFrame {
    CommandFrame {
        magic: PICOBOOT_MAGIC,
        token: 0,
        cmd_id: id.spec_value(),
        cmd_size,
        reserved: 0,
        transfer_len,
        args,
    }
}

/// The thirty-two bytes of a command frame.
pub open spec fn frame_bytes(f: CommandFrame) -> Seq<u8> {
    le_u32(f.magic) + le_u32(f.token) + seq![f.cmd_id, f.cmd_size] + le_u16(f.reserved) + le_u32(
        f.transfer_len,
    ) + f.args
}

/// The command frame that thirty-two bytes hold.
pub open spec fn parse_frame(b: Seq<u8>) -> CommandFrame
    recommends
        b.len() == COMMAND_FRAME_LEN,
{
    CommandFrame {
        magic: u32_from_le(b.subrange(0, 4)),
        token: u32_from_le(b.subrange(4, 8)),
        cmd_id: b[8],
        cmd_size: b[9],
        reserved: u16_from_le(b.subrange(10, 12)),
        transfer_len: u32_from_le(b.subrange(12, 16)),
        args: b.subrange(16, 32),
    }
}

/// Command structure for PICOBOOT interface.
///
/// The builders make well-formed commands but run no check on whether a
/// command is safe to send: the connection does that.
#[derive(Debug, Clone)]
pub struct PicobootCmd {
    /// Token that ties the command to its status.
    token: u32,
    /// What the command is. The opcode's top bit gives the direction of the
    /// data phase.
    cmd_id: PicobootCmdId,
    /// Number of meaningful bytes in `args`.
    cmd_size: u8,
    /// Number of bytes of the data phase.
    transfer_len: u32,
    /// Command specific arguments, padded with zeros.
    args: [u8; 16],
}

impl View for PicobootCmd {
    type V = CommandFrame;

    closed spec fn view(&self) -> CommandFrame {
        CommandFrame {
            magic: PICOBOOT_MAGIC,
            token: self.token,
            cmd_id: self.cmd_id.spec_value(),
            cmd_size: self.cmd_size,
            reserved: 0,
            transfer_len: self.transfer_len,
            args: self.args@,
        }
    }
}

impl PicobootCmd {
    /// What holds of the frame of every command: the magic number opens it,
    /// the reserved word is zero, the opcode is a known one and the
    /// arguments fill sixteen bytes.
    pub open spec fn spec_well_formed(f: CommandFrame) -> bool {
        &&& f.magic == PICOBOOT_MAGIC
        &&& f.reserved == 0
        &&& f.args.len() == 16
        &&& PicobootCmdId::spec_from_value(f.cmd_id) is Some
    }

    /// Every command has a well-formed frame.
    pub proof fn lemma_well_formed(&self)
        ensures
            Self::spec_well_formed(self@),
    {
        PicobootCmdId::lemma_value_round_trip(self.cmd_id, 0);
    }

    /// Creates a command with token zero.
    pub fn new(cmd_id: PicobootCmdId, cmd_size: u8, transfer_len: u32, args: [u8; 16]) -> (r: Self)
        ensures
            r@ == frame_of(cmd_id, cmd_size, transfer_len, args@),
    {
        PicobootCmd { token: 0, cmd_id, cmd_size, transfer_len, args }
    }

    /// The same command under `token`.
    pub fn set_token(self, token: u32) -> (r: Self)
        ensures
            r@ == (CommandFrame { token, ..self@ }),
    {
        let mut c = self;
        c.token = token;
        c
    }

    /// Number of bytes of the data phase; zero when there is none.
    pub fn get_transfer_len(&self) -> (r: u32)
        ensures
            r == self@.transfer_len,
    {
        self.transfer_len
    }

    /// What the command is.
    pub fn get_cmd_id(&self) -> (r: PicobootCmdId)
        ensures
            r.spec_value() == self@.cmd_id,
            PicobootCmdId::spec_from_value(self@.cmd_id) == Some(r),
    {
        proof {
            PicobootCmdId::lemma_value_round_trip(self.cmd_id, 0);
        }
        self.cmd_id
    }

    /// Token of the command.
    pub fn get_token(&self) -> (r: u32)
        ensures
            r == self@.token,
    {
        self.token
    }

    /// The address that the arguments open with; what a command on a range
    /// of memory is about.
    pub fn get_addr(&self) -> (r: u32)
        ensures
            r == range_addr(self@),
    {
        u32_at(self.args.as_slice(), 0)
    }

    /// The size that follows the address in the arguments.
    pub fn get_size(&self) -> (r: u32)
        ensures
            r == range_size(self@),
    {
        u32_at(self.args.as_slice(), 4)
    }

    /// Creates an EXCLUSIVE_ACCESS command.
    pub fn exclusive_access(exclusive: u8) -> (r: Self)
        ensures
            r@ == frame_of(PicobootCmdId::ExclusiveAccess, 1, 0, exclusive_args(exclusive)),
    {
        let mut args = [0u8; 16];
        args[0] = exclusive;
        assert(args@ =~= exclusive_args(exclusive));
        PicobootCmd::new(PicobootCmdId::ExclusiveAccess, 1, 0, args)
    }

    /// Creates a REBOOT command.
    pub fn reboot(pc: u32, sp: u32, delay: u32) -> (r: Self)
        ensures
            r@ == frame_of(PicobootCmdId::Reboot, 12, 0, reboot_args(pc, sp, delay)),
    {
        let args = PicobootRebootCmd::ser(pc, sp, delay);
        PicobootCmd::new(PicobootCmdId::Reboot, 12, 0, args)
    }

    /// Creates a REBOOT2 command for a normal boot.
    pub fn reboot2_normal(delay: u32) -> (r: Self)
        ensures
            r@ == frame_of(PicobootCmdId::Reboot2, 16, 0, reboot2_args(0, delay, 0, 0)),
    {
        let flags: u32 = 0x0;
        let args = PicobootReboot2Cmd::ser(flags, delay, 0, 0);
        PicobootCmd::new(PicobootCmdId::Reboot2, 0x10, 0, args)
    }

    /// Creates a FLASH_ERASE command.
    pub fn flash_erase(addr: u32, size: u32) -> (r: Self)
        ensures
            r@ == frame_of(PicobootCmdId::FlashErase, 8, 0, range_args(addr, size)),
    {
        let args = PicobootRangeCmd::ser(addr, size);
        PicobootCmd::new(PicobootCmdId::FlashErase, 8, 0, args)
    }

    /// Creates a WRITE command; the data phase carries `size` bytes.
    pub fn flash_write(addr: u32, size: u32) -> (r: Self)
        ensures
            r@ == frame_of(PicobootCmdId::Write, 8, size, range_args(addr, size)),
            r@.transfer_len == size,
    {
        let args = PicobootRangeCmd::ser(addr, size);
        PicobootCmd::new(PicobootCmdId::Write, 8, size, args)
    }

    /// Creates a READ command; the data phase carries `size` bytes.
    pub fn flash_read(addr: u32, size: u32) -> (r: Self)
        ensures
            r@ == frame_of(PicobootCmdId::Read, 8, size, range_args(addr, size)),
            r@.transfer_len == size,
    {
        let args = PicobootRangeCmd::ser(addr, size);
        PicobootCmd::new(PicobootCmdId::Read, 8, size, args)
    }

    /// Creates an ENTER_XIP command.
    pub fn enter_xip() -> (r: Self)
        ensures
            r@ == frame_of(PicobootCmdId::EnterCmdXip, 0, 0, zeros(16)),
    {
        let args = [0u8; 16];
        assert(args@ =~= zeros(16));
        PicobootCmd::new(PicobootCmdId::EnterCmdXip, 0, 0, args)
    }

    /// Creates an EXIT_XIP command.
    pub fn exit_xip() -> (r: Self)
        ensures
            r@ == frame_of(PicobootCmdId::ExitXip, 0, 0, zeros(16)),
    {
        let args = [0u8; 16];
        assert(args@ =~= zeros(16));
        PicobootCmd::new(PicobootCmdId::ExitXip, 0, 0, args)
    }
}

/// Lays a command out as the thirty-two bytes of its frame, as they go on
/// the wire.
pub fn encode_command(frame: &PicobootCmd) -> (r: [u8; 32])
    ensures
        r@ == frame_bytes(frame@),
        r@.len() == COMMAND_FRAME_LEN,
        r@.subrange(0, 4) == le_u32(PICOBOOT_MAGIC),
{
    let m = u32_to_le(PICOBOOT_MAGIC);
    let t = u32_to_le(frame.token);
    let l = u32_to_le(frame.transfer_len);
    let a = &frame.args;
    let r = [
        m[0], m[1], m[2], m[3],
        t[0], t[1], t[2], t[3],
        frame.cmd_id.value(), frame.cmd_size, 0u8, 0u8,
        l[0], l[1], l[2], l[3],
        a[0], a[1], a[2], a[3], a[4], a[5], a[6], a[7],
        a[8], a[9], a[10], a[11], a[12], a[13], a[14], a[15],
    ];
    assert(r@ =~= frame_bytes(frame@));
    assert(r@.subrange(0, 4) =~= le_u32(PICOBOOT_MAGIC));
    r
}

/// A command frame is read back from its bytes as it was.
pub proof fn lemma_frame_round_trip(f: CommandFrame)
    requires
        f.args.len() == 16,
    ensures
        frame_bytes(f).len() == COMMAND_FRAME_LEN,
        frame_bytes(f).subrange(0, 4) == le_u32(f.magic),
        parse_frame(frame_bytes(f)) == f,
{
    let ids = seq![f.cmd_id, f.cmd_size];
    let head = le_u32(f.magic) + le_u32(f.token) + ids + le_u16(f.reserved);
    crate::wire::lemma_le_u32_round_trip(f.magic);
    crate::wire::lemma_le_u32_round_trip(f.token);
    crate::wire::lemma_le_u32_round_trip(f.transfer_len);
    crate::wire::lemma_le_u16_round_trip(f.reserved);
    lemma_parts(le_u32(f.magic), le_u32(f.token), ids, le_u16(f.reserved));
    lemma_parts(head, le_u32(f.transfer_len), f.args, Seq::<u8>::empty());
    let b = frame_bytes(f);
    assert(b =~= head + le_u32(f.transfer_len) + f.args + Seq::<u8>::empty());
    assert(b.subrange(0, 12) == head);
    assert(b.subrange(0, 4) =~= head.subrange(0, 4));
    assert(b.subrange(4, 8) =~= head.subrange(4, 8));
    assert(b.subrange(10, 12) =~= head.subrange(10, 12));
    assert(b[8] == ids[0] && b[9] == ids[1]) by {
        assert(head.subrange(8, 10) == ids);
        assert(head.subrange(8, 10)[0] == head[8]);
        assert(head.subrange(8, 10)[1] == head[9]);
        assert(b.subrange(0, 12)[8] == b[8]);
        assert(b.subrange(0, 12)[9] == b[9]);
    }
}

/// The bytes of every command open with the magic number, fill a frame and
/// hold the command's fields where a reader of the packed layout finds them.
pub proof fn lemma_command_round_trip(cmd: PicobootCmd)
    ensures
        frame_bytes(cmd@).len() == COMMAND_FRAME_LEN,
        frame_bytes(cmd@).subrange(0, 4) == le_u32(PICOBOOT_MAGIC),
        parse_frame(frame_bytes(cmd@)) == cmd@,
{
    cmd.lemma_well_formed();
    lemma_frame_round_trip(cmd@);
}

/// The address and size of a range command are read back from its
/// arguments, and the rest of the arguments is zero.
pub proof fn lemma_range_args(addr: u32, size: u32)
    ensures
        range_args(addr, size).len() == 16,
        u32_from_le(range_args(addr, size).subrange(0, 4)) == addr,
        u32_from_le(range_args(addr, size).subrange(4, 8)) == size,
        range_args(addr, size).subrange(8, 16) == zeros(8),
{
    crate::wire::lemma_le_u32_round_trip(addr);
    crate::wire::lemma_le_u32_round_trip(size);
    lemma_parts(le_u32(addr), le_u32(size), zeros(8), Seq::<u8>::empty());
    assert(range_args(addr, size) =~= le_u32(addr) + le_u32(size) + zeros(8) + Seq::<u8>::empty());
}

/// The magic number on the wire: `0B D1 1F 43`.
pub proof fn lemma_magic_bytes()
    ensures
        le_u32(PICOBOOT_MAGIC) == seq![0x0Bu8, 0xD1u8, 0x1Fu8, 0x43u8],
{
    assert(le_u32(PICOBOOT_MAGIC) =~= seq![0x0Bu8, 0xD1u8, 0x1Fu8, 0x43u8]);
}

/// In a read and in a write command the transfer length is the size of the
/// range, and the size is what the arguments hold after the address.
pub proof fn lemma_transfer_len_is_size(id: PicobootCmdId, addr: u32, size: u32)
    requires
        id == PicobootCmdId::Read || id == PicobootCmdId::Write,
    ensures
        frame_of(id, 8, size, range_args(addr, size)).transfer_len == size,
        u32_from_le(frame_of(id, 8, size, range_args(addr, size)).args.subrange(4, 8)) == size,
        u32_from_le(frame_of(id, 8, size, range_args(addr, size)).args.subrange(0, 4)) == addr,
{
    lemma_range_args(addr, size);
}

/// A status frame that is encoded and decoded again is the same frame.
pub proof fn lemma_status_decode_encode(s: PicobootStatusCmd)
    ensures
        status_bytes(s@).len() == STATUS_FRAME_LEN,
        parse_status(status_bytes(s@)) == s@,
{
    lemma_status_round_trip(s@);
}

/// The arguments of the commands on the first sector and the first page of
/// flash, and of a reboot into flash after half a second, byte by byte.
pub proof fn lemma_flash_base_args()
    ensures
        range_args(0x10000000, 0x1000) == seq![
            0x00u8, 0x00u8, 0x00u8, 0x10u8, 0x00u8, 0x10u8, 0x00u8, 0x00u8,
            0u8, 0u8, 0u8, 0u8, 0u8, 0u8, 0u8, 0u8,
        ],
        range_args(0x10000000, 256) == seq![
            0x00u8, 0x00u8, 0x00u8, 0x10u8, 0x00u8, 0x01u8, 0x00u8, 0x00u8,
            0u8, 0u8, 0u8, 0u8, 0u8, 0u8, 0u8, 0u8,
        ],
        reboot_args(0, 0x20042000, 500) == seq![
            0x00u8, 0x00u8, 0x00u8, 0x00u8, 0x00u8, 0x20u8, 0x04u8, 0x20u8,
            0xF4u8, 0x01u8, 0x00u8, 0x00u8, 0u8, 0u8, 0u8, 0u8,
        ],
{
    assert(range_args(0x10000000, 0x1000) =~= seq![
        0x00u8, 0x00u8, 0x00u8, 0x10u8, 0x00u8, 0x10u8, 0x00u8, 0x00u8,
        0u8, 0u8, 0u8, 0u8, 0u8, 0u8, 0u8, 0u8,
    ]);
    assert(range_args(0x10000000, 256) =~= seq![
        0x00u8, 0x00u8, 0x00u8, 0x10u8, 0x00u8, 0x01u8, 0x00u8, 0x00u8,
        0u8, 0u8, 0u8, 0u8, 0u8, 0u8, 0u8, 0u8,
    ]);
    assert(reboot_args(0, 0x20042000, 500) =~= seq![
        0x00u8, 0x00u8, 0x00u8, 0x00u8, 0x00u8, 0x20u8, 0x04u8, 0x20u8,
        0xF4u8, 0x01u8, 0x00u8, 0x00u8, 0u8, 0u8, 0u8, 0u8,
    ]);
}

} // verus!
