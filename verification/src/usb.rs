//! The connection to a PICOBOOT device and the engines that drive it: the
//! attach sequence, the command transaction, the interface reset and the
//! teardown.
use vstd::prelude::*;
use vstd::slice::slice_to_vec;

use crate::cmd::{
    decode_status, encode_command, exclusive_args, frame_bytes, frame_of, lemma_range_args,
    parse_status, range_addr, range_args, range_size, reboot2_args, reboot_args, CommandFrame,
    PicobootCmd, PicobootCmdId, PicobootError, PicobootStatusCmd, TargetID, COMMAND_FRAME_LEN,
    STATUS_FRAME_LEN,
};
use crate::descriptor::{
    find_bulk_endpoints, first_device, open_device, spec_find_bulk_endpoints, ConfigDescriptor,
    DeviceId, EndpointBinding,
};
use crate::transport::{
    ack, bulk_read, bulk_write, bytes_result, spec_ack, spec_bulk_read, spec_bulk_write, Reply,
    Request, Step,
    UsbReply, UsbRequest, BULK_READ_TIMEOUT_SECS, BULK_WRITE_TIMEOUT_SECS, CONTROL_TIMEOUT_SECS,
    PICOBOOT_CLASS, PICOBOOT_PROTOCOL, PICOBOOT_SUBCLASS, RESET_REQUEST, RESET_REQUEST_TYPE,
    STATUS_REQUEST, STATUS_REQUEST_TYPE,
};
use crate::wire::zeros;
use crate::{
    PICOBOOT_PID_RP2040, PICOBOOT_PID_RP2350, PICOBOOT_VID, PICO_PAGE_SIZE, PICO_SECTOR_SIZE,
};

verus! {

/// The target that a vendor and product id given by the caller stand for:
/// the RP2040 pair is an RP2040, anything else is taken for an RP2350.
pub open spec fn spec_target_for(vid: u16, pid: u16) -> TargetID {
    if vid == PICOBOOT_VID && pid == PICOBOOT_PID_RP2040 {
        TargetID::Rp2040
    } else {
        TargetID::Rp2350
    }
}

/// The device that a connection is made to, and its target: with ids given,
/// the first device that has them; with none, the first RP2040, and the
/// first RP2350 only where there is no RP2040.
pub open spec fn spec_select_device(
    devices: Seq<Option<DeviceId>>,
    vidpid: Option<(u16, u16)>,
) -> Result<(int, TargetID), PicobootError> {
    match vidpid {
        Some((vid, pid)) => match first_device(
            devices,
            DeviceId { vendor_id: vid, product_id: pid },
        ) {
            Some(k) => Ok((k, spec_target_for(vid, pid))),
            None => Err(PicobootError::UsbDeviceNotFound),
        },
        None => match first_device(
            devices,
            DeviceId { vendor_id: PICOBOOT_VID, product_id: PICOBOOT_PID_RP2040 },
        ) {
            Some(k) => Ok((k, TargetID::Rp2040)),
            None => match first_device(
                devices,
                DeviceId { vendor_id: PICOBOOT_VID, product_id: PICOBOOT_PID_RP2350 },
            ) {
                Some(k) => Ok((k, TargetID::Rp2350)),
                None => Err(PicobootError::UsbDeviceNotFound),
            },
        },
    }
}

/// The status query on interface `iface`.
pub open spec fn status_query(iface: u8) -> Request {
    Request::ControlRead {
        request_type: STATUS_REQUEST_TYPE,
        request: STATUS_REQUEST,
        value: 0,
        index: iface as u16,
        len: STATUS_FRAME_LEN,
        timeout_secs: CONTROL_TIMEOUT_SECS,
    }
}

/// What a connection holds, as contracts speak of it.
pub struct ConnectionState {
    pub binding: EndpointBinding,
    /// Token of the next command.
    pub cmd_token: u32,
    /// Whether a kernel driver was detached when the connection was made.
    pub has_kernel_driver: bool,
    pub target_id: TargetID,
}

/// The request that a transaction waits on.
#[derive(Debug, Clone, Copy, PartialEq, Eq, Structural)]
pub enum Phase {
    /// The command frame, on bulk OUT.
    Command,
    /// The status query after the command frame.
    CommandStatus,
    /// The data phase.
    Data,
    /// The status query after the data phase.
    DataStatus,
    /// The acknowledgement, against the direction of the data phase.
    Ack,
}

/// A transaction, as contracts speak of it.
pub struct TransactionState {
    pub frame: CommandFrame,
    /// What the host sends in the data phase of a host-to-device command.
    pub payload: Seq<u8>,
    pub iface: u8,
    pub in_addr: u8,
    pub out_addr: u8,
    pub phase: Phase,
    /// What the data phase of a device-to-host command has read.
    pub received: Seq<u8>,
}

/// Where a transaction stands after a reply.
pub enum Progress {
    Continue(TransactionState),
    Finished(Result<Seq<u8>, PicobootError>),
}

impl TransactionState {
    /// Whether the data phase runs from the device to the host: the high
    /// bit of the opcode says so, and nothing else.
    pub open spec fn device_to_host(self) -> bool {
        PicobootCmdId::spec_device_to_host(self.frame.cmd_id)
    }

    /// The request that the transaction waits on.
    pub open spec fn pending(self) -> Request {
        match self.phase {
            Phase::Command => Request::BulkWrite {
                endpoint: self.out_addr,
                data: frame_bytes(self.frame),
                timeout_secs: BULK_WRITE_TIMEOUT_SECS,
            },
            Phase::CommandStatus | Phase::DataStatus => status_query(self.iface),
            Phase::Data => if self.device_to_host() {
                Request::BulkRead {
                    endpoint: self.in_addr,
                    len: self.frame.transfer_len as usize,
                    timeout_secs: BULK_READ_TIMEOUT_SECS,
                }
            } else {
                Request::BulkWrite {
                    endpoint: self.out_addr,
                    data: self.payload,
                    timeout_secs: BULK_WRITE_TIMEOUT_SECS,
                }
            },
            Phase::Ack => if self.device_to_host() {
                Request::BulkWrite {
                    endpoint: self.out_addr,
                    data: zeros(1),
                    timeout_secs: BULK_WRITE_TIMEOUT_SECS,
                }
            } else {
                Request::BulkRead {
                    endpoint: self.in_addr,
                    len: 1,
                    timeout_secs: BULK_READ_TIMEOUT_SECS,
                }
            },
        }
    }

    /// Number of bytes that the transaction ends with where it ends well:
    /// as many as the frame announces for a command that reads, and none
    /// for any other.
    pub open spec fn result_len(self) -> nat {
        if self.device_to_host() {
            self.frame.transfer_len as usize as nat
        } else {
            0
        }
    }

    /// Number of bytes that the transaction has read in its data phase, by
    /// what its phase and its frame say.
    pub open spec fn expected_received(self) -> nat {
        if self.device_to_host() && self.frame.transfer_len != 0 && (self.phase
            == Phase::DataStatus || self.phase == Phase::Ack) {
            self.frame.transfer_len as usize as nat
        } else {
            0
        }
    }

    /// Whether the transaction holds as many bytes as it should have read.
    /// The data phase is never entered with a transfer length of zero.
    pub open spec fn consistent(self) -> bool {
        &&& self.received.len() == self.expected_received()
        &&& (self.phase == Phase::Data || self.phase == Phase::DataStatus)
            ==> self.frame.transfer_len != 0
    }

    /// The same transaction in another phase.
    pub open spec fn at(self, phase: Phase) -> TransactionState {
        TransactionState { phase, ..self }
    }

    /// Where the transaction stands after the reply to the pending request.
    ///
    /// A failed or short transfer of the frame or of the data ends it. What
    /// the status queries report is ignored, a failure too. The data phase
    /// is left out exactly when the transfer length is zero. In the
    /// acknowledgement neither the length nor a timeout counts; any other
    /// failure of the transport ends the transaction as failed.
    pub open spec fn advance(self, reply: Reply) -> Progress {
        match self.phase {
            Phase::Command => match spec_bulk_write(COMMAND_FRAME_LEN as nat, true, reply) {
                Err(e) => Progress::Finished(Err(e)),
                Ok(_) => Progress::Continue(self.at(Phase::CommandStatus)),
            },
            Phase::CommandStatus => if self.frame.transfer_len == 0 {
                Progress::Continue(self.at(Phase::Ack))
            } else {
                Progress::Continue(self.at(Phase::Data))
            },
            Phase::Data => if self.device_to_host() {
                match spec_bulk_read(self.frame.transfer_len as usize, true, reply) {
                    Err(e) => Progress::Finished(Err(e)),
                    Ok(d) => Progress::Continue(
                        TransactionState { phase: Phase::DataStatus, received: d, ..self },
                    ),
                }
            } else {
                match spec_bulk_write(self.payload.len(), true, reply) {
                    Err(e) => Progress::Finished(Err(e)),
                    Ok(_) => Progress::Continue(self.at(Phase::DataStatus)),
                }
            },
            Phase::DataStatus => Progress::Continue(self.at(Phase::Ack)),
            Phase::Ack => match spec_ack(self.device_to_host(), reply) {
                Err(e) => Progress::Finished(Err(e)),
                Ok(_) => Progress::Finished(Ok(self.received)),
            },
        }
    }
}

/// The transaction that a connection in state `pre` starts for `frame`: the
/// frame goes out under the connection's token, and the frame is the first
/// thing to be sent.
pub open spec fn first_state(pre: ConnectionState, frame: CommandFrame, payload: Seq<u8>)
    -> TransactionState {
    TransactionState {
        frame: CommandFrame { token: pre.cmd_token, ..frame },
        payload,
        iface: pre.binding.iface,
        in_addr: pre.binding.in_addr,
        out_addr: pre.binding.out_addr,
        phase: Phase::Command,
        received: Seq::empty(),
    }
}

/// Whether the step from `pre` to `post` starts the transaction `t` for
/// `frame`: the token goes up by one and nothing else changes.
pub open spec fn begins(
    pre: ConnectionState,
    post: ConnectionState,
    t: TransactionState,
    frame: CommandFrame,
    payload: Seq<u8>,
) -> bool {
    &&& pre.cmd_token < u32::MAX
    &&& post == (ConnectionState { cmd_token: (pre.cmd_token + 1) as u32, ..pre })
    &&& t == first_state(pre, frame, payload)
}

/// The rule for an erase: address and size are multiples of the sector
/// size. The address is looked at first.
pub open spec fn spec_check_erase(addr: u32, size: u32) -> Result<(), PicobootError> {
    if addr % PICO_SECTOR_SIZE != 0 {
        Err(PicobootError::EraseInvalidAddr)
    } else if size % PICO_SECTOR_SIZE != 0 {
        Err(PicobootError::EraseInvalidSize)
    } else {
        Ok(())
    }
}

/// The rule for a write: the address is a multiple of the page size.
pub open spec fn spec_check_write(addr: u32) -> Result<(), PicobootError> {
    if addr % PICO_PAGE_SIZE != 0 {
        Err(PicobootError::WriteInvalidAddr)
    } else {
        Ok(())
    }
}

/// The rule for a command that not every target has.
pub open spec fn spec_check_target(target: TargetID, id: PicobootCmdId) -> Result<
    (),
    PicobootError,
> {
    if id.spec_allowed_on(target) {
        Ok(())
    } else {
        Err(PicobootError::CmdNotAllowedForTarget)
    }
}

/// Whether `target` accepts the command with opcode `cmd_id`.
pub open spec fn permitted(target: TargetID, cmd_id: u8) -> bool {
    match PicobootCmdId::spec_from_value(cmd_id) {
        Some(id) => id.spec_allowed_on(target),
        None => false,
    }
}

/// The rules that a command is held to before anything is sent: the target
/// has the command, an erase names whole sectors, and a write starts on a
/// page.
pub open spec fn spec_check_command(target: TargetID, frame: CommandFrame) -> Result<
    (),
    PicobootError,
> {
    if !permitted(target, frame.cmd_id) {
        Err(PicobootError::CmdNotAllowedForTarget)
    } else if frame.cmd_id == PicobootCmdId::FlashErase.spec_value() {
        spec_check_erase(range_addr(frame), range_size(frame))
    } else if frame.cmd_id == PicobootCmdId::Write.spec_value() {
        spec_check_write(range_addr(frame))
    } else {
        Ok(())
    }
}

/// A command transaction in flight.
#[derive(Debug)]
pub struct Transaction {
    cmd: PicobootCmd,
    payload: Vec<u8>,
    iface: u8,
    in_addr: u8,
    out_addr: u8,
    phase: Phase,
    received: Vec<u8>,
}

impl View for Transaction {
    type V = TransactionState;

    closed spec fn view(&self) -> TransactionState {
        TransactionState {
            frame: self.cmd@,
            payload: self.payload@,
            iface: self.iface,
            in_addr: self.in_addr,
            out_addr: self.out_addr,
            phase: self.phase,
            received: self.received@,
        }
    }
}

/// Builds the status query on interface `iface`.
fn status_request(iface: u8) -> (r: UsbRequest)
    ensures
        r@ == status_query(iface),
{
    UsbRequest::ControlRead {
        request_type: STATUS_REQUEST_TYPE,
        request: STATUS_REQUEST,
        value: 0,
        index: iface as u16,
        len: STATUS_FRAME_LEN,
        timeout_secs: CONTROL_TIMEOUT_SECS,
    }
}

impl Transaction {
    /// A transaction in flight holds as many bytes as it should have read.
    #[verifier::type_invariant]
    spec fn inv(self) -> bool {
        self@.consistent()
    }

    /// The phase that the transaction is in.
    pub fn phase(&self) -> (r: Phase)
        ensures
            r == self@.phase,
    {
        self.phase
    }

    /// The command that the transaction carries, token included.
    pub fn command(&self) -> (r: &PicobootCmd)
        ensures
            r@ == self@.frame,
    {
        &self.cmd
    }

    /// The request that the transaction waits on.
    pub fn request(&self) -> (r: UsbRequest)
        ensures
            r@ == self@.pending(),
    {
        let to_host = self.cmd.get_cmd_id().is_device_to_host();
        match self.phase {
            Phase::Command => {
                let frame = encode_command(&self.cmd);
                UsbRequest::BulkWrite {
                    endpoint: self.out_addr,
                    data: slice_to_vec(frame.as_slice()),
                    timeout_secs: BULK_WRITE_TIMEOUT_SECS,
                }
            },
            Phase::CommandStatus | Phase::DataStatus => status_request(self.iface),
            Phase::Data => {
                if to_host {
                    UsbRequest::BulkRead {
                        endpoint: self.in_addr,
                        len: self.cmd.get_transfer_len() as usize,
                        timeout_secs: BULK_READ_TIMEOUT_SECS,
                    }
                } else {
                    UsbRequest::BulkWrite {
                        endpoint: self.out_addr,
                        data: slice_to_vec(self.payload.as_slice()),
                        timeout_secs: BULK_WRITE_TIMEOUT_SECS,
                    }
                }
            },
            Phase::Ack => {
                if to_host {
                    let ack = [0u8; 1];
                    let data = slice_to_vec(ack.as_slice());
                    assert(data@ =~= zeros(1));
                    UsbRequest::BulkWrite {
                        endpoint: self.out_addr,
                        data,
                        timeout_secs: BULK_WRITE_TIMEOUT_SECS,
                    }
                } else {
                    UsbRequest::BulkRead {
                        endpoint: self.in_addr,
                        len: 1,
                        timeout_secs: BULK_READ_TIMEOUT_SECS,
                    }
                }
            },
        }
    }

    /// Goes on in `phase`.
    fn go(self, phase: Phase) -> (r: Step<Transaction, Vec<u8>>)
        requires
            self@.at(phase).consistent(),
        ensures
            r matches Step::Next(m, req) && m@ == self@.at(phase) && req@ == m@.pending(),
    {
        let mut t = self;
        t.phase = phase;
        let req = t.request();
        Step::Next(t, req)
    }

    /// Goes on after the data phase of a command that reads, with what was
    /// read.
    fn go_with(self, received: Vec<u8>) -> (r: Step<Transaction, Vec<u8>>)
        requires
            self@.phase == Phase::Data,
            self@.device_to_host(),
            received@.len() == self@.frame.transfer_len as usize,
        ensures
            r matches Step::Next(m, req) && m@ == (TransactionState {
                phase: Phase::DataStatus,
                received: received@,
                ..self@
            }) && req@ == m@.pending(),
    {
        proof {
            use_type_invariant(&self);
        }
        let t = Transaction {
            cmd: self.cmd,
            payload: self.payload,
            iface: self.iface,
            in_addr: self.in_addr,
            out_addr: self.out_addr,
            phase: Phase::DataStatus,
            received,
        };
        let req = t.request();
        Step::Next(t, req)
    }

    /// Takes the reply to the pending request and says what comes next: the
    /// next request, or the end of the transaction with the bytes that the
    /// data phase read. A command that reads ends with exactly as many
    /// bytes as its frame announces, or fails.
    pub fn step(self, reply: UsbReply) -> (r: Step<Transaction, Vec<u8>>)
        ensures
            match self@.advance(reply@) {
                Progress::Continue(t) => r matches Step::Next(m, req) && m@ == t && req@
                    == t.pending(),
                Progress::Finished(res) => r matches Step::Finished(x) && bytes_result(x) == res,
            },
            r matches Step::Finished(Ok(bytes)) ==> bytes@.len() == self@.result_len(),
    {
        proof {
            use_type_invariant(&self);
        }
        let to_host = self.cmd.get_cmd_id().is_device_to_host();
        match self.phase {
            Phase::Command => match bulk_write(COMMAND_FRAME_LEN, true, reply) {
                Err(e) => Step::Finished(Err(e)),
                Ok(_) => self.go(Phase::CommandStatus),
            },
            Phase::CommandStatus => {
                if self.cmd.get_transfer_len() == 0 {
                    self.go(Phase::Ack)
                } else {
                    self.go(Phase::Data)
                }
            },
            Phase::Data => {
                if to_host {
                    let expected = self.cmd.get_transfer_len() as usize;
                    match bulk_read(expected, true, reply) {
                        Err(e) => Step::Finished(Err(e)),
                        Ok(d) => self.go_with(d),
                    }
                } else {
                    match bulk_write(self.payload.len(), true, reply) {
                        Err(e) => Step::Finished(Err(e)),
                        Ok(_) => self.go(Phase::DataStatus),
                    }
                }
            },
            Phase::DataStatus => self.go(Phase::Ack),
            Phase::Ack => match ack(to_host, reply) {
                Err(e) => Step::Finished(Err(e)),
                Ok(_) => Step::Finished(Ok(self.received)),
            },
        }
    }
}

/// The request that an attach sequence waits on.
#[derive(Debug)]
pub enum AttachPhase {
    KernelDriverActive,
    DetachKernelDriver,
    SetActiveConfiguration,
    ClaimInterface,
    SetAlternateSetting,
    /// Release of the claim after the alternate setting could not be set,
    /// with the failure that is reported once the claim is gone.
    ReleaseInterface(rusb::Error),
}

/// An attach sequence, as contracts speak of it.
pub struct AttachState {
    pub binding: EndpointBinding,
    pub target_id: TargetID,
    pub has_kernel_driver: bool,
    pub phase: AttachPhase,
}

/// Where an attach sequence stands after a reply.
pub enum AttachProgress {
    Continue(AttachState),
    Finished(Result<ConnectionState, PicobootError>),
}

impl AttachState {
    /// The request that the sequence waits on.
    pub open spec fn pending(self) -> Request {
        let iface = self.binding.iface;
        match self.phase {
            AttachPhase::KernelDriverActive => Request::KernelDriverActive { iface },
            AttachPhase::DetachKernelDriver => Request::DetachKernelDriver { iface },
            AttachPhase::SetActiveConfiguration => Request::SetActiveConfiguration {
                config: self.binding.cfg,
            },
            AttachPhase::ClaimInterface => Request::ClaimInterface { iface },
            AttachPhase::SetAlternateSetting => Request::SetAlternateSetting {
                iface,
                setting: self.binding.setting,
            },
            AttachPhase::ReleaseInterface(_) => Request::ReleaseInterface { iface },
        }
    }

    /// The same sequence in another phase.
    pub open spec fn at(self, phase: AttachPhase) -> AttachState {
        AttachState { phase, ..self }
    }

    /// The connection that the sequence ends in: its first token is 1.
    pub open spec fn connection(self) -> ConnectionState {
        ConnectionState {
            binding: self.binding,
            cmd_token: 1,
            has_kernel_driver: self.has_kernel_driver,
            target_id: self.target_id,
        }
    }

    /// Where the sequence stands after the reply to the pending request.
    ///
    /// A kernel driver is detached only where the transport says that one
    /// is active, and that it was is kept for the teardown. Whether the
    /// configuration could be set is ignored. A claim that fails ends the
    /// sequence. Where the alternate setting fails, the claim is released
    /// before the failure is reported.
    pub open spec fn advance(self, reply: Reply) -> AttachProgress {
        match self.phase {
            AttachPhase::KernelDriverActive => if reply == Reply::Flag(true) {
                AttachProgress::Continue(self.at(AttachPhase::DetachKernelDriver))
            } else {
                AttachProgress::Continue(self.at(AttachPhase::SetActiveConfiguration))
            },
            AttachPhase::DetachKernelDriver => match reply.failure() {
                Some(e) => AttachProgress::Finished(
                    Err(PicobootError::UsbDetachKernelDriverFailure(e)),
                ),
                None => AttachProgress::Continue(
                    AttachState {
                        has_kernel_driver: true,
                        phase: AttachPhase::SetActiveConfiguration,
                        ..self
                    },
                ),
            },
            AttachPhase::SetActiveConfiguration => AttachProgress::Continue(
                self.at(AttachPhase::ClaimInterface),
            ),
            AttachPhase::ClaimInterface => match reply.failure() {
                Some(e) => AttachProgress::Finished(
                    Err(PicobootError::UsbClaimInterfaceFailure(e)),
                ),
                None => AttachProgress::Continue(self.at(AttachPhase::SetAlternateSetting)),
            },
            AttachPhase::SetAlternateSetting => match reply.failure() {
                Some(e) => AttachProgress::Continue(self.at(AttachPhase::ReleaseInterface(e))),
                None => AttachProgress::Finished(Ok(self.connection())),
            },
            AttachPhase::ReleaseInterface(e) => AttachProgress::Finished(
                Err(PicobootError::UsbSetAltSettingFailure(e)),
            ),
        }
    }
}

/// The attach sequence of a connection in the making.
#[derive(Debug)]
pub struct Attaching {
    binding: EndpointBinding,
    target_id: TargetID,
    has_kernel_driver: bool,
    phase: AttachPhase,
}

impl View for Attaching {
    type V = AttachState;

    closed spec fn view(&self) -> AttachState {
        AttachState {
            binding: self.binding,
            target_id: self.target_id,
            has_kernel_driver: self.has_kernel_driver,
            phase: self.phase,
        }
    }
}

/// The failure that a reply reports, if it reports one.
fn failure_of(reply: UsbReply) -> (r: Option<rusb::Error>)
    ensures
        r == reply@.failure(),
{
    match reply {
        UsbReply::Failed(e) => Some(e),
        _ => None,
    }
}

impl Attaching {
    /// The request that the sequence waits on.
    pub fn request(&self) -> (r: UsbRequest)
        ensures
            r@ == self@.pending(),
    {
        let iface = self.binding.iface;
        match self.phase {
            AttachPhase::KernelDriverActive => UsbRequest::KernelDriverActive { iface },
            AttachPhase::DetachKernelDriver => UsbRequest::DetachKernelDriver { iface },
            AttachPhase::SetActiveConfiguration => UsbRequest::SetActiveConfiguration {
                config: self.binding.cfg,
            },
            AttachPhase::ClaimInterface => UsbRequest::ClaimInterface { iface },
            AttachPhase::SetAlternateSetting => UsbRequest::SetAlternateSetting {
                iface,
                setting: self.binding.setting,
            },
            AttachPhase::ReleaseInterface(_) => UsbRequest::ReleaseInterface { iface },
        }
    }

    /// Goes on in `phase`.
    fn go(self, phase: AttachPhase) -> (r: Step<Attaching, PicobootConnection>)
        ensures
            r matches Step::Next(m, req) && m@ == self@.at(phase) && req@ == m@.pending(),
    {
        let mut a = self;
        a.phase = phase;
        let req = a.request();
        Step::Next(a, req)
    }

    /// Takes the reply to the pending request and says what comes next: the
    /// next request, the connection, or the failure.
    pub fn step(self, reply: UsbReply) -> (r: Step<Attaching, PicobootConnection>)
        ensures
            match self@.advance(reply@) {
                AttachProgress::Continue(a) => r matches Step::Next(m, req) && m@ == a && req@
                    == a.pending(),
                AttachProgress::Finished(Ok(c)) => r matches Step::Finished(Ok(conn)) && conn@
                    == c,
                AttachProgress::Finished(Err(e)) => r matches Step::Finished(Err(x)) && x == e,
            },
    {
        match self.phase {
            AttachPhase::KernelDriverActive => match reply {
                UsbReply::Flag(true) => self.go(AttachPhase::DetachKernelDriver),
                _ => self.go(AttachPhase::SetActiveConfiguration),
            },
            AttachPhase::DetachKernelDriver => match failure_of(reply) {
                Some(e) => Step::Finished(Err(PicobootError::UsbDetachKernelDriverFailure(e))),
                None => {
                    let mut a = self;
                    a.has_kernel_driver = true;
                    a.go(AttachPhase::SetActiveConfiguration)
                },
            },
            AttachPhase::SetActiveConfiguration => self.go(AttachPhase::ClaimInterface),
            AttachPhase::ClaimInterface => match failure_of(reply) {
                Some(e) => Step::Finished(Err(PicobootError::UsbClaimInterfaceFailure(e))),
                None => self.go(AttachPhase::SetAlternateSetting),
            },
            AttachPhase::SetAlternateSetting => match failure_of(reply) {
                Some(e) => self.go(AttachPhase::ReleaseInterface(e)),
                None => Step::Finished(
                    Ok(
                        PicobootConnection {
                            cfg: self.binding.cfg,
                            iface: self.binding.iface,
                            setting: self.binding.setting,
                            in_addr: self.binding.in_addr,
                            out_addr: self.binding.out_addr,
                            cmd_token: 1,
                            has_kernel_driver: self.has_kernel_driver,
                            target_id: self.target_id,
                        },
                    ),
                ),
            },
            AttachPhase::ReleaseInterface(e) => Step::Finished(
                Err(PicobootError::UsbSetAltSettingFailure(e)),
            ),
        }
    }
}

/// The request that an interface reset waits on.
#[derive(Debug, Clone, Copy, PartialEq, Eq, Structural)]
pub enum ResetPhase {
    ClearIn,
    ClearOut,
    Reset,
}

/// An interface reset, as contracts speak of it.
pub struct ResetState {
    pub iface: u8,
    pub in_addr: u8,
    pub out_addr: u8,
    pub phase: ResetPhase,
}

/// Where an interface reset stands after a reply.
pub enum ResetProgress {
    Continue(ResetState),
    Finished(Result<(), PicobootError>),
}

impl ResetState {
    /// The request that the reset waits on: the halt of the IN endpoint is
    /// cleared, then that of the OUT endpoint, then the interface is reset
    /// by a control transfer without data.
    pub open spec fn pending(self) -> Request {
        match self.phase {
            ResetPhase::ClearIn => Request::ClearHalt { endpoint: self.in_addr },
            ResetPhase::ClearOut => Request::ClearHalt { endpoint: self.out_addr },
            ResetPhase::Reset => Request::ControlWrite {
                request_type: RESET_REQUEST_TYPE,
                request: RESET_REQUEST,
                value: 0,
                index: self.iface as u16,
                data: Seq::empty(),
                timeout_secs: CONTROL_TIMEOUT_SECS,
            },
        }
    }

    /// Where the reset stands after the reply to the pending request: each
    /// failure ends it, under the error of the step that failed.
    pub open spec fn advance(self, reply: Reply) -> ResetProgress {
        match (self.phase, reply.failure()) {
            (ResetPhase::ClearIn, Some(e)) => ResetProgress::Finished(
                Err(PicobootError::UsbClearInAddrHalt(e)),
            ),
            (ResetPhase::ClearIn, None) => ResetProgress::Continue(
                ResetState { phase: ResetPhase::ClearOut, ..self },
            ),
            (ResetPhase::ClearOut, Some(e)) => ResetProgress::Finished(
                Err(PicobootError::UsbClearOutAddrHalt(e)),
            ),
            (ResetPhase::ClearOut, None) => ResetProgress::Continue(
                ResetState { phase: ResetPhase::Reset, ..self },
            ),
            (ResetPhase::Reset, Some(e)) => ResetProgress::Finished(
                Err(PicobootError::UsbResetInterfaceFailure(e)),
            ),
            (ResetPhase::Reset, None) => ResetProgress::Finished(Ok(())),
        }
    }
}

/// An interface reset in flight.
#[derive(Debug)]
pub struct Resetting {
    iface: u8,
    in_addr: u8,
    out_addr: u8,
    phase: ResetPhase,
}

impl View for Resetting {
    type V = ResetState;

    closed spec fn view(&self) -> ResetState {
        ResetState {
            iface: self.iface,
            in_addr: self.in_addr,
            out_addr: self.out_addr,
            phase: self.phase,
        }
    }
}

impl Resetting {
    /// The request that the reset waits on.
    pub fn request(&self) -> (r: UsbRequest)
        ensures
            r@ == self@.pending(),
    {
        match self.phase {
            ResetPhase::ClearIn => UsbRequest::ClearHalt { endpoint: self.in_addr },
            ResetPhase::ClearOut => UsbRequest::ClearHalt { endpoint: self.out_addr },
            ResetPhase::Reset => UsbRequest::ControlWrite {
                request_type: RESET_REQUEST_TYPE,
                request: RESET_REQUEST,
                value: 0,
                index: self.iface as u16,
                data: Vec::new(),
                timeout_secs: CONTROL_TIMEOUT_SECS,
            },
        }
    }

    /// Goes on in `phase`.
    fn go(self, phase: ResetPhase) -> (r: Step<Resetting, ()>)
        ensures
            r matches Step::Next(m, req) && m@ == (ResetState { phase, ..self@ }) && req@
                == m@.pending(),
    {
        let mut a = self;
        a.phase = phase;
        let req = a.request();
        Step::Next(a, req)
    }

    /// Takes the reply to the pending request and says what comes next.
    pub fn step(self, reply: UsbReply) -> (r: Step<Resetting, ()>)
        ensures
            match self@.advance(reply@) {
                ResetProgress::Continue(a) => r matches Step::Next(m, req) && m@ == a && req@
                    == a.pending(),
                ResetProgress::Finished(res) => r matches Step::Finished(x) && x == res,
            },
    {
        let failure = failure_of(reply);
        match self.phase {
            ResetPhase::ClearIn => match failure {
                Some(e) => Step::Finished(Err(PicobootError::UsbClearInAddrHalt(e))),
                None => self.go(ResetPhase::ClearOut),
            },
            ResetPhase::ClearOut => match failure {
                Some(e) => Step::Finished(Err(PicobootError::UsbClearOutAddrHalt(e))),
                None => self.go(ResetPhase::Reset),
            },
            ResetPhase::Reset => match failure {
                Some(e) => Step::Finished(Err(PicobootError::UsbResetInterfaceFailure(e))),
                None => Step::Finished(Ok(())),
            },
        }
    }
}

/// What the teardown of a connection asks of the transport: the interface
/// is released, and the kernel driver attached again where one was
/// detached when the connection was made.
pub open spec fn spec_teardown(c: ConnectionState) -> Seq<Request> {
    if c.has_kernel_driver {
        seq![
            Request::ReleaseInterface { iface: c.binding.iface },
            Request::AttachKernelDriver { iface: c.binding.iface },
        ]
    } else {
        seq![Request::ReleaseInterface { iface: c.binding.iface }]
    }
}

/// The requests of a list, as contracts speak of them.
pub open spec fn requests_of(v: Seq<UsbRequest>) -> Seq<Request> {
    Seq::new(v.len(), |i: int| v[i]@)
}

/// What the status query reports: a failure of the transport as such, else
/// the status frame that the bytes hold, if they are sixteen.
pub open spec fn spec_command_status(reply: Reply) -> Result<
    crate::cmd::StatusFrame,
    PicobootError,
> {
    match reply.failure() {
        Some(e) => Err(PicobootError::UsbGetCommandStatusFailure(e)),
        None => if reply.bytes().len() == STATUS_FRAME_LEN {
            Ok(parse_status(reply.bytes()))
        } else {
            Err(PicobootError::CmdDeserializeFailure)
        },
    }
}

/// A connection to a PICOBOOT device.
///
/// The connection holds what the protocol needs to know of the claimed
/// interface, and the token of the next command. Its operations run the
/// checks that keep a command safe and start the transaction; the caller
/// performs each request on the device and feeds the reply back.
#[derive(Debug)]
pub struct PicobootConnection {
    cfg: u8,
    iface: u8,
    setting: u8,
    in_addr: u8,
    out_addr: u8,
    cmd_token: u32,
    has_kernel_driver: bool,
    target_id: TargetID,
}

impl View for PicobootConnection {
    type V = ConnectionState;

    closed spec fn view(&self) -> ConnectionState {
        ConnectionState {
            binding: EndpointBinding {
                cfg: self.cfg,
                iface: self.iface,
                setting: self.setting,
                in_addr: self.in_addr,
                out_addr: self.out_addr,
            },
            cmd_token: self.cmd_token,
            has_kernel_driver: self.has_kernel_driver,
            target_id: self.target_id,
        }
    }
}

impl PicobootConnection {
    /// Chooses the device to connect to among the enumerated ones, and says
    /// what target it is.
    ///
    /// With a vendor and product id, the first device with these ids is
    /// taken; it counts as an RP2040 if the ids are those of one, else as
    /// an RP2350. With `None` the RP2040 ids are tried first, then those of
    /// the RP2350.
    pub fn select_device(devices: &Vec<Option<DeviceId>>, vidpid: Option<(u16, u16)>) -> (r:
        Result<(usize, TargetID), PicobootError>)
        ensures
            match spec_select_device(devices@, vidpid) {
                Ok((k, t)) => r == Ok::<(usize, TargetID), PicobootError>((k as usize, t)) && 0
                    <= k < devices@.len(),
                Err(e) => r == Err::<(usize, TargetID), PicobootError>(e),
            },
    {
        match vidpid {
            Some((vid, pid)) => {
                let id = if vid == PICOBOOT_VID && pid == PICOBOOT_PID_RP2040 {
                    TargetID::Rp2040
                } else {
                    TargetID::Rp2350
                };
                match open_device(devices, vid, pid) {
                    Some(k) => Ok((k, id)),
                    None => Err(PicobootError::UsbDeviceNotFound),
                }
            },
            None => match open_device(devices, PICOBOOT_VID, PICOBOOT_PID_RP2040) {
                Some(k) => Ok((k, TargetID::Rp2040)),
                None => match open_device(devices, PICOBOOT_VID, PICOBOOT_PID_RP2350) {
                    Some(k) => Ok((k, TargetID::Rp2350)),
                    None => Err(PicobootError::UsbDeviceNotFound),
                },
            },
        }
    }

    /// Starts a connection to a device of the given target whose
    /// configurations are `configs`.
    ///
    /// Binds the bulk endpoints of the vendor-specific interface and hands
    /// out the attach sequence with its first request. Fails where an
    /// endpoint is missing or the two are not in one interface setting.
    pub fn new(target_id: TargetID, configs: &Vec<ConfigDescriptor>) -> (r: Result<
        (Attaching, UsbRequest),
        PicobootError,
    >)
        ensures
            match spec_find_bulk_endpoints(
                configs@,
                PICOBOOT_CLASS,
                PICOBOOT_SUBCLASS,
                PICOBOOT_PROTOCOL,
            ) {
                Ok(binding) => r matches Ok((a, req)) && a@ == (AttachState {
                    binding,
                    target_id,
                    has_kernel_driver: false,
                    phase: AttachPhase::KernelDriverActive,
                }) && req@ == a@.pending(),
                Err(e) => r matches Err(x) && x == e,
            },
    {
        match find_bulk_endpoints(configs, PICOBOOT_CLASS, PICOBOOT_SUBCLASS, PICOBOOT_PROTOCOL) {
            Err(e) => Err(e),
            Ok(binding) => {
                let a = Attaching {
                    binding,
                    target_id,
                    has_kernel_driver: false,
                    phase: AttachPhase::KernelDriverActive,
                };
                let req = a.request();
                Ok((a, req))
            },
        }
    }

    /// Whether a token is left for another command.
    pub fn can_issue(&self) -> (r: bool)
        ensures
            r == (self@.cmd_token < u32::MAX),
    {
        self.cmd_token < u32::MAX
    }

    /// Token that the next command goes out under.
    pub fn next_token(&self) -> (r: u32)
        ensures
            r == self@.cmd_token,
    {
        self.cmd_token
    }

    /// Where the bulk endpoints of the connection are.
    pub fn binding(&self) -> (r: EndpointBinding)
        ensures
            r == self@.binding,
    {
        EndpointBinding {
            cfg: self.cfg,
            iface: self.iface,
            setting: self.setting,
            in_addr: self.in_addr,
            out_addr: self.out_addr,
        }
    }

    /// Whether a kernel driver was detached when the connection was made.
    pub fn has_kernel_driver(&self) -> (r: bool)
        ensures
            r == self@.has_kernel_driver,
    {
        self.has_kernel_driver
    }

    /// Checks an erase before anything is sent.
    pub fn check_erase(addr: u32, size: u32) -> (r: Result<(), PicobootError>)
        ensures
            r == spec_check_erase(addr, size),
            r is Ok <==> addr % PICO_SECTOR_SIZE == 0 && size % PICO_SECTOR_SIZE == 0,
    {
        if addr % PICO_SECTOR_SIZE != 0 {
            return Err(PicobootError::EraseInvalidAddr);
        }
        if size % PICO_SECTOR_SIZE != 0 {
            return Err(PicobootError::EraseInvalidSize);
        }
        Ok(())
    }

    /// Checks a write before anything is sent.
    pub fn check_write(addr: u32) -> (r: Result<(), PicobootError>)
        ensures
            r == spec_check_write(addr),
            r is Ok <==> addr % PICO_PAGE_SIZE == 0,
    {
        if addr % PICO_PAGE_SIZE != 0 {
            return Err(PicobootError::WriteInvalidAddr);
        }
        Ok(())
    }

    /// Checks that the device of this connection has the command.
    pub fn check_target(&self, id: PicobootCmdId) -> (r: Result<(), PicobootError>)
        ensures
            r == spec_check_target(self@.target_id, id),
    {
        if id.allowed_on(self.target_id) {
            Ok(())
        } else {
            Err(PicobootError::CmdNotAllowedForTarget)
        }
    }

    /// Checks a command before anything is sent: the target must have it,
    /// an erase must name whole sectors and a write must start on a page.
    pub fn check_command(&self, cmd: &PicobootCmd) -> (r: Result<(), PicobootError>)
        ensures
            r == spec_check_command(self@.target_id, cmd@),
    {
        let id = cmd.get_cmd_id();
        match self.check_target(id) {
            Err(e) => Err(e),
            Ok(_) => match id {
                PicobootCmdId::FlashErase => Self::check_erase(cmd.get_addr(), cmd.get_size()),
                PicobootCmdId::Write => Self::check_write(cmd.get_addr()),
                _ => Ok(()),
            },
        }
    }

    /// Starts the transaction of a command.
    ///
    /// The command is checked first, and refused with nothing sent where
    /// the target does not have it or where it is an erase or a write that
    /// breaks the alignment rules. Else it goes out under the connection's
    /// token, which then goes up by one. `buf` is what a host-to-device
    /// command sends in its data phase.
    pub fn cmd(&mut self, cmd: PicobootCmd, buf: &[u8]) -> (r: Result<
        (Transaction, UsbRequest),
        PicobootError,
    >)
        requires
            spec_check_command(old(self)@.target_id, cmd@) is Ok ==> old(self)@.cmd_token
                < u32::MAX,
        ensures
            r is Ok <==> spec_check_command(old(self)@.target_id, cmd@) is Ok,
            r matches Ok(s) ==> begins(old(self)@, final(self)@, s.0@, cmd@, buf@) && s.1@
                == s.0@.pending() && permitted(old(self)@.target_id, s.0@.frame.cmd_id)
                && spec_check_command(old(self)@.target_id, s.0@.frame) is Ok,
            r matches Err(e) ==> final(self)@ == old(self)@ && spec_check_command(
                old(self)@.target_id,
                cmd@,
            ) == Err::<(), PicobootError>(e),
    {
        match self.check_command(&cmd) {
            Err(e) => Err(e),
            Ok(_) => Ok(self.issue(cmd, buf)),
        }
    }

    /// Sends a command that has been checked: it takes the connection's
    /// token, and the frame is the first thing to go out.
    fn issue(&mut self, cmd: PicobootCmd, buf: &[u8]) -> (r: (Transaction, UsbRequest))
        requires
            old(self)@.cmd_token < u32::MAX,
        ensures
            begins(old(self)@, final(self)@, r.0@, cmd@, buf@),
            r.1@ == r.0@.pending(),
    {
        let cmd = cmd.set_token(self.cmd_token);
        self.cmd_token += 1;
        let t = Transaction {
            cmd,
            payload: slice_to_vec(buf),
            iface: self.iface,
            in_addr: self.in_addr,
            out_addr: self.out_addr,
            phase: Phase::Command,
            received: Vec::new(),
        };
        let req = t.request();
        (t, req)
    }

    /// Requests non-exclusive access to the device; the USB Mass Storage
    /// interface stays open.
    pub fn access_not_exclusive(&mut self) -> (r: (Transaction, UsbRequest))
        requires
            old(self)@.cmd_token < u32::MAX,
        ensures
            begins(
                old(self)@,
                final(self)@,
                r.0@,
                frame_of(PicobootCmdId::ExclusiveAccess, 1, 0, exclusive_args(0)),
                Seq::empty(),
            ),
            r.1@ == r.0@.pending(),
            spec_check_command(old(self)@.target_id, r.0@.frame) is Ok,
    {
        self.set_exclusive_access(0)
    }

    /// Requests exclusive access to the device; the USB Mass Storage
    /// interface is disabled, and writes through it fail.
    pub fn access_exclusive(&mut self) -> (r: (Transaction, UsbRequest))
        requires
            old(self)@.cmd_token < u32::MAX,
        ensures
            begins(
                old(self)@,
                final(self)@,
                r.0@,
                frame_of(PicobootCmdId::ExclusiveAccess, 1, 0, exclusive_args(1)),
                Seq::empty(),
            ),
            r.1@ == r.0@.pending(),
            spec_check_command(old(self)@.target_id, r.0@.frame) is Ok,
    {
        self.set_exclusive_access(1)
    }

    /// Requests exclusive access to the device; the USB Mass Storage
    /// interface is disabled and ejected.
    pub fn access_exclusive_eject(&mut self) -> (r: (Transaction, UsbRequest))
        requires
            old(self)@.cmd_token < u32::MAX,
        ensures
            begins(
                old(self)@,
                final(self)@,
                r.0@,
                frame_of(PicobootCmdId::ExclusiveAccess, 1, 0, exclusive_args(2)),
                Seq::empty(),
            ),
            r.1@ == r.0@.pending(),
            spec_check_command(old(self)@.target_id, r.0@.frame) is Ok,
    {
        self.set_exclusive_access(2)
    }

    /// Starts the transaction of a command that sends no data.
    fn start(&mut self, cmd: PicobootCmd) -> (r: (Transaction, UsbRequest))
        requires
            old(self)@.cmd_token < u32::MAX,
        ensures
            begins(old(self)@, final(self)@, r.0@, cmd@, Seq::empty()),
            r.1@ == r.0@.pending(),
    {
        let none: [u8; 0] = [];
        let buf = none.as_slice();
        assert(buf@ =~= Seq::<u8>::empty());
        self.issue(cmd, buf)
    }

    fn set_exclusive_access(&mut self, exclusive: u8) -> (r: (Transaction, UsbRequest))
        requires
            old(self)@.cmd_token < u32::MAX,
        ensures
            begins(
                old(self)@,
                final(self)@,
                r.0@,
                frame_of(PicobootCmdId::ExclusiveAccess, 1, 0, exclusive_args(exclusive)),
                Seq::empty(),
            ),
            r.1@ == r.0@.pending(),
            spec_check_command(old(self)@.target_id, r.0@.frame) is Ok,
    {
        self.start(PicobootCmd::exclusive_access(exclusive))
    }

    /// Reboots the device after `delay` milliseconds, with the given
    /// program counter and stack pointer. A program counter of zero asks
    /// for a standard boot from flash.
    pub fn reboot(&mut self, pc: u32, sp: u32, delay: u32) -> (r: (Transaction, UsbRequest))
        requires
            old(self)@.cmd_token < u32::MAX,
        ensures
            begins(
                old(self)@,
                final(self)@,
                r.0@,
                frame_of(PicobootCmdId::Reboot, 12, 0, reboot_args(pc, sp, delay)),
                Seq::empty(),
            ),
            r.1@ == r.0@.pending(),
            spec_check_command(old(self)@.target_id, r.0@.frame) is Ok,
    {
        self.start(PicobootCmd::reboot(pc, sp, delay))
    }

    /// Reboots an RP2350 after `delay` milliseconds.
    ///
    /// On an RP2040 the command is refused and nothing is sent.
    pub fn reboot2_normal(&mut self, delay: u32) -> (r: Result<
        (Transaction, UsbRequest),
        PicobootError,
    >)
        requires
            old(self)@.target_id == TargetID::Rp2350 ==> old(self)@.cmd_token < u32::MAX,
        ensures
            r is Ok <==> old(self)@.target_id == TargetID::Rp2350,
            r is Ok <==> spec_check_target(old(self)@.target_id, PicobootCmdId::Reboot2) is Ok,
            r matches Ok(s) ==> begins(
                old(self)@,
                final(self)@,
                s.0@,
                frame_of(PicobootCmdId::Reboot2, 16, 0, reboot2_args(0, delay, 0, 0)),
                Seq::empty(),
            ) && s.1@ == s.0@.pending() && spec_check_command(old(self)@.target_id, s.0@.frame) is Ok,
            r matches Err(e) ==> e == PicobootError::CmdNotAllowedForTarget && final(self)@ == old(
                self,
            )@,
    {
        match self.check_target(PicobootCmdId::Reboot2) {
            Err(e) => Err(e),
            Ok(_) => Ok(self.start(PicobootCmd::reboot2_normal(delay))),
        }
    }

    /// Erases `size` bytes of flash from `addr` on.
    ///
    /// Both must be multiples of the sector size; else the command is
    /// refused and nothing is sent. The address is looked at first.
    pub fn flash_erase(&mut self, addr: u32, size: u32) -> (r: Result<
        (Transaction, UsbRequest),
        PicobootError,
    >)
        requires
            spec_check_erase(addr, size) is Ok ==> old(self)@.cmd_token < u32::MAX,
        ensures
            r is Ok <==> addr % PICO_SECTOR_SIZE == 0 && size % PICO_SECTOR_SIZE == 0,
            r matches Ok(s) ==> begins(
                old(self)@,
                final(self)@,
                s.0@,
                frame_of(PicobootCmdId::FlashErase, 8, 0, range_args(addr, size)),
                Seq::empty(),
            ) && s.1@ == s.0@.pending() && spec_check_command(old(self)@.target_id, s.0@.frame) is Ok,
            r matches Err(e) ==> final(self)@ == old(self)@ && spec_check_erase(addr, size) == Err::<
                (),
                PicobootError,
            >(e),
    {
        match Self::check_erase(addr, size) {
            Err(e) => Err(e),
            Ok(_) => {
                proof {
                    lemma_range_args(addr, size);
                }
                Ok(self.start(PicobootCmd::flash_erase(addr, size)))
            },
        }
    }

    /// Writes `buf` to flash at `addr`.
    ///
    /// The address must be a multiple of the page size; else the command is
    /// refused and nothing is sent. The length of `buf` is the size of the
    /// write and of the data phase, as it is: the caller pads to whole
    /// pages.
    pub fn flash_write(&mut self, addr: u32, buf: &[u8]) -> (r: Result<
        (Transaction, UsbRequest),
        PicobootError,
    >)
        requires
            spec_check_write(addr) is Ok ==> old(self)@.cmd_token < u32::MAX,
        ensures
            r is Ok <==> addr % PICO_PAGE_SIZE == 0,
            r matches Ok(s) ==> begins(
                old(self)@,
                final(self)@,
                s.0@,
                frame_of(
                    PicobootCmdId::Write,
                    8,
                    buf@.len() as u32,
                    range_args(addr, buf@.len() as u32),
                ),
                buf@,
            ) && s.1@ == s.0@.pending() && spec_check_command(old(self)@.target_id, s.0@.frame) is Ok,
            r matches Err(e) ==> final(self)@ == old(self)@ && e
                == PicobootError::WriteInvalidAddr,
    {
        match Self::check_write(addr) {
            Err(e) => Err(e),
            Ok(_) => {
                proof {
                    lemma_range_args(addr, buf@.len() as u32);
                }
                Ok(self.issue(PicobootCmd::flash_write(addr, buf.len() as u32), buf))
            },
        }
    }

    /// Reads `size` bytes of flash from `addr` on. The transaction ends
    /// with exactly `size` bytes, or fails.
    pub fn flash_read(&mut self, addr: u32, size: u32) -> (r: (Transaction, UsbRequest))
        requires
            old(self)@.cmd_token < u32::MAX,
        ensures
            begins(
                old(self)@,
                final(self)@,
                r.0@,
                frame_of(PicobootCmdId::Read, 8, size, range_args(addr, size)),
                Seq::empty(),
            ),
            r.1@ == r.0@.pending(),
            spec_check_command(old(self)@.target_id, r.0@.frame) is Ok,
    {
        self.start(PicobootCmd::flash_read(addr, size))
    }

    /// Enters flash XIP (execute-in-place) mode.
    pub fn enter_xip(&mut self) -> (r: (Transaction, UsbRequest))
        requires
            old(self)@.cmd_token < u32::MAX,
        ensures
            begins(
                old(self)@,
                final(self)@,
                r.0@,
                frame_of(PicobootCmdId::EnterCmdXip, 0, 0, zeros(16)),
                Seq::empty(),
            ),
            r.1@ == r.0@.pending(),
            spec_check_command(old(self)@.target_id, r.0@.frame) is Ok,
    {
        self.start(PicobootCmd::enter_xip())
    }

    /// Exits flash XIP (execute-in-place) mode.
    pub fn exit_xip(&mut self) -> (r: (Transaction, UsbRequest))
        requires
            old(self)@.cmd_token < u32::MAX,
        ensures
            begins(
                old(self)@,
                final(self)@,
                r.0@,
                frame_of(PicobootCmdId::ExitXip, 0, 0, zeros(16)),
                Seq::empty(),
            ),
            r.1@ == r.0@.pending(),
            spec_check_command(old(self)@.target_id, r.0@.frame) is Ok,
    {
        self.start(PicobootCmd::exit_xip())
    }

    /// Starts a reset of the PICOBOOT interface.
    ///
    /// To be run on a new connection before anything else, so that it
    /// starts from a known state. The connection itself does not change.
    pub fn reset_interface(&self) -> (r: (Resetting, UsbRequest))
        ensures
            r.0@ == (ResetState {
                iface: self@.binding.iface,
                in_addr: self@.binding.in_addr,
                out_addr: self@.binding.out_addr,
                phase: ResetPhase::ClearIn,
            }),
            r.1@ == r.0@.pending(),
    {
        let a = Resetting {
            iface: self.iface,
            in_addr: self.in_addr,
            out_addr: self.out_addr,
            phase: ResetPhase::ClearIn,
        };
        let req = a.request();
        (a, req)
    }

    /// The query for the status of the last command.
    pub fn get_command_status(&self) -> (r: UsbRequest)
        ensures
            r@ == status_query(self@.binding.iface),
    {
        status_request(self.iface)
    }

    /// Reads the reply to a status query.
    pub fn command_status(reply: UsbReply) -> (r: Result<PicobootStatusCmd, PicobootError>)
        ensures
            match spec_command_status(reply@) {
                Ok(f) => r matches Ok(s) && s@ == f,
                Err(e) => r matches Err(x) && x == e,
            },
    {
        match reply {
            UsbReply::Failed(e) => Err(PicobootError::UsbGetCommandStatusFailure(e)),
            UsbReply::Data(d) => decode_status(d.as_slice()),
            _ => Err(PicobootError::CmdDeserializeFailure),
        }
    }

    /// What is left to do when the connection is given up: the requests are
    /// to be performed in order, whatever each of them reports.
    pub fn teardown(&self) -> (r: Vec<UsbRequest>)
        ensures
            requests_of(r@) == spec_teardown(self@),
    {
        let mut v: Vec<UsbRequest> = Vec::new();
        v.push(UsbRequest::ReleaseInterface { iface: self.iface });
        if self.has_kernel_driver {
            v.push(UsbRequest::AttachKernelDriver { iface: self.iface });
        }
        assert(requests_of(v@) =~= spec_teardown(self@));
        v
    }

    /// Returns PICOBOOT device type, as it was decided when the connection
    /// was made.
    pub fn get_device_type(&self) -> (r: TargetID)
        ensures
            r == self@.target_id,
    {
        self.target_id
    }
}

/// Whether the step from `pre` to `post` sends `t` under the token of
/// `pre` and moves the token up by one.
pub open spec fn issues(pre: ConnectionState, post: ConnectionState, t: TransactionState) -> bool {
    &&& pre.cmd_token < u32::MAX
    &&& post.cmd_token == pre.cmd_token + 1
    &&& t.frame.token == pre.cmd_token
}

/// Whether `sent` are the transactions of a connection from its making on,
/// in order, and `states` the states that it went through.
pub open spec fn is_history(states: Seq<ConnectionState>, sent: Seq<TransactionState>) -> bool {
    &&& states.len() == sent.len() + 1
    &&& states[0].cmd_token == 1
    &&& forall|i: int| 0 <= i < sent.len() ==> issues(states[i], #[trigger] states[i + 1], sent[i])
}

/// Every started transaction takes the connection's token and moves it up.
pub proof fn lemma_begins_issues(
    pre: ConnectionState,
    post: ConnectionState,
    t: TransactionState,
    frame: CommandFrame,
    payload: Seq<u8>,
)
    requires
        begins(pre, post, t, frame, payload),
    ensures
        issues(pre, post, t),
{
}

/// The `i`-th command of a connection goes out under the token `i + 1`.
pub proof fn lemma_token_of(states: Seq<ConnectionState>, sent: Seq<TransactionState>, i: int)
    requires
        is_history(states, sent),
        0 <= i < sent.len(),
    ensures
        states[i].cmd_token == i + 1,
        sent[i].frame.token == i + 1,
    decreases i,
{
    if i > 0 {
        lemma_token_of(states, sent, i - 1);
        assert(issues(states[i - 1], states[i - 1 + 1], sent[i - 1]));
    }
    assert(issues(states[i], states[i + 1], sent[i]));
}

/// The tokens of the commands of one connection start at 1 and go strictly
/// up: none comes twice.
pub proof fn lemma_tokens_strictly_increase(
    states: Seq<ConnectionState>,
    sent: Seq<TransactionState>,
    i: int,
    j: int,
)
    requires
        is_history(states, sent),
        0 <= i < j < sent.len(),
    ensures
        sent[0].frame.token == 1,
        sent[i].frame.token < sent[j].frame.token,
{
    lemma_token_of(states, sent, 0);
    lemma_token_of(states, sent, i);
    lemma_token_of(states, sent, j);
}

/// What a transaction sends first, whatever the state of the connection
/// and whatever the command: a bulk write on the OUT endpoint of the
/// thirty-two bytes of its frame. They open with the magic number, carry
/// the connection's token, and the frame is read back from them field by
/// field.
pub proof fn lemma_first_request(pre: ConnectionState, cmd: PicobootCmd, payload: Seq<u8>)
    ensures
        ({
            let t = first_state(pre, cmd@, payload);
            &&& t.phase == Phase::Command
            &&& t.pending() == (Request::BulkWrite {
                endpoint: pre.binding.out_addr,
                data: frame_bytes(t.frame),
                timeout_secs: BULK_WRITE_TIMEOUT_SECS,
            })
            &&& frame_bytes(t.frame).len() == COMMAND_FRAME_LEN
            &&& frame_bytes(t.frame).subrange(0, 4) == seq![0x0Bu8, 0xD1u8, 0x1Fu8, 0x43u8]
            &&& crate::cmd::parse_frame(frame_bytes(t.frame)) == t.frame
            &&& t.frame == (CommandFrame { token: pre.cmd_token, ..cmd@ })
            &&& t.frame.reserved == 0
            &&& t.frame.args.len() == 16
        }),
{
    cmd.lemma_well_formed();
    crate::cmd::lemma_frame_round_trip(first_state(pre, cmd@, payload).frame);
    crate::cmd::lemma_magic_bytes();
}

/// A frame of which not all thirty-two bytes went out ends the transaction
/// with the error of a short write, and nothing more is sent.
pub proof fn lemma_short_frame_write(t: TransactionState, reply: Reply)
    requires
        t.phase == Phase::Command,
        reply.failure() is None,
        reply.count() != COMMAND_FRAME_LEN,
    ensures
        t.advance(reply) == Progress::Finished(Err(PicobootError::UsbWriteBulkMismatch)),
{
}

/// A data phase that delivers another number of bytes than the frame
/// announces ends the transaction with the error of a short read: a read
/// never ends well with fewer bytes, or more.
pub proof fn lemma_short_read(t: TransactionState, reply: Reply)
    requires
        t.phase == Phase::Data,
        t.device_to_host(),
        reply.failure() is None,
        reply.bytes().len() != t.frame.transfer_len as usize,
    ensures
        t.advance(reply) == Progress::Finished(Err(PicobootError::UsbReadBulkMismatch)),
{
}

/// What the rules mean for a command that passed them: the target has it,
/// so an RP2040 gets none of the commands of the RP2350; an erase names
/// whole sectors; a write starts on a page.
pub proof fn lemma_checked_command(target: TargetID, frame: CommandFrame)
    requires
        spec_check_command(target, frame) is Ok,
    ensures
        permitted(target, frame.cmd_id),
        target == TargetID::Rp2040 ==> frame.cmd_id != 0x0A && frame.cmd_id != 0x8B
            && frame.cmd_id != 0x8C && frame.cmd_id != 0x0D,
        frame.cmd_id == 0x03 ==> range_addr(frame) % 4096 == 0 && range_size(frame) % 4096 == 0,
        frame.cmd_id == 0x05 ==> range_addr(frame) % 256 == 0,
{
}

/// The rules, case by case. An erase passes exactly when address and size
/// are multiples of 4096, a size of zero included; a write exactly when the
/// address is a multiple of 256, whatever is written; the second reboot
/// exactly on an RP2350.
pub proof fn lemma_rules(target: TargetID, addr: u32, size: u32)
    ensures
        spec_check_erase(addr, size) is Ok <==> addr % 4096 == 0 && size % 4096 == 0,
        addr % 4096 != 0 ==> spec_check_erase(addr, size) == Err::<(), PicobootError>(
            PicobootError::EraseInvalidAddr,
        ),
        addr % 4096 == 0 && size % 4096 != 0 ==> spec_check_erase(addr, size) == Err::<
            (),
            PicobootError,
        >(PicobootError::EraseInvalidSize),
        addr % 4096 == 0 ==> spec_check_erase(addr, 0) is Ok,
        spec_check_write(addr) is Ok <==> addr % 256 == 0,
        addr % 256 != 0 ==> spec_check_write(addr) == Err::<(), PicobootError>(
            PicobootError::WriteInvalidAddr,
        ),
        spec_check_target(target, PicobootCmdId::Reboot2) is Ok <==> target == TargetID::Rp2350,
        target == TargetID::Rp2040 ==> spec_check_target(target, PicobootCmdId::Reboot2) == Err::<
            (),
            PicobootError,
        >(PicobootError::CmdNotAllowedForTarget),
        spec_check_erase(0x10000000, 0) is Ok,
        spec_check_erase(0x10000000, 4096) is Ok,
        spec_check_erase(0x10000001, size) == Err::<(), PicobootError>(
            PicobootError::EraseInvalidAddr,
        ),
        spec_check_write(0x10000080) == Err::<(), PicobootError>(
            PicobootError::WriteInvalidAddr,
        ),
{
}

/// The transaction of an erase, whatever the state of the connection: the
/// frame has the connection's token, opcode 3, eight bytes of arguments
/// that hold address and size, and no transfer; it passes the rules exactly
/// when the erase does. On a transport that does its part it takes three
/// requests, the last a read of one byte on the IN endpoint, and ends well
/// with no bytes.
pub proof fn lemma_erase_transaction(
    pre: ConnectionState,
    addr: u32,
    size: u32,
    sent: Reply,
    status: Reply,
    ack: Reply,
)
    requires
        wrote_all(sent, COMMAND_FRAME_LEN as nat),
        ack.failure() is None,
    ensures
        ({
            let t = first_state(
                pre,
                frame_of(PicobootCmdId::FlashErase, 8, 0, range_args(addr, size)),
                Seq::empty(),
            );
            &&& t.frame.token == pre.cmd_token
            &&& t.frame.cmd_id == 0x03 && t.frame.cmd_size == 8 && t.frame.transfer_len == 0
            &&& t.frame.args == range_args(addr, size)
            &&& range_addr(t.frame) == addr && range_size(t.frame) == size
            &&& spec_check_command(pre.target_id, t.frame) == spec_check_erase(addr, size)
            &&& t.advance(sent) == Progress::Continue(t.at(Phase::CommandStatus))
            &&& t.at(Phase::CommandStatus).pending() == status_query(pre.binding.iface)
            &&& t.at(Phase::CommandStatus).advance(status) == Progress::Continue(
                t.at(Phase::Ack),
            )
            &&& t.at(Phase::Ack).pending() == (Request::BulkRead {
                endpoint: pre.binding.in_addr,
                len: 1,
                timeout_secs: BULK_READ_TIMEOUT_SECS,
            })
            &&& t.at(Phase::Ack).advance(ack) == Progress::Finished(Ok(Seq::empty()))
        }),
{
    lemma_range_args(addr, size);
}

/// The transaction of a write, whatever the state of the connection: the
/// frame has the connection's token, opcode 5 and eight bytes of arguments;
/// the length of the buffer is the transfer length and the size in the
/// arguments, as it is. On a transport that does its part the buffer goes
/// out unchanged on the OUT endpoint after the frame, one byte is read on
/// the IN endpoint at the end, and the transaction ends well.
pub proof fn lemma_write_transaction(
    pre: ConnectionState,
    addr: u32,
    buf: Seq<u8>,
    sent: Reply,
    status: Reply,
    data: Reply,
    status2: Reply,
    ack: Reply,
)
    requires
        buf.len() as u32 != 0,
        wrote_all(sent, COMMAND_FRAME_LEN as nat),
        wrote_all(data, buf.len()),
        ack.failure() is None,
    ensures
        ({
            let len = buf.len() as u32;
            let t = first_state(
                pre,
                frame_of(PicobootCmdId::Write, 8, len, range_args(addr, len)),
                buf,
            );
            &&& t.frame.token == pre.cmd_token
            &&& t.frame.cmd_id == 0x05 && t.frame.cmd_size == 8 && t.frame.transfer_len == len
            &&& range_addr(t.frame) == addr && range_size(t.frame) == len
            &&& spec_check_command(pre.target_id, t.frame) == spec_check_write(addr)
            &&& t.advance(sent) == Progress::Continue(t.at(Phase::CommandStatus))
            &&& t.at(Phase::CommandStatus).advance(status) == Progress::Continue(
                t.at(Phase::Data),
            )
            &&& t.at(Phase::Data).pending() == (Request::BulkWrite {
                endpoint: pre.binding.out_addr,
                data: buf,
                timeout_secs: BULK_WRITE_TIMEOUT_SECS,
            })
            &&& t.at(Phase::Data).advance(data) == Progress::Continue(t.at(Phase::DataStatus))
            &&& t.at(Phase::DataStatus).advance(status2) == Progress::Continue(t.at(Phase::Ack))
            &&& t.at(Phase::Ack).pending() == (Request::BulkRead {
                endpoint: pre.binding.in_addr,
                len: 1,
                timeout_secs: BULK_READ_TIMEOUT_SECS,
            })
            &&& t.at(Phase::Ack).advance(ack) == Progress::Finished(Ok(Seq::empty()))
        }),
{
    lemma_range_args(addr, buf.len() as u32);
}

/// The transaction of a read, whatever the state of the connection: the
/// frame has the connection's token, opcode 0x84 and eight bytes of
/// arguments; the size is the transfer length. On a transport that does its
/// part and delivers `size` bytes, these are read on the IN endpoint after
/// the frame, one zero byte goes out on the OUT endpoint at the end, and
/// the transaction ends with the bytes as they came.
pub proof fn lemma_read_transaction(
    pre: ConnectionState,
    addr: u32,
    size: u32,
    sent: Reply,
    status: Reply,
    data: Reply,
    status2: Reply,
    ack: Reply,
)
    requires
        size != 0,
        wrote_all(sent, COMMAND_FRAME_LEN as nat),
        data.failure() is None,
        data.bytes().len() == size as usize,
        ack.failure() is None,
    ensures
        ({
            let t = first_state(
                pre,
                frame_of(PicobootCmdId::Read, 8, size, range_args(addr, size)),
                Seq::empty(),
            );
            let got = TransactionState { received: data.bytes(), ..t };
            &&& t.frame.token == pre.cmd_token
            &&& t.frame.cmd_id == 0x84 && t.frame.cmd_size == 8 && t.frame.transfer_len == size
            &&& range_addr(t.frame) == addr && range_size(t.frame) == size
            &&& spec_check_command(pre.target_id, t.frame) is Ok
            &&& t.advance(sent) == Progress::Continue(t.at(Phase::CommandStatus))
            &&& t.at(Phase::CommandStatus).advance(status) == Progress::Continue(
                t.at(Phase::Data),
            )
            &&& t.at(Phase::Data).pending() == (Request::BulkRead {
                endpoint: pre.binding.in_addr,
                len: size as usize,
                timeout_secs: BULK_READ_TIMEOUT_SECS,
            })
            &&& t.at(Phase::Data).advance(data) == Progress::Continue(got.at(Phase::DataStatus))
            &&& got.at(Phase::DataStatus).advance(status2) == Progress::Continue(
                got.at(Phase::Ack),
            )
            &&& got.at(Phase::Ack).pending() == (Request::BulkWrite {
                endpoint: pre.binding.out_addr,
                data: zeros(1),
                timeout_secs: BULK_WRITE_TIMEOUT_SECS,
            })
            &&& got.at(Phase::Ack).advance(ack) == Progress::Finished(Ok(data.bytes()))
            &&& data.bytes().len() == size
        }),
{
    lemma_range_args(addr, size);
}

/// The second reboot, whatever the state of the connection: its frame has
/// opcode 0x0A, and it passes the rules on an RP2350 only.
pub proof fn lemma_reboot2_command(pre: ConnectionState, delay: u32)
    ensures
        ({
            let t = first_state(
                pre,
                frame_of(PicobootCmdId::Reboot2, 16, 0, reboot2_args(0, delay, 0, 0)),
                Seq::empty(),
            );
            &&& t.frame.cmd_id == 0x0A
            &&& spec_check_command(pre.target_id, t.frame) is Ok <==> pre.target_id
                == TargetID::Rp2350
            &&& pre.target_id == TargetID::Rp2040 ==> spec_check_command(pre.target_id, t.frame)
                == Err::<(), PicobootError>(PicobootError::CmdNotAllowedForTarget)
        }),
{
}

/// An RP2040 is never sent one of the commands that only an RP2350 has.
pub proof fn lemma_rp2040_commands(cmd_id: u8)
    requires
        permitted(TargetID::Rp2040, cmd_id),
    ensures
        cmd_id != PicobootCmdId::Reboot2.spec_value(),
        cmd_id != PicobootCmdId::GetInfo.spec_value(),
        cmd_id != PicobootCmdId::OtpRead.spec_value(),
        cmd_id != PicobootCmdId::OtpWrite.spec_value(),
        cmd_id != 0x0A && cmd_id != 0x8B && cmd_id != 0x8C && cmd_id != 0x0D,
{
}

/// Whether the reply says that all `len` bytes of a write went out.
pub open spec fn wrote_all(reply: Reply, len: nat) -> bool {
    reply.failure() is None && reply.count() == len
}

/// A command without data takes three requests: the frame, a status query
/// and the acknowledgement, which is read from the device.
pub proof fn lemma_run_without_data(t: TransactionState, sent: Reply, status: Reply, ack: Reply)
    requires
        t.phase == Phase::Command,
        t.frame.transfer_len == 0,
        wrote_all(sent, COMMAND_FRAME_LEN as nat),
        ack.failure() is None,
    ensures
        t.advance(sent) == Progress::Continue(t.at(Phase::CommandStatus)),
        t.at(Phase::CommandStatus).pending() == status_query(t.iface),
        t.at(Phase::CommandStatus).advance(status) == Progress::Continue(t.at(Phase::Ack)),
        !t.device_to_host() ==> t.at(Phase::Ack).pending() == (Request::BulkRead {
            endpoint: t.in_addr,
            len: 1,
            timeout_secs: BULK_READ_TIMEOUT_SECS,
        }),
        t.at(Phase::Ack).advance(ack) == Progress::Finished(Ok(t.received)),
{
}

/// A command that reads takes five requests: the frame, a status query, the
/// read of as many bytes as the frame announces, a status query and the
/// acknowledgement, one zero byte to the device. It ends with the bytes
/// that were read.
pub proof fn lemma_run_of_read(
    t: TransactionState,
    sent: Reply,
    status: Reply,
    data: Reply,
    status2: Reply,
    ack: Reply,
)
    requires
        t.phase == Phase::Command,
        t.frame.transfer_len != 0,
        t.device_to_host(),
        wrote_all(sent, COMMAND_FRAME_LEN as nat),
        data.failure() is None,
        data.bytes().len() == t.frame.transfer_len as usize,
        ack.failure() is None,
    ensures
        ({
            let got = TransactionState { received: data.bytes(), ..t };
            &&& t.advance(sent) == Progress::Continue(t.at(Phase::CommandStatus))
            &&& t.at(Phase::CommandStatus).advance(status) == Progress::Continue(
                t.at(Phase::Data),
            )
            &&& t.at(Phase::Data).pending() == (Request::BulkRead {
                endpoint: t.in_addr,
                len: t.frame.transfer_len as usize,
                timeout_secs: BULK_READ_TIMEOUT_SECS,
            })
            &&& t.at(Phase::Data).advance(data) == Progress::Continue(got.at(Phase::DataStatus))
            &&& got.at(Phase::DataStatus).pending() == status_query(t.iface)
            &&& got.at(Phase::DataStatus).advance(status2) == Progress::Continue(
                got.at(Phase::Ack),
            )
            &&& got.at(Phase::Ack).pending() == (Request::BulkWrite {
                endpoint: t.out_addr,
                data: zeros(1),
                timeout_secs: BULK_WRITE_TIMEOUT_SECS,
            })
            &&& got.at(Phase::Ack).advance(ack) == Progress::Finished(Ok(data.bytes()))
        }),
{
}

/// A command that writes takes five requests: the frame, a status query,
/// the payload, a status query and the acknowledgement, one byte read from
/// the device.
pub proof fn lemma_run_of_write(
    t: TransactionState,
    sent: Reply,
    status: Reply,
    data: Reply,
    status2: Reply,
    ack: Reply,
)
    requires
        t.phase == Phase::Command,
        t.frame.transfer_len != 0,
        !t.device_to_host(),
        wrote_all(sent, COMMAND_FRAME_LEN as nat),
        wrote_all(data, t.payload.len()),
        ack.failure() is None,
    ensures
        t.advance(sent) == Progress::Continue(t.at(Phase::CommandStatus)),
        t.at(Phase::CommandStatus).advance(status) == Progress::Continue(t.at(Phase::Data)),
        t.at(Phase::Data).pending() == (Request::BulkWrite {
            endpoint: t.out_addr,
            data: t.payload,
            timeout_secs: BULK_WRITE_TIMEOUT_SECS,
        }),
        t.at(Phase::Data).advance(data) == Progress::Continue(t.at(Phase::DataStatus)),
        t.at(Phase::DataStatus).advance(status2) == Progress::Continue(t.at(Phase::Ack)),
        t.at(Phase::Ack).pending() == (Request::BulkRead {
            endpoint: t.in_addr,
            len: 1,
            timeout_secs: BULK_READ_TIMEOUT_SECS,
        }),
        t.at(Phase::Ack).advance(ack) == Progress::Finished(Ok(t.received)),
{
}

/// A transaction is consistent when it starts and stays so. Where it ends
/// well, a command that reads has got exactly as many bytes as its frame
/// announced, and any other command none.
pub proof fn lemma_result_length(t: TransactionState, reply: Reply)
    requires
        t.consistent(),
    ensures
        match t.advance(reply) {
            Progress::Continue(next) => next.consistent(),
            Progress::Finished(Ok(bytes)) => bytes.len() == t.result_len(),
            Progress::Finished(Err(_)) => true,
        },
{
}

/// Every transaction starts consistent.
pub proof fn lemma_first_state_consistent(
    pre: ConnectionState,
    frame: CommandFrame,
    payload: Seq<u8>,
)
    ensures
        first_state(pre, frame, payload).consistent(),
{
}

/// An attach sequence on which nothing fails asks whether a kernel driver
/// is active, detaches it if so, sets the configuration, claims the
/// interface and sets the alternate setting; the connection then counts
/// its tokens from 1 and knows whether a driver was detached.
pub proof fn lemma_attach_run(
    a: AttachState,
    active: bool,
    detached: Reply,
    configured: Reply,
    claimed: Reply,
    set: Reply,
)
    requires
        a.phase == AttachPhase::KernelDriverActive,
        !a.has_kernel_driver,
        detached.failure() is None,
        claimed.failure() is None,
        set.failure() is None,
    ensures
        ({
            let asked = a.advance(Reply::Flag(active));
            let b = AttachState { has_kernel_driver: active, ..a };
            &&& active ==> asked == AttachProgress::Continue(a.at(AttachPhase::DetachKernelDriver))
                && a.at(AttachPhase::DetachKernelDriver).advance(detached)
                == AttachProgress::Continue(b.at(AttachPhase::SetActiveConfiguration))
            &&& !active ==> asked == AttachProgress::Continue(
                b.at(AttachPhase::SetActiveConfiguration),
            )
            &&& b.at(AttachPhase::SetActiveConfiguration).advance(configured)
                == AttachProgress::Continue(b.at(AttachPhase::ClaimInterface))
            &&& b.at(AttachPhase::ClaimInterface).advance(claimed) == AttachProgress::Continue(
                b.at(AttachPhase::SetAlternateSetting),
            )
            &&& b.at(AttachPhase::SetAlternateSetting).advance(set) == AttachProgress::Finished(
                Ok(
                    ConnectionState {
                        binding: a.binding,
                        cmd_token: 1,
                        has_kernel_driver: active,
                        target_id: a.target_id,
                    },
                ),
            )
        }),
{
}

/// No claim is leaked: where the alternate setting cannot be set, the next
/// request releases the interface, and only then is the failure reported,
/// whatever the release itself reports.
pub proof fn lemma_claim_is_released(a: AttachState, e: rusb::Error, released: Reply)
    requires
        a.phase == AttachPhase::SetAlternateSetting,
    ensures
        ({
            let next = a.at(AttachPhase::ReleaseInterface(e));
            &&& a.advance(Reply::Failed(e)) == AttachProgress::Continue(next)
            &&& next.pending() == (Request::ReleaseInterface { iface: a.binding.iface })
            &&& next.advance(released) == AttachProgress::Finished(
                Err(PicobootError::UsbSetAltSettingFailure(e)),
            )
        }),
{
}

/// A reset on which nothing fails clears the halt of the IN endpoint, then
/// that of the OUT endpoint, then resets the interface, and ends well.
pub proof fn lemma_reset_run(r: ResetState, cleared_in: Reply, cleared_out: Reply, reset: Reply)
    requires
        r.phase == ResetPhase::ClearIn,
        cleared_in.failure() is None,
        cleared_out.failure() is None,
        reset.failure() is None,
    ensures
        ({
            let second = ResetState { phase: ResetPhase::ClearOut, ..r };
            let third = ResetState { phase: ResetPhase::Reset, ..r };
            &&& r.pending() == (Request::ClearHalt { endpoint: r.in_addr })
            &&& r.advance(cleared_in) == ResetProgress::Continue(second)
            &&& second.pending() == (Request::ClearHalt { endpoint: r.out_addr })
            &&& second.advance(cleared_out) == ResetProgress::Continue(third)
            &&& third.pending() == (Request::ControlWrite {
                request_type: 0x41,
                request: 0x41,
                value: 0,
                index: r.iface as u16,
                data: Seq::empty(),
                timeout_secs: 1,
            })
            &&& third.advance(reset) == ResetProgress::Finished(Ok(()))
        }),
{
}

/// A connection that detached a kernel driver when it was made attaches it
/// again when it is given up, after the release of the interface; one that
/// detached none attaches none.
pub proof fn lemma_teardown_symmetry(a: AttachState, reply: Reply)
    requires
        a.advance(reply) matches AttachProgress::Finished(Ok(_)),
    ensures
        a.advance(reply) matches AttachProgress::Finished(Ok(c)) && c.has_kernel_driver
            == a.has_kernel_driver && spec_teardown(c)[0] == (Request::ReleaseInterface {
            iface: a.binding.iface,
        }) && (a.has_kernel_driver <==> spec_teardown(c).len() == 2) && (a.has_kernel_driver
            ==> spec_teardown(c)[1] == (Request::AttachKernelDriver { iface: a.binding.iface })),
{
}

} // verus!
