use picoboot_rs::cmd::{
    decode_status, encode_command, encode_status, PicobootCmd, PicobootCmdId, PicobootError, PicobootRangeCmd,
    PicobootReboot2Cmd, PicobootRebootCmd, PicobootStatus, PicobootStatusCmd, TargetID,
};
use picoboot_rs::wire::{u32_at, u32_to_le};
use picoboot_rs::{
    PICOBOOT_MAGIC, PICOBOOT_PID_RP2040, PICOBOOT_PID_RP2350, PICOBOOT_VID, PICO_FLASH_START,
    PICO_PAGE_SIZE, PICO_SECTOR_SIZE, PICO_STACK_POINTER, UF2_RP2040_FAMILY_ID,
    UF2_RP2350_ARM_NS_FAMILY_ID, UF2_RP2350_ARM_S_FAMILY_ID, UF2_RP2350_RISCV_FAMILY_ID,
};

const ALL_IDS: [(PicobootCmdId, u8); 14] = [
    (PicobootCmdId::Unknown, 0x00),
    (PicobootCmdId::ExclusiveAccess, 0x01),
    (PicobootCmdId::Reboot, 0x02),
    (PicobootCmdId::FlashErase, 0x03),
    (PicobootCmdId::Read, 0x84),
    (PicobootCmdId::Write, 0x05),
    (PicobootCmdId::ExitXip, 0x06),
    (PicobootCmdId::EnterCmdXip, 0x07),
    (PicobootCmdId::Exec, 0x08),
    (PicobootCmdId::VectorizeFlash, 0x09),
    (PicobootCmdId::Reboot2, 0x0A),
    (PicobootCmdId::GetInfo, 0x8B),
    (PicobootCmdId::OtpRead, 0x8C),
    (PicobootCmdId::OtpWrite, 0x0D),
];

#[test]
fn constants_have_their_documented_values() {
    assert_eq!(PICO_PAGE_SIZE, 0x100);
    assert_eq!(PICO_SECTOR_SIZE, 0x1000);
    assert_eq!(PICO_FLASH_START, 0x1000_0000);
    assert_eq!(PICO_STACK_POINTER, 0x2004_2000);
    assert_eq!(PICOBOOT_VID, 0x2E8A);
    assert_eq!(PICOBOOT_PID_RP2040, 0x0003);
    assert_eq!(PICOBOOT_PID_RP2350, 0x000F);
    assert_eq!(PICOBOOT_MAGIC, 0x431F_D10B);
    assert_eq!(UF2_RP2040_FAMILY_ID, 0xE48B_FF56);
    assert_eq!(UF2_RP2350_ARM_S_FAMILY_ID, 0xE48B_FF59);
    assert_eq!(UF2_RP2350_RISCV_FAMILY_ID, 0xE48B_FF5A);
    assert_eq!(UF2_RP2350_ARM_NS_FAMILY_ID, 0xE48B_FF5B);
}

#[test]
fn little_endian_words() {
    assert_eq!(u32_to_le(0x431F_D10B), [0x0B, 0xD1, 0x1F, 0x43]);
    assert_eq!(u32_to_le(0), [0, 0, 0, 0]);
    assert_eq!(u32_to_le(u32::MAX), [0xFF, 0xFF, 0xFF, 0xFF]);
    assert_eq!(u32_to_le(0x2004_2000), [0x00, 0x20, 0x04, 0x20]);
    let buf: [u8; 6] = [0xAA, 0x78, 0x56, 0x34, 0x12, 0xBB];
    assert_eq!(u32_at(&buf, 1), 0x1234_5678);
    assert_eq!(u32_at(&u32_to_le(0xDEAD_BEEF), 0), 0xDEAD_BEEF);
}

#[test]
fn opcodes_match_the_datasheet() {
    for (id, value) in ALL_IDS {
        assert_eq!(id.value(), value);
        assert_eq!(PicobootCmdId::try_from(value), Ok(id));
        assert_eq!(id.is_device_to_host(), value & 0x80 != 0);
    }
}

#[test]
fn unknown_opcodes_are_refused() {
    assert_eq!(PicobootCmdId::try_from(0x0E), Err(()));
    assert_eq!(PicobootCmdId::try_from(0x04), Err(()));
    assert_eq!(PicobootCmdId::try_from(0x83), Err(()));
    assert_eq!(PicobootCmdId::try_from(0xFF), Err(()));
    let mut known: u32 = 0;
    for x in 0..=255u8 {
        if PicobootCmdId::try_from(x).is_ok() {
            known += 1;
        }
    }
    assert_eq!(known, 14);
}

#[test]
fn only_the_rp2350_has_the_late_commands() {
    for (id, _) in ALL_IDS {
        let late = matches!(
            id,
            PicobootCmdId::Reboot2
                | PicobootCmdId::GetInfo
                | PicobootCmdId::OtpRead
                | PicobootCmdId::OtpWrite
        );
        assert!(id.allowed_on(TargetID::Rp2350));
        assert_eq!(id.allowed_on(TargetID::Rp2040), !late);
    }
}

#[test]
fn status_codes_match_the_datasheet() {
    let all: [PicobootStatus; 18] = [
        PicobootStatus::Okay,
        PicobootStatus::UnknownCmd,
        PicobootStatus::InvalidCmdLength,
        PicobootStatus::InvalidTransferLength,
        PicobootStatus::InvalidAddress,
        PicobootStatus::BadAlignment,
        PicobootStatus::InterleavedWrite,
        PicobootStatus::Rebooting,
        PicobootStatus::UnknownError,
        PicobootStatus::InvalidState,
        PicobootStatus::NotPermitted,
        PicobootStatus::InvalidArg,
        PicobootStatus::BufferTooSmall,
        PicobootStatus::PreconditionNotMet,
        PicobootStatus::ModifiedData,
        PicobootStatus::InvalidData,
        PicobootStatus::NotFound,
        PicobootStatus::UnsupportedModification,
    ];
    for (i, s) in all.iter().enumerate() {
        assert_eq!(s.code(), i as u32);
        assert_eq!(PicobootStatus::from_code(i as u32), *s);
        assert_eq!(PicobootStatus::try_from(i as u32), Ok(*s));
    }
    assert_eq!(PicobootStatus::KNOWN, 18);
}

#[test]
fn unlisted_status_codes_are_kept() {
    assert_eq!(PicobootStatus::from_code(18), PicobootStatus::UnknownStatus(18));
    assert_eq!(PicobootStatus::from_code(u32::MAX), PicobootStatus::UnknownStatus(u32::MAX));
    assert_eq!(PicobootStatus::UnknownStatus(1234).code(), 1234);
    assert_eq!(PicobootStatus::try_from(18u32), Err(()));
    assert_eq!(PicobootStatus::try_from(u32::MAX), Err(()));
}

#[test]
fn range_arguments() {
    assert_eq!(
        PicobootRangeCmd::ser(0x1000_0000, 0x1000),
        [0x00, 0x00, 0x00, 0x10, 0x00, 0x10, 0x00, 0x00, 0, 0, 0, 0, 0, 0, 0, 0]
    );
    assert_eq!(
        PicobootRangeCmd::ser(0x0403_0201, 0x0807_0605),
        [1, 2, 3, 4, 5, 6, 7, 8, 0, 0, 0, 0, 0, 0, 0, 0]
    );
}

#[test]
fn reboot_arguments() {
    assert_eq!(
        PicobootRebootCmd::ser(0, 0x2004_2000, 500),
        [0, 0, 0, 0, 0x00, 0x20, 0x04, 0x20, 0xF4, 0x01, 0x00, 0x00, 0, 0, 0, 0]
    );
    assert_eq!(
        PicobootReboot2Cmd::ser(0x0403_0201, 0x0807_0605, 0x0C0B_0A09, 0x100F_0E0D),
        [1, 2, 3, 4, 5, 6, 7, 8, 9, 10, 11, 12, 13, 14, 15, 16]
    );
}

fn frame(
    token: u32,
    cmd_id: u8,
    cmd_size: u8,
    transfer_len: u32,
    args: [u8; 16],
) -> Vec<u8> {
    let mut v: Vec<u8> = vec![0x0B, 0xD1, 0x1F, 0x43];
    v.extend_from_slice(&token.to_le_bytes());
    v.push(cmd_id);
    v.push(cmd_size);
    v.extend_from_slice(&[0, 0]);
    v.extend_from_slice(&transfer_len.to_le_bytes());
    v.extend_from_slice(&args);
    v
}

#[test]
fn every_frame_opens_with_the_magic_number_and_has_32_bytes() {
    let cmds: Vec<PicobootCmd> = vec![
        PicobootCmd::exclusive_access(2),
        PicobootCmd::reboot(1, 2, 3),
        PicobootCmd::reboot2_normal(7),
        PicobootCmd::flash_erase(0x1000_0000, 0x1000),
        PicobootCmd::flash_write(0x1000_0000, 256),
        PicobootCmd::flash_read(0x1000_0000, 256),
        PicobootCmd::enter_xip(),
        PicobootCmd::exit_xip(),
        PicobootCmd::new(PicobootCmdId::GetInfo, 16, 4, [0xFF; 16]).set_token(u32::MAX),
    ];
    for c in cmds {
        let bytes = encode_command(&c);
        assert_eq!(bytes.len(), 32);
        assert_eq!(&bytes[0..4], &[0x0B, 0xD1, 0x1F, 0x43]);
        assert_eq!(&bytes[10..12], &[0, 0]);
    }
}

#[test]
fn exclusive_access_frames() {
    for mode in 0..=2u8 {
        let mut args = [0u8; 16];
        args[0] = mode;
        assert_eq!(
            encode_command(&PicobootCmd::exclusive_access(mode)).to_vec(),
            frame(0, 0x01, 1, 0, args)
        );
    }
}

#[test]
fn reboot_frame() {
    let c = PicobootCmd::reboot(0, PICO_STACK_POINTER, 500).set_token(2);
    assert_eq!(
        encode_command(&c).to_vec(),
        frame(
            2,
            0x02,
            12,
            0,
            [0, 0, 0, 0, 0x00, 0x20, 0x04, 0x20, 0xF4, 0x01, 0, 0, 0, 0, 0, 0]
        )
    );
}

#[test]
fn reboot2_frame() {
    let c = PicobootCmd::reboot2_normal(0x0102_0304);
    assert_eq!(
        encode_command(&c).to_vec(),
        frame(0, 0x0A, 16, 0, [0, 0, 0, 0, 4, 3, 2, 1, 0, 0, 0, 0, 0, 0, 0, 0])
    );
    assert_eq!(c.get_cmd_id(), PicobootCmdId::Reboot2);
}

#[test]
fn erase_frame() {
    let c = PicobootCmd::flash_erase(0x1000_0000, 0x1000);
    assert_eq!(c.get_transfer_len(), 0);
    assert_eq!(c.get_cmd_id(), PicobootCmdId::FlashErase);
    assert_eq!(
        encode_command(&c).to_vec(),
        frame(
            0,
            0x03,
            8,
            0,
            [0x00, 0x00, 0x00, 0x10, 0x00, 0x10, 0x00, 0x00, 0, 0, 0, 0, 0, 0, 0, 0]
        )
    );
}

#[test]
fn read_and_write_frames_carry_the_size_as_transfer_length() {
    for size in [0u32, 1, 256, 4096, 0x0102_0304, u32::MAX] {
        let w = PicobootCmd::flash_write(0x1000_0100, size);
        let r = PicobootCmd::flash_read(0x1000_0100, size);
        assert_eq!(w.get_transfer_len(), size);
        assert_eq!(r.get_transfer_len(), size);
        let wb = encode_command(&w);
        let rb = encode_command(&r);
        assert_eq!(wb[8], 0x05);
        assert_eq!(rb[8], 0x84);
        assert_eq!(u32_at(&wb, 12), size);
        assert_eq!(u32_at(&rb, 12), size);
        assert_eq!(u32_at(&wb, 16), 0x1000_0100);
        assert_eq!(u32_at(&wb, 20), size);
        assert_eq!(u32_at(&rb, 20), size);
        assert_eq!(&wb[24..32], &[0u8; 8]);
    }
}

#[test]
fn xip_frames() {
    assert_eq!(encode_command(&PicobootCmd::enter_xip()).to_vec(), frame(0, 0x07, 0, 0, [0; 16]));
    assert_eq!(encode_command(&PicobootCmd::exit_xip()).to_vec(), frame(0, 0x06, 0, 0, [0; 16]));
}

#[test]
fn new_starts_with_token_zero_and_set_token_changes_only_the_token() {
    let args: [u8; 16] = [9; 16];
    let c = PicobootCmd::new(PicobootCmdId::Exec, 3, 77, args);
    assert_eq!(c.get_token(), 0);
    assert_eq!(encode_command(&c).to_vec(), frame(0, 0x08, 3, 77, args));
    let c = c.set_token(0xAABB_CCDD);
    assert_eq!(c.get_token(), 0xAABB_CCDD);
    assert_eq!(c.get_transfer_len(), 77);
    assert_eq!(c.get_cmd_id(), PicobootCmdId::Exec);
    assert_eq!(encode_command(&c).to_vec(), frame(0xAABB_CCDD, 0x08, 3, 77, args));
}

#[test]
fn frame_fields_are_read_back_from_the_bytes() {
    let c = PicobootCmd::flash_read(0x1000_2000, 0x300).set_token(41);
    let b = encode_command(&c);
    assert_eq!(u32_at(&b, 0), PICOBOOT_MAGIC);
    assert_eq!(u32_at(&b, 4), 41);
    assert_eq!(PicobootCmdId::try_from(b[8]), Ok(c.get_cmd_id()));
    assert_eq!(b[9], 8);
    assert_eq!(u32_at(&b, 12), c.get_transfer_len());
    assert_eq!(b[16..32], PicobootRangeCmd::ser(0x1000_2000, 0x300));
}

#[test]
fn status_frame_is_decoded_field_by_field() {
    let bytes: [u8; 16] = [
        0x2A, 0x00, 0x00, 0x00, 0x05, 0x00, 0x00, 0x00, 0x84, 0x01, 1, 2, 3, 4, 5, 6,
    ];
    let s = decode_status(&bytes).unwrap();
    assert_eq!(s.get_token(), 42);
    assert_eq!(s.get_status_code(), PicobootStatus::BadAlignment);
    assert_eq!(s.get_cmd_id(), 0x84);
    assert_eq!(s.get_in_progress(), 1);
    assert_eq!(encode_status(&s), bytes);
}

#[test]
fn status_frame_round_trip() {
    for (token, code, id, busy) in
        [(0u32, 0u32, 0u8, 0u8), (1, 17, 0x84, 1), (u32::MAX, u32::MAX, 0xFF, 0xFF), (7, 18, 5, 0)]
    {
        let s = PicobootStatusCmd::new(token, code, id, busy);
        let bytes = encode_status(&s);
        assert_eq!(bytes.len(), 16);
        assert_eq!(&bytes[10..16], &[0u8; 6]);
        let back = decode_status(&bytes).unwrap();
        assert_eq!(back.get_token(), token);
        assert_eq!(back.get_status_code().code(), code);
        assert_eq!(back.get_cmd_id(), id);
        assert_eq!(back.get_in_progress(), busy);
        assert_eq!(encode_status(&back), bytes);
    }
}

#[test]
fn unlisted_status_code_in_a_frame_is_reported_as_it_came() {
    let s = decode_status(&encode_status(&PicobootStatusCmd::new(3, 99, 2, 0))).unwrap();
    assert_eq!(s.get_status_code(), PicobootStatus::UnknownStatus(99));
}

#[test]
fn status_of_the_wrong_length_is_refused() {
    for len in [0usize, 1, 15, 17, 32] {
        let bytes: Vec<u8> = vec![0; len];
        assert!(matches!(decode_status(&bytes), Err(PicobootError::CmdDeserializeFailure)));
    }
    assert!(decode_status(&[0u8; 16]).is_ok());
}

#[test]
fn error_descriptions() {
    assert_eq!(PicobootError::UsbDeviceNotFound.description(), "usb device not found");
    assert_eq!(
        PicobootError::UsbReadBulkFailure(rusb::Error::Timeout).description(),
        "failed to read bulk"
    );
    assert_eq!(PicobootError::EraseInvalidAddr.description(), "erase address invalid");
    assert_eq!(PicobootError::EraseInvalidSize.description(), "erase size invalid");
    assert_eq!(PicobootError::WriteInvalidAddr.description(), "write address invalid");
    assert_eq!(
        PicobootError::CmdNotAllowedForTarget.description(),
        "cmd not allowed for target device"
    );
    assert_eq!(
        PicobootError::CmdSerializeFailure.description(),
        "cmd failed to binary serialize"
    );
    assert_eq!(
        PicobootError::CmdDeserializeFailure.description(),
        "cmd failed to binary deserialize"
    );
}

#[test]
fn a_status_of_another_command_is_stale() {
    let s = PicobootStatusCmd::new(41, 0, 0x84, 0);
    assert!(s.verify_token(41).is_ok());
    assert!(matches!(s.verify_token(42), Err(PicobootError::StaleStatus)));
    assert!(matches!(s.verify_token(0), Err(PicobootError::StaleStatus)));
    assert_eq!(PicobootError::StaleStatus.description(), "status is of another command");
}

#[test]
fn errors_carry_the_failure_of_the_transport() {
    assert_eq!(
        PicobootError::UsbReadBulkFailure(rusb::Error::Timeout).source(),
        Some(rusb::Error::Timeout)
    );
    assert_eq!(
        PicobootError::UsbClaimInterfaceFailure(rusb::Error::Busy).source(),
        Some(rusb::Error::Busy)
    );
    assert_eq!(
        PicobootError::UsbGetCommandStatusFailure(rusb::Error::Pipe).source(),
        Some(rusb::Error::Pipe)
    );
    assert_eq!(PicobootError::UsbReadBulkMismatch.source(), None);
    assert_eq!(PicobootError::EraseInvalidAddr.source(), None);
    assert_eq!(PicobootError::UsbDeviceNotFound.source(), None);
}
