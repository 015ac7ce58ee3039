use picoboot_rs::cmd::{
    decode_status, encode_command, encode_status, PicobootCmd, PicobootRangeCmd, PicobootReboot2Cmd, PicobootRebootCmd,
    PicobootStatusCmd,
};
use picoboot_rs::PICOBOOT_MAGIC;

/// The packed little-endian layout of a frame, field by field.
fn packed(
    token: u32,
    cmd_id: u8,
    cmd_size: u8,
    transfer_len: u32,
    args: [u8; 16],
) -> Vec<u8> {
    bincode::serialize(&(PICOBOOT_MAGIC, token, cmd_id, cmd_size, 0u16, transfer_len, args))
        .unwrap()
}

#[test]
fn arguments_have_the_packed_layout() {
    for (a, b, c, d) in [
        (0u32, 0u32, 0u32, 0u32),
        (0x1000_0000, 0x1000, 7, 9),
        (u32::MAX, 1, 0x8000_0000, 0x0102_0304),
        (0xDEAD_BEEF, 0xCAFE_F00D, 0x0BAD_CAFE, 0xFEED_FACE),
    ] {
        assert_eq!(PicobootRangeCmd::ser(a, b).to_vec(), bincode::serialize(&(a, b, 0u64)).unwrap());
        assert_eq!(
            PicobootRebootCmd::ser(a, b, c).to_vec(),
            bincode::serialize(&(a, b, c, 0u32)).unwrap()
        );
        assert_eq!(
            PicobootReboot2Cmd::ser(a, b, c, d).to_vec(),
            bincode::serialize(&(a, b, c, d)).unwrap()
        );
    }
}

#[test]
fn frames_have_the_packed_layout() {
    let range = PicobootRangeCmd::ser(0x1000_0100, 0x200);
    assert_eq!(
        encode_command(&PicobootCmd::flash_read(0x1000_0100, 0x200).set_token(0x0A0B_0C0D)).to_vec(),
        packed(0x0A0B_0C0D, 0x84, 8, 0x200, range)
    );
    assert_eq!(
        encode_command(&PicobootCmd::flash_write(0x1000_0100, 0x200).set_token(1)).to_vec(),
        packed(1, 0x05, 8, 0x200, range)
    );
    assert_eq!(
        encode_command(&PicobootCmd::flash_erase(0x1000_0000, 0x2000)).to_vec(),
        packed(0, 0x03, 8, 0, PicobootRangeCmd::ser(0x1000_0000, 0x2000))
    );
    assert_eq!(
        encode_command(&PicobootCmd::reboot(0x2000_0000, 0x2004_2000, 250).set_token(u32::MAX)).to_vec(),
        packed(u32::MAX, 0x02, 12, 0, PicobootRebootCmd::ser(0x2000_0000, 0x2004_2000, 250))
    );
    assert_eq!(
        encode_command(&PicobootCmd::reboot2_normal(250)).to_vec(),
        packed(0, 0x0A, 16, 0, PicobootReboot2Cmd::ser(0, 250, 0, 0))
    );
    let mut mode = [0u8; 16];
    mode[0] = 2;
    assert_eq!(encode_command(&PicobootCmd::exclusive_access(2)).to_vec(), packed(0, 0x01, 1, 0, mode));
    assert_eq!(encode_command(&PicobootCmd::enter_xip()).to_vec(), packed(0, 0x07, 0, 0, [0; 16]));
    assert_eq!(encode_command(&PicobootCmd::exit_xip()).to_vec(), packed(0, 0x06, 0, 0, [0; 16]));
}

#[test]
fn frames_are_read_back_by_a_packed_reader() {
    let c = PicobootCmd::flash_write(0x1000_0300, 0x100).set_token(77);
    let (magic, token, cmd_id, cmd_size, reserved, transfer_len, args): (
        u32,
        u32,
        u8,
        u8,
        u16,
        u32,
        [u8; 16],
    ) = bincode::deserialize(&encode_command(&c)).unwrap();
    assert_eq!(magic, 0x431F_D10B);
    assert_eq!(token, 77);
    assert_eq!(cmd_id, 0x05);
    assert_eq!(cmd_size, 8);
    assert_eq!(reserved, 0);
    assert_eq!(transfer_len, 0x100);
    let (addr, size, rest): (u32, u32, u64) = bincode::deserialize(&args).unwrap();
    assert_eq!((addr, size, rest), (0x1000_0300, 0x100, 0));
}

#[test]
fn status_frames_have_the_packed_layout() {
    for (token, code, id, busy) in
        [(0u32, 0u32, 0u8, 0u8), (0x0102_0304, 17, 0x84, 1), (u32::MAX, 0xFFFF_FF00, 0x0D, 0xFF)]
    {
        let pad: [u8; 6] = [0; 6];
        let bytes = bincode::serialize(&(token, code, id, busy, pad)).unwrap();
        assert_eq!(bytes.len(), 16);
        let s = decode_status(&bytes).unwrap();
        assert_eq!(s.get_token(), token);
        assert_eq!(s.get_status_code().code(), code);
        assert_eq!(s.get_cmd_id(), id);
        assert_eq!(s.get_in_progress(), busy);
        assert_eq!(encode_status(&PicobootStatusCmd::new(token, code, id, busy)).to_vec(), bytes);
    }
}
