//! Host-side client logic for the PICOBOOT USB interface that Raspberry Pi
//! microcontrollers expose in BOOTSEL mode.
//!
//! The crate holds the wire codec, the rules that gate flash commands, the
//! choice of device and endpoints, and the command transaction as a state
//! machine. It performs no USB transfer itself: every operation hands out a
//! [`transport::UsbRequest`] and is resumed with the [`transport::UsbReply`] that the
//! transport produced for it.
use vstd::prelude::*;

pub mod wire;
pub mod cmd;
pub mod descriptor;
pub mod transport;
pub mod usb;

pub use cmd::{PicobootCmd, PicobootCmdId, PicobootError, TargetID};
pub use usb::PicobootConnection;


verus! {

/// Flash page size: the granularity of a write.
pub const PICO_PAGE_SIZE: u32 = 0x100;

/// Flash sector size: the granularity of an erase.
pub const PICO_SECTOR_SIZE: u32 = 0x1000;

/// Address at which flash storage starts.
pub const PICO_FLASH_START: u32 = 0x10000000;

/// Initial stack pointer: the top of RP2040 SRAM.
pub const PICO_STACK_POINTER: u32 = 0x20042000;

/// USB vendor id of Raspberry Pi.
pub const PICOBOOT_VID: u16 = 0x2E8A;

/// USB product id of an RP2040 in BOOTSEL mode.
pub const PICOBOOT_PID_RP2040: u16 = 0x0003;

/// USB product id of an RP2350 in BOOTSEL mode.
pub const PICOBOOT_PID_RP2350: u16 = 0x000f;

/// Magic number that opens every command frame.
pub const PICOBOOT_MAGIC: u32 = 0x431FD10B;

/// UF2 family id for RP2040.
pub const UF2_RP2040_FAMILY_ID: u32 = 0xE48BFF56;

/// UF2 family id for RP2350 (ARM, secure).
pub const UF2_RP2350_ARM_S_FAMILY_ID: u32 = 0xE48BFF59;

/// UF2 family id for RP2350 (RISC-V).
pub const UF2_RP2350_RISCV_FAMILY_ID: u32 = 0xE48BFF5A;

/// UF2 family id for RP2350 (ARM, non-secure).
pub const UF2_RP2350_ARM_NS_FAMILY_ID: u32 = 0xE48BFF5B;

} // verus!
