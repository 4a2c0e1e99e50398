//! Addresses and layouts of the slave controller registers that the tasks use.
use crate::bits::{bit_of, bits_of, get_bit, get_bits};
use crate::slave::{spec_port_of, PortPhysics};
use vstd::prelude::*;

verus! {

pub const DL_INFORMATION: u16 = 0x0000;
pub const DL_INFORMATION_SIZE: usize = 10;
pub const FIXED_STATION_ADDRESS: u16 = 0x0010;
pub const FIXED_STATION_ADDRESS_SIZE: usize = 2;
pub const DL_CONTROL: u16 = 0x0100;
pub const DL_CONTROL_SIZE: usize = 4;
pub const DL_STATUS: u16 = 0x0110;
pub const DL_STATUS_SIZE: usize = 2;
pub const AL_CONTROL: u16 = 0x0120;
pub const AL_CONTROL_SIZE: usize = 2;
pub const AL_STATUS: u16 = 0x0130;
pub const AL_STATUS_SIZE: usize = 2;
pub const AL_STATUS_CODE: u16 = 0x0134;
pub const AL_STATUS_CODE_SIZE: usize = 2;
pub const PDI_CONTROL: u16 = 0x0140;
pub const PDI_CONTROL_SIZE: usize = 2;
pub const RX_ERROR_COUNTER: u16 = 0x0300;
pub const RX_ERROR_COUNTER_SIZE: usize = 8;
pub const WATCHDOG_DIVIDER: u16 = 0x0400;
pub const WATCHDOG_DIVIDER_SIZE: usize = 2;
pub const DL_USER_WATCHDOG: u16 = 0x0410;
pub const DL_USER_WATCHDOG_SIZE: usize = 2;
pub const SM_CHANNEL_WATCHDOG: u16 = 0x0420;
pub const SM_CHANNEL_WATCHDOG_SIZE: usize = 2;
pub const SII_CONTROL: u16 = 0x0502;
pub const SII_CONTROL_SIZE: usize = 2;
/// Control and address written in one go.
pub const SII_REQUEST_SIZE: usize = 6;
pub const SII_DATA: u16 = 0x0508;
pub const SII_DATA_SIZE: usize = 4;
pub const FMMU_REGISTER: u16 = 0x0600;
pub const FMMU_REGISTER_SIZE: usize = 16;
/// Distance between two FMMU entries.
pub const FMMU_STRIDE: u16 = 0x10;
pub const SM_CONTROL: u16 = 0x0800;
pub const SM_CONTROL_SIZE: usize = 5;
pub const SM_STATUS_SIZE: usize = 1;
pub const SM_ACTIVATION: u16 = 0x0806;
pub const SM_ACTIVATION_SIZE: usize = 2;
/// Distance between two SyncManager channels.
pub const SM_STRIDE: u16 = 0x08;
pub const DC_ACTIVATION: u16 = 0x0980;
pub const DC_ACTIVATION_SIZE: usize = 2;
pub const CYCLIC_OPERATION_START_TIME: u16 = 0x0990;
pub const CYCLIC_OPERATION_START_TIME_SIZE: usize = 8;
pub const SYNC0_CYCLE_TIME: u16 = 0x09A0;
pub const SYNC0_CYCLE_TIME_SIZE: usize = 4;
pub const SYNC1_CYCLE_TIME: u16 = 0x09A4;
pub const SYNC1_CYCLE_TIME_SIZE: usize = 4;

/// EEPROM word addresses of the slave information interface.
pub const SII_VENDER_ID: u16 = 0x0008;
pub const SII_PRODUCT_CODE: u16 = 0x000A;
pub const SII_REVISION_NUMBER: u16 = 0x000C;
pub const SII_STD_RX_MAILBOX_OFFSET: u16 = 0x0018;
pub const SII_STD_RX_MAILBOX_SIZE: u16 = 0x0019;
pub const SII_STD_TX_MAILBOX_OFFSET: u16 = 0x001A;
pub const SII_STD_TX_MAILBOX_SIZE: u16 = 0x001B;
pub const SII_MAILBOX_PROTOCOL: u16 = 0x001C;

/// Byte `i` of a received register image; bytes past its end read as 0.
pub open spec fn byte_at(data: Seq<u8>, i: int) -> u8 {
    if 0 <= i < data.len() {
        data[i]
    } else {
        0
    }
}

pub fn read_byte(data: &[u8], i: usize) -> (r: u8)
    ensures
        r == byte_at(data@, i as int),
{
    if i < data.len() {
        data[i]
    } else {
        0
    }
}

/// The little-endian `u16` at byte `i`.
pub open spec fn u16_at(data: Seq<u8>, i: int) -> u16 {
    (byte_at(data, i) + 256 * byte_at(data, i + 1)) as u16
}

pub fn read_u16(data: &[u8], i: usize) -> (r: u16)
    requires
        i < usize::MAX,
    ensures
        r == u16_at(data@, i as int),
{
    let lo = read_byte(data, i) as u16;
    let hi = read_byte(data, i + 1) as u16;
    lo + 256 * hi
}

/// DL status: the PDI is operational once the EEPROM was loaded.
pub open spec fn spec_pdi_operational(data: Seq<u8>) -> bool {
    bit_of(byte_at(data, 0), 0)
}

pub fn pdi_operational(data: &[u8]) -> (r: bool)
    ensures
        r == spec_pdi_operational(data@),
{
    get_bit(read_byte(data, 0), 0)
}

/// DL status: communication is established on port `port`.
pub open spec fn spec_signal_detection(data: Seq<u8>, port: usize) -> bool {
    bit_of(byte_at(data, 1), (2 * port + 1) as usize)
}

pub fn signal_detection(data: &[u8], port: usize) -> (r: bool)
    requires
        port < 4,
    ensures
        r == spec_signal_detection(data@, port),
{
    get_bit(read_byte(data, 1), 2 * port + 1)
}

/// DL information: byte 4 counts the FMMUs, byte 5 the SyncManagers, byte 6
/// gives the process RAM in KB and byte 7 the port types, two bits each.
pub open spec fn spec_port_type(data: Seq<u8>, port: usize) -> PortPhysics {
    spec_port_of(bits_of(byte_at(data, 7), (2 * port) as usize, (2 * port + 2) as usize))
}

pub fn port_type(data: &[u8], port: usize) -> (r: PortPhysics)
    requires
        port < 4,
    ensures
        r == spec_port_type(data@, port),
{
    PortPhysics::from_code(get_bits(read_byte(data, 7), 2 * port, 2 * port + 2))
}

/// DL information, feature bits: bit `i` of the 16-bit word at byte 8.
pub open spec fn spec_feature(data: Seq<u8>, i: usize) -> bool {
    if i < 8 {
        bit_of(byte_at(data, 8), i)
    } else {
        bit_of(byte_at(data, 9), (i - 8) as usize)
    }
}

pub fn feature(data: &[u8], i: usize) -> (r: bool)
    requires
        i < 16,
    ensures
        r == spec_feature(data@, i),
{
    if i < 8 {
        get_bit(read_byte(data, 8), i)
    } else {
        get_bit(read_byte(data, 9), i - 8)
    }
}

/// Feature bit: FMMUs map bytes only, not single bits.
pub const FEATURE_FMMU_BYTE_ONLY: usize = 0;
/// Feature bit: distributed clocks are available.
pub const FEATURE_DC: usize = 2;
/// Feature bit: distributed-clock registers are 64 bits wide.
pub const FEATURE_DC_64BIT: usize = 3;
/// Feature bit: LRW is not supported.
pub const FEATURE_NO_LRW: usize = 9;
/// Feature bit: BRW, APRW and FPRW are not supported.
pub const FEATURE_NO_RW: usize = 10;

/// PDI control: AL status strictly follows what AL control asked for
/// (device emulation), bit 8.
pub open spec fn spec_strict_al_control(data: Seq<u8>) -> bool {
    bit_of(byte_at(data, 1), 0)
}

pub fn strict_al_control(data: &[u8]) -> (r: bool)
    ensures
        r == spec_strict_al_control(data@),
{
    get_bit(read_byte(data, 1), 0)
}

} // verus!

verus! {

/// The little-endian `u32` at byte `i`.
pub open spec fn u32_at(data: Seq<u8>, i: int) -> u32 {
    (u16_at(data, i) + 65536 * u16_at(data, i + 2)) as u32
}

pub fn read_u32(data: &[u8], i: usize) -> (r: u32)
    requires
        i < usize::MAX - 2,
    ensures
        r == u32_at(data@, i as int),
{
    let lo = read_u16(data, i) as u32;
    let hi = read_u16(data, i + 2) as u32;
    lo + 65536 * hi
}

} // verus!
