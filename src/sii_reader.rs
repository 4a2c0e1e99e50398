//! Reads one word of a slave's EEPROM through the slave information interface.
use crate::bits::{bit_of, get_bit};
use crate::command::{
    elapsed_ns, expected_wkc, has_elapsed_ms, is_request, recv_view, responders, responders_of,
    spec_expected_wkc,
    spec_read, spec_write, Command, EtherCatSystemTime, ReceivedData, SlaveAddress, TargetSlave,
};
use crate::error::EcError;
use crate::register::{
    byte_at, read_byte, read_u32, u32_at, SII_CONTROL, SII_CONTROL_SIZE, SII_DATA, SII_DATA_SIZE,
    SII_REQUEST_SIZE,
};
use vstd::prelude::*;

verus! {

#[derive(Debug, Clone, Copy, PartialEq, Eq, Structural)]
pub enum SiiTaskError {
    /// The EEPROM refused the access (write-enable error).
    PermissionDenied,
    /// The slave could not load its device information.
    DeviceInfoNotOperational,
    /// The interface stayed busy past the read timeout.
    TimeOut,
    /// The EEPROM did not acknowledge the command.
    CommandError,
    /// The word address needs two address bytes and the EEPROM takes one.
    AddressError,
    /// The interface was busy before the read began.
    Busy,
}

/// One word read from the EEPROM.
#[derive(Debug, Clone, Copy, PartialEq, Eq, Structural)]
pub struct SiiData {
    pub value: u32,
}

impl SiiData {
    pub fn sii_data(&self) -> (r: u32)
        ensures
            r == self.value,
    {
        self.value
    }
}

#[derive(Debug, Clone, Copy, PartialEq, Eq, Structural)]
pub enum SiiState {
    Idle,
    Error(EcError<SiiTaskError>),
    /// Reading SII control to see that the interface is free.
    CheckStatus,
    /// Writing the read command with the word address.
    Request,
    /// Reading SII control until the busy bit clears.
    WaitBusy,
    /// Reading SII data.
    ReadData,
    Complete(SiiData),
}

/// How long the interface may stay busy on one read.
pub const SII_TIMEOUT_MS: u32 = 10;
/// SII control, high byte: an EEPROM read is in progress.
pub const SII_BUSY_BIT: usize = 7;
/// SII control, high byte: the EEPROM did not acknowledge.
pub const SII_COMMAND_ERROR_BIT: usize = 5;
/// SII control, high byte: the device information could not be loaded.
pub const SII_DEVICE_INFO_ERROR_BIT: usize = 4;
/// SII control, high byte: write enable error.
pub const SII_WRITE_ENABLE_ERROR_BIT: usize = 6;
/// SII control, low byte: the EEPROM takes two address bytes.
pub const SII_TWO_ADDRESS_BYTES_BIT: usize = 7;
/// SII control, high byte: start a read.
pub const SII_READ_COMMAND: u8 = 0x01;

pub struct SiiReader {
    pub slave: TargetSlave,
    pub sii_address: u16,
    pub start_time: EtherCatSystemTime,
    pub state: SiiState,
    pub command: Command,
    pub buffer: [u8; 6],
}

impl SiiReader {
    /// The PDU that the task sends in its present state.
    pub open spec fn spec_request(&self) -> Option<(Command, Seq<u8>)> {
        match self.state {
            SiiState::CheckStatus | SiiState::WaitBusy => Some(
                (spec_read(self.slave, SII_CONTROL), seq![0u8, 0u8]),
            ),
            SiiState::Request => Some(
                (
                    spec_write(self.slave, SII_CONTROL),
                    seq![
                        0u8,
                        SII_READ_COMMAND,
                        (self.sii_address % 256) as u8,
                        (self.sii_address / 256) as u8,
                        0u8,
                        0u8,
                    ],
                ),
            ),
            SiiState::ReadData => Some(
                (spec_read(self.slave, SII_DATA), seq![0u8, 0u8, 0u8, 0u8]),
            ),
            _ => None,
        }
    }

    /// The state after a response that answers the last command.
    pub open spec fn spec_advance(&self, data: Seq<u8>, now: EtherCatSystemTime) -> Self {
        let low = byte_at(data, 0);
        let high = byte_at(data, 1);
        match self.state {
            SiiState::CheckStatus => {
                let next = if bit_of(high, SII_BUSY_BIT) {
                    SiiState::Error(EcError::TaskSpecific(SiiTaskError::Busy))
                } else if self.sii_address > 0xff && !bit_of(low, SII_TWO_ADDRESS_BYTES_BIT) {
                    SiiState::Error(EcError::TaskSpecific(SiiTaskError::AddressError))
                } else {
                    SiiState::Request
                };
                SiiReader { state: next, ..*self }
            },
            SiiState::Request => SiiReader { state: SiiState::WaitBusy, start_time: now, ..*self },
            SiiState::WaitBusy => {
                let next = if bit_of(high, SII_BUSY_BIT) {
                    if elapsed_ns(self.start_time, now) >= SII_TIMEOUT_MS * 1_000_000 {
                        SiiState::Error(EcError::TaskSpecific(SiiTaskError::TimeOut))
                    } else {
                        SiiState::WaitBusy
                    }
                } else if bit_of(high, SII_COMMAND_ERROR_BIT) {
                    SiiState::Error(EcError::TaskSpecific(SiiTaskError::CommandError))
                } else if bit_of(high, SII_DEVICE_INFO_ERROR_BIT) {
                    SiiState::Error(EcError::TaskSpecific(SiiTaskError::DeviceInfoNotOperational))
                } else if bit_of(high, SII_WRITE_ENABLE_ERROR_BIT) {
                    SiiState::Error(EcError::TaskSpecific(SiiTaskError::PermissionDenied))
                } else {
                    SiiState::ReadData
                };
                SiiReader { state: next, ..*self }
            },
            SiiState::ReadData => SiiReader {
                state: SiiState::Complete(SiiData { value: u32_at(data, 0) }),
                ..*self
            },
            _ => *self,
        }
    }

    /// The state after `recv`, or after its absence, at time `now`.
    pub open spec fn spec_receive(
        &self,
        recv: Option<(Command, Seq<u8>, u16)>,
        now: EtherCatSystemTime,
    ) -> Self {
        match self.state {
            SiiState::Idle | SiiState::Error(_) | SiiState::Complete(_) => *self,
            _ => match recv {
                None => SiiReader { state: SiiState::Error(EcError::LostPacket), ..*self },
                Some((c, d, wkc)) => if wkc != spec_expected_wkc(c.c_type, responders(self.slave)) {
                    SiiReader { state: SiiState::Error(EcError::UnexpectedWkc(wkc)), ..*self }
                } else if !(c.c_type == self.command.c_type && c.ado == self.command.ado) {
                    SiiReader { state: SiiState::Error(EcError::UnexpectedCommand), ..*self }
                } else {
                    self.spec_advance(d, now)
                },
            },
        }
    }

    pub open spec fn spec_outcome(&self) -> Option<Result<(SiiData, usize), EcError<SiiTaskError>>> {
        match self.state {
            SiiState::Complete(d) => Some(Ok((d, SII_DATA_SIZE))),
            SiiState::Error(e) => Some(Err(e)),
            _ => None,
        }
    }

    pub fn new() -> (r: Self)
        ensures
            r.state == SiiState::Idle,
    {
        SiiReader {
            slave: TargetSlave::Single(SlaveAddress::SlavePosition(0)),
            sii_address: 0,
            start_time: EtherCatSystemTime(0),
            state: SiiState::Idle,
            command: Command::default(),
            buffer: [0; 6],
        }
    }

    /// Begins reading the EEPROM word at `sii_address` of `slave`.
    pub fn start(&mut self, slave: TargetSlave, sii_address: u16)
        ensures
            final(self).slave == slave,
            final(self).sii_address == sii_address,
            final(self).state == SiiState::CheckStatus,
    {
        self.slave = slave;
        self.sii_address = sii_address;
        self.state = SiiState::CheckStatus;
    }

    pub fn next_command(&mut self, sys_time: EtherCatSystemTime) -> (r: Option<(Command, &[u8])>)
        ensures
            is_request(r, old(self).spec_request()),
            final(self).slave == old(self).slave,
            final(self).sii_address == old(self).sii_address,
            final(self).start_time == old(self).start_time,
            final(self).state == old(self).state,
            r matches Some((c, _)) ==> final(self).command == c,
            r is None ==> final(self).command == old(self).command,
    {
        self.buffer = [0; 6];
        let (command, length) = match self.state {
            SiiState::CheckStatus | SiiState::WaitBusy => (
                Command::new_read(self.slave, SII_CONTROL),
                SII_CONTROL_SIZE,
            ),
            SiiState::Request => {
                self.buffer[1] = SII_READ_COMMAND;
                self.buffer[2] = (self.sii_address % 256) as u8;
                self.buffer[3] = (self.sii_address / 256) as u8;
                (Command::new_write(self.slave, SII_CONTROL), SII_REQUEST_SIZE)
            },
            SiiState::ReadData => (Command::new_read(self.slave, SII_DATA), SII_DATA_SIZE),
            _ => {
                return None;
            },
        };
        self.command = command;
        let data = vstd::slice::slice_subrange(self.buffer.as_slice(), 0, length);
        assert(data@ =~= old(self).spec_request()->Some_0.1);
        Some((command, data))
    }

    pub fn recieve_and_process(&mut self, recv: Option<ReceivedData>, sys_time: EtherCatSystemTime)
        ensures
            *final(self) == old(self).spec_receive(recv_view(recv), sys_time),
    {
        match self.state {
            SiiState::Idle | SiiState::Error(_) | SiiState::Complete(_) => {
                return ;
            },
            _ => {},
        }
        let recv = match recv {
            Some(recv) => recv,
            None => {
                self.state = SiiState::Error(EcError::LostPacket);
                return ;
            },
        };
        if recv.wkc as u32 != expected_wkc(recv.command.c_type, responders_of(self.slave)) {
            self.state = SiiState::Error(EcError::UnexpectedWkc(recv.wkc));
            return ;
        }
        if !(recv.command.c_type == self.command.c_type && recv.command.ado == self.command.ado) {
            self.state = SiiState::Error(EcError::UnexpectedCommand);
            return ;
        }
        let low = read_byte(recv.data, 0);
        let high = read_byte(recv.data, 1);
        match self.state {
            SiiState::CheckStatus => {
                if get_bit(high, SII_BUSY_BIT) {
                    self.state = SiiState::Error(EcError::TaskSpecific(SiiTaskError::Busy));
                } else if self.sii_address > 0xff && !get_bit(low, SII_TWO_ADDRESS_BYTES_BIT) {
                    self.state = SiiState::Error(EcError::TaskSpecific(SiiTaskError::AddressError));
                } else {
                    self.state = SiiState::Request;
                }
            },
            SiiState::Request => {
                self.start_time = sys_time;
                self.state = SiiState::WaitBusy;
            },
            SiiState::WaitBusy => {
                if get_bit(high, SII_BUSY_BIT) {
                    if has_elapsed_ms(self.start_time, sys_time, SII_TIMEOUT_MS) {
                        self.state = SiiState::Error(EcError::TaskSpecific(SiiTaskError::TimeOut));
                    }
                } else if get_bit(high, SII_COMMAND_ERROR_BIT) {
                    self.state = SiiState::Error(EcError::TaskSpecific(SiiTaskError::CommandError));
                } else if get_bit(high, SII_DEVICE_INFO_ERROR_BIT) {
                    self.state = SiiState::Error(
                        EcError::TaskSpecific(SiiTaskError::DeviceInfoNotOperational),
                    );
                } else if get_bit(high, SII_WRITE_ENABLE_ERROR_BIT) {
                    self.state = SiiState::Error(
                        EcError::TaskSpecific(SiiTaskError::PermissionDenied),
                    );
                } else {
                    self.state = SiiState::ReadData;
                }
            },
            SiiState::ReadData => {
                let value = read_u32(recv.data, 0);
                self.state = SiiState::Complete(SiiData { value });
            },
            _ => {},
        }
    }

    pub fn wait(&self) -> (r: Option<Result<(SiiData, usize), EcError<SiiTaskError>>>)
        ensures
            r == self.spec_outcome(),
    {
        match self.state {
            SiiState::Complete(d) => Some(Ok((d, SII_DATA_SIZE))),
            SiiState::Error(e) => Some(Err(e)),
            _ => None,
        }
    }
}

} // verus!
