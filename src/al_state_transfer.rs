//! Moves slaves into a requested application-layer state.
use crate::bits::{bit_of, get_bit};
use crate::command::{
    elapsed_ns, expected_wkc, has_elapsed_ms, is_request, recv_view, responders, responders_of,
    spec_expected_wkc,
    spec_read, spec_write, Command, EtherCatSystemTime, ReceivedData, SlaveAddress,
    TargetSlave,
};
use crate::error::EcError;
use crate::register::{
    byte_at, read_byte, read_u16, u16_at, AL_CONTROL, AL_STATUS, AL_STATUS_CODE,
};
use crate::slave::{spec_al_code, spec_al_state_of, AlState};
use vstd::prelude::*;

verus! {

#[derive(Debug, Clone, Copy, PartialEq, Eq, Structural)]
pub enum AlStateTransferError {
    /// The target state was not reached within this many milliseconds.
    TimeoutMs(u32),
    /// The slave refused the transition with this AL status code, in this state.
    AlStatusCode(u16, AlState),
}

#[derive(Debug, Clone, Copy, PartialEq, Eq, Structural)]
pub enum TransferState {
    Idle,
    Error(EcError<AlStateTransferError>),
    /// Reading the present state, which decides the timeout.
    ReadCurrent,
    /// Writing the target state to AL control.
    Request,
    /// Reading AL status until the target state shows.
    Poll,
    /// Reading the AL status code after the slave flagged an error.
    ReadCode(AlState),
    Complete(AlState),
}

/// How long a transition may take: 5 s into Init, 3 s from Init to
/// PreOperational, 10 s otherwise.
pub open spec fn spec_transition_timeout_ms(from: AlState, to: AlState) -> u32 {
    if to == AlState::Init {
        5000
    } else if to == AlState::Bootstrap {
        10000
    } else if from == AlState::Init && to == AlState::PreOperational {
        3000
    } else {
        10000
    }
}

pub fn transition_timeout_ms(from: AlState, to: AlState) -> (r: u32)
    ensures
        r == spec_transition_timeout_ms(from, to),
{
    match (from, to) {
        (_, AlState::Init) => 5000,
        (_, AlState::Bootstrap) => 10000,
        (AlState::Init, AlState::PreOperational) => 3000,
        _ => 10000,
    }
}

/// The bit of AL status that flags a refused transition.
pub const AL_STATUS_ERROR_BIT: usize = 4;

/// How many status reads in a row may come back with a working counter of 0
/// before the transfer gives up.
pub const POLL_WKC_RETRIES: u8 = 3;

pub struct AlStateTransfer {
    pub slave: TargetSlave,
    pub target: AlState,
    pub timeout_ms: u32,
    pub start_time: EtherCatSystemTime,
    pub state: TransferState,
    /// Status reads in a row that no slave answered.
    pub wkc_retries: u8,
    pub command: Command,
    pub buffer: [u8; 2],
}

impl AlStateTransfer {
    /// The PDU that the task sends in its present state.
    pub open spec fn spec_request(&self) -> Option<(Command, Seq<u8>)> {
        match self.state {
            TransferState::ReadCurrent => Some((spec_read(self.slave, AL_STATUS), seq![0u8, 0u8])),
            TransferState::Request => Some(
                (spec_write(self.slave, AL_CONTROL), seq![spec_al_code(self.target), 0u8]),
            ),
            TransferState::Poll => Some((spec_read(self.slave, AL_STATUS), seq![0u8, 0u8])),
            TransferState::ReadCode(_) => Some(
                (spec_read(self.slave, AL_STATUS_CODE), seq![0u8, 0u8]),
            ),
            _ => None,
        }
    }

    /// The state after a response that answers the last command.
    pub open spec fn spec_advance(&self, data: Seq<u8>, now: EtherCatSystemTime) -> Self {
        match self.state {
            TransferState::ReadCurrent => {
                let current = spec_al_state_of(byte_at(data, 0));
                AlStateTransfer {
                    state: TransferState::Request,
                    timeout_ms: spec_transition_timeout_ms(current, self.target),
                    start_time: now,
                    ..*self
                }
            },
            TransferState::Request => AlStateTransfer { state: TransferState::Poll, ..*self },
            TransferState::Poll => {
                let status = byte_at(data, 0);
                let current = spec_al_state_of(status);
                let next = if bit_of(status, AL_STATUS_ERROR_BIT) {
                    TransferState::ReadCode(current)
                } else if current == self.target {
                    TransferState::Complete(current)
                } else if elapsed_ns(self.start_time, now) >= self.timeout_ms * 1_000_000 {
                    TransferState::Error(
                        EcError::TaskSpecific(AlStateTransferError::TimeoutMs(self.timeout_ms)),
                    )
                } else {
                    TransferState::Poll
                };
                AlStateTransfer { state: next, wkc_retries: 0, ..*self }
            },
            TransferState::ReadCode(current) => AlStateTransfer {
                state: TransferState::Error(
                    EcError::TaskSpecific(
                        AlStateTransferError::AlStatusCode(u16_at(data, 0), current),
                    ),
                ),
                ..*self
            },
            _ => *self,
        }
    }

    /// The state after `recv`, or after its absence, at time `now`. While
    /// polling, a status read that no slave answered is tried again, up to
    /// `POLL_WKC_RETRIES` times in a row.
    pub open spec fn spec_receive(
        &self,
        recv: Option<(Command, Seq<u8>, u16)>,
        now: EtherCatSystemTime,
    ) -> Self {
        match self.state {
            TransferState::Idle | TransferState::Error(_) | TransferState::Complete(_) => *self,
            _ => match recv {
                None => AlStateTransfer { state: TransferState::Error(EcError::LostPacket), ..*self },
                Some((c, d, wkc)) => if self.state is Poll && wkc == 0 && self.wkc_retries
                    < POLL_WKC_RETRIES {
                    AlStateTransfer { wkc_retries: (self.wkc_retries + 1) as u8, ..*self }
                } else if wkc != spec_expected_wkc(c.c_type, responders(self.slave)) {
                    AlStateTransfer {
                        state: TransferState::Error(EcError::UnexpectedWkc(wkc)),
                        ..*self
                    }
                } else if !(c.c_type == self.command.c_type && c.ado == self.command.ado) {
                    AlStateTransfer { state: TransferState::Error(EcError::UnexpectedCommand), ..*self }
                } else {
                    self.spec_advance(d, now)
                },
            },
        }
    }

    pub open spec fn spec_outcome(&self) -> Option<Result<AlState, EcError<AlStateTransferError>>> {
        match self.state {
            TransferState::Complete(s) => Some(Ok(s)),
            TransferState::Error(e) => Some(Err(e)),
            _ => None,
        }
    }

    pub fn new() -> (r: Self)
        ensures
            r.state == TransferState::Idle,
            r.target == AlState::Init,
    {
        AlStateTransfer {
            slave: TargetSlave::Single(SlaveAddress::SlavePosition(0)),
            target: AlState::Init,
            timeout_ms: 0,
            start_time: EtherCatSystemTime(0),
            state: TransferState::Idle,
            wkc_retries: 0,
            command: Command::default(),
            buffer: [0; 2],
        }
    }

    /// Begins moving `slave` to `target`.
    pub fn start(&mut self, slave: TargetSlave, target: AlState)
        ensures
            final(self).slave == slave,
            final(self).target == target,
            final(self).state == TransferState::ReadCurrent,
            final(self).wkc_retries == 0,
    {
        self.slave = slave;
        self.target = target;
        self.state = TransferState::ReadCurrent;
        self.wkc_retries = 0;
    }

    pub fn next_command(&mut self, sys_time: EtherCatSystemTime) -> (r: Option<(Command, &[u8])>)
        ensures
            is_request(r, old(self).spec_request()),
            final(self).slave == old(self).slave,
            final(self).target == old(self).target,
            final(self).timeout_ms == old(self).timeout_ms,
            final(self).start_time == old(self).start_time,
            final(self).state == old(self).state,
            final(self).wkc_retries == old(self).wkc_retries,
            r matches Some((c, _)) ==> final(self).command == c,
            r is None ==> final(self).command == old(self).command,
    {
        let command = match self.state {
            TransferState::ReadCurrent | TransferState::Poll => {
                self.buffer = [0; 2];
                Command::new_read(self.slave, AL_STATUS)
            },
            TransferState::Request => {
                self.buffer = [0; 2];
                self.buffer[0] = self.target.code();
                Command::new_write(self.slave, AL_CONTROL)
            },
            TransferState::ReadCode(_) => {
                self.buffer = [0; 2];
                Command::new_read(self.slave, AL_STATUS_CODE)
            },
            _ => {
                return None;
            },
        };
        self.command = command;
        let data = self.buffer.as_slice();
        assert(data@ =~= old(self).spec_request()->Some_0.1);
        Some((command, data))
    }

    pub fn recieve_and_process(&mut self, recv: Option<ReceivedData>, sys_time: EtherCatSystemTime)
        ensures
            *final(self) == old(self).spec_receive(recv_view(recv), sys_time),
    {
        match self.state {
            TransferState::Idle | TransferState::Error(_) | TransferState::Complete(_) => {
                return ;
            },
            _ => {},
        }
        let recv = match recv {
            Some(recv) => recv,
            None => {
                self.state = TransferState::Error(EcError::LostPacket);
                return ;
            },
        };
        let polling = match self.state {
            TransferState::Poll => true,
            _ => false,
        };
        if polling && recv.wkc == 0 && self.wkc_retries < POLL_WKC_RETRIES {
            self.wkc_retries = self.wkc_retries + 1;
            return ;
        }
        if recv.wkc as u32 != expected_wkc(recv.command.c_type, responders_of(self.slave)) {
            self.state = TransferState::Error(EcError::UnexpectedWkc(recv.wkc));
            return ;
        }
        if !(recv.command.c_type == self.command.c_type && recv.command.ado == self.command.ado) {
            self.state = TransferState::Error(EcError::UnexpectedCommand);
            return ;
        }
        match self.state {
            TransferState::ReadCurrent => {
                let current = AlState::from_code(read_byte(recv.data, 0));
                self.timeout_ms = transition_timeout_ms(current, self.target);
                self.start_time = sys_time;
                self.state = TransferState::Request;
            },
            TransferState::Request => {
                self.state = TransferState::Poll;
            },
            TransferState::Poll => {
                let status = read_byte(recv.data, 0);
                let current = AlState::from_code(status);
                self.wkc_retries = 0;
                if get_bit(status, AL_STATUS_ERROR_BIT) {
                    self.state = TransferState::ReadCode(current);
                } else if current == self.target {
                    self.state = TransferState::Complete(current);
                } else if has_elapsed_ms(self.start_time, sys_time, self.timeout_ms) {
                    self.state = TransferState::Error(
                        EcError::TaskSpecific(AlStateTransferError::TimeoutMs(self.timeout_ms)),
                    );
                }
            },
            TransferState::ReadCode(current) => {
                let code = read_u16(recv.data, 0);
                self.state = TransferState::Error(
                    EcError::TaskSpecific(AlStateTransferError::AlStatusCode(code, current)),
                );
            },
            _ => {},
        }
    }

    pub fn wait(&self) -> (r: Option<Result<AlState, EcError<AlStateTransferError>>>)
        ensures
            r == self.spec_outcome(),
    {
        match self.state {
            TransferState::Complete(s) => Some(Ok(s)),
            TransferState::Error(e) => Some(Err(e)),
            _ => None,
        }
    }
}

} // verus!
