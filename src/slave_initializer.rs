//! Brings one slave from power-up to a known configuration: loop ports,
//! watchdogs, FMMUs and SyncManagers cleared, identity and mailbox layout read
//! from its EEPROM, mailboxes and station address set.
use crate::al_state_transfer::{AlStateTransfer, AlStateTransferError, TransferState};
use crate::bits::{get_bit, set_bit, set_bits, with_bit, with_bits};
use crate::command::{
    is_request, recv_view, spec_matches, spec_read, spec_write, Command, EtherCatSystemTime,
    ReceivedData, SlaveAddress, TargetSlave,
};
use crate::error::EcError;
use crate::register::{
    feature, pdi_operational, port_type, read_byte, signal_detection, spec_feature,
    spec_pdi_operational, spec_port_type, spec_signal_detection, spec_strict_al_control,
    strict_al_control, byte_at, CYCLIC_OPERATION_START_TIME, CYCLIC_OPERATION_START_TIME_SIZE,
    DC_ACTIVATION, DC_ACTIVATION_SIZE, DL_CONTROL, DL_CONTROL_SIZE, DL_INFORMATION,
    DL_INFORMATION_SIZE, DL_STATUS, DL_STATUS_SIZE, DL_USER_WATCHDOG, DL_USER_WATCHDOG_SIZE,
    FEATURE_DC, FEATURE_DC_64BIT, FEATURE_FMMU_BYTE_ONLY, FEATURE_NO_LRW, FEATURE_NO_RW,
    FIXED_STATION_ADDRESS, FIXED_STATION_ADDRESS_SIZE, FMMU_REGISTER, FMMU_REGISTER_SIZE,
    FMMU_STRIDE, PDI_CONTROL, PDI_CONTROL_SIZE, RX_ERROR_COUNTER, RX_ERROR_COUNTER_SIZE,
    SII_MAILBOX_PROTOCOL, SII_PRODUCT_CODE, SII_REVISION_NUMBER, SII_STD_RX_MAILBOX_OFFSET,
    SII_STD_RX_MAILBOX_SIZE, SII_STD_TX_MAILBOX_OFFSET, SII_STD_TX_MAILBOX_SIZE, SII_VENDER_ID,
    SM_ACTIVATION, SM_ACTIVATION_SIZE, SM_CHANNEL_WATCHDOG, SM_CHANNEL_WATCHDOG_SIZE, SM_CONTROL,
    SM_CONTROL_SIZE, SM_STATUS_SIZE, SM_STRIDE, SYNC0_CYCLE_TIME, SYNC0_CYCLE_TIME_SIZE,
    SYNC1_CYCLE_TIME, SYNC1_CYCLE_TIME_SIZE, WATCHDOG_DIVIDER, WATCHDOG_DIVIDER_SIZE,
};
use crate::sii_reader::{SiiReader, SiiState, SiiTaskError};
use crate::slave::{
    set_process_data_sm_size_offset, spec_with_pdo_window, AlState, SlaveInfo, SyncManager,
    SyncManagerType,
};
use vstd::prelude::*;
use vstd::std_specs::convert::FromSpecImpl;

verus! {

#[derive(Debug, Clone, Copy, PartialEq, Eq, Structural)]
pub enum SlaveInitializerError {
    AlStateTransition(AlStateTransferError),
    SiiRead(SiiTaskError),
    /// The slave's PDI is not operational: its EEPROM was not loaded.
    FailedToLoadEEPROM,
}

impl From<SlaveInitializerError> for EcError<SlaveInitializerError> {
    fn from(err: SlaveInitializerError) -> (r: Self)
        ensures
            r == EcError::TaskSpecific(err),
    {
        EcError::TaskSpecific(err)
    }
}

impl FromSpecImpl<SlaveInitializerError> for EcError<SlaveInitializerError> {
    open spec fn obeys_from_spec() -> bool {
        true
    }

    open spec fn from_spec(err: SlaveInitializerError) -> Self {
        EcError::TaskSpecific(err)
    }
}

/// An error of the AL state transfer, as an error of the initializer.
pub open spec fn spec_lift_al(err: EcError<AlStateTransferError>) -> EcError<SlaveInitializerError> {
    match err {
        EcError::TaskSpecific(e) => EcError::TaskSpecific(SlaveInitializerError::AlStateTransition(e)),
        EcError::Interface => EcError::Interface,
        EcError::LostPacket => EcError::LostPacket,
        EcError::UnexpectedCommand => EcError::UnexpectedCommand,
        EcError::UnexpectedWkc(wkc) => EcError::UnexpectedWkc(wkc),
    }
}

/// An error of the EEPROM reader, as an error of the initializer.
pub open spec fn spec_lift_sii(err: EcError<SiiTaskError>) -> EcError<SlaveInitializerError> {
    match err {
        EcError::TaskSpecific(e) => EcError::TaskSpecific(SlaveInitializerError::SiiRead(e)),
        EcError::Interface => EcError::Interface,
        EcError::LostPacket => EcError::LostPacket,
        EcError::UnexpectedCommand => EcError::UnexpectedCommand,
        EcError::UnexpectedWkc(wkc) => EcError::UnexpectedWkc(wkc),
    }
}

impl From<EcError<AlStateTransferError>> for EcError<SlaveInitializerError> {
    fn from(err: EcError<AlStateTransferError>) -> (r: Self)
        ensures
            r == spec_lift_al(err),
    {
        match err {
            EcError::TaskSpecific(err) => EcError::TaskSpecific(
                SlaveInitializerError::AlStateTransition(err),
            ),
            EcError::Interface => EcError::Interface,
            EcError::LostPacket => EcError::LostPacket,
            EcError::UnexpectedCommand => EcError::UnexpectedCommand,
            EcError::UnexpectedWkc(wkc) => EcError::UnexpectedWkc(wkc),
        }
    }
}

impl FromSpecImpl<EcError<AlStateTransferError>> for EcError<SlaveInitializerError> {
    open spec fn obeys_from_spec() -> bool {
        true
    }

    open spec fn from_spec(err: EcError<AlStateTransferError>) -> Self {
        spec_lift_al(err)
    }
}

impl From<EcError<SiiTaskError>> for EcError<SlaveInitializerError> {
    fn from(err: EcError<SiiTaskError>) -> (r: Self)
        ensures
            r == spec_lift_sii(err),
    {
        match err {
            EcError::TaskSpecific(err) => EcError::TaskSpecific(SlaveInitializerError::SiiRead(err)),
            EcError::Interface => EcError::Interface,
            EcError::LostPacket => EcError::LostPacket,
            EcError::UnexpectedCommand => EcError::UnexpectedCommand,
            EcError::UnexpectedWkc(wkc) => EcError::UnexpectedWkc(wkc),
        }
    }
}

impl FromSpecImpl<EcError<SiiTaskError>> for EcError<SlaveInitializerError> {
    open spec fn obeys_from_spec() -> bool {
        true
    }

    open spec fn from_spec(err: EcError<SiiTaskError>) -> Self {
        spec_lift_sii(err)
    }
}

/// Progress of the initialization of one slave.
#[derive(Debug, Clone, Copy, PartialEq, Eq, Structural)]
pub enum State {
    Idle,
    Error(EcError<SlaveInitializerError>),
    SetLoopPort,
    /// Moving the slave to Init; `true` on the first step.
    RequestInitState(bool),
    ResetErrorCount,
    SetWatchDogDivider,
    DisableDlWatchDog,
    DisableSmWatchDog,
    CheckDlStatus,
    CheckDlInfo,
    ClearFmmu(u16),
    ClearSm(u16),
    /// Reading the vendor id from the EEPROM; `true` on the first step.
    GetVenderID(bool),
    GetProductCode(bool),
    GetRevision(bool),
    GetProtocol(bool),
    GetRxMailboxSize(bool),
    GetRxMailboxOffset(bool),
    GetTxMailboxSize(bool),
    GetTxMailboxOffset(bool),
    SetSmControl(usize),
    SetSmActivation(usize),
    SetStationAddress,
    CheckPdiControl,
    ClearDcActivation,
    ClearCyclicOperationStartTime,
    ClearSync0CycleTime,
    ClearSync1CycleTime,
    Complete,
}

/// The sub-task that a step of the initializer hands its PDUs to.
pub enum InnerFunction {
    This,
    Sii(SiiReader),
    AlStateTransfer(AlStateTransfer),
}

impl InnerFunction {
    /// Makes the inner task an EEPROM reader, keeping one that is already there.
    fn into_sii(&mut self)
        ensures
            *old(self) is Sii ==> *final(self) == *old(self),
            !(*old(self) is Sii) ==> (*final(self))->Sii_0.state == SiiState::Idle,
            *final(self) is Sii,
    {
        if let Self::Sii(_) = &self {
            return ;
        }
        *self = Self::Sii(SiiReader::new());
    }

    /// Makes the inner task an AL state transfer, keeping one that is already there.
    fn into_al_state_transfer(&mut self)
        ensures
            *old(self) is AlStateTransfer ==> *final(self) == *old(self),
            !(*old(self) is AlStateTransfer) ==> (*final(self))->AlStateTransfer_0.state
                == TransferState::Idle && (*final(self))->AlStateTransfer_0.target == AlState::Init,
            *final(self) is AlStateTransfer,
    {
        if let Self::AlStateTransfer(_) = &self {
            return ;
        }
        *self = Self::AlStateTransfer(AlStateTransfer::new());
    }

    fn sii(&mut self) -> (r: Option<&mut SiiReader>)
        ensures
            *old(self) is Sii ==> (r matches Some(p) && *p == (*old(self))->Sii_0
                && *final(self) == InnerFunction::Sii(*final(p))),
            !(*old(self) is Sii) ==> r is None && *final(self) == *old(self),
    {
        if let Self::Sii(sii) = self {
            Some(sii)
        } else {
            None
        }
    }

    fn al_state_transfer(&mut self) -> (r: Option<&mut AlStateTransfer>)
        ensures
            *old(self) is AlStateTransfer ==> (r matches Some(p) && *p
                == (*old(self))->AlStateTransfer_0 && *final(self)
                == InnerFunction::AlStateTransfer(*final(p))),
            !(*old(self) is AlStateTransfer) ==> r is None && *final(self) == *old(self),
    {
        if let Self::AlStateTransfer(al) = self {
            Some(al)
        } else {
            None
        }
    }
}

impl Default for InnerFunction {
    fn default() -> (r: Self)
        ensures
            r is This,
    {
        Self::This
    }
}

/// Size of the largest register image that the initializer writes.
pub const BUFFER_SIZE: usize = 16;

fn size_max(a: usize, b: usize) -> (r: usize)
    ensures
        r == if a < b {
            b
        } else {
            a
        },
{
    if a < b {
        b
    } else {
        a
    }
}

/// The largest of the register images that the initializer sends.
pub fn buffer_size() -> (r: usize)
    ensures
        r == BUFFER_SIZE,
        r >= DL_CONTROL_SIZE,
        r >= RX_ERROR_COUNTER_SIZE,
        r >= WATCHDOG_DIVIDER_SIZE,
        r >= DL_USER_WATCHDOG_SIZE,
        r >= SM_CHANNEL_WATCHDOG_SIZE,
        r >= DL_STATUS_SIZE,
        r >= DL_INFORMATION_SIZE,
        r >= FMMU_REGISTER_SIZE,
        r >= SM_CONTROL_SIZE + SM_STATUS_SIZE + SM_ACTIVATION_SIZE,
        r >= FIXED_STATION_ADDRESS_SIZE,
        r >= PDI_CONTROL_SIZE,
        r >= DC_ACTIVATION_SIZE,
        r >= CYCLIC_OPERATION_START_TIME_SIZE,
        r >= SYNC0_CYCLE_TIME_SIZE,
        r >= SYNC1_CYCLE_TIME_SIZE,
{
    let mut size: usize = 0;
    size = size_max(size, DL_CONTROL_SIZE);
    size = size_max(size, RX_ERROR_COUNTER_SIZE);
    size = size_max(size, WATCHDOG_DIVIDER_SIZE);
    size = size_max(size, DL_USER_WATCHDOG_SIZE);
    size = size_max(size, SM_CHANNEL_WATCHDOG_SIZE);
    size = size_max(size, DL_STATUS_SIZE);
    size = size_max(size, DL_INFORMATION_SIZE);
    size = size_max(size, FMMU_REGISTER_SIZE);
    size = size_max(size, SM_CONTROL_SIZE + SM_STATUS_SIZE + SM_ACTIVATION_SIZE);
    size = size_max(size, FIXED_STATION_ADDRESS_SIZE);
    size = size_max(size, PDI_CONTROL_SIZE);
    size = size_max(size, DC_ACTIVATION_SIZE);
    size = size_max(size, CYCLIC_OPERATION_START_TIME_SIZE);
    size = size_max(size, SYNC0_CYCLE_TIME_SIZE);
    size = size_max(size, SYNC1_CYCLE_TIME_SIZE);
    size
}

/// Initializes one slave, step by step, one PDU per cycle.
pub struct SlaveInitializer {
    inner: InnerFunction,
    slave_address: SlaveAddress,
    state: State,
    command: Command,
    buffer: [u8; 16],
    slave_info: Option<SlaveInfo>,
}

impl SlaveInitializer {
    pub closed spec fn spec_state(&self) -> State {
        self.state
    }

    pub closed spec fn spec_slave_address(&self) -> SlaveAddress {
        self.slave_address
    }

    pub closed spec fn spec_slave_info(&self) -> Option<SlaveInfo> {
        self.slave_info
    }

    /// The command of the last PDU handed out.
    pub closed spec fn spec_command(&self) -> Command {
        self.command
    }

    /// The sub-task that the present step delegates to.
    pub closed spec fn spec_inner(&self) -> InnerFunction {
        self.inner
    }

    pub closed spec fn spec_buffer(&self) -> [u8; 16] {
        self.buffer
    }

    /// The states in which a step reads the EEPROM.
    pub open spec fn is_sii_step(state: State) -> bool {
        state is GetVenderID || state is GetProductCode || state is GetRevision
            || state is GetProtocol || state is GetRxMailboxSize || state is GetRxMailboxOffset
            || state is GetTxMailboxSize || state is GetTxMailboxOffset
    }

    /// The states that end the task or precede its start.
    pub open spec fn is_at_rest(state: State) -> bool {
        state is Idle || state is Error || state is Complete
    }

    /// What holds of the task between calls.
    pub closed spec fn wf(&self) -> bool {
        &&& !Self::is_at_rest(self.state) ==> self.slave_info is Some
        &&& self.state == State::RequestInitState(false) ==> self.inner is AlStateTransfer
        &&& (Self::is_sii_step(self.state) && self.state != State::GetVenderID(true))
            ==> self.inner is Sii
        &&& self.state matches State::ClearFmmu(n) ==> n <= 1
        &&& self.state matches State::ClearSm(n) ==> n <= 3
        &&& self.state matches State::SetSmControl(n) ==> n <= 3
        &&& self.state matches State::SetSmActivation(n) ==> n <= 3
        &&& self.slave_address matches SlaveAddress::SlavePosition(p) ==> p < 0xffff
        &&& self.inner matches InnerFunction::AlStateTransfer(t) ==> t.target == AlState::Init && (
        t.state matches TransferState::Complete(s) ==> s == AlState::Init)
    }

    pub fn new() -> (r: Self)
        ensures
            r.wf(),
            r.spec_state() == State::Idle,
            r.spec_slave_info() is None,
    {
        Self {
            inner: InnerFunction::This,
            slave_address: SlaveAddress::SlavePosition(0),
            state: State::Idle,
            command: Command::default(),
            buffer: [0; 16],
            slave_info: None,
        }
    }

    /// Begins the initialization of the slave at `slave_position` in the
    /// ring; a ring holds at most 65535 slaves.
    pub fn start(&mut self, slave_position: u16)
        requires
            old(self).wf(),
            slave_position < 0xffff,
        ensures
            final(self).wf(),
            final(self).spec_slave_address() == SlaveAddress::SlavePosition(slave_position),
            final(self).spec_state() == State::SetLoopPort,
            final(self).spec_slave_info() matches Some(info) && crate::slave::is_fresh_slave_info(info),
    {
        self.slave_address = SlaveAddress::SlavePosition(slave_position);
        self.state = State::SetLoopPort;
        let mut info = SlaveInfo::default();
        info.mailbox_count = 1;
        self.slave_info = Some(info);
    }

    /// The result once the task has ended: the slave's record when it
    /// completed (handed over once: later calls give `None` in it), or the
    /// error that stopped it.
    pub fn wait(&mut self) -> (r: Option<Result<Option<SlaveInfo>, EcError<SlaveInitializerError>>>)
        ensures
            old(self).spec_state() == State::Complete ==> r == Some(
                Ok::<Option<SlaveInfo>, EcError<SlaveInitializerError>>(old(self).spec_slave_info()),
            ) && final(self).spec_slave_info() is None,
            old(self).spec_state() matches State::Error(e) ==> r == Some(
                Err::<Option<SlaveInfo>, EcError<SlaveInitializerError>>(e),
            ) && *final(self) == *old(self),
            !(old(self).spec_state() is Complete) && !(old(self).spec_state() is Error) ==> r is None
                && *final(self) == *old(self),
            final(self).spec_state() == old(self).spec_state(),
            old(self).wf() ==> final(self).wf(),
    {
        match self.state {
            State::Complete => Some(Ok(self.slave_info.take())),
            State::Error(err) => Some(Err(err)),
            _ => None,
        }
    }
}

/// Divider of the watchdog clock: 2498 gives the default 100 us tick.
pub const WATCHDOG_DIVIDER_100US: u16 = 2498;
/// SM control byte of a mailbox channel written by the master: mailbox
/// mode, PDI reads, PDI event enabled.
pub const SM_CONTROL_MAILBOX_RX: u8 = 0x26;
/// SM control byte of a mailbox channel read by the master: mailbox mode,
/// PDI writes, PDI event enabled.
pub const SM_CONTROL_MAILBOX_TX: u8 = 0x22;

/// The configured station address that the slave at `address` is given:
/// positions count from 1, leaving 0 for "unassigned".
pub open spec fn spec_station_address(address: SlaveAddress) -> u16 {
    match address {
        SlaveAddress::SlavePosition(p) => (p + 1) as u16,
        SlaveAddress::StationAddress(a) => a,
    }
}

pub open spec fn zeros(n: usize) -> Seq<u8> {
    Seq::new(n as nat, |i: int| 0u8)
}

/// The bytes `lo, hi` of a 16-bit value.
pub open spec fn le_bytes(v: u16) -> Seq<u8> {
    seq![(v % 256) as u8, (v / 256) as u8]
}

/// The SM control image (start, length, control byte) for a channel.
pub open spec fn sm_control_image(sm: Option<SyncManagerType>) -> Seq<u8> {
    match sm {
        Some(SyncManagerType::MailboxRx(s)) => le_bytes(s.start_address) + le_bytes(s.size) + seq![
            SM_CONTROL_MAILBOX_RX,
        ],
        Some(SyncManagerType::MailboxTx(s)) => le_bytes(s.start_address) + le_bytes(s.size) + seq![
            SM_CONTROL_MAILBOX_TX,
        ],
        _ => zeros(SM_CONTROL_SIZE),
    }
}

/// The SM activation image: mailboxes are enabled, other channels stay off.
pub open spec fn sm_activation_image(sm: Option<SyncManagerType>) -> Seq<u8> {
    match sm {
        Some(SyncManagerType::MailboxRx(_)) | Some(SyncManagerType::MailboxTx(_)) => seq![1u8, 0u8],
        _ => zeros(SM_ACTIVATION_SIZE),
    }
}

/// The PDU of a step that the initializer makes itself: which register is
/// read or written, and with what bytes.
pub open spec fn spec_register_request(state: State, address: SlaveAddress, info: SlaveInfo) -> Option<
    (Command, Seq<u8>),
> {
    let target = TargetSlave::Single(address);
    match state {
        State::SetLoopPort => Some((spec_write(target, DL_CONTROL), seq![1u8, 0u8, 7u8, 0u8])),
        State::ResetErrorCount => Some(
            (spec_write(target, RX_ERROR_COUNTER), zeros(RX_ERROR_COUNTER_SIZE)),
        ),
        State::SetWatchDogDivider => Some(
            (spec_write(target, WATCHDOG_DIVIDER), le_bytes(WATCHDOG_DIVIDER_100US)),
        ),
        State::DisableDlWatchDog => Some(
            (spec_write(target, DL_USER_WATCHDOG), zeros(DL_USER_WATCHDOG_SIZE)),
        ),
        State::DisableSmWatchDog => Some(
            (spec_write(target, SM_CHANNEL_WATCHDOG), zeros(SM_CHANNEL_WATCHDOG_SIZE)),
        ),
        State::CheckDlStatus => Some((spec_read(target, DL_STATUS), zeros(DL_STATUS_SIZE))),
        State::CheckDlInfo => Some((spec_read(target, DL_INFORMATION), zeros(DL_INFORMATION_SIZE))),
        State::ClearFmmu(n) => Some(
            (
                spec_write(target, (FMMU_REGISTER + n * FMMU_STRIDE) as u16),
                zeros(FMMU_REGISTER_SIZE),
            ),
        ),
        State::ClearSm(n) => Some(
            (
                spec_write(target, (SM_CONTROL + n * SM_STRIDE) as u16),
                zeros((SM_CONTROL_SIZE + SM_STATUS_SIZE + SM_ACTIVATION_SIZE) as usize),
            ),
        ),
        State::SetSmControl(n) => Some(
            (
                spec_write(target, (SM_CONTROL + n * SM_STRIDE) as u16),
                sm_control_image(info.sm@[n as int]),
            ),
        ),
        State::SetSmActivation(n) => Some(
            (
                spec_write(target, (SM_ACTIVATION + n * SM_STRIDE) as u16),
                sm_activation_image(info.sm@[n as int]),
            ),
        ),
        State::SetStationAddress => Some(
            (spec_write(target, FIXED_STATION_ADDRESS), le_bytes(spec_station_address(address))),
        ),
        State::CheckPdiControl => Some((spec_read(target, PDI_CONTROL), zeros(PDI_CONTROL_SIZE))),
        State::ClearDcActivation => Some(
            (spec_write(target, DC_ACTIVATION), zeros(DC_ACTIVATION_SIZE)),
        ),
        State::ClearCyclicOperationStartTime => Some(
            (
                spec_write(target, CYCLIC_OPERATION_START_TIME),
                zeros(CYCLIC_OPERATION_START_TIME_SIZE),
            ),
        ),
        State::ClearSync0CycleTime => Some(
            (spec_write(target, SYNC0_CYCLE_TIME), zeros(SYNC0_CYCLE_TIME_SIZE)),
        ),
        State::ClearSync1CycleTime => Some(
            (spec_write(target, SYNC1_CYCLE_TIME), zeros(SYNC1_CYCLE_TIME_SIZE)),
        ),
        _ => None,
    }
}

/// The EEPROM word that an EEPROM step reads.
pub open spec fn spec_sii_word(state: State) -> u16 {
    match state {
        State::GetVenderID(_) => SII_VENDER_ID,
        State::GetProductCode(_) => SII_PRODUCT_CODE,
        State::GetRevision(_) => SII_REVISION_NUMBER,
        State::GetProtocol(_) => SII_MAILBOX_PROTOCOL,
        State::GetRxMailboxSize(_) => SII_STD_RX_MAILBOX_SIZE,
        State::GetRxMailboxOffset(_) => SII_STD_RX_MAILBOX_OFFSET,
        State::GetTxMailboxSize(_) => SII_STD_TX_MAILBOX_SIZE,
        _ => SII_STD_TX_MAILBOX_OFFSET,
    }
}

/// Whether a delegated step is on its first call.
pub open spec fn spec_is_first(state: State) -> bool {
    match state {
        State::RequestInitState(f) | State::GetVenderID(f) | State::GetProductCode(f)
        | State::GetRevision(f) | State::GetProtocol(f) | State::GetRxMailboxSize(f)
        | State::GetRxMailboxOffset(f) | State::GetTxMailboxSize(f) | State::GetTxMailboxOffset(f) => f,
        _ => false,
    }
}

impl SlaveInitializer {
    /// What `next_command` does, from `self` to `next`, handing out `r`.
    pub open spec fn spec_next_command(&self, next: Self, r: Option<(Command, &[u8])>) -> bool {
        let first = spec_is_first(self.spec_state());
        let target = TargetSlave::Single(self.spec_slave_address());
        &&& next.spec_state() == self.spec_state()
        &&& next.spec_slave_address() == self.spec_slave_address()
        &&& (r matches Some((c, _)) ==> next.spec_command() == c)
        &&& (r is None ==> next.spec_command() == self.spec_command())
        &&& if self.spec_state() is RequestInitState {
            &&& next.spec_slave_info() == self.spec_slave_info()
            &&& next.spec_inner() matches InnerFunction::AlStateTransfer(t) && {
                &&& is_request(r, t.spec_request())
                &&& first ==> (t.slave == target && t.target == AlState::Init && t.state
                    is ReadCurrent)
                &&& !first ==> (self.spec_inner() matches InnerFunction::AlStateTransfer(t0) && t.slave
                    == t0.slave && t.target == t0.target && t.state == t0.state && t.timeout_ms
                    == t0.timeout_ms && t.start_time == t0.start_time)
            }
        } else if Self::is_sii_step(self.spec_state()) {
            &&& next.spec_slave_info() == self.spec_slave_info()
            &&& next.spec_inner() matches InnerFunction::Sii(t) && {
                &&& is_request(r, t.spec_request())
                &&& first ==> (t.slave == target && t.sii_address == spec_sii_word(self.spec_state())
                    && t.state is CheckStatus)
                &&& !first ==> (self.spec_inner() matches InnerFunction::Sii(t0) && t.slave == t0.slave
                    && t.sii_address == t0.sii_address && t.state == t0.state && t.start_time
                    == t0.start_time)
            }
        } else {
            &&& next.spec_inner() == self.spec_inner()
            &&& is_request(
                r,
                spec_register_request(self.spec_state(), self.spec_slave_address(), self.spec_slave_info()->Some_0),
            )
            &&& next.spec_slave_info() == if self.spec_state() is SetStationAddress {
                Some(
                    SlaveInfo {
                        configured_address: spec_station_address(self.spec_slave_address()),
                        ..self.spec_slave_info()->Some_0
                    },
                )
            } else {
                self.spec_slave_info()
            }
        }
    }

    /// Hands out the first `length` bytes of the buffer with `command`.
    fn send(&mut self, command: Command, length: usize) -> (r: Option<(Command, &[u8])>)
        requires
            length <= 16,
        ensures
            r matches Some((c, d)) && c == command && d@ == old(self).buffer@.subrange(
                0,
                length as int,
            ),
            *final(self) == (SlaveInitializer { command, ..*old(self) }),
    {
        self.command = command;
        Some((command, vstd::slice::slice_subrange(self.buffer.as_slice(), 0, length)))
    }

    /// The PDU of the AL state transfer that moves the slave to Init.
    fn next_al_command(&mut self, is_first: bool, sys_time: EtherCatSystemTime) -> (r: Option<
        (Command, &[u8]),
    >)
        requires
            old(self).wf(),
            old(self).state == State::RequestInitState(is_first),
        ensures
            final(self).wf(),
            old(self).spec_next_command(*final(self), r),
    {
        self.inner.into_al_state_transfer();
        let target = TargetSlave::Single(self.slave_address);
        match self.inner.al_state_transfer() {
            Some(al_transfer) => {
                if is_first {
                    al_transfer.start(target, AlState::Init);
                }
                let r = al_transfer.next_command(sys_time);
                if let Some((command, _)) = r {
                    self.command = command;
                }
                r
            },
            None => None,
        }
    }

    /// The PDU of the EEPROM reader, started on `sii_address` when `is_first`.
    fn next_sii_command(&mut self, sii_address: u16, is_first: bool, sys_time: EtherCatSystemTime) -> (r:
        Option<(Command, &[u8])>)
        requires
            old(self).wf(),
            Self::is_sii_step(old(self).state),
            old(self).inner is Sii,
            spec_is_first(old(self).state) == is_first,
            spec_sii_word(old(self).state) == sii_address,
        ensures
            final(self).wf(),
            old(self).spec_next_command(*final(self), r),
    {
        let target = TargetSlave::Single(self.slave_address);
        match self.inner.sii() {
            Some(sii_reader) => {
                if is_first {
                    sii_reader.start(target, sii_address);
                }
                let r = sii_reader.next_command(sys_time);
                if let Some((command, _)) = r {
                    self.command = command;
                }
                r
            },
            None => None,
        }
    }
}

impl SlaveInitializer {
    /// The next PDU of the step the task is at, or `None` when it is idle,
    /// complete or stopped by an error. The step itself advances only when
    /// the response is processed.
    pub fn next_command(&mut self, sys_time: EtherCatSystemTime) -> (r: Option<(Command, &[u8])>)
        requires
            old(self).wf(),
        ensures
            final(self).wf(),
            old(self).spec_next_command(*final(self), r),
    {
        let target = TargetSlave::Single(self.slave_address);
        match self.state {
            State::Idle | State::Error(_) | State::Complete => {
                None
            },
            State::SetLoopPort => {
                proof {
                    assert(with_bit(0u8, 0usize, true) == 1u8) by (bit_vector);
                    assert(7u8 <= (0xffu8 >> ((8 - (3usize - 0usize)) as u8))) by (bit_vector);
                    assert(with_bits(0u8, 0usize, 3usize, 7u8) == 7u8) by (bit_vector);
                    assert(with_bit(0u8, 0usize, false) == 0u8) by (bit_vector);
                }
                self.buffer = [0; 16];
                // keep EtherCAT frames only
                self.buffer[0] = set_bit(0, 0, true);
                // largest receive FIFO
                self.buffer[2] = set_bits(0, 0, 3, 7);
                // no station alias
                self.buffer[3] = set_bit(0, 0, false);
                let r = self.send(Command::new_write(target, DL_CONTROL), DL_CONTROL_SIZE);
                assert(r->Some_0.1@ =~= seq![1u8, 0u8, 7u8, 0u8]);
                r
            },
            State::RequestInitState(is_first) => self.next_al_command(is_first, sys_time),
            State::ResetErrorCount => self.send_zeros(
                Command::new_write(target, RX_ERROR_COUNTER),
                RX_ERROR_COUNTER_SIZE,
            ),
            State::SetWatchDogDivider => {
                self.buffer = [0; 16];
                self.buffer[0] = (WATCHDOG_DIVIDER_100US % 256) as u8;
                self.buffer[1] = (WATCHDOG_DIVIDER_100US / 256) as u8;
                let r = self.send(Command::new_write(target, WATCHDOG_DIVIDER), WATCHDOG_DIVIDER_SIZE);
                assert(r->Some_0.1@ =~= le_bytes(WATCHDOG_DIVIDER_100US));
                r
            },
            State::DisableDlWatchDog => self.send_zeros(
                Command::new_write(target, DL_USER_WATCHDOG),
                DL_USER_WATCHDOG_SIZE,
            ),
            State::DisableSmWatchDog => self.send_zeros(
                Command::new_write(target, SM_CHANNEL_WATCHDOG),
                SM_CHANNEL_WATCHDOG_SIZE,
            ),
            State::CheckDlStatus => self.send_zeros(
                Command::new_read(target, DL_STATUS),
                DL_STATUS_SIZE,
            ),
            State::CheckDlInfo => self.send_zeros(
                Command::new_read(target, DL_INFORMATION),
                DL_INFORMATION_SIZE,
            ),
            State::ClearFmmu(count) => self.send_zeros(
                Command::new_write(target, FMMU_REGISTER + count * FMMU_STRIDE),
                FMMU_REGISTER_SIZE,
            ),
            State::ClearSm(count) => self.send_zeros(
                Command::new_write(target, SM_CONTROL + count * SM_STRIDE),
                SM_CONTROL_SIZE + SM_STATUS_SIZE + SM_ACTIVATION_SIZE,
            ),
            State::GetVenderID(is_first) => {
                self.inner.into_sii();
                self.next_sii_command(SII_VENDER_ID, is_first, sys_time)
            },
            State::GetProductCode(is_first) => self.next_sii_command(
                SII_PRODUCT_CODE,
                is_first,
                sys_time,
            ),
            State::GetRevision(is_first) => self.next_sii_command(
                SII_REVISION_NUMBER,
                is_first,
                sys_time,
            ),
            State::GetProtocol(is_first) => self.next_sii_command(
                SII_MAILBOX_PROTOCOL,
                is_first,
                sys_time,
            ),
            State::GetRxMailboxSize(is_first) => self.next_sii_command(
                SII_STD_RX_MAILBOX_SIZE,
                is_first,
                sys_time,
            ),
            State::GetRxMailboxOffset(is_first) => self.next_sii_command(
                SII_STD_RX_MAILBOX_OFFSET,
                is_first,
                sys_time,
            ),
            State::GetTxMailboxSize(is_first) => self.next_sii_command(
                SII_STD_TX_MAILBOX_SIZE,
                is_first,
                sys_time,
            ),
            State::GetTxMailboxOffset(is_first) => self.next_sii_command(
                SII_STD_TX_MAILBOX_OFFSET,
                is_first,
                sys_time,
            ),
            State::SetSmControl(num) => self.next_sm_control(num),
            State::SetSmActivation(num) => self.next_sm_activation(num),
            State::SetStationAddress => {
                let addr = match self.slave_address {
                    SlaveAddress::SlavePosition(addr) => addr + 1,
                    SlaveAddress::StationAddress(addr) => addr,
                };
                let mut info = self.slave_info.unwrap();
                info.configured_address = addr;
                self.slave_info = Some(info);
                self.buffer = [0; 16];
                self.buffer[0] = (addr % 256) as u8;
                self.buffer[1] = (addr / 256) as u8;
                let r = self.send(
                    Command::new_write(target, FIXED_STATION_ADDRESS),
                    FIXED_STATION_ADDRESS_SIZE,
                );
                assert(r->Some_0.1@ =~= le_bytes(addr));
                r
            },
            State::CheckPdiControl => self.send_zeros(
                Command::new_read(target, PDI_CONTROL),
                PDI_CONTROL_SIZE,
            ),
            State::ClearDcActivation => self.send_zeros(
                Command::new_write(target, DC_ACTIVATION),
                DC_ACTIVATION_SIZE,
            ),
            State::ClearCyclicOperationStartTime => self.send_zeros(
                Command::new_write(target, CYCLIC_OPERATION_START_TIME),
                CYCLIC_OPERATION_START_TIME_SIZE,
            ),
            State::ClearSync0CycleTime => self.send_zeros(
                Command::new_write(target, SYNC0_CYCLE_TIME),
                SYNC0_CYCLE_TIME_SIZE,
            ),
            State::ClearSync1CycleTime => self.send_zeros(
                Command::new_write(target, SYNC1_CYCLE_TIME),
                SYNC1_CYCLE_TIME_SIZE,
            ),
        }
    }

    /// Hands out `length` zero bytes with `command`.
    fn send_zeros(&mut self, command: Command, length: usize) -> (r: Option<(Command, &[u8])>)
        requires
            length <= 16,
        ensures
            r matches Some((c, d)) && c == command && d@ == zeros(length),
            final(self).command == command,
            final(self).inner == old(self).inner,
            final(self).state == old(self).state,
            final(self).slave_address == old(self).slave_address,
            final(self).slave_info == old(self).slave_info,
    {
        self.buffer = [0; 16];
        let r = self.send(command, length);
        assert(r->Some_0.1@ =~= zeros(length));
        r
    }

    /// The SM control image of channel `num`.
    fn next_sm_control(&mut self, num: usize) -> (r: Option<(Command, &[u8])>)
        requires
            old(self).wf(),
            old(self).state == State::SetSmControl(num),
        ensures
            final(self).wf(),
            old(self).spec_next_command(*final(self), r),
    {
        let target = TargetSlave::Single(self.slave_address);
        let command = Command::new_write(target, SM_CONTROL + SM_STRIDE * num as u16);
        self.buffer = [0; 16];
        let info = self.slave_info.unwrap();
        match info.sm[num] {
            Some(SyncManagerType::MailboxRx(sm_info)) => {
                self.buffer[0] = (sm_info.start_address % 256) as u8;
                self.buffer[1] = (sm_info.start_address / 256) as u8;
                self.buffer[2] = (sm_info.size % 256) as u8;
                self.buffer[3] = (sm_info.size / 256) as u8;
                proof {
                    assert(2u8 <= (0xffu8 >> ((8 - (2usize - 0usize)) as u8))) by (bit_vector);
                    assert(1u8 <= (0xffu8 >> ((8 - (4usize - 2usize)) as u8))) by (bit_vector);
                    assert(with_bits(0u8, 0usize, 2usize, 2u8) == 2u8) by (bit_vector);
                }
                // mailbox mode
                let control = set_bits(0, 0, 2, 0b10);
                // the PDI reads
                let control = set_bits(control, 2, 4, 1);
                // PDI event
                let control = set_bit(control, 5, true);
                proof {
                    assert(with_bit(with_bits(with_bits(0u8, 0usize, 2usize, 2u8), 2usize, 4usize, 1u8), 5usize, true) == 0x26u8) by (bit_vector);
                }
                self.buffer[4] = control;
            },
            Some(SyncManagerType::MailboxTx(sm_info)) => {
                self.buffer[0] = (sm_info.start_address % 256) as u8;
                self.buffer[1] = (sm_info.start_address / 256) as u8;
                self.buffer[2] = (sm_info.size % 256) as u8;
                self.buffer[3] = (sm_info.size / 256) as u8;
                proof {
                    assert(2u8 <= (0xffu8 >> ((8 - (2usize - 0usize)) as u8))) by (bit_vector);
                    assert(0u8 <= (0xffu8 >> ((8 - (4usize - 2usize)) as u8))) by (bit_vector);
                    assert(with_bits(0u8, 0usize, 2usize, 2u8) == 2u8) by (bit_vector);
                }
                // mailbox mode
                let control = set_bits(0, 0, 2, 0b10);
                // the PDI writes
                let control = set_bits(control, 2, 4, 0);
                // PDI event
                let control = set_bit(control, 5, true);
                proof {
                    assert(with_bit(with_bits(with_bits(0u8, 0usize, 2usize, 2u8), 2usize, 4usize, 0u8), 5usize, true) == 0x22u8) by (bit_vector);
                }
                self.buffer[4] = control;
            },
            _ => {},
        }
        let r = self.send(command, SM_CONTROL_SIZE);
        assert(r->Some_0.1@ =~= sm_control_image(info.sm@[num as int]));
        r
    }

    /// The SM activation image of channel `num`.
    fn next_sm_activation(&mut self, num: usize) -> (r: Option<(Command, &[u8])>)
        requires
            old(self).wf(),
            old(self).state == State::SetSmActivation(num),
        ensures
            final(self).wf(),
            old(self).spec_next_command(*final(self), r),
    {
        let target = TargetSlave::Single(self.slave_address);
        let command = Command::new_write(target, SM_ACTIVATION + SM_STRIDE * num as u16);
        self.buffer = [0; 16];
        let info = self.slave_info.unwrap();
        match info.sm[num] {
            Some(SyncManagerType::MailboxRx(_)) | Some(SyncManagerType::MailboxTx(_)) => {
                // channel enabled, no repeat
                let activation = set_bit(0, 0, true);
                let activation = set_bit(activation, 1, false);
                proof {
                    assert(with_bit(with_bit(0u8, 0usize, true), 1usize, false) == 1u8) by (bit_vector);
                }
                self.buffer[0] = activation;
            },
            _ => {},
        }
        let r = self.send(command, SM_ACTIVATION_SIZE);
        assert(r->Some_0.1@ =~= sm_activation_image(info.sm@[num as int]));
        r
    }
}

/// The step after a successful EEPROM read.
pub open spec fn spec_sii_following(state: State) -> State {
    match state {
        State::GetVenderID(_) => State::GetProductCode(true),
        State::GetProductCode(_) => State::GetRevision(true),
        State::GetRevision(_) => State::GetProtocol(true),
        State::GetProtocol(_) => State::GetRxMailboxSize(true),
        State::GetRxMailboxSize(_) => State::GetRxMailboxOffset(true),
        State::GetRxMailboxOffset(_) => State::GetTxMailboxSize(true),
        State::GetTxMailboxSize(_) => State::GetTxMailboxOffset(true),
        _ => State::SetSmControl(0),
    }
}

/// The same EEPROM step, on a later call.
pub open spec fn spec_sii_retry(state: State) -> State {
    match state {
        State::GetVenderID(_) => State::GetVenderID(false),
        State::GetProductCode(_) => State::GetProductCode(false),
        State::GetRevision(_) => State::GetRevision(false),
        State::GetProtocol(_) => State::GetProtocol(false),
        State::GetRxMailboxSize(_) => State::GetRxMailboxSize(false),
        State::GetRxMailboxOffset(_) => State::GetRxMailboxOffset(false),
        State::GetTxMailboxSize(_) => State::GetTxMailboxSize(false),
        _ => State::GetTxMailboxOffset(false),
    }
}

fn sii_following(state: State) -> (r: State)
    ensures
        r == spec_sii_following(state),
{
    match state {
        State::GetVenderID(_) => State::GetProductCode(true),
        State::GetProductCode(_) => State::GetRevision(true),
        State::GetRevision(_) => State::GetProtocol(true),
        State::GetProtocol(_) => State::GetRxMailboxSize(true),
        State::GetRxMailboxSize(_) => State::GetRxMailboxOffset(true),
        State::GetRxMailboxOffset(_) => State::GetTxMailboxSize(true),
        State::GetTxMailboxSize(_) => State::GetTxMailboxOffset(true),
        _ => State::SetSmControl(0),
    }
}

fn sii_retry(state: State) -> (r: State)
    ensures
        r == spec_sii_retry(state),
{
    match state {
        State::GetVenderID(_) => State::GetVenderID(false),
        State::GetProductCode(_) => State::GetProductCode(false),
        State::GetRevision(_) => State::GetRevision(false),
        State::GetProtocol(_) => State::GetProtocol(false),
        State::GetRxMailboxSize(_) => State::GetRxMailboxSize(false),
        State::GetRxMailboxOffset(_) => State::GetRxMailboxOffset(false),
        State::GetTxMailboxSize(_) => State::GetTxMailboxSize(false),
        _ => State::GetTxMailboxOffset(false),
    }
}

/// Bit of the mailbox protocol word that announces CoE.
pub const SII_PROTOCOL_COE_BIT: usize = 2;

/// The SyncManager layout once the receive-mailbox size is known: with four
/// channels and a mailbox, SM0 receives mail and SM2 process data; with
/// two or more channels and no mailbox, SM0 takes process data.
pub open spec fn spec_rx_size_layout(info: SlaveInfo, value: u32) -> Seq<Option<SyncManagerType>> {
    if info.number_of_sm >= 4 && value as u16 != 0 {
        info.sm@.update(
            0,
            Some(SyncManagerType::MailboxRx(SyncManager { number: 0, size: value as u16, start_address: 0 })),
        ).update(2, Some(SyncManagerType::ProcessDataRx))
    } else if info.number_of_sm >= 2 {
        info.sm@.update(0, Some(SyncManagerType::ProcessDataRx))
    } else {
        info.sm@
    }
}

/// The SyncManager layout once the send-mailbox size is known: with four
/// channels SM3 sends process data, and SM1 sends mail where the size is
/// not zero and SM0 receives mail.
pub open spec fn spec_tx_size_layout(info: SlaveInfo, value: u32) -> Seq<Option<SyncManagerType>> {
    if info.number_of_sm >= 4 {
        let with_pd = info.sm@.update(3, Some(SyncManagerType::ProcessDataTx));
        if value as u16 != 0 && info.sm@[0] is Some && info.sm@[0]->Some_0 is MailboxRx {
            with_pd.update(
                1,
                Some(SyncManagerType::MailboxTx(SyncManager { number: 1, size: value as u16, start_address: 0 })),
            )
        } else {
            with_pd
        }
    } else {
        info.sm@
    }
}

/// SM0 placed at `value`, where it is a receive mailbox.
pub open spec fn spec_rx_offset_layout(info: SlaveInfo, value: u32) -> Seq<Option<SyncManagerType>> {
    match info.sm@[0] {
        Some(SyncManagerType::MailboxRx(sm)) => info.sm@.update(
            0,
            Some(SyncManagerType::MailboxRx(SyncManager { start_address: value as u16, ..sm })),
        ),
        _ => info.sm@,
    }
}

/// SM1 placed at `value`, where it is a send mailbox.
pub open spec fn spec_tx_offset_layout(info: SlaveInfo, value: u32) -> Seq<Option<SyncManagerType>> {
    match info.sm@[1] {
        Some(SyncManagerType::MailboxTx(sm)) => info.sm@.update(
            1,
            Some(SyncManagerType::MailboxTx(SyncManager { start_address: value as u16, ..sm })),
        ),
        _ => info.sm@,
    }
}

/// What an EEPROM step records of the word `value` it read.
pub open spec fn spec_sii_update(state: State, info: SlaveInfo, next: SlaveInfo, value: u32) -> bool {
    match state {
        State::GetVenderID(_) => next == SlaveInfo {
            id: crate::slave::Id { vender_id: value as u16, ..info.id },
            ..info
        },
        State::GetProductCode(_) => next == SlaveInfo {
            id: crate::slave::Id { product_code: value as u16, ..info.id },
            ..info
        },
        State::GetRevision(_) => next == SlaveInfo {
            id: crate::slave::Id { revision_number: value as u16, ..info.id },
            ..info
        },
        State::GetProtocol(_) => next == SlaveInfo {
            support_coe: crate::bits::bit_of(value as u8, SII_PROTOCOL_COE_BIT),
            ..info
        },
        State::GetRxMailboxSize(_) => next == SlaveInfo { sm: next.sm, ..info } && next.sm@
            == spec_rx_size_layout(info, value),
        State::GetRxMailboxOffset(_) => next == SlaveInfo { sm: next.sm, ..info } && next.sm@
            == spec_rx_offset_layout(info, value),
        State::GetTxMailboxSize(_) => next == SlaveInfo { sm: next.sm, ..info } && next.sm@
            == spec_tx_size_layout(info, value),
        _ => next == spec_with_pdo_window(SlaveInfo { sm: next.sm, ..info }) && next.sm@
            == spec_tx_offset_layout(info, value),
    }
}

/// Records the EEPROM word `value` that the step `state` read.
fn apply_sii_word(state: State, info: &mut SlaveInfo, value: u32)
    requires
        SlaveInitializer::is_sii_step(state),
    ensures
        spec_sii_update(state, *old(info), *final(info), value),
{
    match state {
        State::GetVenderID(_) => info.id.vender_id = value as u16,
        State::GetProductCode(_) => info.id.product_code = value as u16,
        State::GetRevision(_) => info.id.revision_number = value as u16,
        State::GetProtocol(_) => info.support_coe = get_bit(value as u8, SII_PROTOCOL_COE_BIT),
        State::GetRxMailboxSize(_) => {
            if info.number_of_sm >= 4 && value as u16 != 0 {
                info.sm[0] = Some(
                    SyncManagerType::MailboxRx(
                        SyncManager { number: 0, size: value as u16, start_address: 0 },
                    ),
                );
                info.sm[2] = Some(SyncManagerType::ProcessDataRx);
            } else if info.number_of_sm >= 2 {
                info.sm[0] = Some(SyncManagerType::ProcessDataRx);
            }
            assert(info.sm@ =~= spec_rx_size_layout(*old(info), value));
        },
        State::GetRxMailboxOffset(_) => {
            if let Some(SyncManagerType::MailboxRx(sm)) = info.sm[0] {
                info.sm[0] = Some(
                    SyncManagerType::MailboxRx(SyncManager { start_address: value as u16, ..sm }),
                );
            }
            assert(info.sm@ =~= spec_rx_offset_layout(*old(info), value));
        },
        State::GetTxMailboxSize(_) => {
            if info.number_of_sm >= 4 {
                let rx_mailbox = match info.sm[0] {
                    Some(SyncManagerType::MailboxRx(_)) => true,
                    _ => false,
                };
                if value as u16 != 0 && rx_mailbox {
                    info.sm[1] = Some(
                        SyncManagerType::MailboxTx(
                            SyncManager { number: 1, size: value as u16, start_address: 0 },
                        ),
                    );
                }
                info.sm[3] = Some(SyncManagerType::ProcessDataTx);
            }
            assert(info.sm@ =~= spec_tx_size_layout(*old(info), value));
        },
        _ => {
            if let Some(SyncManagerType::MailboxTx(sm)) = info.sm[1] {
                info.sm[1] = Some(
                    SyncManagerType::MailboxTx(SyncManager { start_address: value as u16, ..sm }),
                );
            }
            assert(info.sm@ =~= spec_tx_offset_layout(*old(info), value));
            set_process_data_sm_size_offset(info);
        },
    }
}

impl SlaveInitializer {
    /// How a step that the initializer makes itself moves on after a
    /// response carrying `data`.
    pub open spec fn spec_register_step(&self, next: Self, data: Seq<u8>) -> bool {
        let info = self.spec_slave_info()->Some_0;
        let ninfo = next.spec_slave_info()->Some_0;
        let same_info = next.spec_slave_info() == self.spec_slave_info();
        &&& next.spec_inner() == self.spec_inner()
        &&& match self.spec_state() {
            State::SetLoopPort => next.spec_state() == State::RequestInitState(true) && same_info,
            State::ResetErrorCount => next.spec_state() == State::SetWatchDogDivider && same_info,
            State::SetWatchDogDivider => next.spec_state() == State::DisableDlWatchDog && same_info,
            State::DisableDlWatchDog => next.spec_state() == State::DisableSmWatchDog && same_info,
            State::DisableSmWatchDog => next.spec_state() == State::CheckDlStatus && same_info,
            State::CheckDlStatus => if !spec_pdi_operational(data) {
                next.spec_state() == State::Error(
                    EcError::TaskSpecific(SlaveInitializerError::FailedToLoadEEPROM),
                ) && same_info
            } else {
                &&& next.spec_state() == State::CheckDlInfo
                &&& next.spec_slave_info() is Some
                &&& ninfo == SlaveInfo { linked_ports: ninfo.linked_ports, ..info }
                &&& ninfo.linked_ports@ == seq![
                    spec_signal_detection(data, 0),
                    spec_signal_detection(data, 1),
                    spec_signal_detection(data, 2),
                    spec_signal_detection(data, 3),
                ]
            },
            State::CheckDlInfo => {
                &&& next.spec_state() == State::ClearFmmu(0)
                &&& next.spec_slave_info() is Some
                &&& ninfo == SlaveInfo {
                    ports: ninfo.ports,
                    support_dc: spec_feature(data, FEATURE_DC),
                    is_dc_range_64bits: spec_feature(data, FEATURE_DC_64BIT),
                    support_fmmu_bit_operation: !spec_feature(data, FEATURE_FMMU_BYTE_ONLY),
                    support_lrw: !spec_feature(data, FEATURE_NO_LRW),
                    support_rw: !spec_feature(data, FEATURE_NO_RW),
                    ram_size_kb: byte_at(data, 6),
                    number_of_fmmu: byte_at(data, 4),
                    number_of_sm: byte_at(data, 5),
                    ..info
                }
                &&& ninfo.ports@ == seq![
                    spec_port_type(data, 0),
                    spec_port_type(data, 1),
                    spec_port_type(data, 2),
                    spec_port_type(data, 3),
                ]
            },
            State::ClearFmmu(c) => same_info && next.spec_state() == if c < 1 {
                State::ClearFmmu((c + 1) as u16)
            } else {
                State::ClearSm(0)
            },
            State::ClearSm(c) => same_info && next.spec_state() == if c < 3 {
                State::ClearSm((c + 1) as u16)
            } else {
                State::GetVenderID(true)
            },
            State::SetSmControl(n) => next.spec_state() == State::SetSmActivation(n) && same_info,
            State::SetSmActivation(n) => same_info && next.spec_state() == if n >= 3 {
                State::SetStationAddress
            } else {
                State::SetSmControl((n + 1) as usize)
            },
            State::SetStationAddress => next.spec_state() == State::CheckPdiControl && same_info,
            State::CheckPdiControl => {
                &&& next.spec_slave_info() == Some(
                    SlaveInfo { strict_al_control: spec_strict_al_control(data), ..info },
                )
                &&& next.spec_state() == if info.support_dc {
                    State::ClearDcActivation
                } else {
                    State::Complete
                }
            },
            State::ClearDcActivation => next.spec_state() == State::ClearCyclicOperationStartTime
                && same_info,
            State::ClearCyclicOperationStartTime => next.spec_state() == State::ClearSync0CycleTime
                && same_info,
            State::ClearSync0CycleTime => next.spec_state() == State::ClearSync1CycleTime && same_info,
            State::ClearSync1CycleTime => next.spec_state() == State::Complete && same_info,
            _ => next.spec_state() == self.spec_state() && same_info,
        }
    }

    /// How the step that moves the slave to Init goes on: the AL state
    /// transfer processes the response, and its outcome decides. Before the
    /// step has handed out its first PDU no response can answer it.
    pub open spec fn spec_al_step(
        &self,
        next: Self,
        recv: Option<(Command, Seq<u8>, u16)>,
        now: EtherCatSystemTime,
    ) -> bool {
        if !(self.spec_inner() is AlStateTransfer) {
            next.spec_state() == State::Error(EcError::UnexpectedCommand) && next.spec_inner() == self.spec_inner()
                && next.spec_slave_info() == self.spec_slave_info()
        } else {
            let t0 = self.spec_inner()->AlStateTransfer_0;
            let t = t0.spec_receive(recv, now);
            &&& next.spec_inner() == InnerFunction::AlStateTransfer(t)
            &&& match t.spec_outcome() {
                Some(Ok(al_state)) => al_state == AlState::Init && next.spec_state()
                    == State::ResetErrorCount && next.spec_slave_info() == Some(
                    SlaveInfo { al_state: AlState::Init, ..self.spec_slave_info()->Some_0 },
                ),
                None => next.spec_state() == State::RequestInitState(false) && next.spec_slave_info()
                    == self.spec_slave_info(),
                Some(Err(e)) => next.spec_state() == State::Error(spec_lift_al(e)) && next.spec_slave_info()
                    == self.spec_slave_info(),
            }
        }
    }

    /// How an EEPROM step goes on: the reader processes the response, and its
    /// outcome decides. Before the first EEPROM step has handed out its first
    /// PDU no response can answer it.
    pub open spec fn spec_sii_step(
        &self,
        next: Self,
        recv: Option<(Command, Seq<u8>, u16)>,
        now: EtherCatSystemTime,
    ) -> bool {
        if !(self.spec_inner() is Sii) {
            next.spec_state() == State::Error(EcError::UnexpectedCommand) && next.spec_inner() == self.spec_inner()
                && next.spec_slave_info() == self.spec_slave_info()
        } else {
            let t0 = self.spec_inner()->Sii_0;
            let t = t0.spec_receive(recv, now);
            &&& next.spec_inner() == InnerFunction::Sii(t)
            &&& match t.spec_outcome() {
                Some(Ok((word, _))) => {
                    &&& next.spec_state() == spec_sii_following(self.spec_state())
                    &&& next.spec_slave_info() is Some
                    &&& spec_sii_update(
                        self.spec_state(),
                        self.spec_slave_info()->Some_0,
                        next.spec_slave_info()->Some_0,
                        word.value,
                    )
                },
                None => next.spec_state() == spec_sii_retry(self.spec_state()) && next.spec_slave_info()
                    == self.spec_slave_info(),
                Some(Err(e)) => next.spec_state() == State::Error(spec_lift_sii(e)) && next.spec_slave_info()
                    == self.spec_slave_info(),
            }
        }
    }

    /// What `recieve_and_process` does with `recv` at time `now`, from `self`
    /// to `next`. A missing response is a lost packet; every command of this
    /// task addresses one slave, so a working counter other than 1 is an
    /// error, and so is a response whose command type or register offset is
    /// not that of the last command.
    pub open spec fn spec_receive(
        &self,
        next: Self,
        recv: Option<(Command, Seq<u8>, u16)>,
        now: EtherCatSystemTime,
    ) -> bool {
        let same = next.spec_inner() == self.spec_inner() && next.spec_slave_info() == self.spec_slave_info();
        &&& next.spec_slave_address() == self.spec_slave_address()
        &&& next.spec_command() == self.spec_command()
        &&& next.spec_buffer() == self.spec_buffer()
        &&& match recv {
            None => next.spec_state() == State::Error(EcError::LostPacket) && same,
            Some((c, d, wkc)) => if wkc != 1 {
                next.spec_state() == State::Error(EcError::UnexpectedWkc(wkc)) && same
            } else if !spec_matches(self.spec_command(), c) {
                next.spec_state() == State::Error(EcError::UnexpectedCommand) && same
            } else if self.spec_state() is RequestInitState {
                self.spec_al_step(next, recv, now)
            } else if Self::is_sii_step(self.spec_state()) {
                self.spec_sii_step(next, recv, now)
            } else {
                self.spec_register_step(next, d)
            },
        }
    }

    /// Folds the response to the last PDU, or its absence, into the task.
    pub fn recieve_and_process(&mut self, recv_data: Option<ReceivedData>, sys_time: EtherCatSystemTime)
        requires
            old(self).wf(),
        ensures
            final(self).wf(),
            old(self).spec_receive(*final(self), recv_view(recv_data), sys_time),
    {
        let data = if let Some(recv) = recv_data {
            if !(recv.command.c_type == self.command.c_type && recv.command.ado == self.command.ado) {
                self.state = State::Error(EcError::UnexpectedCommand);
            }
            if recv.wkc != 1 {
                self.state = State::Error(EcError::UnexpectedWkc(recv.wkc));
            }
            recv.data
        } else {
            self.state = State::Error(EcError::LostPacket);
            return ;
        };
        match self.state {
            State::RequestInitState(_) => self.receive_al(recv_data, sys_time),
            State::GetVenderID(_) | State::GetProductCode(_) | State::GetRevision(_)
            | State::GetProtocol(_) | State::GetRxMailboxSize(_) | State::GetRxMailboxOffset(_)
            | State::GetTxMailboxSize(_) | State::GetTxMailboxOffset(_) => {
                self.receive_sii(recv_data, sys_time)
            },
            _ => self.receive_register_step(data),
        }
    }

    /// Moves a step that the initializer makes itself on, reading what the
    /// response carries.
    fn receive_register_step(&mut self, data: &[u8])
        requires
            old(self).wf(),
            !(old(self).state is RequestInitState),
            !Self::is_sii_step(old(self).state),
        ensures
            final(self).wf(),
            old(self).spec_register_step(*final(self), data@),
            final(self).slave_address == old(self).slave_address,
            final(self).command == old(self).command,
            final(self).buffer == old(self).buffer,
    {
        match self.state {
            State::Error(_) => {},
            State::Idle => {},
            State::Complete => {},
            State::SetLoopPort => {
                self.state = State::RequestInitState(true);
            },
            State::ResetErrorCount => self.state = State::SetWatchDogDivider,
            State::SetWatchDogDivider => self.state = State::DisableDlWatchDog,
            State::DisableDlWatchDog => self.state = State::DisableSmWatchDog,
            State::DisableSmWatchDog => self.state = State::CheckDlStatus,
            State::CheckDlStatus => self.receive_dl_status(data),
            State::CheckDlInfo => self.receive_dl_info(data),

            State::ClearFmmu(count) => {
                if count < 1 {
                    self.state = State::ClearFmmu(count + 1);
                } else {
                    self.state = State::ClearSm(0);
                }
            },
            State::ClearSm(count) => {
                if count < 3 {
                    self.state = State::ClearSm(count + 1);
                } else {
                    self.state = State::GetVenderID(true);
                }
            },
            State::SetSmControl(num) => self.state = State::SetSmActivation(num),
            State::SetSmActivation(num) => {
                if 3 <= num {
                    self.state = State::SetStationAddress;
                } else {
                    self.state = State::SetSmControl(num + 1);
                }
            },
            State::SetStationAddress => self.state = State::CheckPdiControl,
            State::CheckPdiControl => {
                let mut slave = self.slave_info.unwrap();
                slave.strict_al_control = strict_al_control(data);
                self.slave_info = Some(slave);
                if slave.support_dc {
                    self.state = State::ClearDcActivation;
                } else {
                    self.state = State::Complete;
                }
            },
            State::ClearDcActivation => self.state = State::ClearCyclicOperationStartTime,
            State::ClearCyclicOperationStartTime => self.state = State::ClearSync0CycleTime,
            State::ClearSync0CycleTime => self.state = State::ClearSync1CycleTime,
            State::ClearSync1CycleTime => {
                self.state = State::Complete;
            },
            _ => {},
        }
    }

    fn receive_dl_status(&mut self, data: &[u8])
        requires
            old(self).wf(),
            old(self).state is CheckDlStatus,
        ensures
            final(self).wf(),
            old(self).spec_register_step(*final(self), data@),
            final(self).slave_address == old(self).slave_address,
            final(self).command == old(self).command,
            final(self).buffer == old(self).buffer,
    {
        if !pdi_operational(data) {
            self.state = State::Error(SlaveInitializerError::FailedToLoadEEPROM.into());
        } else {
            let mut slave = self.slave_info.unwrap();
            slave.linked_ports[0] = signal_detection(data, 0);
            slave.linked_ports[1] = signal_detection(data, 1);
            slave.linked_ports[2] = signal_detection(data, 2);
            slave.linked_ports[3] = signal_detection(data, 3);
            self.slave_info = Some(slave);
            self.state = State::CheckDlInfo;
            assert(slave.linked_ports@ =~= seq![
                spec_signal_detection(data@, 0),
                spec_signal_detection(data@, 1),
                spec_signal_detection(data@, 2),
                spec_signal_detection(data@, 3),
            ]);
        }
    }

    fn receive_dl_info(&mut self, data: &[u8])
        requires
            old(self).wf(),
            old(self).state is CheckDlInfo,
        ensures
            final(self).wf(),
            old(self).spec_register_step(*final(self), data@),
            final(self).slave_address == old(self).slave_address,
            final(self).command == old(self).command,
            final(self).buffer == old(self).buffer,
    {
        let mut slave = self.slave_info.unwrap();
        slave.ports[0] = port_type(data, 0);
        slave.ports[1] = port_type(data, 1);
        slave.ports[2] = port_type(data, 2);
        slave.ports[3] = port_type(data, 3);
        slave.support_dc = feature(data, FEATURE_DC);
        slave.is_dc_range_64bits = feature(data, FEATURE_DC_64BIT);
        slave.support_fmmu_bit_operation = !feature(data, FEATURE_FMMU_BYTE_ONLY);
        // without LRW a slave takes no part in process data
        slave.support_lrw = !feature(data, FEATURE_NO_LRW);
        // without read-write commands distributed clocks cannot be set up
        slave.support_rw = !feature(data, FEATURE_NO_RW);
        slave.ram_size_kb = read_byte(data, 6);
        slave.number_of_fmmu = read_byte(data, 4);
        slave.number_of_sm = read_byte(data, 5);
        self.slave_info = Some(slave);
        self.state = State::ClearFmmu(0);
        assert(slave.ports@ =~= seq![
            spec_port_type(data@, 0),
            spec_port_type(data@, 1),
            spec_port_type(data@, 2),
            spec_port_type(data@, 3),
        ]);
    }

    /// Hands the response to the AL state transfer and follows its outcome.
    fn receive_al(&mut self, recv_data: Option<ReceivedData>, sys_time: EtherCatSystemTime)
        requires
            old(self).wf(),
            old(self).state is RequestInitState,
        ensures
            final(self).wf(),
            old(self).spec_al_step(*final(self), recv_view(recv_data), sys_time),
            final(self).slave_address == old(self).slave_address,
            final(self).command == old(self).command,
            final(self).buffer == old(self).buffer,
    {
        let outcome = match self.inner.al_state_transfer() {
            Some(al_transfer) => {
                al_transfer.recieve_and_process(recv_data, sys_time);
                al_transfer.wait()
            },
            None => {
                self.state = State::Error(EcError::UnexpectedCommand);
                return ;
            },
        };
        match outcome {
            Some(Ok(al_state)) => {
                let mut slave = self.slave_info.unwrap();
                slave.al_state = al_state;
                self.slave_info = Some(slave);
                self.state = State::ResetErrorCount;
            },
            None => self.state = State::RequestInitState(false),
            Some(Err(err)) => {
                self.state = State::Error(EcError::from(err));
            },
        }
    }

    /// Hands the response to the EEPROM reader and follows its outcome.
    fn receive_sii(&mut self, recv_data: Option<ReceivedData>, sys_time: EtherCatSystemTime)
        requires
            old(self).wf(),
            Self::is_sii_step(old(self).state),
        ensures
            final(self).wf(),
            old(self).spec_sii_step(*final(self), recv_view(recv_data), sys_time),
            final(self).slave_address == old(self).slave_address,
            final(self).command == old(self).command,
            final(self).buffer == old(self).buffer,
    {
        let state = self.state;
        let outcome = match self.inner.sii() {
            Some(sii_reader) => {
                sii_reader.recieve_and_process(recv_data, sys_time);
                sii_reader.wait()
            },
            None => {
                self.state = State::Error(EcError::UnexpectedCommand);
                return ;
            },
        };
        match outcome {
            Some(Ok((data, _size))) => {
                let mut slave = self.slave_info.unwrap();
                apply_sii_word(state, &mut slave, data.sii_data());
                self.slave_info = Some(slave);
                self.state = sii_following(state);
            },
            None => self.state = sii_retry(state),
            Some(Err(err)) => {
                self.state = State::Error(EcError::from(err));
            },
        }
    }
}

impl SlaveInitializer {
    /// The task moves on only on the answer to what it sent: whenever a
    /// response leaves it out of the error state, the response carried the
    /// command type and register offset of the last command, and a working
    /// counter of 1.
    pub proof fn lemma_progress_only_on_matching_response(
        &self,
        next: Self,
        command: Command,
        data: Seq<u8>,
        wkc: u16,
        now: EtherCatSystemTime,
    )
        requires
            self.wf(),
            self.spec_receive(next, Some((command, data, wkc)), now),
            !(next.spec_state() is Error),
        ensures
            command.c_type == self.spec_command().c_type,
            command.ado == self.spec_command().ado,
            wkc == 1,
    {
    }

    /// The step that moves the slave to Init ends only in Init or in an
    /// error: when it moves on without an error, the slave's record holds
    /// `AlState::Init`, never another state that a poll may have shown.
    pub proof fn lemma_init_step_ends_in_init(
        &self,
        next: Self,
        recv: Option<(Command, Seq<u8>, u16)>,
        now: EtherCatSystemTime,
    )
        requires
            self.wf(),
            self.spec_state() is RequestInitState,
            self.spec_receive(next, recv, now),
            !(next.spec_state() is RequestInitState),
            !(next.spec_state() is Error),
        ensures
            next.spec_state() == State::ResetErrorCount,
            next.spec_slave_info() matches Some(info) && info.al_state == AlState::Init,
    {
    }

    /// Once the mailboxes are placed, the process-data RAM that the slave's
    /// record names shares no address with the two mailbox regions.
    pub proof fn lemma_pdo_ram_clear_of_mailboxes(
        &self,
        next: Self,
        recv: Option<(Command, Seq<u8>, u16)>,
        now: EtherCatSystemTime,
    )
        requires
            self.wf(),
            self.spec_state() is GetTxMailboxOffset,
            self.spec_receive(next, recv, now),
            next.spec_state() == State::SetSmControl(0),
        ensures
            next.spec_slave_info() matches Some(info) && (info.pdo_start_address matches Some(
                start,
            ) ==> {
                &&& info.sm@[0] matches Some(SyncManagerType::MailboxRx(sm0))
                &&& info.sm@[1] matches Some(SyncManagerType::MailboxTx(sm1))
                &&& !crate::slave::overlaps(start as int, info.pdo_ram_size as int, sm0)
                &&& !crate::slave::overlaps(start as int, info.pdo_ram_size as int, sm1)
            }),
    {
        let info = self.slave_info->Some_0;
        let ninfo = next.slave_info->Some_0;
        crate::slave::lemma_pdo_window_clear_of_mailboxes(SlaveInfo { sm: ninfo.sm, ..info });
    }
}

} // verus!
