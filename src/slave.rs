use vstd::prelude::*;

verus! {

/// State of the EtherCAT application layer of a slave.
#[derive(Debug, Clone, Copy, PartialEq, Eq, Structural)]
pub enum AlState {
    Init,
    PreOperational,
    Bootstrap,
    SafeOperational,
    Operational,
    InvalidOrMixed,
}

/// The state that the low four bits of the AL status register name.
pub open spec fn spec_al_state_of(code: u8) -> AlState {
    let c = code % 16;
    if c == 1 {
        AlState::Init
    } else if c == 2 {
        AlState::PreOperational
    } else if c == 3 {
        AlState::Bootstrap
    } else if c == 4 {
        AlState::SafeOperational
    } else if c == 8 {
        AlState::Operational
    } else {
        AlState::InvalidOrMixed
    }
}

/// The code that the AL control register takes for a state.
pub open spec fn spec_al_code(state: AlState) -> u8 {
    match state {
        AlState::Init => 1,
        AlState::PreOperational => 2,
        AlState::Bootstrap => 3,
        AlState::SafeOperational => 4,
        AlState::Operational => 8,
        AlState::InvalidOrMixed => 0,
    }
}

impl AlState {
    pub fn from_code(code: u8) -> (r: AlState)
        ensures
            r == spec_al_state_of(code),
    {
        let c = code % 16;
        if c == 1 {
            AlState::Init
        } else if c == 2 {
            AlState::PreOperational
        } else if c == 3 {
            AlState::Bootstrap
        } else if c == 4 {
            AlState::SafeOperational
        } else if c == 8 {
            AlState::Operational
        } else {
            AlState::InvalidOrMixed
        }
    }

    pub fn code(&self) -> (r: u8)
        ensures
            r == spec_al_code(*self),
    {
        match self {
            AlState::Init => 1,
            AlState::PreOperational => 2,
            AlState::Bootstrap => 3,
            AlState::SafeOperational => 4,
            AlState::Operational => 8,
            AlState::InvalidOrMixed => 0,
        }
    }
}

/// Physical layer of a port.
#[derive(Debug, Clone, Copy, PartialEq, Eq, Structural)]
pub enum PortPhysics {
    NotImplemented,
    NotConfigured,
    EBus,
    Mii,
}

/// The port type that a two-bit field of the port descriptor names.
pub open spec fn spec_port_of(code: u8) -> PortPhysics {
    if code == 0 {
        PortPhysics::NotImplemented
    } else if code == 1 {
        PortPhysics::NotConfigured
    } else if code == 2 {
        PortPhysics::EBus
    } else {
        PortPhysics::Mii
    }
}

impl PortPhysics {
    pub fn from_code(code: u8) -> (r: PortPhysics)
        ensures
            r == spec_port_of(code),
    {
        if code == 0 {
            PortPhysics::NotImplemented
        } else if code == 1 {
            PortPhysics::NotConfigured
        } else if code == 2 {
            PortPhysics::EBus
        } else {
            PortPhysics::Mii
        }
    }
}

/// Identity of a slave, as its EEPROM gives it.
#[derive(Debug, Clone, Copy, PartialEq, Eq, Structural)]
pub struct Id {
    pub vender_id: u16,
    pub product_code: u16,
    pub revision_number: u16,
}

/// A SyncManager channel placed in slave memory.
#[derive(Debug, Clone, Copy, PartialEq, Eq, Structural)]
pub struct SyncManager {
    pub number: u8,
    pub size: u16,
    pub start_address: u16,
}

/// What a SyncManager channel is used for.
#[derive(Debug, Clone, Copy, PartialEq, Eq, Structural)]
pub enum SyncManagerType {
    MailboxRx(SyncManager),
    MailboxTx(SyncManager),
    ProcessDataRx,
    ProcessDataTx,
}

/// What the master knows of one slave.
#[derive(Debug, Clone, Copy)]
pub struct SlaveInfo {
    pub id: Id,
    pub configured_address: u16,
    pub al_state: AlState,
    /// Counter of the last mailbox message, in `1..=7`.
    pub mailbox_count: u8,
    pub linked_ports: [bool; 4],
    pub ports: [PortPhysics; 4],
    pub ram_size_kb: u8,
    pub support_dc: bool,
    pub support_coe: bool,
    pub support_fmmu_bit_operation: bool,
    pub support_lrw: bool,
    pub support_rw: bool,
    pub is_dc_range_64bits: bool,
    pub number_of_fmmu: u8,
    pub number_of_sm: u8,
    pub sm: [Option<SyncManagerType>; 8],
    pub pdo_start_address: Option<u16>,
    pub pdo_ram_size: u16,
    pub strict_al_control: bool,
}

/// A record of a slave that nothing has been learnt of yet.
pub open spec fn is_fresh_slave_info(r: SlaveInfo) -> bool {
    &&& r.id == (Id { vender_id: 0, product_code: 0, revision_number: 0 })
    &&& r.configured_address == 0
    &&& r.al_state == AlState::Init
    &&& r.mailbox_count == 1
    &&& forall|i: int| 0 <= i < 4 ==> !r.linked_ports@[i]
    &&& forall|i: int| 0 <= i < 4 ==> r.ports@[i] == PortPhysics::NotImplemented
    &&& r.ram_size_kb == 0
    &&& !r.support_dc && !r.support_coe && !r.support_fmmu_bit_operation
    &&& !r.support_lrw && !r.support_rw && !r.is_dc_range_64bits
    &&& r.number_of_fmmu == 0
    &&& r.number_of_sm == 0
    &&& forall|i: int| 0 <= i < 8 ==> r.sm@[i] is None
    &&& r.pdo_start_address is None
    &&& r.pdo_ram_size == 0
    &&& !r.strict_al_control
}

impl Default for SlaveInfo {
    fn default() -> (r: Self)
        ensures
            is_fresh_slave_info(r),
    {
        SlaveInfo {
            id: Id { vender_id: 0, product_code: 0, revision_number: 0 },
            configured_address: 0,
            al_state: AlState::Init,
            mailbox_count: 1,
            linked_ports: [false; 4],
            ports: [PortPhysics::NotImplemented; 4],
            ram_size_kb: 0,
            support_dc: false,
            support_coe: false,
            support_fmmu_bit_operation: false,
            support_lrw: false,
            support_rw: false,
            is_dc_range_64bits: false,
            number_of_fmmu: 0,
            number_of_sm: 0,
            sm: [None; 8],
            pdo_start_address: None,
            pdo_ram_size: 0,
            strict_al_control: false,
        }
    }
}

/// First address of the process RAM of a slave controller.
pub const RAM_START: u16 = 0x1000;

/// Where the physical address space of a slave controller ends (exclusive).
pub const ADDRESS_SPACE_END: u32 = 0x10000;

pub open spec fn min_int(a: int, b: int) -> int {
    if a < b { a } else { b }
}

pub open spec fn max_int(a: int, b: int) -> int {
    if a < b { b } else { a }
}

/// Free RAM below the mailboxes: `[0x1000, lowest mailbox start)`.
pub open spec fn lower_window_size(sm0: SyncManager, sm1: SyncManager) -> int {
    let low = min_int(sm0.start_address as int, sm1.start_address as int);
    if low > RAM_START { low - RAM_START } else { 0 }
}

/// First address past both mailboxes, and not below the process RAM.
pub open spec fn mailbox_end(sm0: SyncManager, sm1: SyncManager) -> int {
    max_int(
        max_int(sm0.start_address + sm0.size, sm1.start_address + sm1.size),
        RAM_START as int,
    )
}

/// First address past the slave's RAM, within the 16-bit address space.
pub open spec fn ram_end(ram_size_kb: u8) -> int {
    min_int(RAM_START + ram_size_kb * 1024, ADDRESS_SPACE_END as int)
}

/// Free RAM above the mailboxes: `[mailbox end, RAM end)`.
pub open spec fn upper_window_size(sm0: SyncManager, sm1: SyncManager, ram_size_kb: u8) -> int {
    let end = ram_end(ram_size_kb);
    let start = mailbox_end(sm0, sm1);
    if end > start { end - start } else { 0 }
}

/// The RAM window `(start, size)` for process data: the larger of the free
/// windows below and above the two mailboxes (the upper one on a tie), none
/// where the slave has no mailboxes at SM0 and SM1 or both windows are empty.
pub open spec fn spec_pdo_window(info: SlaveInfo) -> Option<(int, int)> {
    match (info.sm@[0], info.sm@[1]) {
        (Some(SyncManagerType::MailboxRx(sm0)), Some(SyncManagerType::MailboxTx(sm1))) => {
            let size1 = lower_window_size(sm0, sm1);
            let size2 = upper_window_size(sm0, sm1, info.ram_size_kb);
            if size1 > size2 {
                Some((RAM_START as int, size1))
            } else if size2 > 0 {
                Some((mailbox_end(sm0, sm1), size2))
            } else {
                None
            }
        },
        _ => None,
    }
}

/// `info` with the process-data window of `spec_pdo_window` recorded.
pub open spec fn spec_with_pdo_window(info: SlaveInfo) -> SlaveInfo {
    match spec_pdo_window(info) {
        Some((start, size)) => SlaveInfo {
            pdo_start_address: Some(start as u16),
            pdo_ram_size: size as u16,
            ..info
        },
        None => SlaveInfo { pdo_start_address: None, ..info },
    }
}

/// Places the process-data RAM of a slave whose mailboxes are known.
pub fn set_process_data_sm_size_offset(slave: &mut SlaveInfo)
    ensures
        *final(slave) == spec_with_pdo_window(*old(slave)),
{
    if let (Some(SyncManagerType::MailboxRx(sm0)), Some(SyncManagerType::MailboxTx(sm1))) = (
        slave.sm[0],
        slave.sm[1],
    ) {
        let sm_address0 = sm0.start_address as u32;
        let sm_address1 = sm1.start_address as u32;
        let sm_start_address = if sm_address0 < sm_address1 {
            sm_address0
        } else {
            sm_address1
        };
        let size1: u32 = if sm_start_address > RAM_START as u32 {
            sm_start_address - RAM_START as u32
        } else {
            0
        };
        let end0 = sm_address0 + sm0.size as u32;
        let end1 = sm_address1 + sm1.size as u32;
        let sm_end_address = if end0 < end1 {
            end1
        } else {
            end0
        };
        let sm_end_address = if sm_end_address < RAM_START as u32 {
            RAM_START as u32
        } else {
            sm_end_address
        };
        assert(sm_end_address == mailbox_end(sm0, sm1));
        assert(size1 == lower_window_size(sm0, sm1));
        let kb = slave.ram_size_kb as u32;
        assert(kb * 1024 <= 255 * 1024) by (nonlinear_arith)
            requires
                kb <= 255,
        ;
        let ram_top = RAM_START as u32 + kb * 1024;
        let end_address = if ram_top < ADDRESS_SPACE_END {
            ram_top
        } else {
            ADDRESS_SPACE_END
        };
        let size2: u32 = if end_address > sm_end_address {
            end_address - sm_end_address
        } else {
            0
        };
        assert(size2 == upper_window_size(sm0, sm1, slave.ram_size_kb));
        if size1 > size2 {
            slave.pdo_start_address = Some(RAM_START);
            slave.pdo_ram_size = size1 as u16;
        } else if size2 > 0 {
            slave.pdo_start_address = Some(sm_end_address as u16);
            slave.pdo_ram_size = size2 as u16;
        } else {
            slave.pdo_start_address = None;
        }
    } else {
        slave.pdo_start_address = None;
    }
}

/// Whether `[start, start + size)` and the channel's region share an address.
pub open spec fn overlaps(start: int, size: int, sm: SyncManager) -> bool {
    start < sm.start_address + sm.size && (sm.start_address as int) < start + size
}

/// Process-data RAM never overlaps a mailbox: once the window is placed, the
/// range `[pdo_start, pdo_start + pdo_ram_size)` shares no address with the
/// regions of SM0 and SM1.
pub proof fn lemma_pdo_window_clear_of_mailboxes(info: SlaveInfo)
    ensures
        ({
            let placed = spec_with_pdo_window(info);
            placed.pdo_start_address matches Some(start) ==> {
                &&& placed.sm@[0] matches Some(SyncManagerType::MailboxRx(sm0))
                &&& placed.sm@[1] matches Some(SyncManagerType::MailboxTx(sm1))
                &&& !overlaps(start as int, placed.pdo_ram_size as int, sm0)
                &&& !overlaps(start as int, placed.pdo_ram_size as int, sm1)
                &&& start as int + placed.pdo_ram_size <= ADDRESS_SPACE_END
                &&& placed.pdo_ram_size > 0
            }
        }),
{
}

/// The mailbox counter that follows `count`: 1, 2, ..., 7, then 1 again.
pub open spec fn spec_next_mailbox_count(count: u8) -> u8 {
    if count >= 7 { 1 } else { (count + 1) as u8 }
}

/// The counter `n` steps after `count`.
pub open spec fn mailbox_count_after(count: u8, n: nat) -> u8
    decreases n,
{
    if n == 0 { count } else { spec_next_mailbox_count(mailbox_count_after(count, (n - 1) as nat)) }
}

impl SlaveInfo {
    /// Advances the mailbox counter to the value of the next message.
    pub fn increment_mailbox_count(&mut self)
        requires
            1 <= old(self).mailbox_count <= 7,
        ensures
            *final(self) == (SlaveInfo {
                mailbox_count: spec_next_mailbox_count(old(self).mailbox_count),
                ..*old(self)
            }),
    {
        if self.mailbox_count >= 7 {
            self.mailbox_count = 1;
        } else {
            self.mailbox_count = self.mailbox_count + 1;
        }
    }
}

/// The mailbox counter stays in `1..=7`, never repeats from one message to
/// the next, and comes back to where it started after exactly seven steps.
pub proof fn lemma_mailbox_count_cycle(count: u8, n: nat)
    requires
        1 <= count <= 7,
    ensures
        1 <= mailbox_count_after(count, n) <= 7,
        mailbox_count_after(count, n + 1) != mailbox_count_after(count, n),
        mailbox_count_after(count, n + 1) == spec_next_mailbox_count(mailbox_count_after(count, n)),
        mailbox_count_after(count, n + 7) == mailbox_count_after(count, n),
        forall|k: nat| 0 < k < 7 ==> #[trigger] mailbox_count_after(count, n + k) != mailbox_count_after(count, n),
    decreases n,
{
    if n > 0 {
        lemma_mailbox_count_cycle(count, (n - 1) as nat);
    }
    let c = mailbox_count_after(count, n);
    reveal_with_fuel(mailbox_count_after, 8);
    assert(mailbox_count_after(count, n + 7) == c);
    assert forall|k: nat| 0 < k < 7 implies #[trigger] mailbox_count_after(count, n + k) != c by {
        reveal_with_fuel(mailbox_count_after, 8);
    }
}

} // verus!
