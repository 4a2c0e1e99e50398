use vstd::prelude::*;

verus! {

/// How a single slave is addressed.
#[derive(Debug, Clone, Copy, PartialEq, Eq, Structural)]
pub enum SlaveAddress {
    /// Position in the ring, counted from 0 (auto-increment addressing).
    SlavePosition(u16),
    /// Configured station address (fixed addressing).
    StationAddress(u16),
}

/// The slaves that one command addresses.
#[derive(Debug, Clone, Copy, PartialEq, Eq, Structural)]
pub enum TargetSlave {
    Single(SlaveAddress),
    /// Every slave of a ring of the given size.
    All(u16),
}

#[allow(non_camel_case_types)]
#[derive(Debug, Clone, Copy, PartialEq, Eq, Structural)]
pub enum CommandType {
    NOP,
    APRD,
    APWR,
    APRW,
    FPRD,
    FPWR,
    FPRW,
    BRD,
    BWR,
    BRW,
    LRD,
    LWR,
    LRW,
}

/// The addressing part of a PDU header.
#[derive(Debug, Clone, Copy, PartialEq, Eq, Structural)]
pub struct Command {
    pub c_type: CommandType,
    pub adp: u16,
    pub ado: u16,
}

/// Master time in nanoseconds since an origin the master chose.
#[derive(Debug, Clone, Copy, PartialEq, Eq, Structural)]
pub struct EtherCatSystemTime(pub u64);

/// A PDU taken out of a received frame.
#[derive(Debug, Clone, Copy)]
pub struct ReceivedData<'a> {
    pub command: Command,
    pub data: &'a [u8],
    pub wkc: u16,
}

/// The ADP of auto-increment addressing: each slave on the way increments it,
/// and the slave that sees 0 is addressed, so position `p` is sent as `-p`.
pub open spec fn position_adp(position: u16) -> u16 {
    if position == 0 {
        0
    } else {
        (0x10000 - position) as u16
    }
}

pub open spec fn spec_read(target: TargetSlave, ado: u16) -> Command {
    match target {
        TargetSlave::Single(SlaveAddress::SlavePosition(p)) => Command {
            c_type: CommandType::APRD,
            adp: position_adp(p),
            ado,
        },
        TargetSlave::Single(SlaveAddress::StationAddress(a)) => Command {
            c_type: CommandType::FPRD,
            adp: a,
            ado,
        },
        TargetSlave::All(_) => Command { c_type: CommandType::BRD, adp: 0, ado },
    }
}

pub open spec fn spec_write(target: TargetSlave, ado: u16) -> Command {
    match target {
        TargetSlave::Single(SlaveAddress::SlavePosition(p)) => Command {
            c_type: CommandType::APWR,
            adp: position_adp(p),
            ado,
        },
        TargetSlave::Single(SlaveAddress::StationAddress(a)) => Command {
            c_type: CommandType::FPWR,
            adp: a,
            ado,
        },
        TargetSlave::All(_) => Command { c_type: CommandType::BWR, adp: 0, ado },
    }
}

/// The number of slaves that a command for `target` addresses.
pub open spec fn responders(target: TargetSlave) -> u16 {
    match target {
        TargetSlave::Single(_) => 1,
        TargetSlave::All(n) => n,
    }
}

/// The working counter that a command of type `c_type` comes back with when
/// `n` slaves took part and each of them did its work.
pub open spec fn spec_expected_wkc(c_type: CommandType, n: u16) -> int {
    match c_type {
        CommandType::NOP => 0,
        CommandType::APRD | CommandType::APWR | CommandType::FPRD | CommandType::FPWR => 1,
        CommandType::APRW | CommandType::FPRW => 3,
        CommandType::BRD => n as int,
        CommandType::BWR => 2 * n,
        CommandType::BRW => 3 * n,
        CommandType::LRD | CommandType::LWR => n as int,
        CommandType::LRW => 3 * n,
    }
}

/// A response answers a request when its type and register offset are those
/// of the request.
pub open spec fn spec_matches(request: Command, response: Command) -> bool {
    request.c_type == response.c_type && request.ado == response.ado
}

fn position_to_adp(position: u16) -> (r: u16)
    ensures
        r == position_adp(position),
{
    if position == 0 {
        0
    } else {
        0xFFFF - position + 1
    }
}

impl Command {
    pub fn new(c_type: CommandType, adp: u16, ado: u16) -> (r: Self)
        ensures
            r == (Command { c_type, adp, ado }),
    {
        Command { c_type, adp, ado }
    }

    /// A read of register `ado` of the target slaves.
    pub fn new_read(target: TargetSlave, ado: u16) -> (r: Self)
        ensures
            r == spec_read(target, ado),
    {
        match target {
            TargetSlave::Single(SlaveAddress::SlavePosition(p)) => Command {
                c_type: CommandType::APRD,
                adp: position_to_adp(p),
                ado,
            },
            TargetSlave::Single(SlaveAddress::StationAddress(a)) => Command {
                c_type: CommandType::FPRD,
                adp: a,
                ado,
            },
            TargetSlave::All(_) => Command { c_type: CommandType::BRD, adp: 0, ado },
        }
    }

    /// A write of register `ado` of the target slaves.
    pub fn new_write(target: TargetSlave, ado: u16) -> (r: Self)
        ensures
            r == spec_write(target, ado),
    {
        match target {
            TargetSlave::Single(SlaveAddress::SlavePosition(p)) => Command {
                c_type: CommandType::APWR,
                adp: position_to_adp(p),
                ado,
            },
            TargetSlave::Single(SlaveAddress::StationAddress(a)) => Command {
                c_type: CommandType::FPWR,
                adp: a,
                ado,
            },
            TargetSlave::All(_) => Command { c_type: CommandType::BWR, adp: 0, ado },
        }
    }
}

impl Default for Command {
    fn default() -> (r: Self)
        ensures
            r == (Command { c_type: CommandType::NOP, adp: 0, ado: 0 }),
    {
        Command { c_type: CommandType::NOP, adp: 0, ado: 0 }
    }
}

/// The working counter expected back from a command of type `c_type` that
/// `n` slaves answer: reads and writes of one slave count 1, broadcast reads,
/// writes and read-writes `n`, `2n` and `3n`, logical reads and writes `n`
/// and logical read-writes `3n`.
pub fn expected_wkc(c_type: CommandType, n: u16) -> (r: u32)
    ensures
        r == spec_expected_wkc(c_type, n),
{
    match c_type {
        CommandType::NOP => 0,
        CommandType::APRD | CommandType::APWR | CommandType::FPRD | CommandType::FPWR => 1,
        CommandType::APRW | CommandType::FPRW => 3,
        CommandType::BRD => n as u32,
        CommandType::BWR => 2 * (n as u32),
        CommandType::BRW => 3 * (n as u32),
        CommandType::LRD | CommandType::LWR => n as u32,
        CommandType::LRW => 3 * (n as u32),
    }
}

/// The number of slaves that a command for `target` addresses.
pub fn responders_of(target: TargetSlave) -> (r: u16)
    ensures
        r == responders(target),
{
    match target {
        TargetSlave::Single(_) => 1,
        TargetSlave::All(n) => n,
    }
}

/// Whether `response` answers `request`: same command type, same register offset.
pub fn response_matches(request: &Command, response: &Command) -> (r: bool)
    ensures
        r == spec_matches(*request, *response),
{
    request.c_type == response.c_type && request.ado == response.ado
}

} // verus!

verus! {

/// A received PDU as plain values: command, data and working counter.
pub open spec fn recv_view(recv: Option<ReceivedData>) -> Option<(Command, Seq<u8>, u16)> {
    match recv {
        Some(r) => Some((r.command, r.data@, r.wkc)),
        None => None,
    }
}

/// `r`, the request that a task hands out, is the command and payload `q`.
pub open spec fn is_request(r: Option<(Command, &[u8])>, q: Option<(Command, Seq<u8>)>) -> bool {
    match q {
        Some((c, d)) => r matches Some((rc, rd)) && rc == c && rd@ == d,
        None => r is None,
    }
}

/// Nanoseconds from `start` to `now`, 0 where the clock went back.
pub open spec fn elapsed_ns(start: EtherCatSystemTime, now: EtherCatSystemTime) -> int {
    if now.0 >= start.0 {
        now.0 - start.0
    } else {
        0
    }
}

/// Whether at least `ms` milliseconds went by from `start` to `now`.
pub fn has_elapsed_ms(start: EtherCatSystemTime, now: EtherCatSystemTime, ms: u32) -> (r: bool)
    ensures
        r == (elapsed_ns(start, now) >= ms * 1_000_000),
{
    let elapsed = now.0.saturating_sub(start.0);
    elapsed >= ms as u64 * 1_000_000
}

} // verus!
