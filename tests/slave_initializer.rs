use ethercat_master::command::{Command, CommandType, EtherCatSystemTime, ReceivedData};
use ethercat_master::error::EcError;
use ethercat_master::sii_reader::SiiTaskError;
use ethercat_master::al_state_transfer::AlStateTransferError;
use ethercat_master::slave::{AlState, PortPhysics, SyncManagerType};
use ethercat_master::slave_initializer::{buffer_size, State, BUFFER_SIZE};
use ethercat_master::{SlaveInitializer, SlaveInitializerError};

/// A slave controller that answers register reads and writes.
struct SimSlave {
    mem: Vec<u8>,
    eeprom: Vec<u16>,
    sii_busy_polls: u32,
    al_error_code: Option<u16>,
}

impl SimSlave {
    fn new() -> Self {
        let mut mem = vec![0u8; 0x10000];
        // DL information: 3 FMMUs, 4 SMs, 8 KB RAM, port 0 MII, port 1 EBUS, DC
        mem[4] = 3;
        mem[5] = 4;
        mem[6] = 8;
        mem[7] = 0x0B;
        mem[8] = 0x04;
        // DL status: PDI operational, communication on port 0
        mem[0x110] = 0x01;
        mem[0x111] = 0x02;
        // AL status: PreOp
        mem[0x130] = 0x02;
        let mut eeprom = vec![0u16; 0x40];
        eeprom[0x08] = 0x0477;
        eeprom[0x0A] = 0x1234;
        eeprom[0x0C] = 0x0002;
        eeprom[0x18] = 0x1000;
        eeprom[0x19] = 128;
        eeprom[0x1A] = 0x1080;
        eeprom[0x1B] = 128;
        eeprom[0x1C] = 0x0004;
        SimSlave { mem, eeprom, sii_busy_polls: 0, al_error_code: None }
    }

    fn answer(&mut self, command: Command, data: &[u8]) -> Vec<u8> {
        let ado = command.ado as usize;
        match command.c_type {
            CommandType::APWR | CommandType::FPWR | CommandType::BWR => {
                self.mem[ado..ado + data.len()].copy_from_slice(data);
                if ado == 0x0120 {
                    match self.al_error_code {
                        Some(code) => {
                            self.mem[0x130] = 0x10 | (self.mem[0x130] & 0x0f);
                            self.mem[0x134] = (code & 0xff) as u8;
                            self.mem[0x135] = (code >> 8) as u8;
                        }
                        None => self.mem[0x130] = data[0] & 0x0f,
                    }
                }
                if ado == 0x0502 && data[1] & 0x01 != 0 {
                    let addr = (data[2] as usize) | ((data[3] as usize) << 8);
                    let lo = self.eeprom[addr];
                    let hi = self.eeprom[addr + 1];
                    self.mem[0x508] = (lo & 0xff) as u8;
                    self.mem[0x509] = (lo >> 8) as u8;
                    self.mem[0x50A] = (hi & 0xff) as u8;
                    self.mem[0x50B] = (hi >> 8) as u8;
                    self.mem[0x502] = 0;
                    self.mem[0x503] = 0;
                }
                data.to_vec()
            }
            _ => {
                if ado == 0x0502 && self.sii_busy_polls > 0 {
                    self.sii_busy_polls -= 1;
                    return vec![0x00, 0x80];
                }
                self.mem[ado..ado + data.len()].to_vec()
            }
        }
    }
}

/// Runs the initializer against `slave` until it stops handing out PDUs.
fn run(init: &mut SlaveInitializer, slave: &mut SimSlave, max_cycles: usize) -> usize {
    let mut t: u64 = 0;
    let mut cycles = 0;
    while cycles < max_cycles {
        let (command, data) = match init.next_command(EtherCatSystemTime(t)) {
            Some((c, d)) => (c, d.to_vec()),
            None => break,
        };
        let response = slave.answer(command, &data);
        init.recieve_and_process(
            Some(ReceivedData { command, data: &response, wkc: 1 }),
            EtherCatSystemTime(t),
        );
        t += 1_000_000;
        cycles += 1;
    }
    cycles
}

#[test]
fn initializes_first_slave() {
    let mut slave = SimSlave::new();
    let mut init = SlaveInitializer::new();
    init.start(0);
    run(&mut init, &mut slave, 500);
    let info = match init.wait() {
        Some(Ok(Some(info))) => info,
        other => panic!("unexpected outcome {:?}", other),
    };
    assert_eq!(info.configured_address, 1);
    assert_eq!(info.id.vender_id, 0x0477);
    assert_eq!(info.id.product_code, 0x1234);
    assert_eq!(info.id.revision_number, 2);
    assert!(info.support_coe);
    assert!(info.support_dc);
    assert!(info.support_lrw);
    assert!(info.support_rw);
    assert!(info.support_fmmu_bit_operation);
    assert_eq!(info.al_state, AlState::Init);
    assert_eq!(info.ram_size_kb, 8);
    assert_eq!(info.number_of_fmmu, 3);
    assert_eq!(info.number_of_sm, 4);
    assert_eq!(info.linked_ports, [true, false, false, false]);
    assert_eq!(
        info.ports,
        [PortPhysics::Mii, PortPhysics::EBus, PortPhysics::NotImplemented, PortPhysics::NotImplemented]
    );
    match info.sm[0] {
        Some(SyncManagerType::MailboxRx(sm)) => {
            assert_eq!(sm.start_address, 0x1000);
            assert_eq!(sm.size, 128);
        }
        other => panic!("SM0 {:?}", other),
    }
    match info.sm[1] {
        Some(SyncManagerType::MailboxTx(sm)) => {
            assert_eq!(sm.start_address, 0x1080);
            assert_eq!(sm.size, 128);
        }
        other => panic!("SM1 {:?}", other),
    }
    assert_eq!(info.sm[2], Some(SyncManagerType::ProcessDataRx));
    assert_eq!(info.sm[3], Some(SyncManagerType::ProcessDataTx));
    // process data goes above the mailboxes, up to the end of the 8 KB RAM
    assert_eq!(info.pdo_start_address, Some(0x1100));
    assert_eq!(info.pdo_ram_size, 0x3000 - 0x1100);
    // the slave now has its station address
    assert_eq!(slave.mem[0x10], 1);
    assert_eq!(slave.mem[0x11], 0);
    // mailbox SM control images
    assert_eq!(&slave.mem[0x800..0x805], &[0x00, 0x10, 0x80, 0x00, 0x26]);
    assert_eq!(&slave.mem[0x808..0x80D], &[0x80, 0x10, 0x80, 0x00, 0x22]);
    assert_eq!(slave.mem[0x806], 1);
    assert_eq!(slave.mem[0x80E], 1);
    // the record is handed over once
    assert!(matches!(init.wait(), Some(Ok(None))));
}

#[test]
fn second_slave_gets_station_address_two() {
    let mut slave = SimSlave::new();
    let mut init = SlaveInitializer::new();
    init.start(1);
    let first = init.next_command(EtherCatSystemTime(0)).map(|(c, d)| (c, d.to_vec()));
    let (command, data) = first.unwrap();
    assert_eq!(command.c_type, CommandType::APWR);
    assert_eq!(command.adp, 0xFFFF);
    assert_eq!(command.ado, 0x0100);
    assert_eq!(data, vec![0x01, 0x00, 0x07, 0x00]);
    run(&mut init, &mut slave, 500);
    match init.wait() {
        Some(Ok(Some(info))) => assert_eq!(info.configured_address, 2),
        other => panic!("unexpected outcome {:?}", other),
    }
}

#[test]
fn idle_task_sends_nothing() {
    let mut init = SlaveInitializer::new();
    assert!(init.next_command(EtherCatSystemTime(0)).is_none());
    assert!(init.wait().is_none());
}

#[test]
fn lost_packet_stops_initialization() {
    let mut slave = SimSlave::new();
    let mut init = SlaveInitializer::new();
    init.start(0);
    run(&mut init, &mut slave, 5);
    assert!(init.wait().is_none());
    assert!(init.next_command(EtherCatSystemTime(10)).is_some());
    init.recieve_and_process(None, EtherCatSystemTime(10));
    assert!(matches!(init.wait(), Some(Err(EcError::LostPacket))));
    assert!(init.next_command(EtherCatSystemTime(11)).is_none());
}

#[test]
fn wrong_working_counter_is_reported() {
    let mut init = SlaveInitializer::new();
    init.start(0);
    let (command, data) = init.next_command(EtherCatSystemTime(0)).map(|(c, d)| (c, d.to_vec())).unwrap();
    init.recieve_and_process(Some(ReceivedData { command, data: &data, wkc: 0 }), EtherCatSystemTime(0));
    assert!(matches!(init.wait(), Some(Err(EcError::UnexpectedWkc(0)))));
}

#[test]
fn foreign_response_is_reported() {
    let mut init = SlaveInitializer::new();
    init.start(0);
    let (mut command, data) = init.next_command(EtherCatSystemTime(0)).map(|(c, d)| (c, d.to_vec())).unwrap();
    command.ado = 0x0200;
    init.recieve_and_process(Some(ReceivedData { command, data: &data, wkc: 1 }), EtherCatSystemTime(0));
    assert!(matches!(init.wait(), Some(Err(EcError::UnexpectedCommand))));
}

#[test]
fn unloaded_eeprom_fails_fast() {
    let mut slave = SimSlave::new();
    slave.mem[0x110] = 0;
    let mut init = SlaveInitializer::new();
    init.start(0);
    run(&mut init, &mut slave, 500);
    assert!(matches!(
        init.wait(),
        Some(Err(EcError::TaskSpecific(SlaveInitializerError::FailedToLoadEEPROM)))
    ));
}

#[test]
fn refused_init_transition_is_reported() {
    let mut slave = SimSlave::new();
    slave.al_error_code = Some(0x0011);
    let mut init = SlaveInitializer::new();
    init.start(0);
    run(&mut init, &mut slave, 500);
    assert!(matches!(
        init.wait(),
        Some(Err(EcError::TaskSpecific(SlaveInitializerError::AlStateTransition(
            AlStateTransferError::AlStatusCode(0x0011, AlState::PreOperational)
        ))))
    ));
}

#[test]
fn busy_eeprom_is_reported() {
    let mut slave = SimSlave::new();
    slave.sii_busy_polls = 1;
    let mut init = SlaveInitializer::new();
    init.start(0);
    run(&mut init, &mut slave, 500);
    assert!(matches!(
        init.wait(),
        Some(Err(EcError::TaskSpecific(SlaveInitializerError::SiiRead(SiiTaskError::Busy))))
    ));
}

#[test]
fn slave_without_dc_skips_dc_steps() {
    let mut slave = SimSlave::new();
    slave.mem[8] = 0;
    let mut init = SlaveInitializer::new();
    init.start(0);
    let cycles = run(&mut init, &mut slave, 500);
    let mut slave_dc = SimSlave::new();
    let mut init_dc = SlaveInitializer::new();
    init_dc.start(0);
    let cycles_dc = run(&mut init_dc, &mut slave_dc, 500);
    assert_eq!(cycles + 4, cycles_dc);
    match init.wait() {
        Some(Ok(Some(info))) => assert!(!info.support_dc),
        other => panic!("unexpected outcome {:?}", other),
    }
}

#[test]
fn slave_without_mailbox_gets_process_data_channels_only() {
    let mut slave = SimSlave::new();
    slave.eeprom[0x19] = 0;
    slave.eeprom[0x1B] = 0;
    let mut init = SlaveInitializer::new();
    init.start(0);
    run(&mut init, &mut slave, 500);
    match init.wait() {
        Some(Ok(Some(info))) => {
            assert_eq!(info.sm[0], Some(SyncManagerType::ProcessDataRx));
            assert_eq!(info.sm[1], None);
            assert_eq!(info.sm[2], None);
            assert_eq!(info.sm[3], Some(SyncManagerType::ProcessDataTx));
            assert_eq!(info.pdo_start_address, None);
        }
        other => panic!("unexpected outcome {:?}", other),
    }
}

#[test]
fn buffer_holds_the_largest_register() {
    assert_eq!(buffer_size(), 16);
    assert_eq!(BUFFER_SIZE, 16);
}

#[test]
fn new_task_is_idle() {
    let init = SlaveInitializer::new();
    let _ = init;
    let s = State::Idle;
    assert_eq!(s, State::Idle);
}

#[test]
fn two_slave_ring_gets_addresses_one_and_two() {
    let mut addresses = Vec::new();
    for position in 0..2u16 {
        let mut slave = SimSlave::new();
        let mut init = SlaveInitializer::new();
        init.start(position);
        run(&mut init, &mut slave, 500);
        match init.wait() {
            Some(Ok(Some(info))) => addresses.push(info.configured_address),
            other => panic!("unexpected outcome {:?}", other),
        }
    }
    assert_eq!(addresses, vec![1, 2]);
}

#[test]
fn empty_send_mailbox_still_gets_process_data_sm3() {
    let mut slave = SimSlave::new();
    slave.eeprom[0x1B] = 0;
    let mut init = SlaveInitializer::new();
    init.start(0);
    run(&mut init, &mut slave, 500);
    match init.wait() {
        Some(Ok(Some(info))) => {
            assert!(matches!(info.sm[0], Some(SyncManagerType::MailboxRx(_))));
            assert_eq!(info.sm[1], None);
            assert_eq!(info.sm[2], Some(SyncManagerType::ProcessDataRx));
            assert_eq!(info.sm[3], Some(SyncManagerType::ProcessDataTx));
            assert_eq!(info.pdo_start_address, None);
        }
        other => panic!("unexpected outcome {:?}", other),
    }
}

#[test]
fn send_mailbox_needs_a_receive_mailbox() {
    let mut slave = SimSlave::new();
    slave.eeprom[0x19] = 0;
    let mut init = SlaveInitializer::new();
    init.start(0);
    run(&mut init, &mut slave, 500);
    match init.wait() {
        Some(Ok(Some(info))) => {
            assert_eq!(info.sm[0], Some(SyncManagerType::ProcessDataRx));
            assert_eq!(info.sm[1], None);
            assert_eq!(info.sm[3], Some(SyncManagerType::ProcessDataTx));
        }
        other => panic!("unexpected outcome {:?}", other),
    }
}
