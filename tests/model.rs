use ethercat_master::register::{
    feature, pdi_operational, port_type, read_u16, read_u32, signal_detection, strict_al_control,
};
use ethercat_master::slave::{
    set_process_data_sm_size_offset, AlState, PortPhysics, SlaveInfo, SyncManager, SyncManagerType,
};

fn with_mailboxes(rx: (u16, u16), tx: (u16, u16), ram_kb: u8) -> SlaveInfo {
    let mut info = SlaveInfo::default();
    info.ram_size_kb = ram_kb;
    info.sm[0] = Some(SyncManagerType::MailboxRx(SyncManager { number: 0, start_address: rx.0, size: rx.1 }));
    info.sm[1] = Some(SyncManagerType::MailboxTx(SyncManager { number: 1, start_address: tx.0, size: tx.1 }));
    info
}

#[test]
fn pdo_ram_above_mailboxes() {
    let mut info = with_mailboxes((0x1000, 0x80), (0x1080, 0x80), 8);
    set_process_data_sm_size_offset(&mut info);
    assert_eq!(info.pdo_start_address, Some(0x1100));
    assert_eq!(info.pdo_ram_size, 0x1F00);
}

#[test]
fn pdo_ram_below_mailboxes() {
    let mut info = with_mailboxes((0x1800, 0x100), (0x1900, 0x100), 4);
    set_process_data_sm_size_offset(&mut info);
    // below: 0x1000..0x1800 (0x800), above: 0x1A00..0x2000 (0x600)
    assert_eq!(info.pdo_start_address, Some(0x1000));
    assert_eq!(info.pdo_ram_size, 0x800);
}

#[test]
fn pdo_ram_tie_goes_above() {
    // below: 0x1000..0x1100, above: 0x1300..0x1400, both 0x100
    let mut info = with_mailboxes((0x1100, 0x100), (0x1200, 0x100), 1);
    set_process_data_sm_size_offset(&mut info);
    assert_eq!(info.pdo_start_address, Some(0x1300));
    assert_eq!(info.pdo_ram_size, 0x100);
}

#[test]
fn pdo_ram_none_when_both_windows_empty() {
    let mut info = with_mailboxes((0x1000, 0x200), (0x1200, 0x200), 1);
    set_process_data_sm_size_offset(&mut info);
    assert_eq!(info.pdo_start_address, None);
}

#[test]
fn pdo_ram_large_controller_stays_in_address_space() {
    let mut info = with_mailboxes((0x1000, 0x80), (0x1080, 0x80), 255);
    set_process_data_sm_size_offset(&mut info);
    assert_eq!(info.pdo_start_address, Some(0x1100));
    assert_eq!(info.pdo_ram_size, 0xEF00);
}

#[test]
fn pdo_ram_needs_mailboxes() {
    let mut info = SlaveInfo::default();
    info.ram_size_kb = 8;
    info.pdo_start_address = Some(0x1000);
    info.sm[0] = Some(SyncManagerType::ProcessDataRx);
    set_process_data_sm_size_offset(&mut info);
    assert_eq!(info.pdo_start_address, None);
}

#[test]
fn mailbox_counter_wraps_after_seven() {
    let mut info = SlaveInfo::default();
    assert_eq!(info.mailbox_count, 1);
    let mut seen = vec![info.mailbox_count];
    for _ in 0..8 {
        info.increment_mailbox_count();
        seen.push(info.mailbox_count);
    }
    assert_eq!(seen, vec![1, 2, 3, 4, 5, 6, 7, 1, 2]);
}

#[test]
fn fresh_slave_record() {
    let info = SlaveInfo::default();
    assert_eq!(info.configured_address, 0);
    assert_eq!(info.al_state, AlState::Init);
    assert_eq!(info.ports, [PortPhysics::NotImplemented; 4]);
    assert!(info.sm.iter().all(|s| s.is_none()));
    assert_eq!(info.pdo_start_address, None);
}

#[test]
fn al_state_codes() {
    assert_eq!(AlState::from_code(0x01), AlState::Init);
    assert_eq!(AlState::from_code(0x12), AlState::PreOperational);
    assert_eq!(AlState::from_code(0x03), AlState::Bootstrap);
    assert_eq!(AlState::from_code(0x04), AlState::SafeOperational);
    assert_eq!(AlState::from_code(0x08), AlState::Operational);
    assert_eq!(AlState::from_code(0x06), AlState::InvalidOrMixed);
    assert_eq!(AlState::Operational.code(), 8);
    assert_eq!(PortPhysics::from_code(2), PortPhysics::EBus);
}

#[test]
fn register_bits() {
    assert!(pdi_operational(&[0x01, 0x00]));
    assert!(!pdi_operational(&[0x02, 0x00]));
    assert!(!pdi_operational(&[]));
    let dl_status = [0x01, 0b1000_0010];
    assert!(signal_detection(&dl_status, 0));
    assert!(!signal_detection(&dl_status, 1));
    assert!(!signal_detection(&dl_status, 2));
    assert!(signal_detection(&dl_status, 3));
    let mut dl_info = [0u8; 10];
    dl_info[7] = 0b0110_1100;
    dl_info[8] = 0b0000_1100;
    dl_info[9] = 0b0000_0010;
    assert_eq!(port_type(&dl_info, 0), PortPhysics::NotImplemented);
    assert_eq!(port_type(&dl_info, 1), PortPhysics::Mii);
    assert_eq!(port_type(&dl_info, 2), PortPhysics::EBus);
    assert_eq!(port_type(&dl_info, 3), PortPhysics::NotConfigured);
    assert!(!feature(&dl_info, 0));
    assert!(feature(&dl_info, 2));
    assert!(feature(&dl_info, 3));
    assert!(feature(&dl_info, 9));
    assert!(!feature(&dl_info, 10));
    assert!(strict_al_control(&[0x00, 0x01]));
    assert!(!strict_al_control(&[0x01, 0x00]));
}

#[test]
fn little_endian_reads() {
    let data = [0x77, 0x04, 0x01, 0x02];
    assert_eq!(read_u16(&data, 0), 0x0477);
    assert_eq!(read_u32(&data, 0), 0x0201_0477);
    // past the end reads as zero
    assert_eq!(read_u16(&data, 3), 0x0002);
}
