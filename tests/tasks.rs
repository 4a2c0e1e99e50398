use ethercat_master::al_state_transfer::{transition_timeout_ms, AlStateTransfer, AlStateTransferError};
use ethercat_master::command::{
    expected_wkc, has_elapsed_ms, response_matches, Command, CommandType, EtherCatSystemTime,
    ReceivedData, SlaveAddress, TargetSlave,
};
use ethercat_master::error::EcError;
use ethercat_master::sii_reader::{SiiData, SiiReader, SiiTaskError};
use ethercat_master::slave::AlState;

fn respond<'a>(command: Command, data: &'a [u8], wkc: u16) -> Option<ReceivedData<'a>> {
    Some(ReceivedData { command, data, wkc })
}

#[test]
fn sii_vendor_read() {
    let mut reader = SiiReader::new();
    reader.start(TargetSlave::Single(SlaveAddress::SlavePosition(1)), 0x0008);
    let t = EtherCatSystemTime(0);
    // interface free
    let (c, d) = reader.next_command(t).map(|(c, d)| (c, d.to_vec())).unwrap();
    assert_eq!(c.c_type, CommandType::APRD);
    assert_eq!(c.adp, 0xFFFF);
    assert_eq!(c.ado, 0x0502);
    assert_eq!(d.len(), 2);
    reader.recieve_and_process(respond(c, &[0, 0], 1), t);
    // read command with the word address
    let (c, d) = reader.next_command(t).map(|(c, d)| (c, d.to_vec())).unwrap();
    assert_eq!(c.c_type, CommandType::APWR);
    assert_eq!(c.ado, 0x0502);
    assert_eq!(d, vec![0x00, 0x01, 0x08, 0x00, 0x00, 0x00]);
    reader.recieve_and_process(respond(c, &d, 1), t);
    // still busy once
    let (c, _) = reader.next_command(t).unwrap();
    reader.recieve_and_process(respond(c, &[0x00, 0x80], 1), EtherCatSystemTime(1_000_000));
    assert!(reader.wait().is_none());
    let (c, _) = reader.next_command(t).unwrap();
    reader.recieve_and_process(respond(c, &[0x00, 0x00], 1), EtherCatSystemTime(2_000_000));
    let (c, d) = reader.next_command(t).map(|(c, d)| (c, d.to_vec())).unwrap();
    assert_eq!(c.ado, 0x0508);
    assert_eq!(d.len(), 4);
    reader.recieve_and_process(respond(c, &[0x77, 0x04, 0x00, 0x00], 1), t);
    match reader.wait() {
        Some(Ok((data, size))) => {
            assert_eq!(size, 4);
            assert_eq!(data.sii_data(), 0x0000_0477);
            assert_eq!(data, SiiData { value: 0x477 });
        }
        other => panic!("unexpected outcome {:?}", other),
    }
    assert!(reader.next_command(t).is_none());
}

fn run_reader_to_wait(reader: &mut SiiReader, status: [u8; 2], now: u64) {
    let t = EtherCatSystemTime(0);
    let (c, _) = reader.next_command(t).unwrap();
    reader.recieve_and_process(respond(c, &[0, 0], 1), t);
    let (c, d) = reader.next_command(t).map(|(c, d)| (c, d.to_vec())).unwrap();
    reader.recieve_and_process(respond(c, &d, 1), t);
    let (c, _) = reader.next_command(t).unwrap();
    reader.recieve_and_process(respond(c, &status, 1), EtherCatSystemTime(now));
}

#[test]
fn sii_errors_from_status_bits() {
    let cases = [
        ([0x00, 0x80], 10_000_000, SiiTaskError::TimeOut),
        ([0x00, 0x20], 0, SiiTaskError::CommandError),
        ([0x00, 0x10], 0, SiiTaskError::DeviceInfoNotOperational),
        ([0x00, 0x40], 0, SiiTaskError::PermissionDenied),
    ];
    for (status, now, expected) in cases {
        let mut reader = SiiReader::new();
        reader.start(TargetSlave::Single(SlaveAddress::StationAddress(0x1001)), 0x000A);
        run_reader_to_wait(&mut reader, status, now);
        match reader.wait() {
            Some(Err(EcError::TaskSpecific(e))) => assert_eq!(e, expected),
            other => panic!("unexpected outcome {:?}", other),
        }
    }
}

#[test]
fn sii_busy_short_of_timeout_keeps_waiting() {
    let mut reader = SiiReader::new();
    reader.start(TargetSlave::Single(SlaveAddress::SlavePosition(0)), 0x000A);
    run_reader_to_wait(&mut reader, [0x00, 0x80], 9_999_999);
    assert!(reader.wait().is_none());
}

#[test]
fn sii_wide_address_needs_two_address_bytes() {
    let mut reader = SiiReader::new();
    reader.start(TargetSlave::Single(SlaveAddress::SlavePosition(0)), 0x0100);
    let (c, _) = reader.next_command(EtherCatSystemTime(0)).unwrap();
    reader.recieve_and_process(respond(c, &[0x00, 0x00], 1), EtherCatSystemTime(0));
    assert!(matches!(reader.wait(), Some(Err(EcError::TaskSpecific(SiiTaskError::AddressError)))));
}

#[test]
fn sii_lost_packet() {
    let mut reader = SiiReader::new();
    reader.start(TargetSlave::Single(SlaveAddress::SlavePosition(0)), 0x0008);
    let _ = reader.next_command(EtherCatSystemTime(0));
    reader.recieve_and_process(None, EtherCatSystemTime(0));
    assert!(matches!(reader.wait(), Some(Err(EcError::LostPacket))));
}

#[test]
fn al_state_change_all_to_preop() {
    let mut transfer = AlStateTransfer::new();
    transfer.start(TargetSlave::All(2), AlState::PreOperational);
    // present state: Init
    let (c, d) = transfer.next_command(EtherCatSystemTime(0)).map(|(c, d)| (c, d.to_vec())).unwrap();
    assert_eq!(c.c_type, CommandType::BRD);
    assert_eq!(c.ado, 0x0130);
    assert_eq!(d.len(), 2);
    transfer.recieve_and_process(respond(c, &[0x01, 0x00], 2), EtherCatSystemTime(0));
    assert_eq!(transfer.timeout_ms, 3000);
    // request PreOp
    let (c, d) = transfer.next_command(EtherCatSystemTime(0)).map(|(c, d)| (c, d.to_vec())).unwrap();
    assert_eq!(c.c_type, CommandType::BWR);
    assert_eq!(c.ado, 0x0120);
    assert_eq!(d, vec![0x02, 0x00]);
    transfer.recieve_and_process(respond(c, &d, 4), EtherCatSystemTime(1_000_000));
    // still Init, then PreOp
    let (c, _) = transfer.next_command(EtherCatSystemTime(0)).unwrap();
    transfer.recieve_and_process(respond(c, &[0x01, 0x00], 2), EtherCatSystemTime(1_000_000_000));
    assert!(transfer.wait().is_none());
    let (c, _) = transfer.next_command(EtherCatSystemTime(0)).unwrap();
    transfer.recieve_and_process(respond(c, &[0x02, 0x00], 2), EtherCatSystemTime(2_000_000_000));
    assert_eq!(transfer.wait(), Some(Ok(AlState::PreOperational)));
}

#[test]
fn al_state_change_times_out() {
    let mut transfer = AlStateTransfer::new();
    transfer.start(TargetSlave::Single(SlaveAddress::SlavePosition(0)), AlState::Init);
    let (c, _) = transfer.next_command(EtherCatSystemTime(0)).unwrap();
    transfer.recieve_and_process(respond(c, &[0x02, 0x00], 1), EtherCatSystemTime(0));
    let (c, d) = transfer.next_command(EtherCatSystemTime(0)).map(|(c, d)| (c, d.to_vec())).unwrap();
    assert_eq!(d, vec![0x01, 0x00]);
    transfer.recieve_and_process(respond(c, &d, 1), EtherCatSystemTime(0));
    let (c, _) = transfer.next_command(EtherCatSystemTime(0)).unwrap();
    transfer.recieve_and_process(respond(c, &[0x02, 0x00], 1), EtherCatSystemTime(5_000_000_000));
    assert_eq!(
        transfer.wait(),
        Some(Err(EcError::TaskSpecific(AlStateTransferError::TimeoutMs(5000))))
    );
}

#[test]
fn al_state_refusal_reports_code() {
    let mut transfer = AlStateTransfer::new();
    transfer.start(TargetSlave::Single(SlaveAddress::StationAddress(0x1001)), AlState::Operational);
    let (c, _) = transfer.next_command(EtherCatSystemTime(0)).unwrap();
    assert_eq!(c.c_type, CommandType::FPRD);
    assert_eq!(c.adp, 0x1001);
    transfer.recieve_and_process(respond(c, &[0x04, 0x00], 1), EtherCatSystemTime(0));
    let (c, d) = transfer.next_command(EtherCatSystemTime(0)).map(|(c, d)| (c, d.to_vec())).unwrap();
    assert_eq!(d, vec![0x08, 0x00]);
    transfer.recieve_and_process(respond(c, &d, 1), EtherCatSystemTime(0));
    let (c, _) = transfer.next_command(EtherCatSystemTime(0)).unwrap();
    transfer.recieve_and_process(respond(c, &[0x14, 0x00], 1), EtherCatSystemTime(0));
    let (c, _) = transfer.next_command(EtherCatSystemTime(0)).unwrap();
    assert_eq!(c.ado, 0x0134);
    transfer.recieve_and_process(respond(c, &[0x1B, 0x00], 1), EtherCatSystemTime(0));
    assert_eq!(
        transfer.wait(),
        Some(Err(EcError::TaskSpecific(AlStateTransferError::AlStatusCode(
            0x001B,
            AlState::SafeOperational
        ))))
    );
}

#[test]
fn al_state_wrong_wkc() {
    let mut transfer = AlStateTransfer::new();
    transfer.start(TargetSlave::All(3), AlState::Init);
    let (c, _) = transfer.next_command(EtherCatSystemTime(0)).unwrap();
    transfer.recieve_and_process(respond(c, &[0x01, 0x00], 2), EtherCatSystemTime(0));
    assert_eq!(transfer.wait(), Some(Err(EcError::UnexpectedWkc(2))));
}

#[test]
fn transition_timeouts() {
    assert_eq!(transition_timeout_ms(AlState::Operational, AlState::Init), 5000);
    assert_eq!(transition_timeout_ms(AlState::Init, AlState::PreOperational), 3000);
    assert_eq!(transition_timeout_ms(AlState::PreOperational, AlState::Init), 5000);
    assert_eq!(transition_timeout_ms(AlState::PreOperational, AlState::SafeOperational), 10000);
    assert_eq!(transition_timeout_ms(AlState::SafeOperational, AlState::PreOperational), 10000);
    assert_eq!(transition_timeout_ms(AlState::SafeOperational, AlState::Operational), 10000);
    assert_eq!(transition_timeout_ms(AlState::Init, AlState::Bootstrap), 10000);
}

#[test]
fn working_counter_table() {
    assert_eq!(expected_wkc(CommandType::BRD, 5), 5);
    assert_eq!(expected_wkc(CommandType::BWR, 5), 10);
    assert_eq!(expected_wkc(CommandType::BRW, 5), 15);
    assert_eq!(expected_wkc(CommandType::APRD, 5), 1);
    assert_eq!(expected_wkc(CommandType::APWR, 5), 1);
    assert_eq!(expected_wkc(CommandType::FPRD, 5), 1);
    assert_eq!(expected_wkc(CommandType::FPWR, 5), 1);
    assert_eq!(expected_wkc(CommandType::LRD, 5), 5);
    assert_eq!(expected_wkc(CommandType::LWR, 5), 5);
    assert_eq!(expected_wkc(CommandType::LRW, 5), 15);
    assert_eq!(expected_wkc(CommandType::BRW, 0xFFFF), 3 * 0xFFFF);
}

#[test]
fn responses_match_by_type_and_offset() {
    let request = Command::new(CommandType::APRD, 0xFFFF, 0x0130);
    assert!(response_matches(&request, &Command::new(CommandType::APRD, 0x0000, 0x0130)));
    assert!(!response_matches(&request, &Command::new(CommandType::APWR, 0xFFFF, 0x0130)));
    assert!(!response_matches(&request, &Command::new(CommandType::APRD, 0xFFFF, 0x0134)));
}

#[test]
fn position_addressing() {
    let c = Command::new_read(TargetSlave::Single(SlaveAddress::SlavePosition(0)), 0x10);
    assert_eq!((c.c_type, c.adp, c.ado), (CommandType::APRD, 0, 0x10));
    let c = Command::new_write(TargetSlave::Single(SlaveAddress::SlavePosition(3)), 0x10);
    assert_eq!((c.c_type, c.adp), (CommandType::APWR, 0xFFFD));
    let c = Command::new_write(TargetSlave::All(4), 0x120);
    assert_eq!((c.c_type, c.adp), (CommandType::BWR, 0));
}

#[test]
fn elapsed_time() {
    assert!(has_elapsed_ms(EtherCatSystemTime(1_000), EtherCatSystemTime(11_001_000), 10));
    assert!(!has_elapsed_ms(EtherCatSystemTime(1_000), EtherCatSystemTime(10_000_999), 10));
    assert!(!has_elapsed_ms(EtherCatSystemTime(5), EtherCatSystemTime(0), 1));
    assert!(has_elapsed_ms(EtherCatSystemTime(5), EtherCatSystemTime(0), 0));
}

#[test]
fn al_state_poll_tolerates_a_few_unanswered_reads() {
    let mut transfer = AlStateTransfer::new();
    transfer.start(TargetSlave::Single(SlaveAddress::SlavePosition(0)), AlState::Init);
    let (c, _) = transfer.next_command(EtherCatSystemTime(0)).unwrap();
    transfer.recieve_and_process(respond(c, &[0x02, 0x00], 1), EtherCatSystemTime(0));
    let (c, d) = transfer.next_command(EtherCatSystemTime(0)).map(|(c, d)| (c, d.to_vec())).unwrap();
    transfer.recieve_and_process(respond(c, &d, 1), EtherCatSystemTime(0));
    for _ in 0..3 {
        let (c, _) = transfer.next_command(EtherCatSystemTime(0)).unwrap();
        transfer.recieve_and_process(respond(c, &[0x00, 0x00], 0), EtherCatSystemTime(0));
        assert!(transfer.wait().is_none());
    }
    let (c, _) = transfer.next_command(EtherCatSystemTime(0)).unwrap();
    transfer.recieve_and_process(respond(c, &[0x00, 0x00], 0), EtherCatSystemTime(0));
    assert_eq!(transfer.wait(), Some(Err(EcError::UnexpectedWkc(0))));
}
