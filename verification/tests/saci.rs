use host_flash::ti::crc::crc32_iso_hdlc;
use host_flash::ti::error::{SaciCommand, SequenceError};
use host_flash::ti::flash_sequence::{
    check_saci_result, saci_read_response, saci_send_words, verify_saci_result,
    CC23xxCC27xxFlashSequence, Transaction,
};
use host_flash::ti::registers::{ApSel, DeviceStatusRegister, RxCtrlRegister, TxCtrlRegister};
use host_flash::ti::saci::{make_header, pack_words, FlashRegion, SaciResult};
use host_flash::ti::script::{ProbeOp, Reply};

const KEY: u32 = 0xB7E3_A08F;

fn sent(ops: &[ProbeOp]) -> Vec<u32> {
    let mut words = Vec::new();
    for op in ops {
        if let ProbeOp::WriteAp { ap: ApSel::SecAp, address: 0, value } = op {
            words.push(*value);
        }
    }
    words
}

/// Carries a transaction out with a device that answers `response`.
fn drive(mut transaction: Transaction<&'static str>, response: u32) -> (Vec<ProbeOp>, Transaction<&'static str>) {
    let mut ops = Vec::new();
    while let Some(op) = transaction.next_op() {
        ops.push(op);
        transaction.advance(match op {
            ProbeOp::ReadAp { .. } => Reply::Word(response),
            _ => Reply::Done,
        });
    }
    (ops, transaction)
}

#[test]
fn crc32_check_values() {
    assert_eq!(crc32_iso_hdlc(b"123456789"), 0xCBF4_3926);
    assert_eq!(crc32_iso_hdlc(b""), 0);
    assert_eq!(crc32_iso_hdlc(b"a"), 0xE8B7_BE43);
    assert_eq!(crc32_iso_hdlc(b"The quick brown fox jumps over the lazy dog"), 0x414F_A339);
}

#[test]
fn crc32_detects_changes_within_four_bytes() {
    let data: Vec<u8> = (0..40u8).collect();
    let crc = crc32_iso_hdlc(&data);
    for at in 0..37 {
        for change in [1u32, 0x80, 0x8000_0001, 0xEDB8_8320, 0xFFFF_FFFF] {
            let mut changed = data.clone();
            for (k, byte) in change.to_le_bytes().iter().enumerate() {
                changed[at + k] ^= byte;
            }
            assert_ne!(crc32_iso_hdlc(&changed), crc);
        }
    }
}

#[test]
fn header_holds_command_and_parameter() {
    assert_eq!(make_header(0x0E, 0x800), 0x0800_000E);
    assert_eq!(make_header(0x09, 0), 0x0000_0009);
    assert_eq!(make_header(0x1A, 0x1_0005), 0x0005_001A);
}

#[test]
fn words_are_packed_little_endian() {
    assert_eq!(pack_words(&[], 0xFF), Vec::<u32>::new());
    assert_eq!(pack_words(&[1, 2, 3, 4], 0xFF), vec![0x0403_0201]);
    assert_eq!(pack_words(&[1, 2, 3, 4, 5], 0xFF), vec![0x0403_0201, 0xFFFF_FF05]);
    assert_eq!(pack_words(&[1, 2, 3, 4, 5, 6, 7], 0x5A), vec![0x0403_0201, 0x5A07_0605]);
    assert_eq!(pack_words(&[9, 8], 0), vec![0x0000_0809]);
}

#[test]
fn result_codes() {
    let results = [
        (0x00, SaciResult::Success),
        (0x80, SaciResult::InvalidCmdId),
        (0x81, SaciResult::InvalidAddressParam),
        (0x82, SaciResult::InvalidSizeParam),
        (0x83, SaciResult::InvalidKeyParam),
        (0x84, SaciResult::FlashFsmError),
        (0x85, SaciResult::ParamBufferOverflow),
        (0x86, SaciResult::NotAllowed),
        (0x87, SaciResult::Crc32Mismatch),
        (0x89, SaciResult::BlankCheckFailed),
        (0xFF, SaciResult::Unknown),
    ];
    for (code, result) in results {
        assert_eq!(SaciResult::from(code), result);
        assert_eq!(result.code(), code);
        assert_eq!(result.name(), format!("{:?}", result));
    }
    assert_eq!(SaciResult::from(0x88), SaciResult::Unknown);
    assert_eq!(SaciResult::from(0x01), SaciResult::Unknown);
    assert_eq!(SaciResult::in_response(0x1287_3456), SaciResult::Crc32Mismatch);
}

#[test]
fn regions_by_address() {
    assert_eq!(FlashRegion::at(0), FlashRegion::Main);
    assert_eq!(FlashRegion::at(0x4E01_FFFF), FlashRegion::Main);
    assert_eq!(FlashRegion::at(0x4E02_0000), FlashRegion::Ccfg);
    assert_eq!(FlashRegion::at(0x4E03_FFFF), FlashRegion::Ccfg);
    assert_eq!(FlashRegion::at(0x4E04_0000), FlashRegion::Scfg);
    assert_eq!(FlashRegion::at(u64::MAX), FlashRegion::Scfg);
}

#[test]
fn register_fields() {
    assert!(DeviceStatusRegister(0x0100_0000).ahb_ap_available());
    assert!(!DeviceStatusRegister(0xFEFF_FFFF).ahb_ap_available());
    assert_eq!(DeviceStatusRegister(0x1234_5678).boot_status(), 0x56);
    assert!(DeviceStatusRegister(0x0000_3800).waits_for_debugger());
    assert!(DeviceStatusRegister(0x0000_8100).waits_for_debugger());
    assert!(DeviceStatusRegister(0x0000_C100).waits_for_debugger());
    assert!(!DeviceStatusRegister(0x0038_0038).waits_for_debugger());
    assert!(TxCtrlRegister(1).txd_full());
    assert!(!TxCtrlRegister(2).txd_full());
    assert!(RxCtrlRegister(3).rxd_ready());
    assert!(!RxCtrlRegister(2).rxd_ready());
    let mut tx_ctrl = TxCtrlRegister(0x8000_0001);
    tx_ctrl.set_cmd_start(true);
    assert_eq!(tx_ctrl, TxCtrlRegister(0x8000_0003));
    assert!(tx_ctrl.cmd_start());
    tx_ctrl.set_cmd_start(false);
    assert_eq!(tx_ctrl, TxCtrlRegister(0x8000_0001));
    assert!(!tx_ctrl.cmd_start());
    assert_eq!(ApSel::CfgAp.number(), 1);
    assert_eq!(ApSel::SecAp.number(), 2);
}

#[test]
fn sending_words() {
    let wait = ProbeOp::AwaitTxEmpty { timeout_ms: 7 };
    let ctrl = |value| ProbeOp::WriteAp { ap: ApSel::SecAp, address: 4, value };
    let data = |value| ProbeOp::WriteAp { ap: ApSel::SecAp, address: 0, value };
    assert_eq!(saci_send_words(&[], 7), vec![]);
    assert_eq!(saci_send_words(&[11], 7), vec![wait, ctrl(2), data(11), wait]);
    assert_eq!(
        saci_send_words(&[11, 12, 13], 7),
        vec![
            wait, ctrl(2), data(11), wait, ctrl(0), wait, data(12), wait, data(13), wait
        ]
    );
    assert_eq!(
        saci_read_response(9),
        vec![
            ProbeOp::AwaitRxReady { timeout_ms: 9 },
            ProbeOp::ReadAp { ap: ApSel::SecAp, address: 8 }
        ]
    );
}

#[test]
fn erase_all_transaction() {
    let (ops, transaction) = drive(CC23xxCC27xxFlashSequence::new().erase_all(), 0);
    assert_eq!(
        ops[..3],
        [
            ProbeOp::Reinitialize,
            ProbeOp::Sleep { millis: 100 },
            ProbeOp::AwaitSaciMode { timeout_ms: 3000 }
        ]
    );
    assert_eq!(sent(&ops), vec![0x09, KEY]);
    assert_eq!(ops[ops.len() - 2], ProbeOp::AwaitRxReady { timeout_ms: 30_000 });
    assert_eq!(transaction.into_result(), Some(Ok(())));

    let (_, transaction) = drive(CC23xxCC27xxFlashSequence::default().erase_all(), 0x0084_0009);
    assert_eq!(
        transaction.into_result(),
        Some(Err(SequenceError::SaciFailed {
            command: SaciCommand::EraseChip,
            result: SaciResult::FlashFsmError
        }))
    );
}

#[test]
fn programming_main() {
    let sequence = CC23xxCC27xxFlashSequence::new();
    let (ops, transaction) = drive(sequence.program(0x800, &[1, 2, 3, 4, 5]), 0);
    assert_eq!(sent(&ops), vec![0x0005_000E, KEY, 0x800, 0x0403_0201, 0xFFFF_FF05]);
    assert_eq!(ops[0], ProbeOp::AwaitTxEmpty { timeout_ms: 200 });
    assert_eq!(ops[ops.len() - 2], ProbeOp::AwaitRxReady { timeout_ms: 5000 });
    assert_eq!(transaction.command, SaciCommand::ProgMainSector { address: 0x800 });
    assert_eq!(transaction.into_result(), Some(Ok(())));
}

#[test]
fn programming_ccfg_fills_the_sector() {
    let sequence = CC23xxCC27xxFlashSequence::new();
    let (ops, _) = drive(sequence.program(0x4E02_0000, &[1, 2]), 0);
    let words = sent(&ops);
    assert_eq!(words.len(), 514);
    assert_eq!(words[..3], [0x0001_000C, KEY, 0xFFFF_0201]);
    assert!(words[3..].iter().all(|word| *word == 0xFFFF_FFFF));

    let (ops, transaction) = drive(sequence.program(0x4E02_0000, &[0x11; 3000]), 0x0086_000C);
    let words = sent(&ops);
    assert_eq!(words.len(), 514);
    assert_eq!(words[513], 0x1111_1111);
    assert_eq!(
        transaction.into_result(),
        Some(Err(SequenceError::SaciFailed {
            command: SaciCommand::ProgCcfgSector,
            result: SaciResult::NotAllowed
        }))
    );
}

#[test]
fn programming_scfg() {
    let sequence = CC23xxCC27xxFlashSequence::new();
    let (ops, transaction) = drive(sequence.program(0x4E04_0000, &[1, 2, 3]), 0);
    assert_eq!(sent(&ops), vec![0x0003_001A, KEY, 0xFF03_0201]);
    assert_eq!(transaction.command, SaciCommand::ProgScfgSector);
}

#[test]
fn verifying_main() {
    let sequence = CC23xxCC27xxFlashSequence::new();
    let (ops, transaction) = drive(sequence.verify(0x800, b"123456789"), 0);
    assert_eq!(sent(&ops), vec![0x10, 0x800, 9, 0xCBF4_3926]);
    assert_eq!(ops[0], ProbeOp::AwaitTxEmpty { timeout_ms: 100 });
    assert_eq!(ops[ops.len() - 2], ProbeOp::AwaitRxReady { timeout_ms: 10_000 });
    assert_eq!(transaction.into_verified(), Some(Ok(true)));

    let (_, transaction) = drive(sequence.verify(0x800, b"123456789"), 0x0087_0010);
    assert_eq!(transaction.into_verified(), Some(Ok(false)));

    let (_, transaction) = drive(sequence.verify(0x800, b"123456789"), 0x0089_0010);
    assert_eq!(
        transaction.into_verified(),
        Some(Err(SequenceError::SaciFailed {
            command: SaciCommand::VerifyMainSectors,
            result: SaciResult::BlankCheckFailed
        }))
    );
}

#[test]
fn verifying_ccfg() {
    let sequence = CC23xxCC27xxFlashSequence::new();
    let (ops, transaction) = drive(sequence.verify(0x4E02_0000, &[1]), 0x0089_0011);
    assert_eq!(sent(&ops), vec![0x0002_0011, 0, 0, 0, 0]);
    assert_eq!(transaction.into_verified(), Some(Ok(false)));
    let (_, transaction) = drive(sequence.verify(0x4E02_0000, &[1]), 0x0086_0011);
    assert_eq!(
        transaction.into_verified(),
        Some(Err(SequenceError::SaciFailed {
            command: SaciCommand::VerifyCcfgSector,
            result: SaciResult::NotAllowed
        }))
    );
}

#[test]
fn verifying_scfg_checks_its_first_bytes() {
    let sequence = CC23xxCC27xxFlashSequence::new();
    let (ops, _) = drive(sequence.verify(0x4E04_0000, b"123456789"), 0);
    assert_eq!(sent(&ops), vec![0x0001_001B, 0xCBF4_3926]);
    let data = [0x42u8; 0x100];
    let (ops, transaction) = drive(sequence.verify(0x4E04_0000, &data), 0x0087_001B);
    assert_eq!(sent(&ops)[1], crc32_iso_hdlc(&data[..0xE4]));
    assert_eq!(transaction.into_verified(), Some(Ok(false)));
}

#[test]
fn verify_command_notices_a_change() {
    let sequence = CC23xxCC27xxFlashSequence::new();
    let data = [0x42u8; 0x100];
    let mut changed = data;
    changed[0x10] = 0x43;
    for address in [0u64, 0x4E04_0000] {
        let (before, _) = drive(sequence.verify(address, &data), 0);
        let (after, _) = drive(sequence.verify(address, &changed), 0);
        assert_ne!(sent(&before), sent(&after));
    }
}

#[test]
fn responses_are_checked() {
    let command = SaciCommand::ProgScfgSector;
    assert_eq!(check_saci_result::<()>(0xFF00_FFFF, command), Ok(()));
    assert_eq!(
        check_saci_result::<()>(0x0083_0000, command),
        Err(SequenceError::SaciFailed { command, result: SaciResult::InvalidKeyParam })
    );
    let command = SaciCommand::VerifyScfgSector;
    assert_eq!(verify_saci_result::<()>(0x0000_0000, command), Ok(true));
    assert_eq!(verify_saci_result::<()>(0x0087_0000, command), Ok(false));
    assert_eq!(
        verify_saci_result::<()>(0x0089_0000, command),
        Err(SequenceError::SaciFailed { command, result: SaciResult::BlankCheckFailed })
    );
}

#[test]
fn failure_messages() {
    assert_eq!(
        SaciCommand::ProgMainSector { address: 0xABC0 }.failure_message(SaciResult::NotAllowed),
        "SACI FLASH_PROG_MAIN_SECTOR at 0x0000ABC0 failed: NotAllowed"
    );
    assert_eq!(
        SaciCommand::ProgMainSector { address: 0x1_2345_6789 }
            .failure_message(SaciResult::FlashFsmError),
        "SACI FLASH_PROG_MAIN_SECTOR at 0x123456789 failed: FlashFsmError"
    );
    assert_eq!(
        SaciCommand::ProgMainSector { address: 0xFEDC_BA98_7654_3210 }
            .failure_message(SaciResult::Unknown),
        "SACI FLASH_PROG_MAIN_SECTOR at 0xFEDCBA9876543210 failed: Unknown"
    );
    let others = [
        (SaciCommand::EraseChip, "FLASH_ERASE_CHIP"),
        (SaciCommand::ProgCcfgSector, "FLASH_PROG_CCFG_SECTOR"),
        (SaciCommand::ProgScfgSector, "FLASH_PROG_SCFG_SECTOR"),
        (SaciCommand::VerifyMainSectors, "FLASH_VERIFY_MAIN_SECTORS"),
        (SaciCommand::VerifyCcfgSector, "FLASH_VERIFY_CCFG_SECTOR"),
        (SaciCommand::VerifyScfgSector, "FLASH_VERIFY_SCFG_SECTOR"),
    ];
    for (command, name) in others {
        assert_eq!(
            command.failure_message(SaciResult::InvalidSizeParam),
            format!("SACI {} failed: InvalidSizeParam", name)
        );
    }
}

#[test]
fn transaction_stops_at_timeout_and_failure() {
    let sequence = CC23xxCC27xxFlashSequence::new();
    let mut transaction: Transaction<&str> = sequence.program(0, &[1]);
    assert_eq!(transaction.next_op(), Some(ProbeOp::AwaitTxEmpty { timeout_ms: 200 }));
    transaction.advance(Reply::TimedOut);
    assert_eq!(transaction.next_op(), None);
    assert_eq!(transaction.into_result(), Some(Err(SequenceError::Timeout)));

    let mut transaction: Transaction<&str> = sequence.verify(0, &[1]);
    transaction.advance(Reply::Done);
    transaction.advance(Reply::Failed("unplugged"));
    transaction.advance(Reply::Done);
    assert_eq!(transaction.next_op(), None);
    assert_eq!(transaction.into_verified(), Some(Err(SequenceError::Probe("unplugged"))));
}

#[test]
fn reply_that_does_not_answer_changes_nothing() {
    let sequence = CC23xxCC27xxFlashSequence::new();
    let mut transaction: Transaction<&str> = sequence.program(0, &[1]);
    let first = transaction.next_op();
    transaction.advance(Reply::Word(1));
    assert_eq!(transaction.next_op(), first);
    assert_eq!(transaction.into_result(), None);
}
