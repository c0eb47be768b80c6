use host_flash::ti::debug_sequence::{CC23xxCC27xx, SequenceRun};
use host_flash::ti::error::SequenceError;
use host_flash::ti::flash_sequence::CC23xxCC27xxFlashSequence;
use host_flash::ti::registers::{ApSel, DeviceStatusRegister, RxCtrlRegister, TxCtrlRegister};
use host_flash::ti::script::{
    poll_power, poll_rx_ctrl, poll_saci_mode, poll_tx_ctrl, Poll, ProbeOp, Reply, Script, Value,
};

const STATUS: ProbeOp = ProbeOp::ReadAp { ap: ApSel::CfgAp, address: 0x0C };
const IN_SACI: u32 = 0;
const AHB_AVAILABLE: u32 = 0x0100_0000;

fn device() -> CC23xxCC27xx {
    CC23xxCC27xx::create("CC2745R10".to_string())
}

/// Carries a sequence out. Reads are answered from `reads`, all else is done.
fn drive(
    mut run: SequenceRun<&'static str>,
    device: &mut CC23xxCC27xx,
    reads: Vec<Reply<&'static str>>,
) -> (Vec<ProbeOp>, Option<Result<(), SequenceError<&'static str>>>) {
    let mut reads = reads.into_iter();
    let mut ops = Vec::new();
    while let Some(op) = run.next_op() {
        ops.push(op);
        let reply = match op {
            ProbeOp::ReadAp { .. }
            | ProbeOp::TryReadAp { .. }
            | ProbeOp::ReadPowerStatus
            | ProbeOp::ReadResetCatch
            | ProbeOp::ReadBreakpointControl => reads.next().unwrap(),
            _ => Reply::Done,
        };
        run = run.advance(device, reply);
    }
    assert!(reads.next().is_none());
    (ops, run.into_result())
}

fn power(system: bool, debug: bool) -> Reply<&'static str> {
    Reply::Power { system, debug }
}

#[test]
fn polls() {
    assert_eq!(poll_tx_ctrl(TxCtrlRegister(0), true), Poll::Ready);
    assert_eq!(poll_tx_ctrl(TxCtrlRegister(1), true), Poll::Expired);
    assert_eq!(poll_tx_ctrl(TxCtrlRegister(1), false), Poll::Again { wait_us: 0 });
    assert_eq!(poll_rx_ctrl(RxCtrlRegister(1), true), Poll::Ready);
    assert_eq!(poll_rx_ctrl(RxCtrlRegister(0), true), Poll::Expired);
    assert_eq!(poll_rx_ctrl(RxCtrlRegister(0), false), Poll::Again { wait_us: 5 });
    assert_eq!(poll_saci_mode(Some(DeviceStatusRegister(IN_SACI)), true), Poll::Ready);
    assert_eq!(poll_saci_mode(Some(DeviceStatusRegister(AHB_AVAILABLE)), true), Poll::Expired);
    assert_eq!(poll_saci_mode(None, true), Poll::Expired);
    assert_eq!(poll_saci_mode(None, false), Poll::Again { wait_us: 50_000 });
    assert_eq!(poll_power(true, true, true), Poll::Ready);
    assert_eq!(poll_power(true, false, true), Poll::Expired);
    assert_eq!(poll_power(false, true, false), Poll::Again { wait_us: 0 });
}

#[test]
fn scripts_run_in_order() {
    let ops = vec![ProbeOp::Sleep { millis: 1 }, STATUS];
    let mut script: Script<&str> = Script::start(ops);
    assert_eq!(script.next_op(), Some(ProbeOp::Sleep { millis: 1 }));
    script.advance(Reply::Failed("cannot fail"));
    assert_eq!(script.next_op(), Some(ProbeOp::Sleep { millis: 1 }));
    script.advance(Reply::Done);
    assert_eq!(script.next_op(), Some(STATUS));
    script.advance(Reply::Word(7));
    assert_eq!(script.next_op(), None);
    assert_eq!(script.into_outcome(), Some(Ok(Value::Word(7))));
    let empty: Script<&str> = Script::start(vec![]);
    assert_eq!(empty.into_outcome(), Some(Ok(Value::Nothing)));
}

#[test]
fn port_start_of_a_powered_device_that_runs() {
    let mut device = device();
    let (ops, result) = drive(
        device.debug_port_start(),
        &mut device,
        vec![power(true, true), Reply::Word(AHB_AVAILABLE)],
    );
    assert_eq!(
        ops,
        vec![
            ProbeOp::ClearDebugErrors,
            ProbeOp::SelectDefaultBank,
            ProbeOp::ReadPowerStatus,
            STATUS
        ]
    );
    assert_eq!(result, Some(Ok(())));
    assert!(!device.is_in_boot_loop());
}

#[test]
fn port_start_powers_up_and_exits_saci() {
    let mut device = device();
    let (ops, result) = drive(
        device.debug_port_start(),
        &mut device,
        vec![power(true, false), power(true, true), Reply::Word(IN_SACI), Reply::Word(0x0100_3800)],
    );
    let wait = ProbeOp::AwaitTxEmpty { timeout_ms: 100 };
    assert_eq!(
        ops,
        vec![
            ProbeOp::ClearDebugErrors,
            ProbeOp::SelectDefaultBank,
            ProbeOp::ReadPowerStatus,
            ProbeOp::RequestPower { all_byte_lanes: false },
            ProbeOp::AwaitPower { timeout_ms: 1000 },
            ProbeOp::RequestPower { all_byte_lanes: true },
            ProbeOp::ReadPowerStatus,
            STATUS,
            wait,
            ProbeOp::WriteAp { ap: ApSel::SecAp, address: 4, value: 2 },
            ProbeOp::WriteAp { ap: ApSel::SecAp, address: 0, value: 7 },
            wait,
            ProbeOp::Sleep { millis: 30 },
            STATUS,
        ]
    );
    assert_eq!(result, Some(Ok(())));
    assert!(device.is_in_boot_loop());
}

#[test]
fn port_start_without_boot_loop() {
    let mut device = device();
    for status in [IN_SACI, AHB_AVAILABLE] {
        let (_, result) = drive(
            device.debug_port_start(),
            &mut device,
            vec![power(true, true), Reply::Word(IN_SACI), Reply::Word(status)],
        );
        assert_eq!(result, Some(Ok(())));
        assert!(!device.is_in_boot_loop());
    }
}

#[test]
fn port_start_fails_without_power() {
    let mut device = device();
    let (_, result) = drive(
        device.debug_port_start(),
        &mut device,
        vec![power(false, false), power(false, true)],
    );
    assert_eq!(result, Some(Err(SequenceError::TargetPowerUpFailed)));

    let mut run: SequenceRun<&str> = device.debug_port_start();
    for reply in [Reply::Done, Reply::Done, power(false, true), Reply::Done, Reply::TimedOut] {
        run = run.advance(&mut device, reply);
    }
    assert_eq!(run.next_op(), None);
    assert_eq!(run.into_result(), Some(Err(SequenceError::Timeout)));
}

#[test]
fn flash_mode_keeps_saci_until_it_is_over() {
    let mut device = device();
    let sequence = device.debug_flash_sequence();
    assert!(device.saci_flash_mode);
    let (ops, result) = drive(
        device.debug_port_start(),
        &mut device,
        vec![power(true, true), Reply::Word(IN_SACI)],
    );
    assert_eq!(ops.len(), 4);
    assert_eq!(result, Some(Ok(())));

    assert_eq!(sequence.finish_flash(&mut device.saci_flash_mode), vec![ProbeOp::Reinitialize]);
    assert!(!device.saci_flash_mode);
    let (ops, _) = drive(
        device.debug_port_start(),
        &mut device,
        vec![power(true, true), Reply::Word(IN_SACI), Reply::Word(AHB_AVAILABLE)],
    );
    assert_eq!(ops.len(), 10);
}

#[test]
fn released_sequence_ends_flash_mode() {
    let mut flag = false;
    let sequence = CC23xxCC27xxFlashSequence::new_with_flag(&mut flag);
    assert!(flag);
    assert!(!sequence.supports_sector_erase());
    sequence.release(&mut flag);
    assert!(!flag);
}

#[test]
fn core_start_leaves_boot_loop() {
    let mut device = device();
    let (ops, result) = drive(device.debug_core_start(), &mut device, vec![]);
    assert_eq!(ops, vec![ProbeOp::StartCore]);
    assert_eq!(result, Some(Ok(())));

    device.boot_loop = true;
    let (ops, result) = drive(device.debug_core_start(), &mut device, vec![]);
    assert_eq!(
        ops,
        vec![
            ProbeOp::HaltCore,
            ProbeOp::AwaitHalt,
            ProbeOp::WriteCoreRegister { register: 3, value: 0 },
            ProbeOp::StartCore,
        ]
    );
    assert_eq!(result, Some(Ok(())));
    assert!(!device.boot_loop);
}

#[test]
fn core_start_that_fails_keeps_boot_loop() {
    let mut device = device();
    device.boot_loop = true;
    let mut run: SequenceRun<&str> = device.debug_core_start();
    run = run.advance(&mut device, Reply::Done);
    run = run.advance(&mut device, Reply::Failed("lost"));
    assert_eq!(run.into_result(), Some(Err(SequenceError::Probe("lost"))));
    assert!(device.boot_loop);
}

#[test]
fn reset_halts_and_restores() {
    let mut device = device();
    let reset = [
        ProbeOp::ReadResetCatch,
        ProbeOp::ReadBreakpointControl,
        ProbeOp::RequestSystemReset,
        ProbeOp::Flush,
        ProbeOp::Sleep { millis: 10 },
        ProbeOp::Reinitialize,
        ProbeOp::StartCore,
    ];
    let (ops, result) =
        drive(device.reset_system(), &mut device, vec![Reply::Flag(true), Reply::Word(0x41)]);
    assert_eq!(ops[..7], reset);
    assert_eq!(
        ops[7..],
        [ProbeOp::HaltCore, ProbeOp::RestoreBreakpointControl { value: 0x41 }]
    );
    assert_eq!(result, Some(Ok(())));

    let (ops, result) =
        drive(device.reset_system(), &mut device, vec![Reply::Flag(false), Reply::Word(0x42)]);
    assert_eq!(ops[..7], reset);
    assert_eq!(ops[7..], [ProbeOp::RestoreBreakpointControl { value: 0x42 }]);
    assert_eq!(result, Some(Ok(())));
}

#[test]
fn reset_ignores_a_failed_flush_and_leaves_the_boot_loop() {
    let mut device = device();
    let mut run: SequenceRun<&str> = device.reset_system();
    let mut ops = Vec::new();
    while let Some(op) = run.next_op() {
        ops.push(op);
        let reply = match op {
            ProbeOp::ReadResetCatch => Reply::Flag(false),
            ProbeOp::ReadBreakpointControl => Reply::Word(1),
            ProbeOp::Flush => Reply::Failed("flush"),
            ProbeOp::Reinitialize => {
                device.boot_loop = true;
                Reply::Done
            }
            _ => Reply::Done,
        };
        run = run.advance(&mut device, reply);
    }
    assert_eq!(run.into_result(), Some(Ok(())));
    assert_eq!(ops.len(), 11);
    assert_eq!(ops[6], ProbeOp::HaltCore);
    assert!(!device.boot_loop);
}

#[test]
fn connect_resets_by_pin() {
    let mut device = device();
    let (ops, result) = drive(device.debug_port_connect(), &mut device, vec![]);
    assert_eq!(
        ops,
        vec![
            ProbeOp::AssertReset,
            ProbeOp::Sleep { millis: 5 },
            ProbeOp::ReleaseReset,
            ProbeOp::Sleep { millis: 60 },
            ProbeOp::Connect,
        ]
    );
    assert_eq!(result, Some(Ok(())));
}

#[test]
fn prepare_verify_enters_saci_only_when_left() {
    let mut device = device();
    let sequence = CC23xxCC27xxFlashSequence::new();
    let peek = ProbeOp::TryReadAp { ap: ApSel::CfgAp, address: 0x0C };
    let (ops, result) =
        drive(sequence.prepare_verify(), &mut device, vec![Reply::Word(IN_SACI)]);
    assert_eq!(ops, vec![peek]);
    assert_eq!(result, Some(Ok(())));

    let (ops, result) =
        drive(sequence.prepare_verify(), &mut device, vec![Reply::Failed("unreadable")]);
    assert_eq!(ops, vec![peek]);
    assert_eq!(result, Some(Ok(())));

    let (ops, result) =
        drive(sequence.prepare_verify(), &mut device, vec![Reply::Word(AHB_AVAILABLE)]);
    assert_eq!(
        ops,
        vec![
            peek,
            ProbeOp::Reinitialize,
            ProbeOp::Sleep { millis: 100 },
            ProbeOp::AwaitSaciMode { timeout_ms: 3000 },
        ]
    );
    assert_eq!(result, Some(Ok(())));
}

#[test]
fn exit_command_is_a_single_word() {
    let wait = ProbeOp::AwaitTxEmpty { timeout_ms: 100 };
    assert_eq!(
        CC23xxCC27xx::saci_command(0x15),
        vec![
            wait,
            ProbeOp::WriteAp { ap: ApSel::SecAp, address: 4, value: 2 },
            ProbeOp::WriteAp { ap: ApSel::SecAp, address: 0, value: 0x15 },
            wait,
        ]
    );
}
