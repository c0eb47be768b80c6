//! The debug sequences of CC23xx and CC27xx devices: connecting, starting the debug port and
//! the core, and resetting.

use vstd::prelude::*;

use super::error::SequenceError;
use super::flash_sequence::{
    enter_saci_ops, saci_send_words, send_ops, CC23xxCC27xxFlashSequence,
};
use super::registers::{ApSel, DeviceStatusRegister, DEVICE_STATUS};
use super::saci::DEBUG_EXIT_SACI_HALT;
use super::script::{ProbeOp, Reply, Script, ScriptState, Value};

verus! {

/// What follows when the core has been started.
#[derive(Debug, Clone, Copy, PartialEq, Eq, Structural)]
pub enum AfterStart {
    /// Nothing.
    Nothing,
    /// Halt the core, if that was asked for, and restore its breakpoint control.
    Restore { halt: bool, breakpoints: u32 },
}

/// A part of a debug sequence that is carried out without a decision.
#[derive(Debug, Clone, Copy, PartialEq, Eq, Structural)]
pub enum Phase {
    /// Clear errors of the debug port and see if it is powered.
    PowerStatus,
    /// Power the debug port up and see if it is powered.
    PowerUp,
    /// See if the device is in SACI mode.
    DeviceStatus,
    /// Leave SACI mode and see how the device boots.
    ExitSaci,
    /// Make the ROM leave its boot loop, which it does when R3 becomes zero.
    BootLoop { then: AfterStart },
    /// Start the core.
    CoreStart { then: AfterStart },
    /// See if the core is to halt after a reset.
    ResetCatch,
    /// See how breakpoints are enabled.
    Breakpoints { halt: bool },
    /// Reset the device and initialize the debug interface again.
    Reset { halt: bool, breakpoints: u32 },
    /// Halt the core, if that was asked for, and restore its breakpoint control.
    Restore { halt: bool, breakpoints: u32 },
    /// See if the device has left SACI mode.
    PrepareVerify,
    /// Bring the device into SACI mode.
    EnterSaci,
    /// Reset the device by nRESET and connect to its debug port.
    Connect,
}

/// Reads the device status.
pub open spec fn status_read() -> ProbeOp {
    ProbeOp::ReadAp { ap: ApSel::CfgAp, address: DEVICE_STATUS }
}

/// The operations of a phase.
pub open spec fn phase_ops(phase: Phase) -> Seq<ProbeOp> {
    match phase {
        Phase::PowerStatus => seq![
            ProbeOp::ClearDebugErrors,
            ProbeOp::SelectDefaultBank,
            ProbeOp::ReadPowerStatus,
        ],
        Phase::PowerUp => seq![
            ProbeOp::RequestPower { all_byte_lanes: false },
            ProbeOp::AwaitPower { timeout_ms: 1000 },
            ProbeOp::RequestPower { all_byte_lanes: true },
            ProbeOp::ReadPowerStatus,
        ],
        Phase::DeviceStatus => seq![status_read()],
        Phase::ExitSaci => send_ops(seq![DEBUG_EXIT_SACI_HALT], 100) + seq![
            ProbeOp::Sleep { millis: 30 },
            status_read(),
        ],
        Phase::BootLoop { .. } => seq![
            ProbeOp::HaltCore,
            ProbeOp::AwaitHalt,
            ProbeOp::WriteCoreRegister { register: 3, value: 0 },
        ],
        Phase::CoreStart { .. } => seq![ProbeOp::StartCore],
        Phase::ResetCatch => seq![ProbeOp::ReadResetCatch],
        Phase::Breakpoints { .. } => seq![ProbeOp::ReadBreakpointControl],
        Phase::Reset { .. } => seq![
            ProbeOp::RequestSystemReset,
            ProbeOp::Flush,
            ProbeOp::Sleep { millis: 10 },
            ProbeOp::Reinitialize,
        ],
        Phase::Restore { halt, breakpoints } => if halt {
            seq![
                ProbeOp::HaltCore,
                ProbeOp::RestoreBreakpointControl { value: breakpoints },
            ]
        } else {
            seq![ProbeOp::RestoreBreakpointControl { value: breakpoints }]
        },
        Phase::PrepareVerify => seq![
            ProbeOp::TryReadAp { ap: ApSel::CfgAp, address: DEVICE_STATUS },
        ],
        Phase::EnterSaci => enter_saci_ops(),
        Phase::Connect => seq![
            ProbeOp::AssertReset,
            ProbeOp::Sleep { millis: 5 },
            ProbeOp::ReleaseReset,
            ProbeOp::Sleep { millis: 60 },
            ProbeOp::Connect,
        ],
    }
}

/// What is known of a device between its sequences.
#[derive(Debug, PartialEq, Eq)]
pub struct CC23xxCC27xx {
    /// Chip name.
    pub name: String,
    /// Whether the ROM is in the boot loop.
    pub boot_loop: bool,
    /// Whether flash programming is in progress. Starting the debug port then leaves the
    /// SACI handler of the ROM active.
    pub saci_flash_mode: bool,
}

/// What follows a phase.
pub enum Follow<E> {
    /// Another phase.
    Go(Phase),
    /// The end of the sequence.
    End(Result<(), SequenceError<E>>),
}

/// The phase that starts the core: the boot loop is left first, if the ROM is in it.
pub open spec fn core_phase(boot_loop: bool, then: AfterStart) -> Phase {
    if boot_loop {
        Phase::BootLoop { then }
    } else {
        Phase::CoreStart { then }
    }
}

/// Whether both power-up acknowledgements were read.
pub open spec fn powered(value: Value) -> bool {
    value == (Value::Power { system: true, debug: true })
}

/// The device status that was read, if it was.
pub open spec fn status_in(value: Value) -> Option<DeviceStatusRegister> {
    match value {
        Value::Word(word) => Some(DeviceStatusRegister(word)),
        _ => None,
    }
}

/// What follows a phase whose last operation read `value`.
pub open spec fn follow<E>(phase: Phase, value: Value, device: CC23xxCC27xx) -> Follow<E> {
    match phase {
        Phase::PowerStatus => if powered(value) {
            Follow::Go(Phase::DeviceStatus)
        } else {
            Follow::Go(Phase::PowerUp)
        },
        Phase::PowerUp => if powered(value) {
            Follow::Go(Phase::DeviceStatus)
        } else {
            Follow::End(Err(SequenceError::TargetPowerUpFailed))
        },
        Phase::DeviceStatus => if status_in(value) matches Some(status)
            && !status.spec_ahb_ap_available() && !device.saci_flash_mode {
            Follow::Go(Phase::ExitSaci)
        } else {
            Follow::End(Ok(()))
        },
        Phase::BootLoop { then } => Follow::Go(Phase::CoreStart { then }),
        Phase::CoreStart { then: AfterStart::Restore { halt, breakpoints } } => Follow::Go(
            Phase::Restore { halt, breakpoints },
        ),
        Phase::ResetCatch => Follow::Go(Phase::Breakpoints { halt: value == Value::Flag(true) }),
        Phase::Breakpoints { halt } => match value {
            Value::Word(breakpoints) => Follow::Go(Phase::Reset { halt, breakpoints }),
            _ => Follow::Go(Phase::Reset { halt, breakpoints: 0 }),
        },
        Phase::Reset { halt, breakpoints } => Follow::Go(
            core_phase(device.boot_loop, AfterStart::Restore { halt, breakpoints }),
        ),
        Phase::PrepareVerify => if status_in(value) matches Some(status)
            && status.spec_ahb_ap_available() {
            Follow::Go(Phase::EnterSaci)
        } else {
            Follow::End(Ok(()))
        },
        _ => Follow::End(Ok(())),
    }
}

/// Whether the ROM is in the boot loop when a phase is over whose last operation read
/// `value`.
pub open spec fn boot_loop_after(phase: Phase, value: Value, boot_loop: bool) -> bool {
    match phase {
        Phase::ExitSaci => boot_loop || (status_in(value) matches Some(status)
            && status.spec_waits_for_debugger()),
        Phase::BootLoop { .. } => false,
        _ => boot_loop,
    }
}

/// How far a debug sequence has come.
#[verifier::ext_equal]
pub struct SequenceState<E> {
    /// The phase it is in.
    pub phase: Phase,
    /// The operations of that phase.
    pub script: ScriptState<E>,
    /// How the sequence ended, once it has.
    pub result: Option<Result<(), SequenceError<E>>>,
}

impl<E> SequenceState<E> {
    /// The state of a sequence at the start of a phase.
    pub open spec fn start(phase: Phase) -> Self {
        SequenceState { phase, script: ScriptState::start(phase_ops(phase)), result: None }
    }

    /// The state of a sequence that ended in a phase.
    pub open spec fn ended(phase: Phase, result: Result<(), SequenceError<E>>) -> Self {
        SequenceState { phase, script: ScriptState::start(Seq::empty()), result: Some(result) }
    }

    /// Whether a reply ends the phase without an error.
    pub open spec fn completes_phase(self, reply: Reply<E>) -> bool {
        let script = self.script.step(reply);
        self.result is None && script.remaining.len() == 0 && script.error is None
    }

    /// The state after a reply to the next operation.
    pub open spec fn step(self, device: CC23xxCC27xx, reply: Reply<E>) -> Self {
        let script = self.script.step(reply);
        if self.result is Some {
            self
        } else if script.remaining.len() > 0 {
            SequenceState { script, ..self }
        } else if script.error is Some {
            SequenceState::ended(self.phase, Err(script.error->0))
        } else {
            match follow::<E>(self.phase, script.value, device) {
                Follow::Go(phase) => SequenceState::start(phase),
                Follow::End(result) => SequenceState::ended(self.phase, result),
            }
        }
    }

    /// Whether the ROM is in the boot loop after a reply to the next operation.
    pub open spec fn boot_loop_after(self, boot_loop: bool, reply: Reply<E>) -> bool {
        if self.completes_phase(reply) {
            boot_loop_after(self.phase, self.script.step(reply).value, boot_loop)
        } else {
            boot_loop
        }
    }
}

fn ops_of_phase(phase: Phase) -> (ops: Vec<ProbeOp>)
    ensures
        ops@ == phase_ops(phase),
{
    let mut ops: Vec<ProbeOp> = Vec::new();
    match phase {
        Phase::PowerStatus => {
            ops.push(ProbeOp::ClearDebugErrors);
            ops.push(ProbeOp::SelectDefaultBank);
            ops.push(ProbeOp::ReadPowerStatus);
        },
        Phase::PowerUp => {
            ops.push(ProbeOp::RequestPower { all_byte_lanes: false });
            ops.push(ProbeOp::AwaitPower { timeout_ms: 1000 });
            ops.push(ProbeOp::RequestPower { all_byte_lanes: true });
            ops.push(ProbeOp::ReadPowerStatus);
        },
        Phase::DeviceStatus => {
            ops.push(ProbeOp::ReadAp { ap: ApSel::CfgAp, address: DEVICE_STATUS });
        },
        Phase::ExitSaci => {
            ops = CC23xxCC27xx::saci_command(DEBUG_EXIT_SACI_HALT);
            ops.push(ProbeOp::Sleep { millis: 30 });
            ops.push(ProbeOp::ReadAp { ap: ApSel::CfgAp, address: DEVICE_STATUS });
        },
        Phase::BootLoop { .. } => {
            ops.push(ProbeOp::HaltCore);
            ops.push(ProbeOp::AwaitHalt);
            ops.push(ProbeOp::WriteCoreRegister { register: 3, value: 0 });
        },
        Phase::CoreStart { .. } => {
            ops.push(ProbeOp::StartCore);
        },
        Phase::ResetCatch => {
            ops.push(ProbeOp::ReadResetCatch);
        },
        Phase::Breakpoints { .. } => {
            ops.push(ProbeOp::ReadBreakpointControl);
        },
        Phase::Reset { .. } => {
            ops.push(ProbeOp::RequestSystemReset);
            ops.push(ProbeOp::Flush);
            ops.push(ProbeOp::Sleep { millis: 10 });
            ops.push(ProbeOp::Reinitialize);
        },
        Phase::Restore { halt, breakpoints } => {
            if halt {
                ops.push(ProbeOp::HaltCore);
            }
            ops.push(ProbeOp::RestoreBreakpointControl { value: breakpoints });
        },
        Phase::PrepareVerify => {
            ops.push(ProbeOp::TryReadAp { ap: ApSel::CfgAp, address: DEVICE_STATUS });
        },
        Phase::EnterSaci => {
            ops = CC23xxCC27xxFlashSequence::new().reset_into_saci_mode();
        },
        Phase::Connect => {
            ops.push(ProbeOp::AssertReset);
            ops.push(ProbeOp::Sleep { millis: 5 });
            ops.push(ProbeOp::ReleaseReset);
            ops.push(ProbeOp::Sleep { millis: 60 });
            ops.push(ProbeOp::Connect);
        },
    }
    assert(ops@ =~= phase_ops(phase));
    ops
}

/// A debug sequence that is being carried out.
pub struct SequenceRun<E> {
    phase: Phase,
    script: Script<E>,
    result: Option<Result<(), SequenceError<E>>>,
}

impl<E> View for SequenceRun<E> {
    type V = SequenceState<E>;

    closed spec fn view(&self) -> SequenceState<E> {
        SequenceState { phase: self.phase, script: self.script@, result: self.result }
    }
}

impl<E> SequenceRun<E> {
    pub(crate) fn start(phase: Phase) -> (run: Self)
        ensures
            run@ == SequenceState::<E>::start(phase),
    {
        SequenceRun { phase, script: Script::start(ops_of_phase(phase)), result: None }
    }

    /// Returns the next operation, or `None` when the sequence has ended.
    pub fn next_op(&self) -> (op: Option<ProbeOp>)
        ensures
            op == if self@.result is Some || self@.script.remaining.len() == 0 {
                None
            } else {
                Some(self@.script.remaining[0])
            },
    {
        if self.result.is_some() {
            None
        } else {
            self.script.next_op()
        }
    }

    fn end(phase: Phase, result: Result<(), SequenceError<E>>) -> (run: Self)
        ensures
            run@ == SequenceState::<E>::ended(phase, result),
    {
        SequenceRun { phase, script: Script::start(Vec::new()), result: Some(result) }
    }

    /// Takes the reply to the next operation.
    ///
    /// When that was the last operation of a phase, what is known of the device decides,
    /// together with what was read, what follows.
    pub fn advance(self, device: &mut CC23xxCC27xx, reply: Reply<E>) -> (run: Self)
        ensures
            run@ == self@.step(*old(device), reply),
            final(device).boot_loop == self@.boot_loop_after(old(device).boot_loop, reply),
            final(device).name == old(device).name,
            final(device).saci_flash_mode == old(device).saci_flash_mode,
    {
        if self.result.is_some() {
            return self;
        }
        let phase = self.phase;
        let mut script = self.script;
        script.advance(reply);
        if script.next_op().is_some() {
            return SequenceRun { phase, script, result: None };
        }
        match script.into_outcome() {
            Some(Ok(value)) => SequenceRun::after_phase(phase, value, device),
            Some(Err(e)) => SequenceRun::end(phase, Err(e)),
            None => SequenceRun::end(phase, Ok(())),
        }
    }

    fn after_phase(phase: Phase, value: Value, device: &mut CC23xxCC27xx) -> (run: Self)
        ensures
            run@ == match follow::<E>(phase, value, *old(device)) {
                Follow::Go(next) => SequenceState::start(next),
                Follow::End(result) => SequenceState::ended(phase, result),
            },
            final(device).boot_loop == boot_loop_after(phase, value, old(device).boot_loop),
            final(device).name == old(device).name,
            final(device).saci_flash_mode == old(device).saci_flash_mode,
    {
        let powered = matches!(value, Value::Power { system: true, debug: true });
        match phase {
            Phase::PowerStatus => {
                if powered {
                    SequenceRun::start(Phase::DeviceStatus)
                } else {
                    SequenceRun::start(Phase::PowerUp)
                }
            },
            Phase::PowerUp => {
                if powered {
                    SequenceRun::start(Phase::DeviceStatus)
                } else {
                    SequenceRun::end(phase, Err(SequenceError::TargetPowerUpFailed))
                }
            },
            Phase::DeviceStatus => {
                let in_saci_mode = match value {
                    Value::Word(word) => !DeviceStatusRegister(word).ahb_ap_available(),
                    _ => false,
                };
                if in_saci_mode && !device.saci_flash_mode {
                    SequenceRun::start(Phase::ExitSaci)
                } else {
                    SequenceRun::end(phase, Ok(()))
                }
            },
            Phase::ExitSaci => {
                if let Value::Word(word) = value {
                    if DeviceStatusRegister(word).waits_for_debugger() {
                        device.boot_loop = true;
                    }
                }
                SequenceRun::end(phase, Ok(()))
            },
            Phase::BootLoop { then } => {
                device.boot_loop = false;
                SequenceRun::start(Phase::CoreStart { then })
            },
            Phase::CoreStart { then } => {
                match then {
                    AfterStart::Nothing => SequenceRun::end(phase, Ok(())),
                    AfterStart::Restore { halt, breakpoints } => {
                        SequenceRun::start(Phase::Restore { halt, breakpoints })
                    },
                }
            },
            Phase::ResetCatch => {
                let halt = matches!(value, Value::Flag(true));
                SequenceRun::start(Phase::Breakpoints { halt })
            },
            Phase::Breakpoints { halt } => {
                let breakpoints: u32 = match value {
                    Value::Word(word) => word,
                    _ => 0,
                };
                SequenceRun::start(Phase::Reset { halt, breakpoints })
            },
            Phase::Reset { halt, breakpoints } => {
                let then = AfterStart::Restore { halt, breakpoints };
                SequenceRun::start(device.core_start_phase(then))
            },
            Phase::PrepareVerify => {
                let has_left_saci = match value {
                    Value::Word(word) => DeviceStatusRegister(word).ahb_ap_available(),
                    _ => false,
                };
                if has_left_saci {
                    SequenceRun::start(Phase::EnterSaci)
                } else {
                    SequenceRun::end(phase, Ok(()))
                }
            },
            Phase::Restore { .. } | Phase::EnterSaci | Phase::Connect => SequenceRun::end(
                phase,
                Ok(()),
            ),
        }
    }

    /// Returns how the sequence ended, or `None` when it has not.
    pub fn into_result(self) -> (result: Option<Result<(), SequenceError<E>>>)
        ensures
            result == self@.result,
    {
        self.result
    }
}

impl CC23xxCC27xx {
    /// Creates what is known of a device before its first sequence.
    pub fn create(name: String) -> (device: Self)
        ensures
            device.name == name,
            !device.boot_loop,
            !device.saci_flash_mode,
    {
        CC23xxCC27xx { name, boot_loop: false, saci_flash_mode: false }
    }

    /// Checks if the ROM is in the boot loop.
    ///
    /// There the ROM waits for a debugger to attach and write to R3.
    pub fn is_in_boot_loop(&self) -> (in_boot_loop: bool)
        ensures
            in_boot_loop == self.boot_loop,
    {
        self.boot_loop
    }

    fn core_start_phase(&self, then: AfterStart) -> (phase: Phase)
        ensures
            phase == core_phase(self.boot_loop, then),
    {
        if self.is_in_boot_loop() {
            Phase::BootLoop { then }
        } else {
            Phase::CoreStart { then }
        }
    }

    /// Resets the device and prepares its core for debugging again.
    pub fn reset_system<E>(&self) -> (run: SequenceRun<E>)
        ensures
            run@ == SequenceState::<E>::start(Phase::ResetCatch),
    {
        SequenceRun::start(Phase::ResetCatch)
    }

    /// Starts the debug port: powers it up and leaves SACI mode, unless flash programming is
    /// in progress.
    pub fn debug_port_start<E>(&self) -> (run: SequenceRun<E>)
        ensures
            run@ == SequenceState::<E>::start(Phase::PowerStatus),
    {
        SequenceRun::start(Phase::PowerStatus)
    }

    /// Starts the core; makes the ROM leave its boot loop first, if it is in it.
    pub fn debug_core_start<E>(&self) -> (run: SequenceRun<E>)
        ensures
            run@ == SequenceState::<E>::start(core_phase(self.boot_loop, AfterStart::Nothing)),
    {
        SequenceRun::start(self.core_start_phase(AfterStart::Nothing))
    }

    /// Connects to the debug port after a reset by nRESET, so that the device always starts
    /// from a known state, with the SACI handler of the ROM active.
    pub fn debug_port_connect<E>(&self) -> (run: SequenceRun<E>)
        ensures
            run@ == SequenceState::<E>::start(Phase::Connect),
    {
        SequenceRun::start(Phase::Connect)
    }

    /// Creates the flash sequence of the device, which sets it to flash programming.
    pub fn debug_flash_sequence(&mut self) -> (sequence: CC23xxCC27xxFlashSequence)
        ensures
            final(self).saci_flash_mode,
            final(self).name == old(self).name,
            final(self).boot_loop == old(self).boot_loop,
    {
        CC23xxCC27xxFlashSequence::new_with_flag(&mut self.saci_flash_mode)
    }

    /// Sends a single-word SACI command.
    pub fn saci_command(command: u32) -> (ops: Vec<ProbeOp>)
        ensures
            ops@ == send_ops(seq![command], 100),
    {
        let words: [u32; 1] = [command];
        assert(words@ =~= seq![command]);
        saci_send_words(&words, 100)
    }
}

impl CC23xxCC27xxFlashSequence {
    /// Prepares the device for verifying: brings it into SACI mode, if it has left it.
    pub fn prepare_verify<E>(&self) -> (run: SequenceRun<E>)
        ensures
            run@ == SequenceState::<E>::start(Phase::PrepareVerify),
    {
        SequenceRun::start(Phase::PrepareVerify)
    }
}

} // verus!
