//! What the debug sequences do to the device, operation by operation, whatever it answers.

use vstd::prelude::*;

use super::command_laws::{byte_of, law_register_fields, law_reply_effect, law_send_protocol};
use super::debug_sequence::{
    core_phase, phase_ops, AfterStart, CC23xxCC27xx, Phase, SequenceState,
};
use super::error::SequenceError;
use super::flash_sequence::send_ops;
use super::registers::ApSel;
use super::script::{ProbeOp, Reply};

verus! {

/// A debug sequence that is being carried out on a device, with all that was done so far.
#[verifier::ext_equal]
pub struct Carried<E> {
    /// The operations that were done.
    pub done: Seq<ProbeOp>,
    /// How far the sequence has come.
    pub state: SequenceState<E>,
    /// What is known of the device.
    pub device: CC23xxCC27xx,
}

impl<E> Carried<E> {
    /// A sequence that starts with this phase, before its first operation.
    pub open spec fn begin(phase: Phase, device: CC23xxCC27xx) -> Self {
        Carried { done: Seq::empty(), state: SequenceState::start(phase), device }
    }

    /// The sequence when its next operation was done and answered.
    #[verifier::opaque]
    pub open spec fn replied(self, reply: Reply<E>) -> Self {
        if self.state.result is Some || self.state.script.remaining.len() == 0 {
            self
        } else {
            Carried {
                done: self.done.push(self.state.script.remaining[0]),
                state: self.state.step(self.device, reply),
                device: CC23xxCC27xx {
                    boot_loop: self.state.boot_loop_after(self.device.boot_loop, reply),
                    ..self.device
                },
            }
        }
    }

    /// The sequence when the driver has found out anew whether the ROM is in the boot loop,
    /// as it does while it initializes the debug interface.
    pub open spec fn found(self, boot_loop: bool) -> Self {
        Carried { device: CC23xxCC27xx { boot_loop, ..self.device }, ..self }
    }

    /// Whether the sequence has ended with success.
    pub open spec fn succeeded(self) -> bool {
        self.state.result == Some(Ok::<(), SequenceError<E>>(()))
    }
}

/// Whether the next operation is the last of its part of the sequence, and is this one.
pub open spec fn next_is<E>(run: Carried<E>, op: ProbeOp) -> bool {
    &&& run.state.result is None
    &&& run.state.script.remaining == seq![op]
}

/// Starting the debug port: errors are cleared, and if the port is not powered, it is powered
/// up, which fails if it is not powered after that. The device status is read; a device that
/// is in SACI mode is told to leave it, unless flash programming is in progress, and the
/// status is read again. From then on the ROM is in the boot loop if it was before or if the
/// second byte of that status is one of those in which the device waits for a debugger.
pub proof fn law_port_start<E>(
    device: CC23xxCC27xx,
    system: bool,
    debug: bool,
    system_later: bool,
    debug_later: bool,
    status: u32,
    status_later: u32,
)
    ensures
        ({
            let asked = Carried::<E>::begin(Phase::PowerStatus, device).replied(
                Reply::Done,
            ).replied(Reply::Done).replied(Reply::Power { system, debug });
            let powered = if system && debug {
                asked
            } else {
                asked.replied(Reply::Done).replied(Reply::Done).replied(Reply::Done).replied(
                    Reply::Power { system: system_later, debug: debug_later },
                )
            };
            let told = powered.replied(Reply::Word(status));
            let left = told.replied(Reply::Done).replied(Reply::Done).replied(Reply::Done).replied(
                Reply::Done,
            ).replied(Reply::Done).replied(Reply::Word(status_later));
            let asking = seq![
                ProbeOp::ClearDebugErrors,
                ProbeOp::SelectDefaultBank,
                ProbeOp::ReadPowerStatus,
            ];
            let powering = seq![
                ProbeOp::RequestPower { all_byte_lanes: false },
                ProbeOp::AwaitPower { timeout_ms: 1000 },
                ProbeOp::RequestPower { all_byte_lanes: true },
                ProbeOp::ReadPowerStatus,
            ];
            let read = ProbeOp::ReadAp { ap: ApSel::CfgAp, address: 0x0C };
            let leaving = seq![
                ProbeOp::AwaitTxEmpty { timeout_ms: 100 },
                ProbeOp::WriteAp { ap: ApSel::SecAp, address: 4, value: 2 },
                ProbeOp::WriteAp { ap: ApSel::SecAp, address: 0, value: 7 },
                ProbeOp::AwaitTxEmpty { timeout_ms: 100 },
                ProbeOp::Sleep { millis: 30 },
                read,
            ];
            let before = if system && debug {
                asking
            } else {
                asking + powering
            };
            &&& powered.done == before
            &&& powered.device == device
            &&& if !(system && debug) && !(system_later && debug_later) {
                powered.state.result == Some(
                    Err::<(), SequenceError<E>>(SequenceError::TargetPowerUpFailed),
                )
            } else {
                &&& next_is(powered, read)
                &&& told.done == before.push(read)
                &&& told.device == device
                &&& if byte_of(status, 3) % 2 == 1 || device.saci_flash_mode {
                    told.succeeded()
                } else {
                    let code = byte_of(status_later, 1);
                    &&& told.state.result is None
                    &&& left.done == before.push(read) + leaving
                    &&& left.succeeded()
                    &&& left.device.boot_loop <==> device.boot_loop || code == 0x38 || code == 0x81
                        || code == 0xC1
                    &&& left.device.name == device.name
                    &&& left.device.saci_flash_mode == device.saci_flash_mode
                }
            }
        }),
{
    lemma_port_powers_up::<E>(device, system, debug, system_later, debug_later);
    let asked = Carried::<E>::begin(Phase::PowerStatus, device).replied(Reply::Done).replied(
        Reply::Done,
    ).replied(Reply::Power { system, debug });
    let powered = if system && debug {
        asked
    } else {
        asked.replied(Reply::Done).replied(Reply::Done).replied(Reply::Done).replied(
            Reply::Power { system: system_later, debug: debug_later },
        )
    };
    if (system && debug) || (system_later && debug_later) {
        lemma_status_decides(powered, status, status_later);
    }
}

/// What starting the debug port does until the port is powered.
proof fn lemma_port_powers_up<E>(
    device: CC23xxCC27xx,
    system: bool,
    debug: bool,
    system_later: bool,
    debug_later: bool,
)
    ensures
        ({
            let asked = Carried::<E>::begin(Phase::PowerStatus, device).replied(
                Reply::Done,
            ).replied(Reply::Done).replied(Reply::Power { system, debug });
            let powered = if system && debug {
                asked
            } else {
                asked.replied(Reply::Done).replied(Reply::Done).replied(Reply::Done).replied(
                    Reply::Power { system: system_later, debug: debug_later },
                )
            };
            let asking = seq![
                ProbeOp::ClearDebugErrors,
                ProbeOp::SelectDefaultBank,
                ProbeOp::ReadPowerStatus,
            ];
            let powering = seq![
                ProbeOp::RequestPower { all_byte_lanes: false },
                ProbeOp::AwaitPower { timeout_ms: 1000 },
                ProbeOp::RequestPower { all_byte_lanes: true },
                ProbeOp::ReadPowerStatus,
            ];
            &&& powered.done == if system && debug {
                asking
            } else {
                asking + powering
            }
            &&& powered.device == device
            &&& if !(system && debug) && !(system_later && debug_later) {
                powered.state.result == Some(
                    Err::<(), SequenceError<E>>(SequenceError::TargetPowerUpFailed),
                )
            } else {
                powered.state == SequenceState::<E>::start(Phase::DeviceStatus)
            }
        }),
{
    reveal(Carried::replied);
    let asking = seq![
        ProbeOp::ClearDebugErrors,
        ProbeOp::SelectDefaultBank,
        ProbeOp::ReadPowerStatus,
    ];
    let r1 = Carried::<E>::begin(Phase::PowerStatus, device).replied(Reply::Done);
    assert(r1.state.script.remaining =~= seq![
        ProbeOp::SelectDefaultBank,
        ProbeOp::ReadPowerStatus,
    ]);
    let r2 = r1.replied(Reply::Done);
    assert(r2.state.script.remaining =~= seq![ProbeOp::ReadPowerStatus]);
    let asked = r2.replied(Reply::Power { system, debug });
    assert(asked.done =~= asking);
    if !(system && debug) {
        let p1 = asked.replied(Reply::Done);
        assert(p1.state.script.remaining =~= seq![
            ProbeOp::AwaitPower { timeout_ms: 1000 },
            ProbeOp::RequestPower { all_byte_lanes: true },
            ProbeOp::ReadPowerStatus,
        ]);
        let p2 = p1.replied(Reply::Done);
        assert(p2.state.script.remaining =~= seq![
            ProbeOp::RequestPower { all_byte_lanes: true },
            ProbeOp::ReadPowerStatus,
        ]);
        let p3 = p2.replied(Reply::Done);
        assert(p3.state.script.remaining =~= seq![ProbeOp::ReadPowerStatus]);
        let p4 = p3.replied(Reply::Power { system: system_later, debug: debug_later });
        assert(p4.done =~= asking + seq![
            ProbeOp::RequestPower { all_byte_lanes: false },
            ProbeOp::AwaitPower { timeout_ms: 1000 },
            ProbeOp::RequestPower { all_byte_lanes: true },
            ProbeOp::ReadPowerStatus,
        ]);
    }
}

/// What starting the debug port does once the port is powered.
proof fn lemma_status_decides<E>(powered: Carried<E>, status: u32, status_later: u32)
    requires
        powered.state == SequenceState::<E>::start(Phase::DeviceStatus),
    ensures
        ({
            let told = powered.replied(Reply::Word(status));
            let left = told.replied(Reply::Done).replied(Reply::Done).replied(Reply::Done).replied(
                Reply::Done,
            ).replied(Reply::Done).replied(Reply::Word(status_later));
            let read = ProbeOp::ReadAp { ap: ApSel::CfgAp, address: 0x0C };
            let leaving = seq![
                ProbeOp::AwaitTxEmpty { timeout_ms: 100 },
                ProbeOp::WriteAp { ap: ApSel::SecAp, address: 4, value: 2 },
                ProbeOp::WriteAp { ap: ApSel::SecAp, address: 0, value: 7 },
                ProbeOp::AwaitTxEmpty { timeout_ms: 100 },
                ProbeOp::Sleep { millis: 30 },
                read,
            ];
            let code = byte_of(status_later, 1);
            &&& next_is(powered, read)
            &&& told.done == powered.done.push(read)
            &&& told.device == powered.device
            &&& if byte_of(status, 3) % 2 == 1 || powered.device.saci_flash_mode {
                told.succeeded()
            } else {
                &&& told.state.result is None
                &&& left.done == told.done + leaving
                &&& left.succeeded()
                &&& left.device.boot_loop <==> powered.device.boot_loop || code == 0x38 || code
                    == 0x81 || code == 0xC1
                &&& left.device.name == powered.device.name
                &&& left.device.saci_flash_mode == powered.device.saci_flash_mode
            }
        }),
{
    reveal(Carried::replied);
    law_register_fields(status);
    law_register_fields(status_later);
    let read = ProbeOp::ReadAp { ap: ApSel::CfgAp, address: 0x0C };
    assert(powered.state.script.remaining =~= seq![read]);
    let told = powered.replied(Reply::Word(status));
    if !(byte_of(status, 3) % 2 == 1 || powered.device.saci_flash_mode) {
        let wait = ProbeOp::AwaitTxEmpty { timeout_ms: 100 };
        let mark = ProbeOp::WriteAp { ap: ApSel::SecAp, address: 4, value: 2 };
        let word = ProbeOp::WriteAp { ap: ApSel::SecAp, address: 0, value: 7 };
        let pause = ProbeOp::Sleep { millis: 30 };
        law_send_protocol(seq![7u32], 100);
        let send = send_ops(seq![7u32], 100);
        assert(told.state == SequenceState::<E>::start(Phase::ExitSaci));
        assert(send =~= seq![wait, mark, word, wait]);
        assert(told.state.script.remaining =~= seq![wait, mark, word, wait, pause, read]);
        let l1 = told.replied(Reply::Done);
        assert(l1.state.script.remaining =~= seq![mark, word, wait, pause, read]);
        let l2 = l1.replied(Reply::Done);
        assert(l2.state.script.remaining =~= seq![word, wait, pause, read]);
        let l3 = l2.replied(Reply::Done);
        assert(l3.state.script.remaining =~= seq![wait, pause, read]);
        let l4 = l3.replied(Reply::Done);
        assert(l4.state.script.remaining =~= seq![pause, read]);
        let l5 = l4.replied(Reply::Done);
        assert(l5.state.script.remaining =~= seq![read]);
        let left = l5.replied(Reply::Word(status_later));
        assert(left.done =~= told.done + seq![wait, mark, word, wait, pause, read]);
    }
}

/// Starting the core: if the ROM is in the boot loop, the core is halted and zero is written
/// to R3, and with that the ROM has left the loop. In any case the core is started.
pub proof fn law_core_start<E>(device: CC23xxCC27xx)
    ensures
        ({
            let begun = Carried::<E>::begin(
                core_phase(device.boot_loop, AfterStart::Nothing),
                device,
            );
            if device.boot_loop {
                let halted = begun.replied(Reply::Done).replied(Reply::Done);
                let left = halted.replied(Reply::Done);
                let started = left.replied(Reply::Done);
                &&& halted.device.boot_loop
                &&& !left.device.boot_loop
                &&& left.state.result is None
                &&& started.done == seq![
                    ProbeOp::HaltCore,
                    ProbeOp::AwaitHalt,
                    ProbeOp::WriteCoreRegister { register: 3, value: 0 },
                    ProbeOp::StartCore,
                ]
                &&& started.succeeded()
                &&& !started.device.boot_loop
            } else {
                let started = begun.replied(Reply::Done);
                &&& started.done == seq![ProbeOp::StartCore]
                &&& started.succeeded()
                &&& started.device == device
            }
        }),
{
    let begun = Carried::<E>::begin(core_phase(device.boot_loop, AfterStart::Nothing), device);
    lemma_core_start(begun, AfterStart::Nothing);
    let started = if device.boot_loop {
        begun.replied(Reply::Done).replied(Reply::Done).replied(Reply::Done).replied(Reply::Done)
    } else {
        begun.replied(Reply::Done)
    };
    if device.boot_loop {
        assert(started.done =~= seq![
            ProbeOp::HaltCore,
            ProbeOp::AwaitHalt,
            ProbeOp::WriteCoreRegister { register: 3, value: 0 },
            ProbeOp::StartCore,
        ]);
    } else {
        assert(started.done =~= seq![ProbeOp::StartCore]);
    }
}

/// What starting the core does, whatever follows.
proof fn lemma_core_start<E>(begun: Carried<E>, follows: AfterStart)
    requires
        begun.state == SequenceState::<E>::start(core_phase(begun.device.boot_loop, follows)),
    ensures
        ({
            let halted = begun.replied(Reply::Done).replied(Reply::Done);
            let left = if begun.device.boot_loop {
                halted.replied(Reply::Done)
            } else {
                begun
            };
            let loop_ops = seq![
                ProbeOp::HaltCore,
                ProbeOp::AwaitHalt,
                ProbeOp::WriteCoreRegister { register: 3, value: 0 },
            ];
            let started = left.replied(Reply::Done);
            &&& begun.device.boot_loop ==> halted.device.boot_loop
            &&& left.done == if begun.device.boot_loop {
                begun.done + loop_ops
            } else {
                begun.done
            }
            &&& left.device == (CC23xxCC27xx { boot_loop: false, ..begun.device })
            &&& left.state == SequenceState::<E>::start(Phase::CoreStart { then: follows })
            &&& started.done == left.done.push(ProbeOp::StartCore)
            &&& started.device == left.device
            &&& match follows {
                AfterStart::Nothing => started.succeeded(),
                AfterStart::Restore { halt, breakpoints } => started.state == SequenceState::<
                    E,
                >::start(Phase::Restore { halt, breakpoints }),
            }
        }),
{
    reveal(Carried::replied);
    let write = ProbeOp::WriteCoreRegister { register: 3, value: 0 };
    let r1 = begun.replied(Reply::Done);
    let r2 = r1.replied(Reply::Done);
    let r3 = r2.replied(Reply::Done);
    if begun.device.boot_loop {
        assert(r1.state.script.remaining =~= seq![ProbeOp::AwaitHalt, write]);
        assert(r2.state.script.remaining =~= seq![write]);
        assert(r3.done =~= begun.done + seq![ProbeOp::HaltCore, ProbeOp::AwaitHalt, write]);
    }
    let left = if begun.device.boot_loop {
        r3
    } else {
        begun
    };
    assert(left.state == SequenceState::<E>::start(Phase::CoreStart { then: follows }));
    assert(left.state.script.remaining =~= seq![ProbeOp::StartCore]);
}

/// Resetting the device: it is read whether the core is to halt and how breakpoints are
/// enabled, a reset is requested, and the debug interface is initialized again, which finds
/// out whether the ROM is in the boot loop. If it is, zero is written to R3 before the core is
/// started, whether the core is to halt or not. Then the core is halted, if it is to be, and
/// breakpoints are enabled as they were. A flush that fails does not matter.
pub proof fn law_reset<E>(
    device: CC23xxCC27xx,
    halt: bool,
    breakpoints: u32,
    flush: Reply<E>,
    boot_loop: bool,
)
    requires
        flush is Done || flush is Failed,
    ensures
        ({
            let prepared = Carried::<E>::begin(Phase::ResetCatch, device).replied(
                Reply::Flag(halt),
            ).replied(Reply::Word(breakpoints)).replied(Reply::Done).replied(flush).replied(
                Reply::Done,
            );
            let again = prepared.found(boot_loop).replied(Reply::Done);
            let left = if boot_loop {
                again.replied(Reply::Done).replied(Reply::Done).replied(Reply::Done)
            } else {
                again
            };
            let started = left.replied(Reply::Done);
            let restored = if halt {
                started.replied(Reply::Done).replied(Reply::Done)
            } else {
                started.replied(Reply::Done)
            };
            let resetting = seq![
                ProbeOp::ReadResetCatch,
                ProbeOp::ReadBreakpointControl,
                ProbeOp::RequestSystemReset,
                ProbeOp::Flush,
                ProbeOp::Sleep { millis: 10 },
            ];
            let leaving = if boot_loop {
                seq![
                    ProbeOp::HaltCore,
                    ProbeOp::AwaitHalt,
                    ProbeOp::WriteCoreRegister { register: 3, value: 0 },
                ]
            } else {
                Seq::empty()
            };
            let restoring = if halt {
                seq![
                    ProbeOp::HaltCore,
                    ProbeOp::RestoreBreakpointControl { value: breakpoints },
                ]
            } else {
                seq![ProbeOp::RestoreBreakpointControl { value: breakpoints }]
            };
            &&& prepared.done == resetting
            &&& prepared.device == device
            &&& next_is(prepared, ProbeOp::Reinitialize)
            &&& again.device.boot_loop == boot_loop
            &&& restored.done == resetting + seq![ProbeOp::Reinitialize] + leaving + seq![
                ProbeOp::StartCore,
            ] + restoring
            &&& restored.succeeded()
            &&& !restored.device.boot_loop
        }),
{
    lemma_reset_prepares(device, halt, breakpoints, flush, boot_loop);
    let prepared = Carried::<E>::begin(Phase::ResetCatch, device).replied(
        Reply::Flag(halt),
    ).replied(Reply::Word(breakpoints)).replied(Reply::Done).replied(flush).replied(Reply::Done);
    let again = prepared.found(boot_loop).replied(Reply::Done);
    lemma_core_start(again, AfterStart::Restore { halt, breakpoints });
    let left = if boot_loop {
        again.replied(Reply::Done).replied(Reply::Done).replied(Reply::Done)
    } else {
        again
    };
    lemma_restore(left.replied(Reply::Done), halt, breakpoints);
    if !boot_loop {
        assert(again.done + Seq::<ProbeOp>::empty() =~= again.done);
    }
}

/// What a reset does up to the new initialization of the debug interface.
proof fn lemma_reset_prepares<E>(
    device: CC23xxCC27xx,
    halt: bool,
    breakpoints: u32,
    flush: Reply<E>,
    boot_loop: bool,
)
    requires
        flush is Done || flush is Failed,
    ensures
        ({
            let prepared = Carried::<E>::begin(Phase::ResetCatch, device).replied(
                Reply::Flag(halt),
            ).replied(Reply::Word(breakpoints)).replied(Reply::Done).replied(flush).replied(
                Reply::Done,
            );
            let again = prepared.found(boot_loop).replied(Reply::Done);
            &&& prepared.done == seq![
                ProbeOp::ReadResetCatch,
                ProbeOp::ReadBreakpointControl,
                ProbeOp::RequestSystemReset,
                ProbeOp::Flush,
                ProbeOp::Sleep { millis: 10 },
            ]
            &&& prepared.device == device
            &&& next_is(prepared, ProbeOp::Reinitialize)
            &&& again.done == prepared.done + seq![ProbeOp::Reinitialize]
            &&& again.device.boot_loop == boot_loop
            &&& again.state == SequenceState::<E>::start(
                core_phase(boot_loop, AfterStart::Restore { halt, breakpoints }),
            )
        }),
{
    reveal(Carried::replied);
    let begun = Carried::<E>::begin(Phase::ResetCatch, device);
    assert(begun.state.script.remaining =~= seq![ProbeOp::ReadResetCatch]);
    let r1 = begun.replied(Reply::Flag(halt));
    assert(r1.state == SequenceState::<E>::start(Phase::Breakpoints { halt }));
    let r2 = r1.replied(Reply::Word(breakpoints));
    assert(r2.state == SequenceState::<E>::start(Phase::Reset { halt, breakpoints }));
    let pause = ProbeOp::Sleep { millis: 10 };
    let r3 = r2.replied(Reply::Done);
    assert(r3.state.script.remaining =~= seq![ProbeOp::Flush, pause, ProbeOp::Reinitialize]);
    let r4 = r3.replied(flush);
    assert(r4.state.script.remaining =~= seq![pause, ProbeOp::Reinitialize]);
    let prepared = r4.replied(Reply::Done);
    assert(prepared.state.script.remaining =~= seq![ProbeOp::Reinitialize]);
    assert(prepared.done =~= seq![
        ProbeOp::ReadResetCatch,
        ProbeOp::ReadBreakpointControl,
        ProbeOp::RequestSystemReset,
        ProbeOp::Flush,
        pause,
    ]);
    let again = prepared.found(boot_loop).replied(Reply::Done);
    assert(again.done =~= prepared.done + seq![ProbeOp::Reinitialize]);
}

/// What a reset does when the core has been started.
proof fn lemma_restore<E>(started: Carried<E>, halt: bool, breakpoints: u32)
    requires
        started.state == SequenceState::<E>::start(Phase::Restore { halt, breakpoints }),
    ensures
        ({
            let restored = if halt {
                started.replied(Reply::Done).replied(Reply::Done)
            } else {
                started.replied(Reply::Done)
            };
            let restore = ProbeOp::RestoreBreakpointControl { value: breakpoints };
            &&& restored.done == started.done + if halt {
                seq![ProbeOp::HaltCore, restore]
            } else {
                seq![restore]
            }
            &&& restored.succeeded()
            &&& restored.device == started.device
        }),
{
    reveal(Carried::replied);
    let restore = ProbeOp::RestoreBreakpointControl { value: breakpoints };
    let once = started.replied(Reply::Done);
    if halt {
        assert(started.state.script.remaining =~= seq![ProbeOp::HaltCore, restore]);
        assert(once.state.script.remaining =~= seq![restore]);
        assert(once.replied(Reply::Done).done =~= started.done + seq![ProbeOp::HaltCore, restore]);
    } else {
        assert(started.state.script.remaining =~= seq![restore]);
        assert(once.done =~= started.done + seq![restore]);
    }
}

/// Connecting resets the device by nRESET, gives it time, and runs the default connect
/// sequence.
pub proof fn law_connect<E>(device: CC23xxCC27xx)
    ensures
        ({
            let connected = Carried::<E>::begin(Phase::Connect, device).replied(
                Reply::Done,
            ).replied(Reply::Done).replied(Reply::Done).replied(Reply::Done).replied(Reply::Done);
            &&& connected.done == seq![
                ProbeOp::AssertReset,
                ProbeOp::Sleep { millis: 5 },
                ProbeOp::ReleaseReset,
                ProbeOp::Sleep { millis: 60 },
                ProbeOp::Connect,
            ]
            &&& connected.succeeded()
            &&& connected.device == device
        }),
{
    reveal(Carried::replied);
    let short = ProbeOp::Sleep { millis: 5 };
    let long = ProbeOp::Sleep { millis: 60 };
    let r1 = Carried::<E>::begin(Phase::Connect, device).replied(Reply::Done);
    assert(r1.state.script.remaining =~= seq![
        short,
        ProbeOp::ReleaseReset,
        long,
        ProbeOp::Connect,
    ]);
    let r2 = r1.replied(Reply::Done);
    assert(r2.state.script.remaining =~= seq![ProbeOp::ReleaseReset, long, ProbeOp::Connect]);
    let r3 = r2.replied(Reply::Done);
    assert(r3.state.script.remaining =~= seq![long, ProbeOp::Connect]);
    let r4 = r3.replied(Reply::Done);
    assert(r4.state.script.remaining =~= seq![ProbeOp::Connect]);
    let r5 = r4.replied(Reply::Done);
    assert(r5.done =~= seq![
        ProbeOp::AssertReset,
        short,
        ProbeOp::ReleaseReset,
        long,
        ProbeOp::Connect,
    ]);
}

/// Preparing to verify reads the device status. Only if that can be read and tells that the
/// device is not in SACI mode, the debug interface is initialized again and SACI mode waited
/// for.
pub proof fn law_prepare_verify_ops<E>(device: CC23xxCC27xx, status: u32, e: E)
    ensures
        ({
            let begun = Carried::<E>::begin(Phase::PrepareVerify, device);
            let unread = begun.replied(Reply::Failed(e));
            let told = begun.replied(Reply::Word(status));
            let entered = told.replied(Reply::Done).replied(Reply::Done).replied(Reply::Done);
            let read = ProbeOp::TryReadAp { ap: ApSel::CfgAp, address: 0x0C };
            &&& unread.done == seq![read]
            &&& unread.succeeded()
            &&& told.done == seq![read]
            &&& if byte_of(status, 3) % 2 == 1 {
                &&& told.state.result is None
                &&& entered.done == seq![
                    read,
                    ProbeOp::Reinitialize,
                    ProbeOp::Sleep { millis: 100 },
                    ProbeOp::AwaitSaciMode { timeout_ms: 3000 },
                ]
                &&& entered.succeeded()
            } else {
                told.succeeded()
            }
            &&& entered.device == device
        }),
{
    reveal(Carried::replied);
    law_register_fields(status);
    let read = ProbeOp::TryReadAp { ap: ApSel::CfgAp, address: 0x0C };
    let pause = ProbeOp::Sleep { millis: 100 };
    let wait = ProbeOp::AwaitSaciMode { timeout_ms: 3000 };
    let begun = Carried::<E>::begin(Phase::PrepareVerify, device);
    let unread = begun.replied(Reply::Failed(e));
    assert(unread.done =~= seq![read]);
    let told = begun.replied(Reply::Word(status));
    assert(told.done =~= seq![read]);
    if byte_of(status, 3) % 2 == 1 {
        assert(told.state.script.remaining =~= seq![ProbeOp::Reinitialize, pause, wait]);
        let r1 = told.replied(Reply::Done);
        assert(r1.state.script.remaining =~= seq![pause, wait]);
        let r2 = r1.replied(Reply::Done);
        assert(r2.state.script.remaining =~= seq![wait]);
        let r3 = r2.replied(Reply::Done);
        assert(r3.done =~= seq![read, ProbeOp::Reinitialize, pause, wait]);
    }
}

/// A sequence ends with the first operation that fails, with its error, or that runs out of
/// time; what is known of the device stays. A read or a flush that may fail ends nothing, and
/// a sequence that has ended stays as it is.
pub proof fn law_sequence_ends_with_first_error<E>(run: Carried<E>, reply: Reply<E>)
    requires
        run.state.result is None ==> run.state.script.remaining.len() > 0,
    ensures
        ({
            let next = run.replied(reply);
            let op = run.state.script.remaining[0];
            if run.state.result is Some {
                next == run
            } else {
                &&& next.done == run.done.push(op)
                &&& match reply {
                    Reply::Failed(e) => if op is TryReadAp || op is Flush || op is Sleep
                        || op is AwaitSaciMode {
                        !(next.state.result matches Some(Err(SequenceError::Probe(_))))
                    } else {
                        &&& next.state.result == Some(
                            Err::<(), SequenceError<E>>(SequenceError::Probe(e)),
                        )
                        &&& next.device == run.device
                    },
                    Reply::TimedOut => if op is AwaitTxEmpty || op is AwaitRxReady
                        || op is AwaitPower || op is AwaitSaciMode {
                        &&& next.state.result == Some(
                            Err::<(), SequenceError<E>>(SequenceError::Timeout),
                        )
                        &&& next.device == run.device
                    } else {
                        &&& next.state.result is None
                        &&& next.device == run.device
                    },
                    _ => !(next.state.result matches Some(Err(SequenceError::Probe(_))))
                        && !(next.state.result matches Some(Err(SequenceError::Timeout))),
                }
            }
        }),
{
    reveal(Carried::replied);
    law_reply_effect(run.state.script, reply);
}

/// A sequence and its device after these replies. While the debug interface is initialized
/// again, the driver finds out anew whether the ROM is in the boot loop.
pub open spec fn carried_after<E>(
    phase: Phase,
    device: CC23xxCC27xx,
    replies: Seq<(Reply<E>, bool)>,
) -> Carried<E>
    decreases replies.len(),
{
    if replies.len() == 0 {
        Carried::begin(phase, device)
    } else {
        let run = carried_after(phase, device, replies.drop_last());
        let (reply, boot_loop) = replies.last();
        if run.state.result is None && run.state.script.remaining[0] == ProbeOp::Reinitialize {
            run.found(boot_loop).replied(reply)
        } else {
            run.replied(reply)
        }
    }
}

/// Whether a sequence that has not ended has before it the last operations of its phase.
spec fn in_phase<E>(state: SequenceState<E>) -> bool {
    state.result is None ==> is_tail(phase_ops(state.phase), state.script.remaining)
}

/// Whether these are the last operations, at least one, of all.
spec fn is_tail(all: Seq<ProbeOp>, ops: Seq<ProbeOp>) -> bool {
    &&& 0 < ops.len() <= all.len()
    &&& ops == all.skip(all.len() - ops.len())
}

proof fn lemma_shorter_tail(all: Seq<ProbeOp>, ops: Seq<ProbeOp>)
    requires
        is_tail(all, ops),
        ops.len() > 1,
    ensures
        is_tail(all, ops.drop_first()),
{
    assert(ops.drop_first() =~= all.skip(all.len() - ops.len() + 1));
}

proof fn lemma_phase_starts<E>(phase: Phase)
    ensures
        in_phase(SequenceState::<E>::start(phase)),
{
    let ops = phase_ops(phase);
    assert(ops.len() > 0);
    assert(ops.skip(0) =~= ops);
}

proof fn lemma_step_stays_in_phase<E>(
    state: SequenceState<E>,
    device: CC23xxCC27xx,
    reply: Reply<E>,
)
    requires
        in_phase(state),
    ensures
        in_phase(state.step(device, reply)),
{
    let next = state.step(device, reply);
    let script = state.script.step(reply);
    if state.result is None {
        law_reply_effect(state.script, reply);
        if script.remaining.len() > 0 {
            if script != state.script {
                lemma_shorter_tail(phase_ops(state.phase), state.script.remaining);
            }
        } else if next.result is None {
            assert(next == SequenceState::<E>::start(next.phase));
            lemma_phase_starts::<E>(next.phase);
        }
    }
}

proof fn lemma_rest_of_phase<E>(
    phase: Phase,
    device: CC23xxCC27xx,
    replies: Seq<(Reply<E>, bool)>,
)
    ensures
        in_phase(carried_after(phase, device, replies).state),
    decreases replies.len(),
{
    if replies.len() > 0 {
        lemma_rest_of_phase(phase, device, replies.drop_last());
        let run = carried_after(phase, device, replies.drop_last());
        let (reply, boot_loop) = replies.last();
        reveal(Carried::replied);
        lemma_step_stays_in_phase(run.state, run.device, reply);
        lemma_step_stays_in_phase(run.state, run.found(boot_loop).device, reply);
    } else {
        lemma_phase_starts::<E>(phase);
    }
}

/// Whatever the replies are, the ROM is known to have left the boot loop only when zero was
/// written to R3, and known to be in it only when a device status was read that tells so, or
/// when the driver has found out.
pub proof fn law_boot_loop_changes<E>(
    phase: Phase,
    device: CC23xxCC27xx,
    replies: Seq<(Reply<E>, bool)>,
    reply: Reply<E>,
)
    ensures
        ({
            let run = carried_after(phase, device, replies);
            let next = run.replied(reply);
            &&& run.device.boot_loop && !next.device.boot_loop ==> {
                &&& reply is Done
                &&& next.done == run.done.push(
                    ProbeOp::WriteCoreRegister { register: 3, value: 0 },
                )
            }
            &&& !run.device.boot_loop && next.device.boot_loop ==> {
                &&& next.done == run.done.push(
                    ProbeOp::ReadAp { ap: ApSel::CfgAp, address: 0x0C },
                )
                &&& reply matches Reply::Word(status) && (byte_of(status, 1) == 0x38 || byte_of(
                    status,
                    1,
                ) == 0x81 || byte_of(status, 1) == 0xC1)
            }
            &&& next.device.name == run.device.name
            &&& next.device.saci_flash_mode == run.device.saci_flash_mode
        }),
{
    reveal(Carried::replied);
    lemma_rest_of_phase(phase, device, replies);
    let run = carried_after(phase, device, replies);
    law_reply_effect(run.state.script, reply);
    if reply is Word {
        law_register_fields(reply->Word_0);
    }
    if run.state.result is None {
        let rest = run.state.script.remaining;
        let ops = phase_ops(run.state.phase);
        if rest.len() == 1 {
            assert(rest[0] == ops.last());
        }
    }
}

/// Whatever the replies are, and whatever the driver finds out while it initializes the debug
/// interface again: a reset starts the core only when the ROM is not in the boot loop, and
/// when it has succeeded, the ROM is not in the boot loop.
pub proof fn law_reset_leaves_boot_loop<E>(
    device: CC23xxCC27xx,
    replies: Seq<(Reply<E>, bool)>,
)
    ensures
        ({
            let run = carried_after(Phase::ResetCatch, device, replies);
            &&& run.succeeded() ==> !run.device.boot_loop
            &&& run.state.result is None && run.state.script.remaining[0] == ProbeOp::StartCore
                ==> !run.device.boot_loop
        }),
    decreases replies.len(),
{
    lemma_reset_phases(device, replies);
    lemma_rest_of_phase(Phase::ResetCatch, device, replies);
}

proof fn lemma_reset_phases<E>(device: CC23xxCC27xx, replies: Seq<(Reply<E>, bool)>)
    ensures
        ({
            let run = carried_after(Phase::ResetCatch, device, replies);
            let phase = run.state.phase;
            &&& phase is ResetCatch || phase is Breakpoints || phase is Reset || phase is BootLoop
                || phase is CoreStart || phase is Restore
            &&& phase is CoreStart || phase is Restore ==> !run.device.boot_loop
            &&& run.succeeded() ==> phase is Restore
            &&& phase matches Phase::CoreStart { then } ==> then is Restore
            &&& phase matches Phase::BootLoop { then } ==> then is Restore
        }),
    decreases replies.len(),
{
    reveal(Carried::replied);
    if replies.len() > 0 {
        lemma_reset_phases(device, replies.drop_last());
        lemma_rest_of_phase(Phase::ResetCatch, device, replies.drop_last());
    }
}

} // verus!
