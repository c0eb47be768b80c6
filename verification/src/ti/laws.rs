//! What holds of every command, script and sequence of the device.

use vstd::prelude::*;

use super::crc::{crc32, law_crc_detects_change_within_four_bytes};
use super::debug_sequence::{
    core_phase, phase_ops, AfterStart, CC23xxCC27xx, Phase, SequenceState,
};
use super::error::SequenceError;
use super::flash_sequence::{
    continuation_ops, data_write, program_words, scfg_checked, send_ops, start_write, verify_words,
};
use super::registers::{ApSel, DeviceStatusRegister, TX_DATA};
use super::saci::{
    header, packed_words, FlashRegion, SaciResult, DEBUG_EXIT_SACI_HALT, FLASH_KEY,
    SCFG_CRC_BYTE_COUNT,
};
use super::script::{answers, reply_error, reply_value, ProbeOp, Reply, ScriptState, Value};

verus! {

/// The header of a command holds the command in its lowest byte, zero in the byte that
/// numbers the response, and the lowest 16 bits of what is specific to the command in its
/// upper half.
pub proof fn law_header_fields(cmd_id: u32, cmd_specific: u32)
    requires
        cmd_id < 0x100,
    ensures
        header(cmd_id, cmd_specific) % 0x100 == cmd_id,
        (header(cmd_id, cmd_specific) / 0x100) % 0x100 == 0,
        header(cmd_id, cmd_specific) / 0x1_0000 == cmd_specific % 0x1_0000,
{
    let word = header(cmd_id, cmd_specific);
    assert(word % 0x100 == cmd_id && (word / 0x100) % 0x100 == 0 && word / 0x1_0000 == cmd_specific
        % 0x1_0000) by (bit_vector)
        requires
            cmd_id < 0x100,
            word == (cmd_specific << 16) | cmd_id,
    ;
}

/// The bytes can be read back from the words that they were packed into, and what the words
/// hold behind them, less than a word, is padding.
pub proof fn law_packed_words_hold_bytes(data: Seq<u8>, pad: u8, i: int)
    requires
        0 <= i < 4 * packed_words(data, pad).len(),
    ensures
        ({
            let words = packed_words(data, pad);
            let word = words[i / 4] as int;
            let byte = if i < data.len() {
                data[i]
            } else {
                pad
            };
            &&& data.len() <= 4 * words.len() < data.len() + 4
            &&& byte == if i % 4 == 0 {
                word % 0x100
            } else if i % 4 == 1 {
                (word / 0x100) % 0x100
            } else if i % 4 == 2 {
                (word / 0x1_0000) % 0x100
            } else {
                word / 0x100_0000
            }
        }),
{
}

/// A result is told from its code, and a code that no result has is unknown.
pub proof fn law_result_codes(result: SaciResult, code: u8)
    ensures
        SaciResult::spec_from_code(result.spec_code()) == result,
        SaciResult::spec_from_code(code).spec_code() == code || SaciResult::spec_from_code(code)
            == SaciResult::Unknown,
{
    let found = SaciResult::spec_from_code(result.spec_code());
    assert(found.spec_code() == result.spec_code());
}

/// Every command that programs carries the flash key as its second word. Programming CCFG
/// always sends the whole sector, and programming MAIN sends the whole address.
pub proof fn law_programming_carries_key(address: u64, data: Seq<u8>)
    ensures
        program_words(address, data).len() >= 2,
        program_words(address, data)[1] == FLASH_KEY,
        FlashRegion::spec_at(address) == FlashRegion::Ccfg ==> program_words(address, data).len()
            == 2 + 512,
        FlashRegion::spec_at(address) == FlashRegion::Main ==> program_words(address, data)[2] as int
            == address,
{
}

/// The words that the operations write to the device, in order.
pub open spec fn words_sent(ops: Seq<ProbeOp>) -> Seq<u32>
    decreases ops.len(),
{
    if ops.len() == 0 {
        Seq::empty()
    } else {
        let rest = words_sent(ops.drop_last());
        match ops.last() {
            ProbeOp::WriteAp { ap, address, value } => if ap == ApSel::SecAp && address == TX_DATA {
                rest.push(value)
            } else {
                rest
            },
            _ => rest,
        }
    }
}

proof fn lemma_words_sent_add(a: Seq<ProbeOp>, b: Seq<ProbeOp>)
    ensures
        words_sent(a + b) == words_sent(a) + words_sent(b),
    decreases b.len(),
{
    if b.len() == 0 {
        assert(a + b =~= a);
    } else {
        assert((a + b).drop_last() =~= a + b.drop_last());
        lemma_words_sent_add(a, b.drop_last());
        assert(words_sent(a + b) =~= words_sent(a) + words_sent(b));
    }
}

proof fn lemma_continuation_words(words: Seq<u32>, timeout_ms: u64)
    requires
        words.len() > 0,
    ensures
        words_sent(continuation_ops(words, timeout_ms)) == words.skip(1),
    decreases words.len(),
{
    reveal_with_fuel(words_sent, 3);
    let ops = continuation_ops(words, timeout_ms);
    if words.len() == 1 {
        assert(ops =~= Seq::empty());
    } else {
        lemma_continuation_words(words.drop_last(), timeout_ms);
        assert(ops.last() == data_write(words.last()));
        assert(ops.drop_last().drop_last() =~= continuation_ops(words.drop_last(), timeout_ms));
        assert(words.drop_last().skip(1).push(words.last()) =~= words.skip(1));
    }
    assert(words_sent(ops) =~= words.skip(1));
}

/// Sending a command writes exactly its words, in order.
pub proof fn law_send_writes_words(words: Seq<u32>, timeout_ms: u64)
    ensures
        words_sent(send_ops(words, timeout_ms)) == words,
{
    reveal_with_fuel(words_sent, 6);
    let wait = ProbeOp::AwaitTxEmpty { timeout_ms };
    let tail = seq![wait];
    assert(tail.drop_last() =~= Seq::empty());
    if words.len() == 1 {
        let ops = send_ops(words, timeout_ms);
        let shorter = seq![wait, start_write(true), data_write(words[0])];
        assert(ops.drop_last() =~= shorter);
        assert(shorter.drop_last() =~= seq![wait, start_write(true)]);
        assert(seq![wait, start_write(true)].drop_last() =~= tail);
        assert(words_sent(ops) =~= words);
    } else if words.len() > 1 {
        let first = seq![wait, start_write(true), data_write(words[0]), wait, start_write(false)];
        let waited = seq![wait, start_write(true), data_write(words[0]), wait];
        let shorter = seq![wait, start_write(true), data_write(words[0])];
        assert(first.drop_last() =~= waited);
        assert(waited.drop_last() =~= shorter);
        assert(shorter.drop_last() =~= seq![wait, start_write(true)]);
        assert(seq![wait, start_write(true)].drop_last() =~= tail);
        assert(words_sent(first) =~= seq![words[0]]);
        lemma_continuation_words(words, timeout_ms);
        lemma_words_sent_add(first, continuation_ops(words, timeout_ms));
        lemma_words_sent_add(first + continuation_ops(words, timeout_ms), tail);
        assert(words_sent(send_ops(words, timeout_ms)) =~= words);
    }
}

/// Every word waits for the device to have taken the word before it, and the sending ends
/// only when the device has taken the last one.
pub proof fn law_send_waits_for_device(words: Seq<u32>, timeout_ms: u64, i: int, j: int)
    requires
        0 <= i < j < send_ops(words, timeout_ms).len(),
        send_ops(words, timeout_ms)[i] matches ProbeOp::WriteAp { address, .. } && address == TX_DATA,
        send_ops(words, timeout_ms)[j] matches ProbeOp::WriteAp { address, .. } && address == TX_DATA,
    ensures
        exists|k: int| i < k < j && #[trigger] send_ops(words, timeout_ms)[k] is AwaitTxEmpty,
        send_ops(words, timeout_ms).first() is AwaitTxEmpty,
        send_ops(words, timeout_ms).last() is AwaitTxEmpty,
{
    let ops = send_ops(words, timeout_ms);
    assert(words.len() > 1);
    if j >= 5 {
        assert(ops[j] == continuation_ops(words, timeout_ms)[j - 5]);
        assert((j - 5) % 2 == 1);
        assert(ops[j - 1] == continuation_ops(words, timeout_ms)[j - 6]);
        assert(ops[j - 1] is AwaitTxEmpty);
        assert(i != j - 1);
    }
}

/// Only the first word is marked as the start of a command: the mark is set at once before
/// it, and taken back before the next word.
pub proof fn law_send_marks_first_word(words: Seq<u32>, timeout_ms: u64, i: int)
    requires
        words.len() > 0,
        0 <= i < send_ops(words, timeout_ms).len(),
    ensures
        ({
            let ops = send_ops(words, timeout_ms);
            &&& ops[i] == start_write(true) <==> i == 1
            &&& ops[2] == data_write(words[0])
            &&& words.len() > 1 ==> (ops[i] == start_write(false) <==> i == 4)
            &&& i != 2 && (ops[i] matches ProbeOp::WriteAp { address, .. } && address == TX_DATA)
                ==> words.len() > 1 && i > 4
        }),
{
    let ops = send_ops(words, timeout_ms);
    if words.len() > 1 && i >= 5 && i < ops.len() - 1 {
        assert(ops[i] == continuation_ops(words, timeout_ms)[i - 5]);
    }
}

/// The state of a script after these replies.
pub open spec fn script_after<E>(ops: Seq<ProbeOp>, replies: Seq<Reply<E>>) -> ScriptState<E>
    decreases replies.len(),
{
    if replies.len() == 0 {
        ScriptState::start(ops)
    } else {
        script_after(ops, replies.drop_last()).step(replies.last())
    }
}

/// As long as the replies answer the operations without an error, these are carried out in
/// order, and the script ends with what its last operation read.
pub proof fn law_script_follows_ops<E>(ops: Seq<ProbeOp>, replies: Seq<Reply<E>>)
    requires
        replies.len() <= ops.len(),
        forall|i: int|
            #![trigger replies[i]]
            0 <= i < replies.len() ==> answers(ops[i], replies[i]) && reply_error(
                ops[i],
                replies[i],
            ) is None,
    ensures
        script_after(ops, replies).remaining == ops.skip(replies.len() as int),
        script_after(ops, replies).error is None,
        replies.len() > 0 ==> script_after(ops, replies).value == reply_value(replies.last()),
        replies.len() == ops.len() && ops.len() > 0 ==> script_after(ops, replies).outcome() == Some(
            Ok::<_, SequenceError<E>>(reply_value(replies.last())),
        ),
    decreases replies.len(),
{
    if replies.len() == 0 {
        assert(ops.skip(0) =~= ops);
    } else {
        let before = replies.drop_last();
        assert forall|i: int| #![trigger before[i]] 0 <= i < before.len() implies answers(
            ops[i],
            before[i],
        ) && reply_error(ops[i], before[i]) is None by {
            assert(before[i] == replies[i]);
        }
        law_script_follows_ops(ops, before);
        assert(replies[before.len() as int] == replies.last());
        assert(ops.skip(before.len() as int).drop_first() =~= ops.skip(replies.len() as int));
    }
}

/// The first reply that is an error ends the script with that error.
pub proof fn law_script_stops_at_first_error<E>(
    ops: Seq<ProbeOp>,
    replies: Seq<Reply<E>>,
    k: int,
)
    requires
        0 <= k < ops.len(),
        k < replies.len(),
        forall|i: int|
            #![trigger replies[i]]
            0 <= i <= k ==> answers(ops[i], replies[i]),
        forall|i: int|
            #![trigger replies[i]]
            0 <= i < k ==> reply_error(ops[i], replies[i]) is None,
        reply_error(ops[k], replies[k]) is Some,
    ensures
        script_after(ops, replies).outcome() == Some(
            Err::<Value, SequenceError<E>>(reply_error(ops[k], replies[k])->0),
        ),
    decreases replies.len(),
{
    let before = replies.drop_last();
    if before.len() == k {
        assert forall|i: int| #![trigger before[i]] 0 <= i < before.len() implies answers(
            ops[i],
            before[i],
        ) && reply_error(ops[i], before[i]) is None by {
            assert(before[i] == replies[i]);
        }
        law_script_follows_ops(ops, before);
        assert(replies[k] == replies.last());
    } else {
        assert forall|i: int| #![trigger before[i]] 0 <= i <= k implies answers(ops[i], before[i])
            && before[i] == replies[i] by {
            assert(before[i] == replies[i]);
        }
        law_script_stops_at_first_error(ops, before, k);
    }
}

/// A script whose last operation reads a register ends, if it ends without an error, with
/// the value of a register, whatever the replies were.
pub proof fn law_script_ends_with_response<E>(ops: Seq<ProbeOp>, replies: Seq<Reply<E>>)
    requires
        ops.len() > 0,
        ops.last() is ReadAp,
    ensures
        ({
            let state = script_after(ops, replies);
            &&& state.remaining.len() > 0 ==> state.remaining.last() is ReadAp && state.error is None
            &&& state.remaining.len() == 0 && state.error is None ==> state.value is Word
        }),
    decreases replies.len(),
{
    if replies.len() > 0 {
        law_script_ends_with_response(ops, replies.drop_last());
    }
}

/// A change of MAIN or of the checked part of SCFG that stays within four bytes in a row
/// changes what the device is asked to verify.
pub proof fn law_verify_notices_change(address: u64, data: Seq<u8>, changed: Seq<u8>, start: int)
    requires
        data.len() == changed.len(),
        FlashRegion::spec_at(address) != FlashRegion::Ccfg,
        forall|i: int|
            0 <= i < data.len() && !(start <= i < start + 4) ==> #[trigger] data[i] == changed[i],
        exists|i: int|
            0 <= i < data.len() && #[trigger] data[i] != changed[i] && (FlashRegion::spec_at(
                address,
            ) == FlashRegion::Scfg ==> i < SCFG_CRC_BYTE_COUNT),
    ensures
        verify_words(address, data) != verify_words(address, changed),
{
    let i = choose|i: int|
        0 <= i < data.len() && #[trigger] data[i] != changed[i] && (FlashRegion::spec_at(address)
            == FlashRegion::Scfg ==> i < SCFG_CRC_BYTE_COUNT);
    if FlashRegion::spec_at(address) == FlashRegion::Main {
        law_crc_detects_change_within_four_bytes(data, changed, start);
        assert(verify_words(address, data)[3] == crc32(data));
        assert(verify_words(address, changed)[3] == crc32(changed));
    } else {
        let checked = scfg_checked(data);
        let checked_changed = scfg_checked(changed);
        assert(checked[i] != checked_changed[i]);
        assert forall|j: int|
            0 <= j < checked.len() && !(start <= j < start + 4) implies #[trigger] checked[j]
            == checked_changed[j] by {
            assert(data[j] == changed[j]);
        }
        law_crc_detects_change_within_four_bytes(checked, checked_changed, start);
        assert(verify_words(address, data)[1] == crc32(checked));
        assert(verify_words(address, changed)[1] == crc32(checked_changed));
    }
}

/// A debug sequence and what is known of the device after these replies.
pub open spec fn sequence_after<E>(
    phase: Phase,
    device: CC23xxCC27xx,
    replies: Seq<Reply<E>>,
) -> (SequenceState<E>, CC23xxCC27xx)
    decreases replies.len(),
{
    if replies.len() == 0 {
        (SequenceState::start(phase), device)
    } else {
        let (state, device) = sequence_after(phase, device, replies.drop_last());
        (
            state.step(device, replies.last()),
            CC23xxCC27xx {
                boot_loop: state.boot_loop_after(device.boot_loop, replies.last()),
                ..device
            },
        )
    }
}

/// A sequence has an operation to do exactly as long as it has not ended.
pub proof fn law_sequence_has_next_op<E>(
    phase: Phase,
    device: CC23xxCC27xx,
    replies: Seq<Reply<E>>,
)
    ensures
        ({
            let state = sequence_after(phase, device, replies).0;
            state.result is None <==> state.script.remaining.len() > 0
        }),
    decreases replies.len(),
{
    if replies.len() > 0 {
        law_sequence_has_next_op(phase, device, replies.drop_last());
    }
}

/// A sequence goes through the operations of its phase to the last.
proof fn lemma_sequence_ends_phase_with_its_last_op<E>(
    phase: Phase,
    device: CC23xxCC27xx,
    replies: Seq<Reply<E>>,
)
    ensures
        ({
            let state = sequence_after(phase, device, replies).0;
            state.result is None ==> {
                &&& state.script.remaining.len() > 0
                &&& state.script.remaining.last() == phase_ops(state.phase).last()
            }
        }),
    decreases replies.len(),
{
    if replies.len() > 0 {
        lemma_sequence_ends_phase_with_its_last_op(phase, device, replies.drop_last());
    }
}

/// When a phase is over, what it was to find out has been read: what follows is never
/// decided on a value that is missing. Only before verifying may the device status be
/// missing, when it could not be read.
pub proof fn law_phase_finds_out<E>(
    phase: Phase,
    device: CC23xxCC27xx,
    replies: Seq<Reply<E>>,
    reply: Reply<E>,
)
    requires
        sequence_after(phase, device, replies).0.completes_phase(reply),
    ensures
        ({
            let state = sequence_after(phase, device, replies).0;
            let value = state.script.step(reply).value;
            match state.phase {
                Phase::PowerStatus => value is Power,
                Phase::PowerUp => value is Power,
                Phase::DeviceStatus => value is Word,
                Phase::ExitSaci => value is Word,
                Phase::ResetCatch => value is Flag,
                Phase::Breakpoints { .. } => value is Word,
                Phase::PrepareVerify => value is Word || (value is Nothing && reply is Failed),
                _ => value is Nothing,
            }
        }),
{
    lemma_sequence_ends_phase_with_its_last_op(phase, device, replies);
    let state = sequence_after(phase, device, replies).0;
    assert(state.script.remaining.len() == 1);
    assert(state.script.remaining[0] == phase_ops(state.phase).last());
}

/// While flash programming is in progress, starting the debug port never leaves SACI mode:
/// no word is sent to the device, whatever the replies are, and what is known of the boot
/// loop does not change.
pub proof fn law_flash_mode_keeps_saci<E>(device: CC23xxCC27xx, replies: Seq<Reply<E>>)
    requires
        device.saci_flash_mode,
    ensures
        ({
            let (state, after) = sequence_after(Phase::PowerStatus, device, replies);
            &&& state.phase == Phase::PowerStatus || state.phase == Phase::PowerUp || state.phase
                == Phase::DeviceStatus
            &&& words_sent(phase_ops(state.phase)) == Seq::<u32>::empty()
            &&& after == device
        }),
    decreases replies.len(),
{
    if replies.len() > 0 {
        law_flash_mode_keeps_saci(device, replies.drop_last());
    }
    let ops = phase_ops(sequence_after(Phase::PowerStatus, device, replies).0.phase);
    lemma_no_words_sent(ops);
}

proof fn lemma_no_words_sent(ops: Seq<ProbeOp>)
    requires
        forall|i: int| 0 <= i < ops.len() ==> !(#[trigger] ops[i] is WriteAp),
    ensures
        words_sent(ops) == Seq::<u32>::empty(),
    decreases ops.len(),
{
    if ops.len() > 0 {
        lemma_no_words_sent(ops.drop_last());
    }
}

/// While no flash programming is in progress, a device that is found in SACI mode is told to
/// leave it, and one that is not is left alone.
pub proof fn law_port_start_leaves_saci<E>(device: CC23xxCC27xx, status: u32)
    requires
        !device.saci_flash_mode,
    ensures
        ({
            let state = SequenceState::<E>::start(Phase::DeviceStatus);
            let after = state.step(device, Reply::Word(status));
            if DeviceStatusRegister(status).spec_ahb_ap_available() {
                after.result == Some(Ok::<(), SequenceError<E>>(()))
            } else {
                after == SequenceState::<E>::start(Phase::ExitSaci)
            }
        }),
        words_sent(phase_ops(Phase::ExitSaci)) == seq![DEBUG_EXIT_SACI_HALT],
{
    let command = seq![DEBUG_EXIT_SACI_HALT];
    law_send_writes_words(command, 100);
    let tail = phase_ops(Phase::ExitSaci).skip(send_ops(command, 100).len() as int);
    assert(phase_ops(Phase::ExitSaci) =~= send_ops(command, 100) + tail);
    lemma_no_words_sent(tail);
    lemma_words_sent_add(send_ops(command, 100), tail);
    assert(words_sent(phase_ops(Phase::ExitSaci)) =~= command);
}

/// When the core has been started, the ROM is no longer in the boot loop.
pub proof fn law_core_start_leaves_boot_loop<E>(device: CC23xxCC27xx, replies: Seq<Reply<E>>)
    ensures
        ({
            let first = core_phase(device.boot_loop, AfterStart::Nothing);
            let (state, after) = sequence_after(first, device, replies);
            &&& state.phase == first || state.phase == (Phase::CoreStart {
                then: AfterStart::Nothing,
            })
            &&& state.phase is CoreStart ==> !after.boot_loop
            &&& state.result == Some(Ok::<(), SequenceError<E>>(())) ==> !after.boot_loop
        }),
    decreases replies.len(),
{
    if replies.len() > 0 {
        law_core_start_leaves_boot_loop(device, replies.drop_last());
    }
}

/// Once a reset has read whether the core is to halt and how breakpoints are enabled, it
/// restores exactly that, and it succeeds only behind restoring it.
pub proof fn law_reset_restores_what_it_read<E>(
    device: CC23xxCC27xx,
    halt: bool,
    breakpoints: u32,
    replies: Seq<Reply<E>>,
)
    requires
        replies.len() >= 2,
        replies[0] == Reply::<E>::Flag(halt),
        replies[1] == Reply::<E>::Word(breakpoints),
    ensures
        ({
            let state = sequence_after(Phase::ResetCatch, device, replies).0;
            let then = AfterStart::Restore { halt, breakpoints };
            &&& state.phase == (Phase::Reset { halt, breakpoints }) || state.phase
                == (Phase::BootLoop { then }) || state.phase == (Phase::CoreStart { then })
                || state.phase == (Phase::Restore { halt, breakpoints })
            &&& state.result == Some(Ok::<(), SequenceError<E>>(())) ==> state.phase
                == (Phase::Restore { halt, breakpoints })
        }),
    decreases replies.len(),
{
    let before = replies.drop_last();
    if replies.len() == 2 {
        assert(before.drop_last() =~= Seq::empty());
        assert(before.last() == replies[0]);
        reveal_with_fuel(sequence_after, 3);
    } else {
        assert(before[0] == replies[0] && before[1] == replies[1]);
        law_reset_restores_what_it_read(device, halt, breakpoints, before);
    }
}

/// Preparing to verify does nothing to a device that is in SACI mode or whose status cannot
/// be read, and brings any other device into SACI mode.
pub proof fn law_prepare_verify<E>(device: CC23xxCC27xx, reply: Reply<E>)
    requires
        reply is Word || reply is Failed,
    ensures
        ({
            let after = SequenceState::<E>::start(Phase::PrepareVerify).step(device, reply);
            match reply {
                Reply::Word(status) if DeviceStatusRegister(status).spec_ahb_ap_available() => after
                    == SequenceState::<E>::start(Phase::EnterSaci),
                _ => after.result == Some(Ok::<(), SequenceError<E>>(())),
            }
        }),
{
}

} // verus!
