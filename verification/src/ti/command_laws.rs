//! What goes over the wire: the words of every command, how they are sent, and what a
//! response to them means, in numbers.

use vstd::prelude::*;

use super::crc::crc32;
use super::error::{SaciCommand, SequenceError};
use super::flash_sequence::{
    ccfg_bytes, checked_response, command_ops, continuation_ops, enter_saci_ops, erase_all_ops,
    program_command, program_words, response_ops, send_ops, verified_response, verify_command,
    verify_words, Transaction,
};
use super::laws::{
    law_header_fields, law_packed_words_hold_bytes, law_script_follows_ops,
    law_script_stops_at_first_error, script_after,
};
use super::registers::{ApSel, DeviceStatusRegister, RxCtrlRegister, TxCtrlRegister};
use super::saci::{header, packed_words, FlashRegion, SaciResult};
use super::script::{answers, reply_error, Poll, ProbeOp, Reply, ScriptState, Value};

verus! {

/// Byte `n` of a word, counted from the lowest.
pub open spec fn byte_of(word: u32, n: int) -> int {
    if n == 0 {
        word as int % 0x100
    } else if n == 1 {
        (word as int / 0x100) % 0x100
    } else if n == 2 {
        (word as int / 0x1_0000) % 0x100
    } else {
        word as int / 0x100_0000
    }
}

/// The fields of the registers: the AHB-AP is available if the highest byte of the device
/// status is odd, the boot status is its second byte, and three boot statuses tell that the
/// device waits for a debugger.
pub proof fn law_register_fields(word: u32)
    ensures
        DeviceStatusRegister(word).spec_ahb_ap_available() <==> byte_of(word, 3) % 2 == 1,
        DeviceStatusRegister(word).spec_boot_status() == byte_of(word, 1),
        DeviceStatusRegister(word).spec_waits_for_debugger() <==> byte_of(word, 1) == 0x38
            || byte_of(word, 1) == 0x81 || byte_of(word, 1) == 0xC1,
        TxCtrlRegister(word).spec_txd_full() <==> word as int % 2 == 1,
        TxCtrlRegister(word).spec_cmd_start() <==> (word as int / 2) % 2 == 1,
        RxCtrlRegister(word).spec_rxd_ready() <==> word as int % 2 == 1,
{
    assert(((word >> 24u32) & 1 == 1) == ((word / 0x100_0000) % 2 == 1) && ((word >> 0u32) & 1
        == 1) == (word % 2 == 1) && ((word >> 1u32) & 1 == 1) == ((word / 2) % 2 == 1))
        by (bit_vector);
}

/// The access ports have different numbers.
pub proof fn law_access_port_numbers(ap: ApSel)
    ensures
        ap == ApSel::CfgAp <==> ap.spec_number() == 1,
        ap == ApSel::SecAp <==> ap.spec_number() == 2,
{
}

/// What is waited for is noticed even when time is up; polling goes on exactly while it has
/// not come and time is not up.
pub proof fn law_poll(ready: bool, expired: bool, wait_us: u64)
    ensures
        Poll::of(ready, expired, wait_us) == Poll::Ready <==> ready,
        Poll::of(ready, expired, wait_us) == Poll::Expired <==> !ready && expired,
        Poll::of(ready, expired, wait_us) == (Poll::Again { wait_us }) <==> !ready && !expired,
{
}

/// Every address belongs to one region: SCFG begins at 0x4E04_0000, CCFG at 0x4E02_0000.
pub proof fn law_regions(address: u64)
    ensures
        FlashRegion::spec_at(address) == FlashRegion::Main <==> address < 0x4E02_0000,
        FlashRegion::spec_at(address) == FlashRegion::Ccfg <==> 0x4E02_0000 <= address
            < 0x4E04_0000,
        FlashRegion::spec_at(address) == FlashRegion::Scfg <==> address >= 0x4E04_0000,
{
}

/// The header is made of both its parts, bit by bit, even where the number of a command does
/// not fit its byte.
pub proof fn law_header_bits(cmd_id: u32, cmd_specific: u32)
    ensures
        header(cmd_id, cmd_specific) & 0xFFFF == cmd_id & 0xFFFF,
        header(cmd_id, cmd_specific) >> 16 == (cmd_specific & 0xFFFF) | (cmd_id >> 16),
{
    let word = header(cmd_id, cmd_specific);
    assert(word & 0xFFFF == cmd_id & 0xFFFF && word >> 16 == (cmd_specific & 0xFFFF) | (cmd_id
        >> 16)) by (bit_vector)
        requires
            word == (cmd_specific << 16) | cmd_id,
    ;
}

/// Whether `code` is how the device gives this result. Every code that is not listed gives
/// `Unknown`.
pub open spec fn has_code(result: SaciResult, code: int) -> bool {
    match result {
        SaciResult::Success => code == 0x00,
        SaciResult::InvalidCmdId => code == 0x80,
        SaciResult::InvalidAddressParam => code == 0x81,
        SaciResult::InvalidSizeParam => code == 0x82,
        SaciResult::InvalidKeyParam => code == 0x83,
        SaciResult::FlashFsmError => code == 0x84,
        SaciResult::ParamBufferOverflow => code == 0x85,
        SaciResult::NotAllowed => code == 0x86,
        SaciResult::Crc32Mismatch => code == 0x87,
        SaciResult::BlankCheckFailed => code == 0x89,
        SaciResult::Unknown => code != 0x00 && code != 0x89 && !(0x80 <= code <= 0x87),
    }
}

/// The result in a response is the one whose code is the third byte of the response.
pub proof fn law_result_in_response(response: u32, code: u8)
    ensures
        has_code(SaciResult::spec_from_code(code), code as int),
        has_code(SaciResult::spec_in_response(response), byte_of(response, 2)),
{
    lemma_result_of_code(code);
    lemma_result_of_code(((response / 0x1_0000) % 0x100) as u8);
}

proof fn lemma_result_of_code(code: u8)
    ensures
        has_code(SaciResult::spec_from_code(code), code as int),
{
    assert(SaciResult::Success.spec_code() == 0x00);
    assert(SaciResult::InvalidCmdId.spec_code() == 0x80);
    assert(SaciResult::InvalidAddressParam.spec_code() == 0x81);
    assert(SaciResult::InvalidSizeParam.spec_code() == 0x82);
    assert(SaciResult::InvalidKeyParam.spec_code() == 0x83);
    assert(SaciResult::FlashFsmError.spec_code() == 0x84);
    assert(SaciResult::ParamBufferOverflow.spec_code() == 0x85);
    assert(SaciResult::NotAllowed.spec_code() == 0x86);
    assert(SaciResult::Crc32Mismatch.spec_code() == 0x87);
    assert(SaciResult::BlankCheckFailed.spec_code() == 0x89);
    assert(SaciResult::Unknown.spec_code() == 0xFF);
}

/// A command has succeeded exactly if the third byte of its response is zero, whatever the
/// command is. Otherwise it has failed, with the command and the result of that code.
pub proof fn law_command_succeeds_iff_code_is_zero<E>(response: u32, command: SaciCommand)
    ensures
        match checked_response::<E>(response, command) {
            Ok(()) => byte_of(response, 2) == 0,
            Err(SequenceError::SaciFailed { command: failed, result }) => {
                &&& byte_of(response, 2) != 0
                &&& failed == command
                &&& has_code(result, byte_of(response, 2))
            },
            Err(_) => false,
        },
{
    law_result_in_response(response, 0);
}

/// A verify command finds the content equal exactly if the third byte of its response is
/// zero, and different exactly if that is 0x87, or 0x89 from CCFG. Otherwise it has failed,
/// with the command and the result of that code.
pub proof fn law_content_differs_iff_device_says_so<E>(response: u32, command: SaciCommand)
    ensures
        ({
            let code = byte_of(response, 2);
            let differs = code == 0x87 || (code == 0x89 && command
                == SaciCommand::VerifyCcfgSector);
            match verified_response::<E>(response, command) {
                Ok(equal) => if equal {
                    code == 0
                } else {
                    differs
                },
                Err(SequenceError::SaciFailed { command: failed, result }) => {
                    &&& code != 0 && !differs
                    &&& failed == command
                    &&& has_code(result, code)
                },
                Err(_) => false,
            }
        }),
{
    law_result_in_response(response, 0);
}

/// A transaction has a response when its script has ended with a word, and the error of the
/// script when it has ended with one.
pub proof fn law_transaction_response<E>(transaction: Transaction<E>)
    ensures
        ({
            let state = transaction.script@;
            let response = transaction.spec_response();
            if state.remaining.len() > 0 {
                response is None
            } else if state.error is Some {
                response == Some(Err::<u32, SequenceError<E>>(state.error->0))
            } else {
                match state.value {
                    Value::Word(word) => response == Some(Ok::<u32, SequenceError<E>>(word)),
                    _ => response is None,
                }
            }
        }),
{
}

/// Sending a command, operation by operation: the device is waited for, told that a command
/// starts, and given the first word; when it has taken that word, it is told that no command
/// starts; each further word is given when the device has taken the one before; and at the
/// end the device is waited for. Every wait has the given timeout.
pub proof fn law_send_protocol(words: Seq<u32>, timeout_ms: u64)
    ensures
        ({
            let ops = send_ops(words, timeout_ms);
            let n = words.len() as int;
            let wait = ProbeOp::AwaitTxEmpty { timeout_ms };
            &&& n == 0 ==> ops.len() == 0
            &&& n == 1 ==> ops.len() == 4
            &&& n > 1 ==> ops.len() == 2 * n + 4
            &&& n > 0 ==> {
                &&& ops[0] == wait
                &&& ops[1] == (ProbeOp::WriteAp { ap: ApSel::SecAp, address: 4, value: 2 })
                &&& ops[2] == (ProbeOp::WriteAp { ap: ApSel::SecAp, address: 0, value: words[0] })
                &&& ops[3] == wait
                &&& ops.last() == wait
            }
            &&& n > 1 ==> ops[4] == (ProbeOp::WriteAp { ap: ApSel::SecAp, address: 4, value: 0 })
            &&& forall|k: int| #![trigger words[k]]
                1 <= k < n ==> {
                    &&& ops[2 * k + 3] == wait
                    &&& ops[2 * k + 4] == (ProbeOp::WriteAp {
                        ap: ApSel::SecAp,
                        address: 0,
                        value: words[k],
                    })
                }
        }),
{
    let ops = send_ops(words, timeout_ms);
    assert forall|k: int| #![trigger words[k]] 1 <= k < words.len() implies {
        &&& ops[2 * k + 3] == (ProbeOp::AwaitTxEmpty { timeout_ms })
        &&& ops[2 * k + 4] == (ProbeOp::WriteAp {
            ap: ApSel::SecAp,
            address: 0,
            value: words[k],
        })
    } by {
        let rest = continuation_ops(words, timeout_ms);
        assert(ops[2 * k + 3] == rest[2 * (k - 1)]);
        assert(ops[2 * k + 4] == rest[2 * (k - 1) + 1]);
        assert((2 * (k - 1) + 1) / 2 == k - 1);
    }
}

/// A command is sent, then its response is waited for and read from the SEC-AP.
pub proof fn law_command_is_sent_and_answered(words: Seq<u32>, send_ms: u64, response_ms: u64)
    ensures
        ({
            let ops = command_ops(words, send_ms, response_ms);
            let n = send_ops(words, send_ms).len() as int;
            &&& ops.len() == n + 2
            &&& ops.take(n) == send_ops(words, send_ms)
            &&& ops[n] == (ProbeOp::AwaitRxReady { timeout_ms: response_ms })
            &&& ops[n + 1] == (ProbeOp::ReadAp { ap: ApSel::SecAp, address: 8 })
            &&& response_ops(response_ms) == ops.skip(n)
        }),
{
    let n = send_ops(words, send_ms).len() as int;
    assert(command_ops(words, send_ms, response_ms).take(n) =~= send_ops(words, send_ms));
    assert(command_ops(words, send_ms, response_ms).skip(n) =~= response_ops(response_ms));
}

/// Erasing the chip brings the device into SACI mode and sends the command 0x09 with the flash
/// key.
pub proof fn law_erase_all_words()
    ensures
        enter_saci_ops() == seq![
            ProbeOp::Reinitialize,
            ProbeOp::Sleep { millis: 100 },
            ProbeOp::AwaitSaciMode { timeout_ms: 3000 },
        ],
        erase_all_ops() == enter_saci_ops() + command_ops(
            seq![0x0000_0009u32, 0xB7E3_A08Fu32],
            200,
            30_000,
        ),
{
    lemma_header_number(0x09, 0);
    let words = seq![header(0x09, 0), 0xB7E3_A08Fu32];
    assert(words =~= seq![0x0000_0009u32, 0xB7E3_A08Fu32]);
}

proof fn lemma_header_number(cmd_id: u32, cmd_specific: u32)
    requires
        cmd_id < 0x100,
    ensures
        header(cmd_id, cmd_specific) == 0x1_0000 * (cmd_specific % 0x1_0000) + cmd_id,
{
    law_header_fields(cmd_id, cmd_specific);
}

/// Of a number of bytes the lowest 16 bits are what is left of it in a header.
proof fn lemma_length_in_header(cmd_id: u32, len: u64)
    requires
        cmd_id < 0x100,
    ensures
        header(cmd_id, len as u32) == 0x1_0000 * (len % 0x1_0000) + cmd_id,
{
    lemma_header_number(cmd_id, len as u32);
    assert((len as u32) % 0x1_0000 == len % 0x1_0000) by (bit_vector);
}

/// Whether the words from number `from` on are exactly these bytes, each in its place, the
/// first byte of a word lowest, and the last word filled up with 0xFF.
pub open spec fn words_hold(words: Seq<u32>, from: int, data: Seq<u8>) -> bool {
    &&& words.len() == from + (data.len() + 3) / 4
    &&& forall|i: int| #![trigger data[i]]
        0 <= i < data.len() ==> byte_of(words[from + i / 4], i % 4) == data[i]
    &&& forall|i: int| #![trigger byte_of(words[from + i / 4], i % 4)]
        data.len() <= i < 4 * (words.len() - from) ==> byte_of(words[from + i / 4], i % 4) == 0xFF
}

proof fn lemma_packed_words_hold(words: Seq<u32>, from: int, data: Seq<u8>)
    requires
        0 <= from <= words.len(),
        words.skip(from) == packed_words(data, 0xFF),
    ensures
        words_hold(words, from, data),
{
    let packed = packed_words(data, 0xFF);
    assert(packed.len() == words.len() - from);
    assert forall|i: int| 0 <= i < 4 * packed.len() implies #[trigger] byte_of(
        words[from + i / 4],
        i % 4,
    ) == if i < data.len() {
        data[i]
    } else {
        0xFF
    } by {
        law_packed_words_hold_bytes(data, 0xFF, i);
        assert(packed[i / 4] == words[from + i / 4]);
    }
    assert forall|i: int| #![trigger data[i]] 0 <= i < data.len() implies byte_of(
        words[from + i / 4],
        i % 4,
    ) == data[i] by {
        assert(i < 4 * packed.len());
    }
}

/// Programming MAIN sends all of the bytes: the header tells the lowest 16 bits of their
/// number, the key and the address follow, and behind them every byte is in its place.
pub proof fn law_program_main_sends_all_bytes(address: u64, data: Seq<u8>)
    requires
        address < 0x4E02_0000,
        data.len() <= u64::MAX,
    ensures
        ({
            let words = program_words(address, data);
            &&& words.len() == 3 + (data.len() + 3) / 4
            &&& words[0] == 0x1_0000 * (data.len() % 0x1_0000) + 0x0E
            &&& words[1] == 0xB7E3_A08F
            &&& words[2] == address
            &&& words_hold(words, 3, data)
        }),
{
    let words = program_words(address, data);
    lemma_length_in_header(0x0E, data.len() as u64);
    assert(words.skip(3) =~= packed_words(data, 0xFF));
    lemma_packed_words_hold(words, 3, data);
}

/// Programming CCFG sends the whole sector: behind a header that leaves the user record out
/// and the key, the first 2048 bytes, and 0xFF for those that are missing.
pub proof fn law_program_ccfg_sends_whole_sector(address: u64, data: Seq<u8>, i: int)
    requires
        0x4E02_0000 <= address < 0x4E04_0000,
        0 <= i < 2048,
    ensures
        ({
            let words = program_words(address, data);
            &&& words.len() == 2 + 512
            &&& words[0] == 0x0001_000C
            &&& words[1] == 0xB7E3_A08F
            &&& byte_of(words[2 + i / 4], i % 4) == if i < data.len() {
                data[i] as int
            } else {
                0xFF
            }
        }),
{
    let words = program_words(address, data);
    let sector = Seq::new(
        2048,
        |i: int|
            if i < data.len() {
                data[i]
            } else {
                0xFFu8
            },
    );
    lemma_header_number(0x0C, 1);
    assert(ccfg_bytes(data) =~= sector);
    assert(words.skip(2) =~= packed_words(sector, 0xFF));
    lemma_packed_words_hold(words, 2, sector);
    assert(byte_of(words[2 + i / 4], i % 4) == sector[i]);
}

/// Programming SCFG sends all of the bytes: the header tells the lowest 16 bits of their
/// number, the key follows, and behind it every byte is in its place.
pub proof fn law_program_scfg_sends_all_bytes(address: u64, data: Seq<u8>)
    requires
        address >= 0x4E04_0000,
        data.len() <= u64::MAX,
    ensures
        ({
            let words = program_words(address, data);
            &&& words.len() == 2 + (data.len() + 3) / 4
            &&& words[0] == 0x1_0000 * (data.len() % 0x1_0000) + 0x1A
            &&& words[1] == 0xB7E3_A08F
            &&& words_hold(words, 2, data)
        }),
{
    let words = program_words(address, data);
    lemma_length_in_header(0x1A, data.len() as u64);
    assert(words.skip(2) =~= packed_words(data, 0xFF));
    lemma_packed_words_hold(words, 2, data);
}

/// Verifying MAIN names the address, the number of the bytes and their CRC-32.
pub proof fn law_verify_main_names_what_is_checked(address: u64, data: Seq<u8>)
    requires
        address < 0x4E02_0000,
        data.len() <= u64::MAX,
    ensures
        ({
            let words = verify_words(address, data);
            &&& words.len() == 4
            &&& words[0] == 0x0000_0010
            &&& words[1] == address
            &&& words[2] == data.len() % 0x1_0000_0000
            &&& words[3] == crc32(data)
        }),
{
    lemma_header_number(0x10, 0);
    let len: u64 = data.len() as u64;
    assert(len as u32 == len % 0x1_0000_0000) by (bit_vector);
}

/// Verifying CCFG leaves it to the checksums in it: the bytes do not matter, and neither does
/// the address.
pub proof fn law_verify_ccfg_names_nothing(address: u64, data: Seq<u8>)
    requires
        0x4E02_0000 <= address < 0x4E04_0000,
    ensures
        verify_words(address, data) == seq![0x0002_0011u32, 0, 0, 0, 0],
{
    lemma_header_number(0x11, 2);
}

/// Verifying SCFG names the CRC-32 of the first 0xE4 bytes, or of all if they are fewer.
pub proof fn law_verify_scfg_names_checksum_of_content(address: u64, data: Seq<u8>)
    requires
        address >= 0x4E04_0000,
    ensures
        ({
            let words = verify_words(address, data);
            &&& words.len() == 2
            &&& words[0] == 0x0001_001B
            &&& words[1] == crc32(
                if data.len() < 0xE4 {
                    data
                } else {
                    data.take(0xE4)
                },
            )
        }),
{
    lemma_header_number(0x1B, 1);
    assert(data.len() == 0xE4 ==> data.take(0xE4) =~= data);
}

/// The command that is named when programming or verifying fails is the one of the region
/// that the address belongs to.
pub proof fn law_commands_of_regions(address: u64)
    ensures
        ({
            let program = program_command(address);
            let verify = verify_command(address);
            if address < 0x4E02_0000 {
                &&& program == (SaciCommand::ProgMainSector { address })
                &&& verify == SaciCommand::VerifyMainSectors
            } else if address < 0x4E04_0000 {
                &&& program == SaciCommand::ProgCcfgSector
                &&& verify == SaciCommand::VerifyCcfgSector
            } else {
                &&& program == SaciCommand::ProgScfgSector
                &&& verify == SaciCommand::VerifyScfgSector
            }
        }),
{
}

/// Whether an operation reads a register.
pub open spec fn reads_register(op: ProbeOp) -> bool {
    op is ReadAp || op is TryReadAp || op is ReadBreakpointControl
}

/// Whether an operation waits with a timeout.
pub open spec fn waits(op: ProbeOp) -> bool {
    op is AwaitTxEmpty || op is AwaitRxReady || op is AwaitPower || op is AwaitSaciMode
}

/// Whether a script has moved on to the operation behind its next one, having read `value`.
pub open spec fn moves_on<E>(state: ScriptState<E>, next: ScriptState<E>, value: Value) -> bool {
    &&& next.remaining == state.remaining.drop_first()
    &&& next.value == value
    &&& next.error is None
}

/// What each reply does to a script. What the next operation read, or that it was done, takes
/// the script to the operation behind it. A failure ends the script with the error, but for a
/// read and a flush that may fail; so does running out of time where the operation waits. Any
/// other reply leaves the script as it is, and so does every reply when it has ended.
pub proof fn law_reply_effect<E>(state: ScriptState<E>, reply: Reply<E>)
    ensures
        ({
            let next = state.step(reply);
            let op = state.remaining[0];
            if state.remaining.len() == 0 {
                next == state
            } else {
                match reply {
                    Reply::Done => if reads_register(op) || op is ReadResetCatch
                        || op is ReadPowerStatus {
                        next == state
                    } else {
                        moves_on(state, next, Value::Nothing)
                    },
                    Reply::Word(word) => if reads_register(op) {
                        moves_on(state, next, Value::Word(word))
                    } else {
                        next == state
                    },
                    Reply::Flag(flag) => if op is ReadResetCatch {
                        moves_on(state, next, Value::Flag(flag))
                    } else {
                        next == state
                    },
                    Reply::Power { system, debug } => if op is ReadPowerStatus {
                        moves_on(state, next, Value::Power { system, debug })
                    } else {
                        next == state
                    },
                    Reply::TimedOut => if waits(op) {
                        &&& next.remaining.len() == 0
                        &&& next.error == Some(SequenceError::<E>::Timeout)
                    } else {
                        next == state
                    },
                    Reply::Failed(e) => if op is TryReadAp || op is Flush {
                        moves_on(state, next, Value::Nothing)
                    } else if op is Sleep || op is AwaitSaciMode {
                        next == state
                    } else {
                        &&& next.remaining.len() == 0
                        &&& next.error == Some(SequenceError::Probe(e))
                    },
                }
            }
        }),
{
}

/// A command that is sent without a failure, and whose response is read, ends with that
/// response; until then it goes through its operations one by one.
pub proof fn law_command_ends_with_response<E>(
    words: Seq<u32>,
    send_ms: u64,
    response_ms: u64,
    replies: Seq<Reply<E>>,
    response: u32,
)
    requires
        ({
            let ops = command_ops(words, send_ms, response_ms);
            &&& replies.len() <= ops.len()
            &&& forall|i: int| #![trigger replies[i]]
                0 <= i < replies.len() ==> replies[i] == if i < ops.len() - 1 {
                    Reply::<E>::Done
                } else {
                    Reply::<E>::Word(response)
                }
        }),
    ensures
        ({
            let ops = command_ops(words, send_ms, response_ms);
            let state = script_after(ops, replies);
            &&& state.remaining == ops.skip(replies.len() as int)
            &&& state.outcome() == if replies.len() < ops.len() {
                None
            } else {
                Some(Ok::<Value, SequenceError<E>>(Value::Word(response)))
            }
        }),
{
    let ops = command_ops(words, send_ms, response_ms);
    lemma_command_ops_kinds(words, send_ms, response_ms);
    assert forall|i: int| #![trigger replies[i]] 0 <= i < replies.len() implies answers(
        ops[i],
        replies[i],
    ) && reply_error(ops[i], replies[i]) is None by {
        assert(ops[i] is AwaitTxEmpty || ops[i] is WriteAp || ops[i] is AwaitRxReady
            || ops[i] is ReadAp);
    }
    law_script_follows_ops(ops, replies);
    if replies.len() == ops.len() {
        assert(replies.last() == replies[ops.len() - 1]);
    }
}

proof fn lemma_command_ops_kinds(words: Seq<u32>, send_ms: u64, response_ms: u64)
    ensures
        ({
            let ops = command_ops(words, send_ms, response_ms);
            &&& ops.len() >= 2
            &&& ops.last() is ReadAp
            &&& forall|i: int|
                0 <= i < ops.len() - 1 ==> #[trigger] ops[i] is AwaitTxEmpty || ops[i] is WriteAp
                    || ops[i] is AwaitRxReady
        }),
{
    let ops = command_ops(words, send_ms, response_ms);
    let send = send_ops(words, send_ms);
    assert forall|i: int| 0 <= i < ops.len() - 1 implies #[trigger] ops[i] is AwaitTxEmpty
        || ops[i] is WriteAp || ops[i] is AwaitRxReady by {
        if i < send.len() {
            assert(ops[i] == send[i]);
            if words.len() > 1 && 5 <= i < send.len() - 1 {
                assert(send[i] == continuation_ops(words, send_ms)[i - 5]);
            }
        }
    }
}

/// A command ends with the error of its first operation that fails or runs out of time, and
/// nothing of it is done behind that.
pub proof fn law_command_ends_with_first_error<E>(
    words: Seq<u32>,
    send_ms: u64,
    response_ms: u64,
    replies: Seq<Reply<E>>,
    k: int,
)
    requires
        ({
            let ops = command_ops(words, send_ms, response_ms);
            &&& 0 <= k < ops.len()
            &&& k < replies.len()
            &&& forall|i: int| #![trigger replies[i]] 0 <= i < k ==> replies[i] is Done
            &&& replies[k] is Failed || (replies[k] is TimedOut && (ops[k] is AwaitTxEmpty
                || ops[k] is AwaitRxReady))
        }),
    ensures
        ({
            let state = script_after(command_ops(words, send_ms, response_ms), replies);
            &&& state.remaining.len() == 0
            &&& state.outcome() == Some(
                Err::<Value, SequenceError<E>>(
                    match replies[k] {
                        Reply::Failed(e) => SequenceError::Probe(e),
                        _ => SequenceError::Timeout,
                    },
                ),
            )
        }),
{
    let ops = command_ops(words, send_ms, response_ms);
    lemma_command_ops_kinds(words, send_ms, response_ms);
    assert forall|i: int| #![trigger replies[i]] 0 <= i <= k implies answers(
        ops[i],
        replies[i],
    ) && (i < k ==> reply_error(ops[i], replies[i]) is None) by {
        assert(ops[i] is AwaitTxEmpty || ops[i] is WriteAp || ops[i] is AwaitRxReady
            || ops[i] is ReadAp);
    }
    law_script_stops_at_first_error(ops, replies, k);
}

} // verus!
