//! Flash programming of CC23xx and CC27xx devices by SACI commands, sent through the SEC-AP.

use vstd::prelude::*;

use super::crc::{crc32, crc32_iso_hdlc};
use super::error::{SaciCommand, SequenceError};
use super::registers::{ApSel, TxCtrlRegister, RX_DATA, TX_CTRL, TX_DATA};
use super::saci::{
    header, make_header, pack_words, packed_words, FlashRegion, SaciResult, CCFG_SIZE, ERASED_BYTE,
    FLASH_ERASE_CHIP, FLASH_KEY, FLASH_PROG_CCFG_SECTOR, FLASH_PROG_MAIN_SECTOR,
    FLASH_PROG_SCFG_SECTOR, FLASH_VERIFY_CCFG_SECTOR, FLASH_VERIFY_MAIN_SECTORS,
    FLASH_VERIFY_SCFG_SECTOR, SCFG_CRC_BYTE_COUNT,
};
use super::script::{ProbeOp, Reply, Script, ScriptState, Value};

verus! {

/// Writes a word of a command.
pub open spec fn data_write(word: u32) -> ProbeOp {
    ProbeOp::WriteAp { ap: ApSel::SecAp, address: TX_DATA, value: word }
}

/// Tells the device whether the next word starts a command, which is bit 1 of TX_CTRL.
pub open spec fn start_write(start: bool) -> ProbeOp {
    ProbeOp::WriteAp {
        ap: ApSel::SecAp,
        address: TX_CTRL,
        value: if start {
            2
        } else {
            0
        },
    }
}

/// Sends the words behind the first, each when the device has taken the one before.
pub open spec fn continuation_ops(words: Seq<u32>, timeout_ms: u64) -> Seq<ProbeOp> {
    Seq::new(
        (2 * (words.len() - 1)) as nat,
        |i: int|
            if i % 2 == 0 {
                ProbeOp::AwaitTxEmpty { timeout_ms }
            } else {
                data_write(words[1 + i / 2])
            },
    )
}

/// Sends the words of a command: the first is marked as its start, each is sent when the
/// device has taken the one before, and the device is waited for at the end. For no words
/// nothing is done.
pub open spec fn send_ops(words: Seq<u32>, timeout_ms: u64) -> Seq<ProbeOp> {
    let wait = ProbeOp::AwaitTxEmpty { timeout_ms };
    if words.len() == 0 {
        Seq::empty()
    } else if words.len() == 1 {
        seq![wait, start_write(true), data_write(words[0]), wait]
    } else {
        seq![wait, start_write(true), data_write(words[0]), wait, start_write(false)]
            + continuation_ops(words, timeout_ms) + seq![wait]
    }
}

/// Waits for a response and reads it.
pub open spec fn response_ops(timeout_ms: u64) -> Seq<ProbeOp> {
    seq![
        ProbeOp::AwaitRxReady { timeout_ms },
        ProbeOp::ReadAp { ap: ApSel::SecAp, address: RX_DATA },
    ]
}

/// Sends a command and reads its response.
pub open spec fn command_ops(words: Seq<u32>, send_ms: u64, response_ms: u64) -> Seq<ProbeOp> {
    send_ops(words, send_ms) + response_ops(response_ms)
}

/// Brings the device into SACI mode.
pub open spec fn enter_saci_ops() -> Seq<ProbeOp> {
    seq![
        ProbeOp::Reinitialize,
        ProbeOp::Sleep { millis: 100 },
        ProbeOp::AwaitSaciMode { timeout_ms: 3000 },
    ]
}

/// Brings the device into SACI mode and erases the chip.
pub open spec fn erase_all_ops() -> Seq<ProbeOp> {
    enter_saci_ops() + command_ops(seq![header(FLASH_ERASE_CHIP, 0), FLASH_KEY], 200, 30_000)
}

/// The bytes as they fill the CCFG sector: cut off behind its end, or filled up to it with
/// the value of erased flash.
pub open spec fn ccfg_bytes(data: Seq<u8>) -> Seq<u8> {
    Seq::new(
        CCFG_SIZE as nat,
        |i: int|
            if i < data.len() {
                data[i]
            } else {
                ERASED_BYTE
            },
    )
}

/// The words of the command that programs the bytes at an address.
///
/// MAIN and SCFG are told the number of bytes in the header, MAIN the address as well; CCFG is
/// told to leave its user record out.
pub open spec fn program_words(address: u64, data: Seq<u8>) -> Seq<u32> {
    match FlashRegion::spec_at(address) {
        FlashRegion::Main => seq![
            header(FLASH_PROG_MAIN_SECTOR, data.len() as u32),
            FLASH_KEY,
            address as u32,
        ] + packed_words(data, ERASED_BYTE),
        FlashRegion::Ccfg => seq![header(FLASH_PROG_CCFG_SECTOR, 1), FLASH_KEY] + packed_words(
            ccfg_bytes(data),
            ERASED_BYTE,
        ),
        FlashRegion::Scfg => seq![
            header(FLASH_PROG_SCFG_SECTOR, data.len() as u32),
            FLASH_KEY,
        ] + packed_words(data, ERASED_BYTE),
    }
}

/// The command that programs an address.
pub open spec fn program_command(address: u64) -> SaciCommand {
    match FlashRegion::spec_at(address) {
        FlashRegion::Main => SaciCommand::ProgMainSector { address },
        FlashRegion::Ccfg => SaciCommand::ProgCcfgSector,
        FlashRegion::Scfg => SaciCommand::ProgScfgSector,
    }
}

/// The bytes that the checksum of SCFG covers.
pub open spec fn scfg_checked(data: Seq<u8>) -> Seq<u8> {
    if data.len() <= SCFG_CRC_BYTE_COUNT {
        data
    } else {
        data.take(SCFG_CRC_BYTE_COUNT as int)
    }
}

/// The words of the command that verifies the bytes at an address.
///
/// MAIN is told the address, the number of bytes and their checksum, SCFG to go by the checksum
/// that follows. CCFG is told to go by the checksums embedded in it and to leave its user
/// record out.
pub open spec fn verify_words(address: u64, data: Seq<u8>) -> Seq<u32> {
    match FlashRegion::spec_at(address) {
        FlashRegion::Main => seq![
            header(FLASH_VERIFY_MAIN_SECTORS, 0),
            address as u32,
            data.len() as u32,
            crc32(data),
        ],
        FlashRegion::Ccfg => seq![header(FLASH_VERIFY_CCFG_SECTOR, 2), 0, 0, 0, 0],
        FlashRegion::Scfg => seq![header(FLASH_VERIFY_SCFG_SECTOR, 1), crc32(scfg_checked(data))],
    }
}

/// The command that verifies an address.
pub open spec fn verify_command(address: u64) -> SaciCommand {
    match FlashRegion::spec_at(address) {
        FlashRegion::Main => SaciCommand::VerifyMainSectors,
        FlashRegion::Ccfg => SaciCommand::VerifyCcfgSector,
        FlashRegion::Scfg => SaciCommand::VerifyScfgSector,
    }
}

/// What a response to a command means: success, or that the command failed.
pub open spec fn checked_response<E>(response: u32, command: SaciCommand) -> Result<
    (),
    SequenceError<E>,
> {
    let result = SaciResult::spec_in_response(response);
    if result == SaciResult::Success {
        Ok(())
    } else {
        Err(SequenceError::SaciFailed { command, result })
    }
}

/// What a response to a verify command means: the content is equal, it differs, or the
/// command failed. On CCFG a failed blank check tells that it differs, too.
pub open spec fn verified_response<E>(response: u32, command: SaciCommand) -> Result<
    bool,
    SequenceError<E>,
> {
    let result = SaciResult::spec_in_response(response);
    if result == SaciResult::Success {
        Ok(true)
    } else if result == SaciResult::Crc32Mismatch {
        Ok(false)
    } else if result == SaciResult::BlankCheckFailed && command == SaciCommand::VerifyCcfgSector {
        Ok(false)
    } else {
        Err(SequenceError::SaciFailed { command, result })
    }
}

/// Sends the words of a SACI command.
pub fn saci_send_words(words: &[u32], timeout_ms: u64) -> (ops: Vec<ProbeOp>)
    ensures
        ops@ == send_ops(words@, timeout_ms),
{
    let mut ops: Vec<ProbeOp> = Vec::new();
    if words.len() == 0 {
        return ops;
    }
    let mut tx_ctrl = TxCtrlRegister(0);
    tx_ctrl.set_cmd_start(true);
    assert(0u32 | 2u32 == 2) by (bit_vector);
    ops.push(ProbeOp::AwaitTxEmpty { timeout_ms });
    ops.push(ProbeOp::WriteAp { ap: ApSel::SecAp, address: TX_CTRL, value: tx_ctrl.0 });
    ops.push(ProbeOp::WriteAp { ap: ApSel::SecAp, address: TX_DATA, value: words[0] });
    if words.len() > 1 {
        ops.push(ProbeOp::AwaitTxEmpty { timeout_ms });
        ops.push(ProbeOp::WriteAp { ap: ApSel::SecAp, address: TX_CTRL, value: 0 });
        let ghost begun = ops@;
        let mut i: usize = 1;
        while i < words.len()
            invariant
                1 <= i <= words@.len(),
                ops@ =~= begun + continuation_ops(words@, timeout_ms).take(2 * (i - 1)),
            decreases words@.len() - i,
        {
            ops.push(ProbeOp::AwaitTxEmpty { timeout_ms });
            ops.push(ProbeOp::WriteAp { ap: ApSel::SecAp, address: TX_DATA, value: words[i] });
            i = i + 1;
        }
    }
    ops.push(ProbeOp::AwaitTxEmpty { timeout_ms });
    assert(ops@ =~= send_ops(words@, timeout_ms));
    ops
}

/// Reads one response word from the device.
pub fn saci_read_response(timeout_ms: u64) -> (ops: Vec<ProbeOp>)
    ensures
        ops@ == response_ops(timeout_ms),
{
    let mut ops: Vec<ProbeOp> = Vec::new();
    ops.push(ProbeOp::AwaitRxReady { timeout_ms });
    ops.push(ProbeOp::ReadAp { ap: ApSel::SecAp, address: RX_DATA });
    assert(ops@ =~= response_ops(timeout_ms));
    ops
}

fn saci_transfer(words: &[u32], send_ms: u64, response_ms: u64) -> (ops: Vec<ProbeOp>)
    ensures
        ops@ == command_ops(words@, send_ms, response_ms),
{
    let mut ops = saci_send_words(words, send_ms);
    let mut response = saci_read_response(response_ms);
    ops.append(&mut response);
    ops
}

/// Checks a response word and returns an error if the result is not success.
pub fn check_saci_result<E>(response: u32, command: SaciCommand) -> (checked: Result<
    (),
    SequenceError<E>,
>)
    ensures
        checked == checked_response::<E>(response, command),
{
    let result = SaciResult::in_response(response);
    if result != SaciResult::Success {
        return Err(SequenceError::SaciFailed { command, result });
    }
    Ok(())
}

/// Tells what a response word says of the content that was verified.
pub fn verify_saci_result<E>(response: u32, command: SaciCommand) -> (verified: Result<
    bool,
    SequenceError<E>,
>)
    ensures
        verified == verified_response::<E>(response, command),
{
    let result = SaciResult::in_response(response);
    match result {
        SaciResult::Success => Ok(true),
        SaciResult::Crc32Mismatch => Ok(false),
        SaciResult::BlankCheckFailed => {
            if command == SaciCommand::VerifyCcfgSector {
                Ok(false)
            } else {
                Err(SequenceError::SaciFailed { command, result })
            }
        },
        _ => Err(SequenceError::SaciFailed { command, result }),
    }
}

/// A SACI command on its way: a script that ends with its response.
pub struct Transaction<E> {
    /// The operations of the debug probe.
    pub script: Script<E>,
    /// The command.
    pub command: SaciCommand,
}

impl<E> Transaction<E> {
    /// The response, once it is there, or the error that kept it away.
    pub open spec fn spec_response(self) -> Option<Result<u32, SequenceError<E>>> {
        match self.script@.outcome() {
            Some(Ok(Value::Word(response))) => Some(Ok(response)),
            Some(Err(e)) => Some(Err(e)),
            _ => None,
        }
    }

    /// Returns the next operation, or `None` when the script has ended.
    pub fn next_op(&self) -> (op: Option<ProbeOp>)
        ensures
            op is None <==> self.script@.remaining.len() == 0,
            op matches Some(op) ==> op == self.script@.remaining[0],
    {
        self.script.next_op()
    }

    /// Takes the reply to the next operation.
    pub fn advance(&mut self, reply: Reply<E>)
        ensures
            final(self).script@ == old(self).script@.step(reply),
            final(self).command == old(self).command,
    {
        self.script.advance(reply);
    }

    fn into_response(self) -> (response: Option<Result<u32, SequenceError<E>>>)
        ensures
            response == self.spec_response(),
    {
        match self.script.into_outcome() {
            Some(Ok(Value::Word(response))) => Some(Ok(response)),
            Some(Err(e)) => Some(Err(e)),
            _ => None,
        }
    }

    /// Returns whether the device carried out the command, or `None` while that is open.
    pub fn into_result(self) -> (result: Option<Result<(), SequenceError<E>>>)
        ensures
            result == match self.spec_response() {
                Some(Ok(response)) => Some(checked_response::<E>(response, self.command)),
                Some(Err(e)) => Some(Err(e)),
                None => None,
            },
    {
        let command = self.command;
        match self.into_response() {
            Some(Ok(response)) => Some(check_saci_result(response, command)),
            Some(Err(e)) => Some(Err(e)),
            None => None,
        }
    }

    /// Returns whether the device found the content equal, or `None` while that is open.
    pub fn into_verified(self) -> (verified: Option<Result<bool, SequenceError<E>>>)
        ensures
            verified == match self.spec_response() {
                Some(Ok(response)) => Some(verified_response::<E>(response, self.command)),
                Some(Err(e)) => Some(Err(e)),
                None => None,
            },
    {
        let command = self.command;
        match self.into_response() {
            Some(Ok(response)) => Some(verify_saci_result(response, command)),
            Some(Err(e)) => Some(Err(e)),
            None => None,
        }
    }
}

/// Host-side flash programming for CC23xx and CC27xx devices.
///
/// While a flash sequence is in use, a flag that it shares with the debug sequence is set,
/// so that starting the debug port does not leave SACI mode.
#[derive(Debug, PartialEq, Eq)]
pub struct CC23xxCC27xxFlashSequence {}

impl CC23xxCC27xxFlashSequence {
    /// Creates a flash sequence and sets the flag that it shares with the debug sequence.
    pub fn new_with_flag(saci_flash_mode: &mut bool) -> (sequence: Self)
        ensures
            *final(saci_flash_mode),
    {
        *saci_flash_mode = true;
        CC23xxCC27xxFlashSequence {  }
    }

    /// Creates a flash sequence that shares its flag with nothing.
    pub fn new() -> (sequence: Self)
        ensures
            sequence == (CC23xxCC27xxFlashSequence {  }),
    {
        let mut saci_flash_mode = false;
        CC23xxCC27xxFlashSequence::new_with_flag(&mut saci_flash_mode)
    }

    /// Gives the flash sequence up, so that later debug sessions leave SACI mode.
    pub fn release(self, saci_flash_mode: &mut bool)
        ensures
            !*final(saci_flash_mode),
    {
        *saci_flash_mode = false;
    }

    /// Brings the device into SACI mode by a hardware reset.
    ///
    /// Initializing the interface again asserts nRESET, which makes the ROM enter SACI mode;
    /// a reset that the core requests does not. Starting the debug port then leaves SACI
    /// active, because the flag is set.
    pub fn reset_into_saci_mode(&self) -> (ops: Vec<ProbeOp>)
        ensures
            ops@ == enter_saci_ops(),
    {
        let mut ops: Vec<ProbeOp> = Vec::new();
        ops.push(ProbeOp::Reinitialize);
        ops.push(ProbeOp::Sleep { millis: 100 });
        ops.push(ProbeOp::AwaitSaciMode { timeout_ms: 3000 });
        assert(ops@ =~= enter_saci_ops());
        ops
    }

    /// Erases the whole chip.
    pub fn erase_all<E>(&self) -> (transaction: Transaction<E>)
        ensures
            transaction.script@ == ScriptState::<E>::start(erase_all_ops()),
            transaction.command == SaciCommand::EraseChip,
    {
        let mut ops = self.reset_into_saci_mode();
        let words: [u32; 2] = [make_header(FLASH_ERASE_CHIP, 0), FLASH_KEY];
        let mut transfer = saci_transfer(&words, 200, 30_000);
        ops.append(&mut transfer);
        assert(words@ =~= seq![header(FLASH_ERASE_CHIP, 0), FLASH_KEY]);
        Transaction { script: Script::start(ops), command: SaciCommand::EraseChip }
    }

    fn program_main(&self, address: u64, data: &[u8]) -> (words: Vec<u32>)
        requires
            FlashRegion::spec_at(address) == FlashRegion::Main,
        ensures
            words@ == program_words(address, data@),
    {
        let byte_count = data.len() as u32;
        let mut words: Vec<u32> = Vec::new();
        words.push(make_header(FLASH_PROG_MAIN_SECTOR, byte_count));
        words.push(FLASH_KEY);
        words.push(address as u32);
        let mut packed = pack_words(data, ERASED_BYTE);
        words.append(&mut packed);
        assert(words@ =~= program_words(address, data@));
        words
    }

    fn program_ccfg(&self, address: u64, data: &[u8]) -> (words: Vec<u32>)
        requires
            FlashRegion::spec_at(address) == FlashRegion::Ccfg,
        ensures
            words@ == program_words(address, data@),
    {
        let mut padded: Vec<u8> = Vec::new();
        while padded.len() < CCFG_SIZE
            invariant
                padded@.len() <= CCFG_SIZE,
                padded@ =~= ccfg_bytes(data@).take(padded@.len() as int),
            decreases CCFG_SIZE - padded@.len(),
        {
            let i = padded.len();
            padded.push(
                if i < data.len() {
                    data[i]
                } else {
                    ERASED_BYTE
                },
            );
        }
        assert(padded@ =~= ccfg_bytes(data@));
        let mut words: Vec<u32> = Vec::new();
        words.push(make_header(FLASH_PROG_CCFG_SECTOR, 1));
        words.push(FLASH_KEY);
        let mut packed = pack_words(padded.as_slice(), ERASED_BYTE);
        words.append(&mut packed);
        assert(words@ =~= program_words(address, data@));
        words
    }

    fn program_scfg(&self, address: u64, data: &[u8]) -> (words: Vec<u32>)
        requires
            FlashRegion::spec_at(address) == FlashRegion::Scfg,
        ensures
            words@ == program_words(address, data@),
    {
        let byte_count = data.len() as u32;
        let mut words: Vec<u32> = Vec::new();
        words.push(make_header(FLASH_PROG_SCFG_SECTOR, byte_count));
        words.push(FLASH_KEY);
        let mut packed = pack_words(data, ERASED_BYTE);
        words.append(&mut packed);
        assert(words@ =~= program_words(address, data@));
        words
    }

    /// Programs bytes at an address, by the command of the region that it belongs to.
    pub fn program<E>(&self, address: u64, data: &[u8]) -> (transaction: Transaction<E>)
        ensures
            transaction.script@ == ScriptState::<E>::start(
                command_ops(program_words(address, data@), 200, 5000),
            ),
            transaction.command == program_command(address),
    {
        let (words, command) = match FlashRegion::at(address) {
            FlashRegion::Scfg => (self.program_scfg(address, data), SaciCommand::ProgScfgSector),
            FlashRegion::Ccfg => (self.program_ccfg(address, data), SaciCommand::ProgCcfgSector),
            FlashRegion::Main => (
                self.program_main(address, data),
                SaciCommand::ProgMainSector { address },
            ),
        };
        let ops = saci_transfer(words.as_slice(), 200, 5000);
        Transaction { script: Script::start(ops), command }
    }

    /// Verifies bytes at an address, by the command of the region that it belongs to.
    ///
    /// MAIN and SCFG are compared by the checksum of the bytes, of which SCFG counts only
    /// the first. For CCFG the device goes by the checksums that are embedded in it.
    pub fn verify<E>(&self, address: u64, data: &[u8]) -> (transaction: Transaction<E>)
        ensures
            transaction.script@ == ScriptState::<E>::start(
                command_ops(verify_words(address, data@), 100, 10_000),
            ),
            transaction.command == verify_command(address),
    {
        let mut words: Vec<u32> = Vec::new();
        let command = match FlashRegion::at(address) {
            FlashRegion::Scfg => {
                let expected_crc = if data.len() <= SCFG_CRC_BYTE_COUNT {
                    crc32_iso_hdlc(data)
                } else {
                    crc32_iso_hdlc(vstd::slice::slice_subrange(data, 0, SCFG_CRC_BYTE_COUNT))
                };
                words.push(make_header(FLASH_VERIFY_SCFG_SECTOR, 1));
                words.push(expected_crc);
                SaciCommand::VerifyScfgSector
            },
            FlashRegion::Ccfg => {
                words.push(make_header(FLASH_VERIFY_CCFG_SECTOR, 2));
                words.push(0);
                words.push(0);
                words.push(0);
                words.push(0);
                SaciCommand::VerifyCcfgSector
            },
            FlashRegion::Main => {
                words.push(make_header(FLASH_VERIFY_MAIN_SECTORS, 0));
                words.push(address as u32);
                words.push(data.len() as u32);
                words.push(crc32_iso_hdlc(data));
                SaciCommand::VerifyMainSectors
            },
        };
        assert(words@ =~= verify_words(address, data@));
        let ops = saci_transfer(words.as_slice(), 100, 10_000);
        Transaction { script: Script::start(ops), command }
    }

    /// The device erases only as a whole.
    pub fn supports_sector_erase(&self) -> (supported: bool)
        ensures
            !supported,
    {
        false
    }

    /// Leaves SACI mode when flashing is over, for the debug access that follows.
    ///
    /// The flag is cleared first, so that initializing the interface again leaves SACI mode.
    pub fn finish_flash(&self, saci_flash_mode: &mut bool) -> (ops: Vec<ProbeOp>)
        ensures
            !*final(saci_flash_mode),
            ops@ == seq![ProbeOp::Reinitialize],
    {
        *saci_flash_mode = false;
        let mut ops: Vec<ProbeOp> = Vec::new();
        ops.push(ProbeOp::Reinitialize);
        assert(ops@ =~= seq![ProbeOp::Reinitialize]);
        ops
    }
}

impl Default for CC23xxCC27xxFlashSequence {
    fn default() -> (sequence: Self)
        ensures
            sequence == (CC23xxCC27xxFlashSequence {  }),
    {
        CC23xxCC27xxFlashSequence::new()
    }
}

} // verus!
