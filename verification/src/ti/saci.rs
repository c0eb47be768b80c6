//! The words of SACI commands and the results in their responses.

use vstd::prelude::*;

verus! {

/// Magic key, the second word of every command that erases or programs.
pub const FLASH_KEY: u32 = 0xB7E3_A08F;

/// Exit SACI mode and halt at the first instruction.
pub const DEBUG_EXIT_SACI_HALT: u32 = 0x07;

/// Erase the entire chip (MAIN, CCFG and, on CC27xx, SCFG).
pub const FLASH_ERASE_CHIP: u32 = 0x09;

/// Program the CCFG sector (always all of its 512 words).
pub const FLASH_PROG_CCFG_SECTOR: u32 = 0x0C;

/// Program a single MAIN sector.
pub const FLASH_PROG_MAIN_SECTOR: u32 = 0x0E;

/// Verify MAIN flash sectors using CRC-32.
pub const FLASH_VERIFY_MAIN_SECTORS: u32 = 0x10;

/// Verify the CCFG sector.
pub const FLASH_VERIFY_CCFG_SECTOR: u32 = 0x11;

/// Program the SCFG sector (CC27xx only).
pub const FLASH_PROG_SCFG_SECTOR: u32 = 0x1A;

/// Verify the SCFG sector (CC27xx only).
pub const FLASH_VERIFY_SCFG_SECTOR: u32 = 0x1B;

/// The first address of the CCFG region.
pub const CCFG_START: u64 = 0x4E02_0000;

/// The first address of the SCFG region.
pub const SCFG_START: u64 = 0x4E04_0000;

/// The number of bytes in the CCFG sector.
pub const CCFG_SIZE: usize = 2048;

/// The number of bytes of SCFG, counted from its start, that its CRC-32 covers.
pub const SCFG_CRC_BYTE_COUNT: usize = 0xE4;

/// The value of a flash byte that has been erased.
pub const ERASED_BYTE: u8 = 0xFF;

/// Flash memory region of a device.
#[derive(Debug, Clone, Copy, PartialEq, Eq, Structural)]
pub enum FlashRegion {
    /// Main application flash.
    Main,
    /// Customer Configuration (CCFG) sector.
    Ccfg,
    /// Security Configuration (SCFG) sector, CC27xx only.
    Scfg,
}

impl FlashRegion {
    /// The region that an address belongs to.
    pub open spec fn spec_at(address: u64) -> FlashRegion {
        if address >= SCFG_START {
            FlashRegion::Scfg
        } else if address >= CCFG_START {
            FlashRegion::Ccfg
        } else {
            FlashRegion::Main
        }
    }

    /// Returns the region that an address belongs to.
    pub fn at(address: u64) -> (region: FlashRegion)
        ensures
            region == FlashRegion::spec_at(address),
    {
        if address >= SCFG_START {
            FlashRegion::Scfg
        } else if address >= CCFG_START {
            FlashRegion::Ccfg
        } else {
            FlashRegion::Main
        }
    }
}

/// SACI command result codes.
///
/// Success is 0x00; all error codes are in the range from 0x80 to 0xFF.
#[derive(Debug, Clone, Copy, PartialEq, Eq, Structural)]
pub enum SaciResult {
    /// Command completed successfully.
    Success,
    /// Unknown or unsupported command ID.
    InvalidCmdId,
    /// Invalid address parameter.
    InvalidAddressParam,
    /// Invalid size parameter.
    InvalidSizeParam,
    /// Invalid or missing flash key.
    InvalidKeyParam,
    /// Flash FSM hardware error.
    FlashFsmError,
    /// Too many parameter words (buffer overflow).
    ParamBufferOverflow,
    /// Command not allowed in current state (e.g., CCFG already programmed).
    NotAllowed,
    /// CRC-32 mismatch during verification.
    Crc32Mismatch,
    /// Blank check failed (flash not erased).
    BlankCheckFailed,
    /// Unrecognised result code.
    Unknown,
}

impl SaciResult {
    /// The code by which the device gives the result.
    pub open spec fn spec_code(self) -> u8 {
        match self {
            SaciResult::Success => 0x00,
            SaciResult::InvalidCmdId => 0x80,
            SaciResult::InvalidAddressParam => 0x81,
            SaciResult::InvalidSizeParam => 0x82,
            SaciResult::InvalidKeyParam => 0x83,
            SaciResult::FlashFsmError => 0x84,
            SaciResult::ParamBufferOverflow => 0x85,
            SaciResult::NotAllowed => 0x86,
            SaciResult::Crc32Mismatch => 0x87,
            SaciResult::BlankCheckFailed => 0x89,
            SaciResult::Unknown => 0xFF,
        }
    }

    /// The result that a code stands for: the one with that code, or `Unknown` where no
    /// result has it.
    pub open spec fn spec_from_code(code: u8) -> SaciResult {
        if exists|result: SaciResult| #[trigger] result.spec_code() == code {
            choose|result: SaciResult| #[trigger] result.spec_code() == code
        } else {
            SaciResult::Unknown
        }
    }

    /// The result that a response word gives, in its third byte.
    pub open spec fn spec_in_response(response: u32) -> SaciResult {
        SaciResult::spec_from_code(((response / 0x1_0000) % 0x100) as u8)
    }

    /// The name of the result.
    pub open spec fn spec_name(self) -> Seq<char> {
        match self {
            SaciResult::Success => "Success"@,
            SaciResult::InvalidCmdId => "InvalidCmdId"@,
            SaciResult::InvalidAddressParam => "InvalidAddressParam"@,
            SaciResult::InvalidSizeParam => "InvalidSizeParam"@,
            SaciResult::InvalidKeyParam => "InvalidKeyParam"@,
            SaciResult::FlashFsmError => "FlashFsmError"@,
            SaciResult::ParamBufferOverflow => "ParamBufferOverflow"@,
            SaciResult::NotAllowed => "NotAllowed"@,
            SaciResult::Crc32Mismatch => "Crc32Mismatch"@,
            SaciResult::BlankCheckFailed => "BlankCheckFailed"@,
            SaciResult::Unknown => "Unknown"@,
        }
    }

    /// Returns the code by which the device gives the result.
    pub fn code(self) -> (code: u8)
        ensures
            code == self.spec_code(),
    {
        match self {
            SaciResult::Success => 0x00,
            SaciResult::InvalidCmdId => 0x80,
            SaciResult::InvalidAddressParam => 0x81,
            SaciResult::InvalidSizeParam => 0x82,
            SaciResult::InvalidKeyParam => 0x83,
            SaciResult::FlashFsmError => 0x84,
            SaciResult::ParamBufferOverflow => 0x85,
            SaciResult::NotAllowed => 0x86,
            SaciResult::Crc32Mismatch => 0x87,
            SaciResult::BlankCheckFailed => 0x89,
            SaciResult::Unknown => 0xFF,
        }
    }

    /// Returns the name of the result.
    pub fn name(self) -> (name: &'static str)
        ensures
            name@ == self.spec_name(),
    {
        match self {
            SaciResult::Success => "Success",
            SaciResult::InvalidCmdId => "InvalidCmdId",
            SaciResult::InvalidAddressParam => "InvalidAddressParam",
            SaciResult::InvalidSizeParam => "InvalidSizeParam",
            SaciResult::InvalidKeyParam => "InvalidKeyParam",
            SaciResult::FlashFsmError => "FlashFsmError",
            SaciResult::ParamBufferOverflow => "ParamBufferOverflow",
            SaciResult::NotAllowed => "NotAllowed",
            SaciResult::Crc32Mismatch => "Crc32Mismatch",
            SaciResult::BlankCheckFailed => "BlankCheckFailed",
            SaciResult::Unknown => "Unknown",
        }
    }

    /// Returns the result that a response word gives.
    pub fn in_response(response: u32) -> (result: SaciResult)
        ensures
            result == SaciResult::spec_in_response(response),
    {
        assert((response >> 16u32) & 0xFF == (response / 0x1_0000) % 0x100) by (bit_vector);
        SaciResult::from(((response >> 16u32) & 0xFF) as u8)
    }
}

/// A code stands for at most one result, and for a named one only if it is that one's.
proof fn lemma_from_code(result: SaciResult)
    ensures
        SaciResult::spec_from_code(result.spec_code()) == result,
{
    let found = SaciResult::spec_from_code(result.spec_code());
    assert(found.spec_code() == result.spec_code());
}

impl From<u8> for SaciResult {
    fn from(value: u8) -> (result: SaciResult) {
        let result = match value {
            0x00 => SaciResult::Success,
            0x80 => SaciResult::InvalidCmdId,
            0x81 => SaciResult::InvalidAddressParam,
            0x82 => SaciResult::InvalidSizeParam,
            0x83 => SaciResult::InvalidKeyParam,
            0x84 => SaciResult::FlashFsmError,
            0x85 => SaciResult::ParamBufferOverflow,
            0x86 => SaciResult::NotAllowed,
            0x87 => SaciResult::Crc32Mismatch,
            0x89 => SaciResult::BlankCheckFailed,
            _ => SaciResult::Unknown,
        };
        proof {
            lemma_from_code(result);
        }
        result
    }
}

impl vstd::std_specs::convert::FromSpecImpl<u8> for SaciResult {
    open spec fn obeys_from_spec() -> bool {
        true
    }

    open spec fn from_spec(value: u8) -> SaciResult {
        SaciResult::spec_from_code(value)
    }
}

/// The header of a command: the command in the low half, what is specific to it in the high
/// half. Of the latter only the lowest 16 bits find room.
pub open spec fn header(cmd_id: u32, cmd_specific: u32) -> u32 {
    (cmd_specific << 16) | cmd_id
}

/// Byte `i` of `data`, or `pad` behind its end.
pub open spec fn padded_byte(data: Seq<u8>, pad: u8, i: int) -> u8 {
    if i < data.len() {
        data[i]
    } else {
        pad
    }
}

/// Four bytes as a number, the first byte lowest.
pub open spec fn little_endian(b0: u8, b1: u8, b2: u8, b3: u8) -> u32 {
    (b0 + 0x100 * b1 + 0x1_0000 * b2 + 0x100_0000 * b3) as u32
}

/// The bytes four by four as little-endian words, the last word filled up with `pad`.
pub open spec fn packed_words(data: Seq<u8>, pad: u8) -> Seq<u32> {
    Seq::new(
        ((data.len() + 3) / 4) as nat,
        |i: int|
            little_endian(
                padded_byte(data, pad, 4 * i),
                padded_byte(data, pad, 4 * i + 1),
                padded_byte(data, pad, 4 * i + 2),
                padded_byte(data, pad, 4 * i + 3),
            ),
    )
}

/// Builds the first word of a SACI command.
///
/// The device reads the command from bits 7 to 0, the number that its response is to carry
/// from bits 15 to 8, and what is specific to the command from bits 31 to 16.
pub fn make_header(cmd_id: u32, cmd_specific: u32) -> (word: u32)
    ensures
        word == header(cmd_id, cmd_specific),
{
    (cmd_specific << 16u32) | cmd_id
}

/// Packs bytes into little-endian words, padding the last word with `pad`.
pub fn pack_words(data: &[u8], pad: u8) -> (words: Vec<u32>)
    ensures
        words@ == packed_words(data@, pad),
{
    let len: usize = data.len();
    let count: usize = len / 4 + if len % 4 > 0 {
        1
    } else {
        0
    };
    let mut words: Vec<u32> = Vec::new();
    let mut n: usize = 0;
    while n < count
        invariant
            n <= count,
            len == data@.len(),
            count == (len + 3) / 4,
            words@ =~= packed_words(data@, pad).take(n as int),
        decreases count - n,
    {
        let i: usize = 4 * n;
        let left: usize = len - i;
        let b0: u8 = data[i];
        let b1: u8 = if left > 1 {
            data[i + 1]
        } else {
            pad
        };
        let b2: u8 = if left > 2 {
            data[i + 2]
        } else {
            pad
        };
        let b3: u8 = if left > 3 {
            data[i + 3]
        } else {
            pad
        };
        assert((b0 as u32) | ((b1 as u32) << 8u32) | ((b2 as u32) << 16u32) | ((b3 as u32) << 24u32)
            == b0 + 0x100 * b1 + 0x1_0000 * b2 + 0x100_0000 * b3) by (bit_vector);
        words.push(
            (b0 as u32) | ((b1 as u32) << 8u32) | ((b2 as u32) << 16u32) | ((b3 as u32) << 24u32),
        );
        n = n + 1;
    }
    words
}

} // verus!
