//! Why a sequence of the device failed.

use vstd::prelude::*;
use vstd::string::StringExecFns;

use super::saci::SaciResult;

verus! {

/// A SACI command, as it is named in an error.
#[derive(Debug, Clone, Copy, PartialEq, Eq, Structural)]
pub enum SaciCommand {
    /// Erase the entire chip.
    EraseChip,
    /// Program the MAIN sector at an address.
    ProgMainSector { address: u64 },
    /// Program the CCFG sector.
    ProgCcfgSector,
    /// Program the SCFG sector.
    ProgScfgSector,
    /// Verify MAIN sectors.
    VerifyMainSectors,
    /// Verify the CCFG sector.
    VerifyCcfgSector,
    /// Verify the SCFG sector.
    VerifyScfgSector,
}

/// Why a sequence failed. `E` is the error of the debug probe.
#[derive(Debug, PartialEq, Eq)]
pub enum SequenceError<E> {
    /// The debug probe failed.
    Probe(E),
    /// The device did not become ready in time.
    Timeout,
    /// The debug port did not power up.
    TargetPowerUpFailed,
    /// The device refused or failed a SACI command.
    SaciFailed { command: SaciCommand, result: SaciResult },
}

/// The hexadecimal digit of a number below 16.
pub open spec fn hex_digit(digit: u64) -> Seq<char> {
    match digit {
        0 => "0"@,
        1 => "1"@,
        2 => "2"@,
        3 => "3"@,
        4 => "4"@,
        5 => "5"@,
        6 => "6"@,
        7 => "7"@,
        8 => "8"@,
        9 => "9"@,
        10 => "A"@,
        11 => "B"@,
        12 => "C"@,
        13 => "D"@,
        14 => "E"@,
        _ => "F"@,
    }
}

/// A number in hexadecimal digits, filled up with zeros on the left to at least `width`.
pub open spec fn hex_digits(value: u64, width: nat) -> Seq<char>
    decreases value, width,
{
    if value == 0 && width == 0 {
        Seq::empty()
    } else {
        hex_digits(
            value / 16,
            if width == 0 {
                0
            } else {
                (width - 1) as nat
            },
        ) + hex_digit(value % 16)
    }
}

fn push_hex_digit(text: &mut String, digit: u64)
    ensures
        final(text)@ == old(text)@ + hex_digit(digit),
{
    text.append(
        match digit {
            0 => "0",
            1 => "1",
            2 => "2",
            3 => "3",
            4 => "4",
            5 => "5",
            6 => "6",
            7 => "7",
            8 => "8",
            9 => "9",
            10 => "A",
            11 => "B",
            12 => "C",
            13 => "D",
            14 => "E",
            _ => "F",
        },
    );
}

fn push_hex(text: &mut String, value: u64, width: u64)
    ensures
        final(text)@ == old(text)@ + hex_digits(value, width as nat),
    decreases value, width,
{
    if value == 0 && width == 0 {
        assert(text@ =~= old(text)@ + hex_digits(value, width as nat));
    } else {
        let rest: u64 = if width == 0 {
            0
        } else {
            width - 1
        };
        push_hex(text, value / 16, rest);
        push_hex_digit(text, value % 16);
        assert(text@ =~= old(text)@ + hex_digits(value, width as nat));
    }
}

impl SaciCommand {
    /// The name of the command.
    pub open spec fn spec_name(self) -> Seq<char> {
        match self {
            SaciCommand::EraseChip => "FLASH_ERASE_CHIP"@,
            SaciCommand::ProgMainSector { address } => "FLASH_PROG_MAIN_SECTOR at 0x"@ + hex_digits(
                address,
                8,
            ),
            SaciCommand::ProgCcfgSector => "FLASH_PROG_CCFG_SECTOR"@,
            SaciCommand::ProgScfgSector => "FLASH_PROG_SCFG_SECTOR"@,
            SaciCommand::VerifyMainSectors => "FLASH_VERIFY_MAIN_SECTORS"@,
            SaciCommand::VerifyCcfgSector => "FLASH_VERIFY_CCFG_SECTOR"@,
            SaciCommand::VerifyScfgSector => "FLASH_VERIFY_SCFG_SECTOR"@,
        }
    }

    fn push_name(self, text: &mut String)
        ensures
            final(text)@ == old(text)@ + self.spec_name(),
    {
        match self {
            SaciCommand::EraseChip => text.append("FLASH_ERASE_CHIP"),
            SaciCommand::ProgMainSector { address } => {
                text.append("FLASH_PROG_MAIN_SECTOR at 0x");
                push_hex(text, address, 8);
                assert(text@ =~= old(text)@ + self.spec_name());
            },
            SaciCommand::ProgCcfgSector => text.append("FLASH_PROG_CCFG_SECTOR"),
            SaciCommand::ProgScfgSector => text.append("FLASH_PROG_SCFG_SECTOR"),
            SaciCommand::VerifyMainSectors => text.append("FLASH_VERIFY_MAIN_SECTORS"),
            SaciCommand::VerifyCcfgSector => text.append("FLASH_VERIFY_CCFG_SECTOR"),
            SaciCommand::VerifyScfgSector => text.append("FLASH_VERIFY_SCFG_SECTOR"),
        }
    }

    /// Returns the message for a failure of the command.
    pub fn failure_message(self, result: SaciResult) -> (message: String)
        ensures
            message@ == "SACI "@ + self.spec_name() + " failed: "@ + result.spec_name(),
    {
        let mut message = String::new();
        message.append("SACI ");
        self.push_name(&mut message);
        message.append(" failed: ");
        message.append(result.name());
        assert(message@ =~= "SACI "@ + self.spec_name() + " failed: "@ + result.spec_name());
        message
    }
}

/// The number that a hexadecimal digit stands for, where letters are upper case.
pub open spec fn digit_value(digit: char) -> int {
    if '0' <= digit && digit <= '9' {
        digit as int - '0' as int
    } else {
        10 + digit as int - 'A' as int
    }
}

/// The number that hexadecimal digits stand for.
pub open spec fn hex_value(text: Seq<char>) -> int
    decreases text.len(),
{
    if text.len() == 0 {
        0
    } else {
        16 * hex_value(text.drop_last()) + digit_value(text.last())
    }
}

proof fn lemma_hex_digit(digit: u64)
    requires
        digit < 16,
    ensures
        hex_digit(digit).len() == 1,
        digit_value(hex_digit(digit)[0]) == digit,
        digit != 0 ==> hex_digit(digit)[0] != '0',
{
    reveal_strlit("0");
    reveal_strlit("1");
    reveal_strlit("2");
    reveal_strlit("3");
    reveal_strlit("4");
    reveal_strlit("5");
    reveal_strlit("6");
    reveal_strlit("7");
    reveal_strlit("8");
    reveal_strlit("9");
    reveal_strlit("A");
    reveal_strlit("B");
    reveal_strlit("C");
    reveal_strlit("D");
    reveal_strlit("E");
    reveal_strlit("F");
}

/// A number can be read back from its hexadecimal digits. There are at least as many digits as
/// are asked for, and beyond that the first one is not zero.
pub proof fn law_hex_digits_read_back(value: u64, width: nat)
    ensures
        hex_value(hex_digits(value, width)) == value,
        hex_digits(value, width).len() >= width,
        hex_digits(value, width).len() > width ==> hex_digits(value, width)[0] != '0',
    decreases value, width,
{
    if value != 0 || width != 0 {
        let rest_width = if width == 0 {
            0
        } else {
            (width - 1) as nat
        };
        let rest = hex_digits(value / 16, rest_width);
        law_hex_digits_read_back(value / 16, rest_width);
        lemma_hex_digit(value % 16);
        let text = hex_digits(value, width);
        assert(text.drop_last() =~= rest);
        assert(text.last() == hex_digit(value % 16)[0]);
        if rest.len() == 0 {
            assert(hex_value(rest) == 0);
        } else {
            assert(text[0] == rest[0]);
        }
    }
}

/// A failure to program a MAIN sector names its address, in at least eight digits.
pub proof fn law_failure_names_address(address: u64)
    ensures
        ({
            let name = SaciCommand::ProgMainSector { address }.spec_name();
            let digits = name.skip(28);
            &&& name.take(28) == "FLASH_PROG_MAIN_SECTOR at 0x"@
            &&& hex_value(digits) == address
            &&& digits.len() >= 8
            &&& digits.len() > 8 ==> digits[0] != '0'
        }),
{
    reveal_strlit("FLASH_PROG_MAIN_SECTOR at 0x");
    let name = SaciCommand::ProgMainSector { address }.spec_name();
    law_hex_digits_read_back(address, 8);
    assert(name.take(28) =~= "FLASH_PROG_MAIN_SECTOR at 0x"@);
    assert(name.skip(28) =~= hex_digits(address, 8));
}

} // verus!
