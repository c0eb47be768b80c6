//! The access port registers of the device.

use vstd::prelude::*;

verus! {

/// Whether bit `n` of `word` is set.
pub open spec fn bit(word: u32, n: u32) -> bool {
    (word >> n) & 1 == 1
}

/// An access port of the device.
#[derive(Debug, Clone, Copy, PartialEq, Eq, Structural)]
pub enum ApSel {
    /// Config-AP: the AP used to read device type information.
    CfgAp,
    /// Sec-AP: the AP used to send SACI commands.
    SecAp,
}

impl ApSel {
    /// The number by which the debug port selects the access port.
    pub open spec fn spec_number(self) -> u8 {
        match self {
            ApSel::CfgAp => 1,
            ApSel::SecAp => 2,
        }
    }

    /// Returns the number by which the debug port selects the access port.
    pub fn number(self) -> (number: u8)
        ensures
            number == self.spec_number(),
    {
        match self {
            ApSel::CfgAp => 1,
            ApSel::SecAp => 2,
        }
    }
}

/// Address of the device status register within the CFG-AP.
pub const DEVICE_STATUS: u64 = 0x0C;

/// Address of the TX_DATA register within the SEC-AP: command and data words go here.
pub const TX_DATA: u64 = 0x00;

/// Address of the TX_CTRL register within the SEC-AP: controls transmission.
pub const TX_CTRL: u64 = 0x04;

/// Address of the RX_DATA register within the SEC-AP: response words are read here.
pub const RX_DATA: u64 = 0x08;

/// Address of the RX_CTRL register within the SEC-AP: tells whether a response is ready.
pub const RX_CTRL: u64 = 0x0C;

/// The application waits for the debugger.
pub const BOOT_STATUS_APP_WAITLOOP_DBGPROBE: u8 = 0xC1;

/// The boot loader waits for the debugger.
pub const BOOT_STATUS_BLDR_WAITLOOP_DBGPROBE: u8 = 0x81;

/// The boot ROM waits for the debugger.
pub const BOOT_STATUS_BOOT_WAITLOOP_DBGPROBE: u8 = 0x38;

/// Device Status Register, part of CFG-AP.
///
/// This register is used to read the device status and boot status.
#[derive(Debug, Clone, Copy, PartialEq, Eq, Structural)]
pub struct DeviceStatusRegister(pub u32);

impl DeviceStatusRegister {
    /// Whether the AHB-AP is available; it is not while the device is in SACI mode.
    pub open spec fn spec_ahb_ap_available(self) -> bool {
        bit(self.0, 24)
    }

    /// The boot status, the second byte of the register.
    pub open spec fn spec_boot_status(self) -> u8 {
        ((self.0 / 0x100) % 0x100) as u8
    }

    /// Whether the boot status is one of those in which the device waits for a debugger.
    pub open spec fn spec_waits_for_debugger(self) -> bool {
        ||| self.spec_boot_status() == BOOT_STATUS_BOOT_WAITLOOP_DBGPROBE
        ||| self.spec_boot_status() == BOOT_STATUS_BLDR_WAITLOOP_DBGPROBE
        ||| self.spec_boot_status() == BOOT_STATUS_APP_WAITLOOP_DBGPROBE
    }

    /// Tells if the AHB-AP is available.
    pub fn ahb_ap_available(self) -> (available: bool)
        ensures
            available == self.spec_ahb_ap_available(),
    {
        (self.0 >> 24u32) & 1 == 1
    }

    /// Returns the boot status of the device.
    pub fn boot_status(self) -> (status: u8)
        ensures
            status == self.spec_boot_status(),
    {
        let word = self.0;
        assert(((word >> 8u32) & 0xFF) == (word / 0x100) % 0x100) by (bit_vector);
        assert((word / 0x100) % 0x100 <= 0xFF);
        ((word >> 8u32) & 0xFF) as u8
    }

    /// Tells if the device waits in a boot loop for a debugger to attach.
    pub fn waits_for_debugger(self) -> (waits: bool)
        ensures
            waits == self.spec_waits_for_debugger(),
    {
        let status = self.boot_status();
        status == BOOT_STATUS_BOOT_WAITLOOP_DBGPROBE || status
            == BOOT_STATUS_BLDR_WAITLOOP_DBGPROBE || status == BOOT_STATUS_APP_WAITLOOP_DBGPROBE
    }
}

/// TX_CTRL Register, part of SEC-AP.
///
/// This register is used to control the transmission of SACI commands.
#[derive(Debug, Clone, Copy, PartialEq, Eq, Structural)]
pub struct TxCtrlRegister(pub u32);

impl TxCtrlRegister {
    /// Whether the last word written to TX_DATA has not been read by the device yet.
    pub open spec fn spec_txd_full(self) -> bool {
        bit(self.0, 0)
    }

    /// Whether the next word starts a command.
    pub open spec fn spec_cmd_start(self) -> bool {
        bit(self.0, 1)
    }

    /// Tells if the last word written to TX_DATA has not been read by the device yet.
    pub fn txd_full(self) -> (full: bool)
        ensures
            full == self.spec_txd_full(),
    {
        (self.0 >> 0u32) & 1 == 1
    }

    /// Tells if the next word starts a command.
    pub fn cmd_start(self) -> (start: bool)
        ensures
            start == self.spec_cmd_start(),
    {
        (self.0 >> 1u32) & 1 == 1
    }

    /// Sets whether the next word starts a command.
    pub fn set_cmd_start(&mut self, start: bool)
        ensures
            final(self).spec_cmd_start() == start,
            forall|n: u32|
                #![trigger bit(final(self).0, n)]
                n < 32 && n != 1 ==> bit(final(self).0, n) == bit(old(self).0, n),
            final(self).0 == if start {
                old(self).0 | 2
            } else {
                old(self).0 & !2u32
            },
    {
        let before = self.0;
        self.0 = if start {
            before | 2
        } else {
            before & !2u32
        };
        let ghost after = self.0;
        assert(((before | 2) >> 1u32) & 1 == 1) by (bit_vector);
        assert(((before & !2u32) >> 1u32) & 1 == 0) by (bit_vector);
        assert forall|n: u32| n < 32 && n != 1 implies #[trigger] bit(after, n) == bit(
            before,
            n,
        ) by {
            assert((after >> n) & 1 == (before >> n) & 1) by (bit_vector)
                requires
                    n < 32,
                    n != 1,
                    after == before | 2 || after == before & !2u32,
            ;
        }
    }
}

/// RX_CTRL Register, part of SEC-AP.
///
/// This register is used to control the reception of SACI responses.
#[derive(Debug, Clone, Copy, PartialEq, Eq, Structural)]
pub struct RxCtrlRegister(pub u32);

impl RxCtrlRegister {
    /// Whether the device has written a word to RX_DATA that has not been read yet.
    pub open spec fn spec_rxd_ready(self) -> bool {
        bit(self.0, 0)
    }

    /// Tells if the device has written a word to RX_DATA that has not been read yet.
    pub fn rxd_ready(self) -> (ready: bool)
        ensures
            ready == self.spec_rxd_ready(),
    {
        (self.0 >> 0u32) & 1 == 1
    }
}

} // verus!
