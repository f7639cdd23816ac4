//! The HD44780 character display on I2C: finding its bus address, the
//! display mode it is set to, and the pace of typing on it.
use vstd::prelude::*;

verus! {

/// Addresses below this one are probed, from 0 up, to find the display.
pub const I2C_ADDRESS_END: u8 = 127;

/// The I2C clock of the display, in hertz.
pub const I2C_BAUDRATE_HZ: u32 = 100000;

/// How long a probe may wait for the bus, in ticks.
pub const I2C_PROBE_TIMEOUT: u32 = 25000000;

/// The byte written to probe an address.
pub const I2C_PROBE_BYTE: u8 = 0x07;

/// The pause, in milliseconds, after each character typed smoothly.
pub const SMOOTH_TYPE_DELAY_MS: u32 = 170;

/// What the scan does after probing one address.
#[derive(Debug, Clone, Copy, PartialEq, Eq, Structural)]
pub enum ScanStep {
    /// Probe this address next.
    Probe(u8),
    /// The display answers at this address.
    Found(u8),
    /// No address answered.
    NotFound,
}

/// The step after probing `addr`, which answered (`acked`) or not.
pub open spec fn scan_outcome(addr: u8, acked: bool) -> ScanStep {
    if acked {
        ScanStep::Found(addr)
    } else if addr + 1 < I2C_ADDRESS_END {
        ScanStep::Probe((addr + 1) as u8)
    } else {
        ScanStep::NotFound
    }
}

/// Decides the scan's next step after probing `addr` (see [`scan_outcome`]).
pub fn scan_step(addr: u8, acked: bool) -> (s: ScanStep)
    requires
        addr < I2C_ADDRESS_END,
    ensures
        s == scan_outcome(addr, acked),
{
    if acked {
        ScanStep::Found(addr)
    } else if addr + 1 < I2C_ADDRESS_END {
        ScanStep::Probe(addr + 1)
    } else {
        ScanStep::NotFound
    }
}

/// The result of a scan that starts at `addr`, where `acks[a]` says
/// whether address `a` answers.
pub open spec fn scan_from(addr: u8, acks: Seq<bool>) -> ScanStep
    decreases I2C_ADDRESS_END - addr,
{
    if addr >= I2C_ADDRESS_END {
        ScanStep::NotFound
    } else {
        match scan_outcome(addr, acks[addr as int]) {
            ScanStep::Probe(next) => scan_from(next, acks),
            other => other,
        }
    }
}

/// A scan from address 0 finds the lowest address that answers, and
/// finds none when no address below [`I2C_ADDRESS_END`] answers.
pub proof fn lemma_scan_finds_lowest(addr: u8, acks: Seq<bool>)
    requires
        acks.len() == I2C_ADDRESS_END,
        addr < I2C_ADDRESS_END,
    ensures
        scan_from(addr, acks) matches ScanStep::Found(a) ==> addr <= a < I2C_ADDRESS_END && acks[a as int]
            && forall|b: int| addr <= b < a ==> !#[trigger] acks[b],
        scan_from(addr, acks) is NotFound ==> forall|b: int| addr <= b < I2C_ADDRESS_END ==> !#[trigger] acks[b],
        !(scan_from(addr, acks) is Probe),
    decreases I2C_ADDRESS_END - addr,
{
    if !acks[addr as int] && addr + 1 < I2C_ADDRESS_END {
        lemma_scan_finds_lowest((addr + 1) as u8, acks);
    }
}

/// The mode a display is set to: on or off, with no cursor shown and no blinking.
#[derive(Debug, Clone, Copy, PartialEq, Eq, Structural)]
pub struct LcdMode {
    pub display_on: bool,
    pub cursor_visible: bool,
    pub cursor_blink: bool,
}

/// The mode that turns the display on or off, cursor hidden and not blinking.
pub fn lcd_mode(on: bool) -> (m: LcdMode)
    ensures
        m == (LcdMode { display_on: on, cursor_visible: false, cursor_blink: false }),
{
    LcdMode { display_on: on, cursor_visible: false, cursor_blink: false }
}

} // verus!
