//! Controller commands and the encoders of their bit-packed arguments.

use crate::bits::{fits_in, set_bit, set_bits, with_bit, with_bits};
use vstd::prelude::*;

verus! {

/// The commands of the controller that the driver issues.
#[derive(Clone, Copy, Debug, PartialEq, Eq, Structural)]
pub enum Command {
    DriverOutputControl,
    DeepSleepMode,
    DataEntryModeSetting,
    SwReset,
    TemperatureSensorRead,
    /// Commits what display update control 2 has staged.
    MasterActivation,
    /// The same opcode as `MasterActivation`, under the name it has on
    /// controllers without display update control 2.
    ActiveDisplayUpdateSequence,
    DisplayUpdateControl1,
    DisplayUpdateControl2,
    WriteRam,
    WriteRamRed,
    WriteLutRegister,
    BorderWaveformControl,
    SetRamXAddressStartEndPosition,
    SetRamYAddressStartEndPosition,
    SetRamXAddressCounter,
    SetRamYAddressCounter,
}

impl Command {
    /// The opcode byte that selects this command on the bus.
    pub open spec fn opcode(self) -> u8 {
        match self {
            Command::DriverOutputControl => 0x01,
            Command::DeepSleepMode => 0x10,
            Command::DataEntryModeSetting => 0x11,
            Command::SwReset => 0x12,
            Command::TemperatureSensorRead => 0x18,
            Command::MasterActivation => 0x20,
            Command::ActiveDisplayUpdateSequence => 0x20,
            Command::DisplayUpdateControl1 => 0x21,
            Command::DisplayUpdateControl2 => 0x22,
            Command::WriteRam => 0x24,
            Command::WriteRamRed => 0x26,
            Command::WriteLutRegister => 0x32,
            Command::BorderWaveformControl => 0x3C,
            Command::SetRamXAddressStartEndPosition => 0x44,
            Command::SetRamYAddressStartEndPosition => 0x45,
            Command::SetRamXAddressCounter => 0x4E,
            Command::SetRamYAddressCounter => 0x4F,
        }
    }

    /// Returns the address of the command.
    pub fn address(self) -> (r: u8)
        ensures
            r == self.opcode(),
    {
        match self {
            Command::DriverOutputControl => 0x01,
            Command::DeepSleepMode => 0x10,
            Command::DataEntryModeSetting => 0x11,
            Command::SwReset => 0x12,
            Command::TemperatureSensorRead => 0x18,
            Command::MasterActivation => 0x20,
            Command::ActiveDisplayUpdateSequence => 0x20,
            Command::DisplayUpdateControl1 => 0x21,
            Command::DisplayUpdateControl2 => 0x22,
            Command::WriteRam => 0x24,
            Command::WriteRamRed => 0x26,
            Command::WriteLutRegister => 0x32,
            Command::BorderWaveformControl => 0x3C,
            Command::SetRamXAddressStartEndPosition => 0x44,
            Command::SetRamYAddressStartEndPosition => 0x45,
            Command::SetRamXAddressCounter => 0x4E,
            Command::SetRamYAddressCounter => 0x4F,
        }
    }
}

/// How the address counters move after each byte written to RAM.
#[derive(Clone, Copy, Debug, PartialEq, Eq, Structural)]
pub enum DataEntryModeIncr {
    XDecrYDecr,
    XIncrYDecr,
    XDecrYIncr,
    XIncrYIncr,
}

impl DataEntryModeIncr {
    /// The two low bits of the data entry mode byte.
    pub open spec fn bits(self) -> u8 {
        match self {
            DataEntryModeIncr::XDecrYDecr => 0x0,
            DataEntryModeIncr::XIncrYDecr => 0x1,
            DataEntryModeIncr::XDecrYIncr => 0x2,
            DataEntryModeIncr::XIncrYIncr => 0x3,
        }
    }

    pub fn value(self) -> (r: u8)
        ensures
            r == self.bits(),
    {
        match self {
            DataEntryModeIncr::XDecrYDecr => 0x0,
            DataEntryModeIncr::XIncrYDecr => 0x1,
            DataEntryModeIncr::XDecrYIncr => 0x2,
            DataEntryModeIncr::XIncrYIncr => 0x3,
        }
    }
}

/// Which address counter moves first: X (the counter then runs along a
/// row) or Y.
#[derive(Clone, Copy, Debug, PartialEq, Eq, Structural)]
pub enum DataEntryModeDir {
    XDir,
    YDir,
}

impl DataEntryModeDir {
    /// Bit 2 of the data entry mode byte.
    pub open spec fn bits(self) -> u8 {
        match self {
            DataEntryModeDir::XDir => 0x0,
            DataEntryModeDir::YDir => 0x4,
        }
    }

    pub fn value(self) -> (r: u8)
        ensures
            r == self.bits(),
    {
        match self {
            DataEntryModeDir::XDir => 0x0,
            DataEntryModeDir::YDir => 0x4,
        }
    }
}

/// The data entry mode byte: the increment mode in bits 0 and 1, the
/// direction in bit 2.
pub open spec fn data_entry_mode(incr: DataEntryModeIncr, dir: DataEntryModeDir) -> u8 {
    incr.bits() | dir.bits()
}

/// The depth of sleep that the deep sleep command asks for.
#[derive(Clone, Copy, Debug, PartialEq, Eq, Structural)]
pub enum DeepSleepMode {
    /// Sleeps and keeps access to RAM and controller.
    Normal,
    /// Sleeps without access to RAM and controller, but keeps RAM content.
    Mode1,
    /// As `Mode1`, but RAM content is lost.
    Mode2,
}

impl DeepSleepMode {
    /// The argument byte of the deep sleep command.
    pub open spec fn code(self) -> u8 {
        match self {
            DeepSleepMode::Normal => 0x00,
            DeepSleepMode::Mode1 => 0x01,
            DeepSleepMode::Mode2 => 0x11,
        }
    }

    pub fn value(self) -> (r: u8)
        ensures
            r == self.code(),
    {
        match self {
            DeepSleepMode::Normal => 0x00,
            DeepSleepMode::Mode1 => 0x01,
            DeepSleepMode::Mode2 => 0x11,
        }
    }
}

/// Gate scan configuration of the panel.
pub struct DriverOutput {
    pub scan_is_linear: bool,
    pub scan_g0_is_first: bool,
    pub scan_dir_incr: bool,
    /// Number of the last gate line to scan.
    pub width: u16,
}

impl DriverOutput {
    /// The flags byte: bit 0 set means a decreasing scan direction, bit 1
    /// that the first gate is not G0, bit 2 an interlaced scan; bits 3 to 7
    /// are clear.
    pub open spec fn flags(self) -> u8 {
        (if self.scan_dir_incr { 0u8 } else { 1u8 })
            | (if self.scan_g0_is_first { 0u8 } else { 2u8 })
            | (if self.scan_is_linear { 0u8 } else { 4u8 })
    }

    /// The argument of the driver output command: the scan length, low
    /// byte first, then the flags byte.
    pub open spec fn bytes(self) -> Seq<u8> {
        seq![(self.width & 0xff) as u8, (self.width >> 8) as u8, self.flags()]
    }

    pub fn to_bytes(&self) -> (r: [u8; 3])
        ensures
            r@ == self.bytes(),
    {
        let width: u16 = self.width;
        let low: u16 = width & 0xff;
        let high: u16 = width >> 8;
        assert(low < 256 && high < 256) by (bit_vector)
            requires
                low == width & 0xff,
                high == width >> 8,
        ;
        let b0: u8 = set_bit(0u8, 0, !self.scan_dir_incr);
        let b1: u8 = set_bit(b0, 1, !self.scan_g0_is_first);
        let b2: u8 = set_bit(b1, 2, !self.scan_is_linear);
        let incr: bool = self.scan_dir_incr;
        let first: bool = self.scan_g0_is_first;
        let linear: bool = self.scan_is_linear;
        assert(with_bit(with_bit(with_bit(0u8, 0, !incr), 1, !first), 2, !linear) == (if incr {
            0u8
        } else {
            1u8
        }) | (if first {
            0u8
        } else {
            2u8
        }) | (if linear {
            0u8
        } else {
            4u8
        })) by (bit_vector);
        let r: [u8; 3] = [low as u8, high as u8, b2];
        assert(r@ =~= self.bytes());
        r
    }
}

/// What drives the panel border during an update.
#[derive(Clone, Copy, Debug, PartialEq, Eq, Structural)]
pub enum BorderWaveFormVbd {
    Gs,
    FixLevel,
    Vcom,
}

impl BorderWaveFormVbd {
    pub open spec fn bits(self) -> u8 {
        match self {
            BorderWaveFormVbd::Gs => 0x0,
            BorderWaveFormVbd::FixLevel => 0x1,
            BorderWaveFormVbd::Vcom => 0x2,
        }
    }

    pub fn value(self) -> (r: u8)
        ensures
            r == self.bits(),
    {
        match self {
            BorderWaveFormVbd::Gs => 0x0,
            BorderWaveFormVbd::FixLevel => 0x1,
            BorderWaveFormVbd::Vcom => 0x2,
        }
    }
}

/// The voltage of a border driven at a fixed level.
#[derive(Clone, Copy, Debug, PartialEq, Eq, Structural)]
pub enum BorderWaveFormFixLevel {
    Vss,
    Vsh1,
    Vsl,
    Vsh2,
}

impl BorderWaveFormFixLevel {
    pub open spec fn bits(self) -> u8 {
        match self {
            BorderWaveFormFixLevel::Vss => 0x0,
            BorderWaveFormFixLevel::Vsh1 => 0x1,
            BorderWaveFormFixLevel::Vsl => 0x2,
            BorderWaveFormFixLevel::Vsh2 => 0x3,
        }
    }

    pub fn value(self) -> (r: u8)
        ensures
            r == self.bits(),
    {
        match self {
            BorderWaveFormFixLevel::Vss => 0x0,
            BorderWaveFormFixLevel::Vsh1 => 0x1,
            BorderWaveFormFixLevel::Vsl => 0x2,
            BorderWaveFormFixLevel::Vsh2 => 0x3,
        }
    }
}

/// The grey-scale transition that a border following the waveform takes.
#[derive(Clone, Copy, Debug, PartialEq, Eq, Structural)]
pub enum BorderWaveFormGs {
    Lut0,
    Lut1,
    Lut2,
    Lut3,
}

impl BorderWaveFormGs {
    pub open spec fn bits(self) -> u8 {
        match self {
            BorderWaveFormGs::Lut0 => 0x0,
            BorderWaveFormGs::Lut1 => 0x1,
            BorderWaveFormGs::Lut2 => 0x2,
            BorderWaveFormGs::Lut3 => 0x3,
        }
    }

    pub fn value(self) -> (r: u8)
        ensures
            r == self.bits(),
    {
        match self {
            BorderWaveFormGs::Lut0 => 0x0,
            BorderWaveFormGs::Lut1 => 0x1,
            BorderWaveFormGs::Lut2 => 0x2,
            BorderWaveFormGs::Lut3 => 0x3,
        }
    }
}

/// Border waveform configuration.
pub struct BorderWaveForm {
    pub vbd: BorderWaveFormVbd,
    pub fix_level: BorderWaveFormFixLevel,
    pub gs_trans: BorderWaveFormGs,
}

impl BorderWaveForm {
    /// The argument of the border waveform command: `vbd` in bits 6 and 7,
    /// `fix_level` in bits 4 and 5, `gs_trans` in bits 0 and 1; bits 2 and
    /// 3 are clear.
    pub open spec fn byte(self) -> u8 {
        ((self.vbd.bits() & 0b11) << 6) | ((self.fix_level.bits() & 0b11) << 4) | (
        self.gs_trans.bits() & 0b11)
    }

    pub fn to_u8(&self) -> (r: u8)
        ensures
            r == self.byte(),
    {
        let vbd: u8 = self.vbd.value();
        let fix: u8 = self.fix_level.value();
        let gs: u8 = self.gs_trans.value();
        assert(fits_in(vbd, 2) && fits_in(fix, 2) && fits_in(gs, 2)) by (bit_vector)
            requires
                vbd <= 3,
                fix <= 3,
                gs <= 3,
        ;
        let b0: u8 = set_bits(0u8, 6, 8, vbd);
        let b1: u8 = set_bits(b0, 4, 6, fix);
        let b2: u8 = set_bits(b1, 0, 2, gs);
        assert(with_bits(with_bits(with_bits(0u8, 6, 8, vbd), 4, 6, fix), 0, 2, gs) == ((vbd
            & 0b11) << 6) | ((fix & 0b11) << 4) | (gs & 0b11)) by (bit_vector)
            requires
                vbd <= 3,
                fix <= 3,
                gs <= 3,
        ;
        b2
    }
}

/// Mask of the action "switch the clock off" in display update control 2.
pub const DISABLE_CLOCK: u8 = 0x01;

/// Mask of the action "switch the analog supply off".
pub const DISABLE_ANALOG: u8 = 0x02;

/// Mask of the action "drive the panel with the RAM content".
pub const DISPLAY: u8 = 0x04;

/// Mask of the action "load the waveform table".
pub const LOAD_LUT: u8 = 0x10;

/// Mask of the action "load the temperature value".
pub const LOAD_TEMP: u8 = 0x20;

/// Mask of the action "switch the clock on".
pub const ENABLE_CLOCK: u8 = 0x40;

/// Mask of the action "switch the analog supply on".
pub const ENABLE_ANALOG: u8 = 0x80;

/// The actions that the next master activation will carry out, one bit
/// each:
///
/// ```text
/// [7|6|5|4|3|2|1|0]
///  | | | | | | | `--- disable clock
///  | | | | | | `----- disable analog
///  | | | | | `------- display
///  | | | | `--------- unused
///  | | | `----------- load LUT
///  | | `------------- load temperature
///  | `--------------- enable clock
///  `----------------- enable analog
/// ```
#[derive(Clone, Copy, Debug, PartialEq, Eq, Structural)]
pub struct DisplayUpdateControl2(pub u8);

impl DisplayUpdateControl2 {
    /// These actions together with the one that `mask` stands for.
    pub open spec fn staged(self, mask: u8) -> DisplayUpdateControl2 {
        DisplayUpdateControl2(self.0 | mask)
    }

    /// No action staged.
    pub fn new() -> (r: DisplayUpdateControl2)
        ensures
            r.0 == 0,
    {
        DisplayUpdateControl2(0x00)
    }

    pub fn disable_clock(self) -> (r: DisplayUpdateControl2)
        ensures
            r == self.staged(DISABLE_CLOCK),
    {
        let flags: u8 = self.0;
        assert(with_bit(flags, 0, true) == flags | 0x01) by (bit_vector);
        DisplayUpdateControl2(set_bit(flags, 0, true))
    }

    pub fn disable_analog(self) -> (r: DisplayUpdateControl2)
        ensures
            r == self.staged(DISABLE_ANALOG),
    {
        let flags: u8 = self.0;
        assert(with_bit(flags, 1, true) == flags | 0x02) by (bit_vector);
        DisplayUpdateControl2(set_bit(flags, 1, true))
    }

    pub fn display(self) -> (r: DisplayUpdateControl2)
        ensures
            r == self.staged(DISPLAY),
    {
        let flags: u8 = self.0;
        assert(with_bit(flags, 2, true) == flags | 0x04) by (bit_vector);
        DisplayUpdateControl2(set_bit(flags, 2, true))
    }

    pub fn load_lut(self) -> (r: DisplayUpdateControl2)
        ensures
            r == self.staged(LOAD_LUT),
    {
        let flags: u8 = self.0;
        assert(with_bit(flags, 4, true) == flags | 0x10) by (bit_vector);
        DisplayUpdateControl2(set_bit(flags, 4, true))
    }

    pub fn load_temp(self) -> (r: DisplayUpdateControl2)
        ensures
            r == self.staged(LOAD_TEMP),
    {
        let flags: u8 = self.0;
        assert(with_bit(flags, 5, true) == flags | 0x20) by (bit_vector);
        DisplayUpdateControl2(set_bit(flags, 5, true))
    }

    pub fn enable_clock(self) -> (r: DisplayUpdateControl2)
        ensures
            r == self.staged(ENABLE_CLOCK),
    {
        let flags: u8 = self.0;
        assert(with_bit(flags, 6, true) == flags | 0x40) by (bit_vector);
        DisplayUpdateControl2(set_bit(flags, 6, true))
    }

    pub fn enable_analog(self) -> (r: DisplayUpdateControl2)
        ensures
            r == self.staged(ENABLE_ANALOG),
    {
        let flags: u8 = self.0;
        assert(with_bit(flags, 7, true) == flags | 0x80) by (bit_vector);
        DisplayUpdateControl2(set_bit(flags, 7, true))
    }

    /// Staging is insensitive to order and to repetition: two actions
    /// staged in either order, or one action staged twice, leave the same
    /// flags.
    pub proof fn staging_order_is_irrelevant(self, first: u8, second: u8)
        ensures
            self.staged(first).staged(second) == self.staged(second).staged(first),
            self.staged(first).staged(first) == self.staged(first),
    {
        let flags: u8 = self.0;
        assert((flags | first) | second == (flags | second) | first) by (bit_vector);
        assert((flags | first) | first == flags | first) by (bit_vector);
    }
}

} // verus!
