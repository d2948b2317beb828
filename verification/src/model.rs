//! The driver as a state machine: for every operation, whether it is
//! carried out, what it sends over the bus, and what state it leaves the
//! driver in. The contracts of the driver are stated over this model, and
//! so are the laws that relate its operations to one another.

use crate::color::TriColor;
use crate::command::{
    data_entry_mode, BorderWaveForm, BorderWaveFormFixLevel, BorderWaveFormGs, BorderWaveFormVbd,
    Command, DataEntryModeDir, DataEntryModeIncr, DeepSleepMode, DisplayUpdateControl2,
    DriverOutput, DISABLE_ANALOG, DISABLE_CLOCK, DISPLAY, ENABLE_ANALOG, ENABLE_CLOCK, LOAD_LUT,
    LOAD_TEMP,
};
use crate::constants::{LUT_FULL_UPDATE, LUT_PARTIAL_UPDATE};
use crate::epd::{plane_size, row_length, PowerState, RefreshLut, HEIGHT, RESET_PULSE_US, WIDTH};
use crate::error::Error;
use crate::interface::{command_frame, command_with_data, data_frame, repeated, reset_pulse, BusOp};
use crate::profile::Profile;
use vstd::prelude::*;

verus! {

/// The lowest eight bits of `x`.
pub open spec fn low_byte(x: u32) -> u8 {
    (x & 0xff) as u8
}

/// The commands that program the RAM window: the X range in units of
/// eight pixels, the Y range in pixels as two 16-bit little-endian values.
pub open spec fn ram_area(start_x: u32, start_y: u32, end_x: u32, end_y: u32) -> Seq<BusOp> {
    command_with_data(
        Command::SetRamXAddressStartEndPosition.opcode(),
        seq![low_byte(start_x >> 3), low_byte(end_x >> 3)],
    ) + command_with_data(
        Command::SetRamYAddressStartEndPosition.opcode(),
        seq![low_byte(start_y), low_byte(start_y >> 8), low_byte(end_y), low_byte(end_y >> 8)],
    )
}

/// Scan configuration that the driver programs: every gate of the panel,
/// in linear order, from gate 0 upwards.
pub open spec fn panel_scan() -> DriverOutput {
    DriverOutput {
        scan_is_linear: true,
        scan_g0_is_first: true,
        scan_dir_incr: true,
        width: (HEIGHT - 1) as u16,
    }
}

/// The border waveform that the driver programs.
pub open spec fn panel_border() -> BorderWaveForm {
    BorderWaveForm {
        vbd: BorderWaveFormVbd::Gs,
        fix_level: BorderWaveFormFixLevel::Vss,
        gs_trans: BorderWaveFormGs::Lut3,
    }
}

/// The update steps staged before a frame is shown: clock and analog
/// supply on, waveform table and temperature loaded, panel driven, analog
/// supply and clock off again.
pub open spec fn display_steps() -> DisplayUpdateControl2 {
    DisplayUpdateControl2(0).staged(ENABLE_CLOCK).staged(ENABLE_ANALOG).staged(LOAD_LUT).staged(
        LOAD_TEMP,
    ).staged(DISPLAY).staged(DISABLE_ANALOG).staged(DISABLE_CLOCK)
}

/// The update steps staged before the controller is sent to sleep: analog
/// supply and clock on and off again.
pub open spec fn power_down_steps() -> DisplayUpdateControl2 {
    DisplayUpdateControl2(0).staged(ENABLE_ANALOG).staged(ENABLE_CLOCK).staged(
        DISABLE_ANALOG,
    ).staged(DISABLE_CLOCK)
}

/// The built-in waveform table for a refresh mode; without a mode, that of
/// a full refresh.
pub open spec fn lut_table(refresh_rate: Option<RefreshLut>) -> Seq<u8> {
    match refresh_rate {
        Some(RefreshLut::Quick) => LUT_PARTIAL_UPDATE@,
        _ => LUT_FULL_UPDATE@,
    }
}

/// The refresh mode that is in force once a table has been asked for.
pub open spec fn lut_mode(refresh_rate: Option<RefreshLut>) -> RefreshLut {
    match refresh_rate {
        Some(RefreshLut::Quick) => RefreshLut::Quick,
        _ => RefreshLut::Full,
    }
}

/// `bytes` with every bit flipped.
pub open spec fn inverted(bytes: Seq<u8>) -> Seq<u8> {
    Seq::new(bytes.len(), |i: int| !bytes[i])
}

/// What an operation of the driver amounts to: whether it was carried out,
/// the driver after it, and the bus operations it added.
pub struct Outcome {
    pub result: Result<(), Error>,
    pub state: EpdModel,
    pub ops: Seq<BusOp>,
}

impl Outcome {
    /// An operation refused with `error`: nothing changes, nothing is sent.
    pub open spec fn refused(state: EpdModel, error: Error) -> Outcome {
        Outcome { result: Err(error), state, ops: Seq::empty() }
    }

    /// An operation carried out.
    pub open spec fn done(state: EpdModel, ops: Seq<BusOp>) -> Outcome {
        Outcome { result: Ok(()), state, ops }
    }

    /// This operation followed by `next`, which starts from the driver as
    /// this one left it; `next` does not happen if this one was refused.
    pub open spec fn and_then(self, next: spec_fn(EpdModel) -> Outcome) -> Outcome {
        if self.result is Ok {
            Outcome {
                result: next(self.state).result,
                state: next(self.state).state,
                ops: self.ops + next(self.state).ops,
            }
        } else {
            self
        }
    }
}

/// The driver as contracts see it.
pub struct EpdModel {
    pub profile: Profile,
    pub power: PowerState,
    /// The waveform table in force.
    pub refresh: RefreshLut,
    pub background: TriColor,
}

impl EpdModel {
    /// One wait for the controller to become idle.
    pub open spec fn wait(self) -> Seq<BusOp> {
        seq![BusOp::WaitWhileBusy(self.profile.busy_level)]
    }

    /// The commands that place the write cursor: a wait for the
    /// controller, then the X counter in units of eight pixels and the Y
    /// counter as a 16-bit little-endian value.
    pub open spec fn ram_counters(self, x: u32, y: u32) -> Seq<BusOp> {
        self.wait() + command_with_data(
            Command::SetRamXAddressCounter.opcode(),
            seq![low_byte(x >> 3)],
        ) + command_with_data(
            Command::SetRamYAddressCounter.opcode(),
            seq![low_byte(y), low_byte(y >> 8)],
        )
    }

    /// What precedes every write to RAM: the window, then the cursor at
    /// the window's origin.
    pub open spec fn window(
        self,
        start_x: u32,
        start_y: u32,
        end_x: u32,
        end_y: u32,
    ) -> Seq<BusOp> {
        ram_area(start_x, start_y, end_x, end_y) + self.ram_counters(start_x, start_y)
    }

    /// The window that spans the panel.
    pub open spec fn full_window(self) -> Seq<BusOp> {
        self.window(0, 0, (WIDTH - 1) as u32, (HEIGHT - 1) as u32)
    }

    /// A whole plane of the background colour.
    pub open spec fn background_plane(self) -> Seq<u8> {
        repeated(self.background.byte_value(), plane_size(WIDTH as nat, HEIGHT as nat))
    }

    /// The bus operations of an initialisation.
    pub open spec fn init_ops(self) -> Seq<BusOp> {
        reset_pulse(RESET_PULSE_US, RESET_PULSE_US) + self.wait() + command_frame(
            Command::SwReset.opcode(),
        ) + self.wait() + command_with_data(
            Command::DriverOutputControl.opcode(),
            panel_scan().bytes(),
        ) + command_with_data(
            Command::DataEntryModeSetting.opcode(),
            seq![data_entry_mode(DataEntryModeIncr::XIncrYIncr, DataEntryModeDir::XDir)],
        ) + self.full_window() + command_with_data(
            Command::BorderWaveformControl.opcode(),
            seq![panel_border().byte()],
        ) + command_with_data(Command::TemperatureSensorRead.opcode(), seq![0x80u8])
            + command_with_data(Command::DisplayUpdateControl1.opcode(), seq![0x80u8, 0x80u8])
            + self.wait()
    }

    /// Initialisation: possible in every state; it leaves the controller
    /// ready, with the waveform table of a full refresh in force.
    pub open spec fn init(self) -> Outcome {
        Outcome::done(
            EpdModel { power: PowerState::Ready, refresh: RefreshLut::Full, ..self },
            self.init_ops(),
        )
    }

    /// The bus operations that send the controller to sleep.
    pub open spec fn sleep_ops(self) -> Seq<BusOp> {
        self.wait() + (if self.profile.supports_lut {
            command_with_data(
                Command::DisplayUpdateControl2.opcode(),
                seq![power_down_steps().0],
            ) + command_frame(Command::MasterActivation.opcode())
        } else {
            Seq::empty()
        }) + command_with_data(Command::DeepSleepMode.opcode(), seq![DeepSleepMode::Normal.code()])
    }

    /// Going to sleep: possible when ready.
    pub open spec fn sleep(self) -> Outcome {
        if self.power != PowerState::Ready {
            Outcome::refused(self, Error::NotReady)
        } else {
            Outcome::done(EpdModel { power: PowerState::Sleeping, ..self }, self.sleep_ops())
        }
    }

    /// The fill of one RAM bank with the background colour: the window
    /// over the panel, the write command of the bank `bank`, then a plane
    /// of the background colour.
    pub open spec fn background_fill(self, bank: Command) -> Seq<BusOp> {
        self.full_window() + command_frame(bank.opcode()) + data_frame(self.background_plane())
    }

    /// The bus operations that write a frame to the achromatic bank; while
    /// the table of a full refresh is in force, the chromatic bank is set
    /// to the background colour as well.
    pub open spec fn update_frame_ops(self, buffer: Seq<u8>) -> Seq<BusOp> {
        self.full_window() + command_with_data(Command::WriteRam.opcode(), buffer) + (
        if self.refresh == RefreshLut::Full {
            self.background_fill(Command::WriteRamRed)
        } else {
            Seq::empty()
        })
    }

    /// Writing a frame: possible when ready, with a buffer that holds one
    /// plane of the panel.
    pub open spec fn update_frame(self, buffer: Seq<u8>) -> Outcome {
        if self.power != PowerState::Ready {
            Outcome::refused(self, Error::NotReady)
        } else if buffer.len() != plane_size(WIDTH as nat, HEIGHT as nat) {
            Outcome::refused(self, Error::InvalidBufferLength)
        } else {
            Outcome::done(self, self.update_frame_ops(buffer))
        }
    }

    /// The bus operations that write `buffer` to the rectangle with the
    /// corner `(x, y)`; while the table of a full refresh is in force, it
    /// goes to both banks.
    pub open spec fn update_partial_frame_ops(
        self,
        buffer: Seq<u8>,
        x: u32,
        y: u32,
        width: u32,
        height: u32,
    ) -> Seq<BusOp> {
        let end_x = (x + width) as u32;
        let end_y = (y + height) as u32;
        self.window(x, y, end_x, end_y) + command_with_data(Command::WriteRam.opcode(), buffer) + (
        if self.refresh == RefreshLut::Full {
            self.window(x, y, end_x, end_y) + command_with_data(
                Command::WriteRamRed.opcode(),
                buffer,
            )
        } else {
            Seq::empty()
        })
    }

    /// Writing a part of a frame: possible when ready, on a controller
    /// that can refresh a part of the panel, for a rectangle whose far
    /// corner and area can be expressed in 32 bits, with a buffer of one
    /// bit for each of its pixels.
    pub open spec fn update_partial_frame(
        self,
        buffer: Seq<u8>,
        x: u32,
        y: u32,
        width: u32,
        height: u32,
    ) -> Outcome {
        if self.power != PowerState::Ready {
            Outcome::refused(self, Error::NotReady)
        } else if !self.profile.supports_partial_refresh {
            Outcome::refused(self, Error::Unsupported)
        } else if x + width > u32::MAX || y + height > u32::MAX || width * height > u32::MAX {
            Outcome::refused(self, Error::InvalidGeometry)
        } else if buffer.len() != (width * height) / 8 {
            Outcome::refused(self, Error::InvalidBufferLength)
        } else {
            Outcome::done(self, self.update_partial_frame_ops(buffer, x, y, width, height))
        }
    }

    /// The bus operations that bring the content of RAM onto the panel.
    pub open spec fn display_frame_ops(self) -> Seq<BusOp> {
        (if self.profile.supports_lut {
            command_with_data(Command::DisplayUpdateControl2.opcode(), seq![display_steps().0])
                + command_frame(Command::MasterActivation.opcode())
        } else {
            command_frame(Command::ActiveDisplayUpdateSequence.opcode())
        }) + self.wait()
    }

    /// Showing the frame: possible when ready.
    pub open spec fn display_frame(self) -> Outcome {
        if self.power != PowerState::Ready {
            Outcome::refused(self, Error::NotReady)
        } else {
            Outcome::done(self, self.display_frame_ops())
        }
    }

    /// Writing a frame and showing it: possible when ready, with a buffer
    /// that holds one plane of the panel.
    pub open spec fn update_and_display_frame(self, buffer: Seq<u8>) -> Outcome {
        if self.power != PowerState::Ready {
            Outcome::refused(self, Error::NotReady)
        } else if buffer.len() != plane_size(WIDTH as nat, HEIGHT as nat) {
            Outcome::refused(self, Error::InvalidBufferLength)
        } else {
            Outcome::done(self, self.update_frame_ops(buffer) + self.display_frame_ops())
        }
    }

    /// The bus operations that fill both banks with the background colour,
    /// the achromatic bank first, whatever waveform table is in force.
    pub open spec fn clear_frame_ops(self) -> Seq<BusOp> {
        self.background_fill(Command::WriteRam) + self.background_fill(Command::WriteRamRed)
    }

    /// Clearing the frame: possible when ready.
    pub open spec fn clear_frame(self) -> Outcome {
        if self.power != PowerState::Ready {
            Outcome::refused(self, Error::NotReady)
        } else {
            Outcome::done(self, self.clear_frame_ops())
        }
    }

    /// Choosing a waveform table: possible when ready. A controller
    /// without a table register is sent nothing and keeps the refresh
    /// mode it has.
    pub open spec fn set_lut(self, refresh_rate: Option<RefreshLut>) -> Outcome {
        if self.power != PowerState::Ready {
            Outcome::refused(self, Error::NotReady)
        } else if !self.profile.supports_lut {
            Outcome::done(self, Seq::empty())
        } else {
            Outcome::done(
                EpdModel { refresh: lut_mode(refresh_rate), ..self },
                command_with_data(Command::WriteLutRegister.opcode(), lut_table(refresh_rate)),
            )
        }
    }

    /// The bus operations that write a plane to the achromatic bank.
    pub open spec fn update_achromatic_frame_ops(self, black: Seq<u8>) -> Seq<BusOp> {
        self.wait() + command_frame(Command::WriteRam.opcode()) + data_frame(black)
    }

    /// A chromatic plane as the controller takes it: with every bit
    /// flipped where the bank is of inverted polarity.
    pub open spec fn chromatic_plane(self, chromatic: Seq<u8>) -> Seq<u8> {
        if self.profile.chromatic_inverted {
            inverted(chromatic)
        } else {
            chromatic
        }
    }

    /// The bus operations that write a plane to the chromatic bank.
    pub open spec fn update_chromatic_frame_ops(self, chromatic: Seq<u8>) -> Seq<BusOp> {
        self.wait() + command_frame(Command::WriteRamRed.opcode()) + data_frame(
            self.chromatic_plane(chromatic),
        ) + self.wait()
    }

    /// Writing the achromatic plane: possible when ready, with a buffer
    /// that holds one plane of the panel.
    pub open spec fn update_achromatic_frame(self, black: Seq<u8>) -> Outcome {
        if self.power != PowerState::Ready {
            Outcome::refused(self, Error::NotReady)
        } else if black.len() != plane_size(WIDTH as nat, HEIGHT as nat) {
            Outcome::refused(self, Error::InvalidBufferLength)
        } else {
            Outcome::done(self, self.update_achromatic_frame_ops(black))
        }
    }

    /// Writing the chromatic plane: possible when ready, with a buffer
    /// that holds one plane of the panel.
    pub open spec fn update_chromatic_frame(self, chromatic: Seq<u8>) -> Outcome {
        if self.power != PowerState::Ready {
            Outcome::refused(self, Error::NotReady)
        } else if chromatic.len() != plane_size(WIDTH as nat, HEIGHT as nat) {
            Outcome::refused(self, Error::InvalidBufferLength)
        } else {
            Outcome::done(self, self.update_chromatic_frame_ops(chromatic))
        }
    }

    /// Writing both planes: possible when ready, with two buffers that
    /// hold one plane of the panel each. Nothing is sent unless both do.
    pub open spec fn update_color_frame(self, black: Seq<u8>, chromatic: Seq<u8>) -> Outcome {
        if self.power != PowerState::Ready {
            Outcome::refused(self, Error::NotReady)
        } else if black.len() != plane_size(WIDTH as nat, HEIGHT as nat) || chromatic.len()
            != plane_size(WIDTH as nat, HEIGHT as nat) {
            Outcome::refused(self, Error::InvalidBufferLength)
        } else {
            Outcome::done(
                self,
                self.update_achromatic_frame_ops(black) + self.update_chromatic_frame_ops(
                    chromatic,
                ),
            )
        }
    }

    /// Writing a frame and showing it in one operation is the same as
    /// writing it and then showing it: the same verdict, the same bus
    /// operations in the same order, the same driver afterwards.
    pub proof fn update_and_display_is_update_then_display(self, buffer: Seq<u8>)
        ensures
            self.update_and_display_frame(buffer) == self.update_frame(buffer).and_then(
                |after: EpdModel| after.display_frame(),
            ),
    {
    }

    /// Writing both planes in one operation is the same as writing the
    /// achromatic plane and then the chromatic one, provided the chromatic
    /// plane has the length of a plane: a chromatic plane of another
    /// length is refused before anything is sent.
    pub proof fn update_color_is_achromatic_then_chromatic(
        self,
        black: Seq<u8>,
        chromatic: Seq<u8>,
    )
        requires
            chromatic.len() == plane_size(WIDTH as nat, HEIGHT as nat),
        ensures
            self.update_color_frame(black, chromatic) == self.update_achromatic_frame(black).and_then(
                |after: EpdModel| after.update_chromatic_frame(chromatic),
            ),
    {
    }

    /// Unless the controller is ready, every operation that writes or
    /// shows a frame, chooses a waveform table or sends the controller to
    /// sleep is refused: nothing reaches the bus and the driver stays as
    /// it is. Only an initialisation leads out of such a state.
    pub proof fn operations_need_ready(
        self,
        buffer: Seq<u8>,
        chromatic: Seq<u8>,
        x: u32,
        y: u32,
        width: u32,
        height: u32,
        refresh_rate: Option<RefreshLut>,
    )
        requires
            self.power != PowerState::Ready,
        ensures
            self.update_frame(buffer) == Outcome::refused(self, Error::NotReady),
            self.update_partial_frame(buffer, x, y, width, height) == Outcome::refused(
                self,
                Error::NotReady,
            ),
            self.display_frame() == Outcome::refused(self, Error::NotReady),
            self.update_and_display_frame(buffer) == Outcome::refused(self, Error::NotReady),
            self.clear_frame() == Outcome::refused(self, Error::NotReady),
            self.update_color_frame(buffer, chromatic) == Outcome::refused(self, Error::NotReady),
            self.update_achromatic_frame(buffer) == Outcome::refused(self, Error::NotReady),
            self.update_chromatic_frame(chromatic) == Outcome::refused(self, Error::NotReady),
            self.set_lut(refresh_rate) == Outcome::refused(self, Error::NotReady),
            self.sleep() == Outcome::refused(self, Error::NotReady),
            self.init().result is Ok && self.init().state.power == PowerState::Ready,
    {
    }

    /// The life cycle: an initialisation leads from every state to ready,
    /// going to sleep from ready to sleeping, and a wake-up, which is an
    /// initialisation, from sleeping back to ready. No other operation
    /// changes where the controller stands.
    pub proof fn life_cycle(
        self,
        buffer: Seq<u8>,
        chromatic: Seq<u8>,
        x: u32,
        y: u32,
        width: u32,
        height: u32,
        refresh_rate: Option<RefreshLut>,
    )
        ensures
            self.init().result is Ok,
            self.init().state.power == PowerState::Ready,
            self.power == PowerState::Ready ==> self.sleep().result is Ok
                && self.sleep().state.power == PowerState::Sleeping
                && self.sleep().state.init().state.power == PowerState::Ready,
            self.update_frame(buffer).state.power == self.power,
            self.update_partial_frame(buffer, x, y, width, height).state.power == self.power,
            self.display_frame().state.power == self.power,
            self.update_and_display_frame(buffer).state.power == self.power,
            self.clear_frame().state.power == self.power,
            self.update_color_frame(buffer, chromatic).state.power == self.power,
            self.update_achromatic_frame(buffer).state.power == self.power,
            self.update_chromatic_frame(chromatic).state.power == self.power,
            self.set_lut(refresh_rate).state.power == self.power,
    {
    }

    /// A frame buffer is accepted exactly if it holds 4000 bytes: sixteen
    /// bytes for each of the 250 rows of 122 pixels.
    pub proof fn frame_holds_4000_bytes(self, buffer: Seq<u8>)
        requires
            self.power == PowerState::Ready,
        ensures
            row_length(WIDTH as nat) == 16,
            plane_size(WIDTH as nat, HEIGHT as nat) == 4000,
            self.update_frame(buffer).result is Ok <==> buffer.len() == 4000,
            buffer.len() != 4000 ==> self.update_frame(buffer) == Outcome::refused(
                self,
                Error::InvalidBufferLength,
            ),
    {
    }
}

} // verus!
