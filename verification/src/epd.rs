//! The driver: the life cycle of the controller and the operations that
//! bring a frame onto the panel.

use crate::color::TriColor;
use crate::command::{
    data_entry_mode, BorderWaveForm, BorderWaveFormFixLevel, BorderWaveFormGs, BorderWaveFormVbd,
    Command, DataEntryModeDir, DataEntryModeIncr, DeepSleepMode, DisplayUpdateControl2,
    DriverOutput,
};
use crate::constants::{LUT_FULL_UPDATE, LUT_PARTIAL_UPDATE};
use crate::error::Error;
use crate::interface::{command_with_data, BusOp, DisplayInterface};
use crate::model::{inverted, low_byte, ram_area, EpdModel};
use crate::profile::Profile;
use vstd::prelude::*;

verus! {

/// Width of the display in pixels.
pub const WIDTH: u32 = 122;

/// Height of the display in pixels.
pub const HEIGHT: u32 = 250;

/// Default background colour.
pub const DEFAULT_BACKGROUND_COLOR: TriColor = TriColor::White;

/// Length in microseconds of each half of the reset pulse.
pub const RESET_PULSE_US: u32 = 10_000;

/// Number of bytes in one row of a bit plane `width` pixels wide.
pub open spec fn row_length(width: nat) -> nat {
    (width + 7) / 8
}

/// Number of bytes in a bit plane of `width` by `height` pixels: one bit
/// per pixel, each row padded to a whole byte.
pub open spec fn plane_size(width: nat, height: nat) -> nat {
    row_length(width) * height
}

/// Number of bytes that a buffer for `width` by `height` pixels has to
/// hold; a row that does not end on a byte boundary is rounded up.
pub fn buffer_len(width: usize, height: usize) -> (r: usize)
    requires
        plane_size(width as nat, height as nat) <= usize::MAX,
    ensures
        r == plane_size(width as nat, height as nat),
{
    let row: usize = width / 8 + (if width % 8 != 0 {
        1
    } else {
        0
    });
    assert(row == row_length(width as nat));
    assert(row * height == plane_size(width as nat, height as nat));
    row * height
}

fn to_low_byte(x: u32) -> (r: u8)
    ensures
        r == low_byte(x),
{
    let low: u32 = x & 0xff;
    assert(low < 256) by (bit_vector)
        requires
            low == x & 0xff,
    ;
    low as u8
}

/// Flips every bit of a plane.
fn invert(data: &[u8]) -> (r: Vec<u8>)
    ensures
        r@ == inverted(data@),
{
    let n: usize = data.len();
    let mut out: Vec<u8> = Vec::new();
    let mut i: usize = 0;
    while i < n
        invariant
            n == data@.len(),
            i <= n,
            out@ == inverted(data@.take(i as int)),
        decreases n - i,
    {
        out.push(!data[i]);
        i += 1;
        assert(out@ =~= inverted(data@.take(i as int)));
    }
    assert(data@.take(n as int) =~= data@);
    out
}

/// The waveform table that a refresh is driven with.
#[derive(Clone, Copy, Debug, PartialEq, Eq, Structural)]
pub enum RefreshLut {
    /// The table of a full refresh.
    Full,
    /// The table of a quick, partial refresh.
    Quick,
}

/// Where the controller stands in its life cycle.
#[derive(Clone, Copy, Debug, PartialEq, Eq, Structural)]
pub enum PowerState {
    /// Not initialised since the driver was made.
    Uninitialized,
    /// Initialised and awake: frames can be written and shown.
    Ready,
    /// In deep sleep; only a wake-up brings it back.
    Sleeping,
}

/// Driver of the 2.13" three-colour panel.
pub struct Epd2in13b {
    profile: Profile,
    power: PowerState,
    refresh: RefreshLut,
    /// Background colour.
    background_color: TriColor,
}

impl View for Epd2in13b {
    type V = EpdModel;

    closed spec fn view(&self) -> EpdModel {
        EpdModel {
            profile: self.profile,
            power: self.power,
            refresh: self.refresh,
            background: self.background_color,
        }
    }
}

impl Epd2in13b {
    /// A driver for a controller that has not been initialised yet.
    pub fn uninitialized(profile: Profile) -> (r: Epd2in13b)
        ensures
            r@ == (EpdModel {
                profile,
                power: PowerState::Uninitialized,
                refresh: RefreshLut::Full,
                background: DEFAULT_BACKGROUND_COLOR,
            }),
    {
        Epd2in13b {
            profile,
            power: PowerState::Uninitialized,
            refresh: RefreshLut::Full,
            background_color: DEFAULT_BACKGROUND_COLOR,
        }
    }

    /// Creates the driver and initialises the controller.
    pub fn new(bus: &mut DisplayInterface, profile: Profile) -> (r: Epd2in13b)
        ensures
            r@ == (EpdModel {
                profile,
                power: PowerState::Ready,
                refresh: RefreshLut::Full,
                background: DEFAULT_BACKGROUND_COLOR,
            }),
            final(bus)@ == old(bus)@ + r@.init_ops(),
    {
        let mut epd = Epd2in13b::uninitialized(profile);
        epd.init(bus);
        epd
    }

    /// Initialises the controller: reset, scan and RAM configuration.
    pub fn init(&mut self, bus: &mut DisplayInterface)
        ensures
            final(self)@ == old(self)@.init().state,
            final(bus)@ == old(bus)@ + old(self)@.init().ops,
    {
        bus.reset(RESET_PULSE_US, RESET_PULSE_US);
        self.wait_until_idle(bus);
        bus.cmd(Command::SwReset);
        self.wait_until_idle(bus);
        Self::set_driver_output(
            bus,
            DriverOutput {
                scan_is_linear: true,
                scan_g0_is_first: true,
                scan_dir_incr: true,
                width: (HEIGHT - 1) as u16,
            },
        );
        Self::set_data_entry_mode(bus, DataEntryModeIncr::XIncrYIncr, DataEntryModeDir::XDir);
        Self::set_ram_area(bus, 0, 0, WIDTH - 1, HEIGHT - 1);
        self.set_ram_address_counters(bus, 0, 0);
        Self::set_border_waveform(
            bus,
            BorderWaveForm {
                vbd: BorderWaveFormVbd::Gs,
                fix_level: BorderWaveFormFixLevel::Vss,
                gs_trans: BorderWaveFormGs::Lut3,
            },
        );
        bus.cmd_with_data(Command::TemperatureSensorRead, &[0x80]);
        bus.cmd_with_data(Command::DisplayUpdateControl1, &[0x80, 0x80]);
        self.wait_until_idle(bus);
        self.power = PowerState::Ready;
        self.refresh = RefreshLut::Full;
        assert(bus@ =~= old(bus)@ + old(self)@.init_ops());
    }

    /// Wakes the controller up from sleep by initialising it again.
    pub fn wake_up(&mut self, bus: &mut DisplayInterface)
        ensures
            final(self)@ == old(self)@.init().state,
            final(bus)@ == old(bus)@ + old(self)@.init().ops,
    {
        self.init(bus)
    }

    /// Sends the controller to sleep.
    pub fn sleep(&mut self, bus: &mut DisplayInterface) -> (r: Result<(), Error>)
        ensures
            r == old(self)@.sleep().result,
            final(self)@ == old(self)@.sleep().state,
            final(bus)@ == old(bus)@ + old(self)@.sleep().ops,
    {
        if self.power != PowerState::Ready {
            assert(bus@ =~= old(bus)@ + Seq::<BusOp>::empty());
            return Err(Error::NotReady);
        }
        self.wait_until_idle(bus);
        if self.profile.supports_lut {
            Self::set_display_update_control_2(
                bus,
                DisplayUpdateControl2::new().enable_analog().enable_clock().disable_analog()
                    .disable_clock(),
            );
            bus.cmd(Command::MasterActivation);
        }
        Self::set_sleep_mode(bus, DeepSleepMode::Normal);
        self.power = PowerState::Sleeping;
        assert(bus@ =~= old(bus)@ + old(self)@.sleep_ops());
        Ok(())
    }

    /// Takes note that the bus or a pin failed while the operations of this
    /// driver were carried out. What has reached the controller is then
    /// unknown, so the controller counts as not initialised: only an
    /// initialisation makes it ready again.
    pub fn bus_failed(&mut self)
        ensures
            final(self)@ == (EpdModel { power: PowerState::Uninitialized, ..old(self)@ }),
    {
        self.power = PowerState::Uninitialized;
    }

    /// Waits until the controller is idle.
    pub fn wait_until_idle(&self, bus: &mut DisplayInterface)
        ensures
            final(bus)@ == old(bus)@ + self@.wait(),
    {
        bus.wait_until_idle(self.profile.busy_level);
        assert(bus@ =~= old(bus)@ + self@.wait());
    }

    /// Sets the colour that `clear_frame` fills the panel with.
    pub fn set_background_color(&mut self, background_color: TriColor)
        ensures
            final(self)@ == (EpdModel { background: background_color, ..old(self)@ }),
    {
        self.background_color = background_color;
    }

    /// The colour that `clear_frame` fills the panel with.
    pub fn background_color(&self) -> (r: &TriColor)
        ensures
            *r == self@.background,
    {
        &self.background_color
    }

    /// Width of the panel in pixels.
    pub fn width(&self) -> (r: u32)
        ensures
            r == WIDTH,
    {
        WIDTH
    }

    /// Height of the panel in pixels.
    pub fn height(&self) -> (r: u32)
        ensures
            r == HEIGHT,
    {
        HEIGHT
    }

    /// Where the controller stands in its life cycle.
    pub fn power_state(&self) -> (r: PowerState)
        ensures
            r == self@.power,
    {
        self.power
    }

    /// The waveform table in force.
    pub fn refresh_mode(&self) -> (r: RefreshLut)
        ensures
            r == self@.refresh,
    {
        self.refresh
    }

    /// The revision of the controller that this driver talks to.
    pub fn profile(&self) -> (r: Profile)
        ensures
            r == self@.profile,
    {
        self.profile
    }

    /// Writes a frame to the achromatic bank.
    pub fn update_frame(&mut self, bus: &mut DisplayInterface, buffer: &[u8]) -> (r: Result<(), Error>)
        ensures
            r == old(self)@.update_frame(buffer@).result,
            final(self)@ == old(self)@.update_frame(buffer@).state,
            final(bus)@ == old(bus)@ + old(self)@.update_frame(buffer@).ops,
    {
        if self.power != PowerState::Ready {
            assert(bus@ =~= old(bus)@ + Seq::<BusOp>::empty());
            return Err(Error::NotReady);
        }
        if buffer.len() != Self::plane_len() {
            assert(bus@ =~= old(bus)@ + Seq::<BusOp>::empty());
            return Err(Error::InvalidBufferLength);
        }
        Self::set_ram_area(bus, 0, 0, WIDTH - 1, HEIGHT - 1);
        self.set_ram_address_counters(bus, 0, 0);
        bus.cmd_with_data(Command::WriteRam, buffer);
        if self.refresh == RefreshLut::Full {
            // Keep the base bank in step with the current one.
            self.fill_bank(bus, Command::WriteRamRed);
        }
        assert(bus@ =~= old(bus)@ + old(self)@.update_frame_ops(buffer@));
        Ok(())
    }

    /// Writes `buffer` to the rectangle of `width` by `height` pixels with
    /// the corner `(x, y)`.
    ///
    /// While the table of a partial refresh is in force only the
    /// achromatic bank is written; keeping the chromatic bank in step with
    /// what the panel shows is then left to the caller.
    pub fn update_partial_frame(
        &mut self,
        bus: &mut DisplayInterface,
        buffer: &[u8],
        x: u32,
        y: u32,
        width: u32,
        height: u32,
    ) -> (r: Result<(), Error>)
        ensures
            r == old(self)@.update_partial_frame(buffer@, x, y, width, height).result,
            final(self)@ == old(self)@.update_partial_frame(buffer@, x, y, width, height).state,
            final(bus)@ == old(bus)@ + old(self)@.update_partial_frame(
                buffer@,
                x,
                y,
                width,
                height,
            ).ops,
    {
        if self.power != PowerState::Ready {
            assert(bus@ =~= old(bus)@ + Seq::<BusOp>::empty());
            return Err(Error::NotReady);
        }
        if !self.profile.supports_partial_refresh {
            assert(bus@ =~= old(bus)@ + Seq::<BusOp>::empty());
            return Err(Error::Unsupported);
        }
        let corner: Option<(u32, u32, u32)> = Self::far_corner(x, y, width, height);
        let (end_x, end_y, area): (u32, u32, u32) = match corner {
            Some(c) => c,
            None => {
                assert(bus@ =~= old(bus)@ + Seq::<BusOp>::empty());
                return Err(Error::InvalidGeometry);
            },
        };
        if (area / 8) as usize != buffer.len() {
            assert(bus@ =~= old(bus)@ + Seq::<BusOp>::empty());
            return Err(Error::InvalidBufferLength);
        }
        Self::set_ram_area(bus, x, y, end_x, end_y);
        self.set_ram_address_counters(bus, x, y);
        bus.cmd_with_data(Command::WriteRam, buffer);
        if self.refresh == RefreshLut::Full {
            // Keep the base bank in step with the current one.
            Self::set_ram_area(bus, x, y, end_x, end_y);
            self.set_ram_address_counters(bus, x, y);
            bus.cmd_with_data(Command::WriteRamRed, buffer);
        }
        assert(bus@ =~= old(bus)@ + old(self)@.update_partial_frame_ops(
            buffer@,
            x,
            y,
            width,
            height,
        ));
        Ok(())
    }

    /// Brings the content of RAM onto the panel.
    pub fn display_frame(&mut self, bus: &mut DisplayInterface) -> (r: Result<(), Error>)
        ensures
            r == old(self)@.display_frame().result,
            final(self)@ == old(self)@.display_frame().state,
            final(bus)@ == old(bus)@ + old(self)@.display_frame().ops,
    {
        if self.power != PowerState::Ready {
            assert(bus@ =~= old(bus)@ + Seq::<BusOp>::empty());
            return Err(Error::NotReady);
        }
        if self.profile.supports_lut {
            Self::set_display_update_control_2(
                bus,
                DisplayUpdateControl2::new().enable_clock().enable_analog().load_lut().load_temp()
                    .display().disable_analog().disable_clock(),
            );
            bus.cmd(Command::MasterActivation);
        } else {
            bus.cmd(Command::ActiveDisplayUpdateSequence);
        }
        self.wait_until_idle(bus);
        assert(bus@ =~= old(bus)@ + old(self)@.display_frame_ops());
        Ok(())
    }

    /// Writes a frame to the achromatic bank and brings it onto the panel.
    pub fn update_and_display_frame(
        &mut self,
        bus: &mut DisplayInterface,
        buffer: &[u8],
    ) -> (r: Result<(), Error>)
        ensures
            r == old(self)@.update_and_display_frame(buffer@).result,
            final(self)@ == old(self)@.update_and_display_frame(buffer@).state,
            final(bus)@ == old(bus)@ + old(self)@.update_and_display_frame(buffer@).ops,
    {
        let written: Result<(), Error> = self.update_frame(bus, buffer);
        match written {
            Err(e) => {
                assert(bus@ =~= old(bus)@ + Seq::<BusOp>::empty());
                Err(e)
            },
            Ok(()) => {
                let shown: Result<(), Error> = self.display_frame(bus);
                let ghost epd = old(self)@;
                assert(bus@ =~= old(bus)@ + (epd.update_frame_ops(buffer@)
                    + epd.display_frame_ops()));
                shown
            },
        }
    }

    /// Fills both banks of the panel's RAM with the background colour.
    pub fn clear_frame(&mut self, bus: &mut DisplayInterface) -> (r: Result<(), Error>)
        ensures
            r == old(self)@.clear_frame().result,
            final(self)@ == old(self)@.clear_frame().state,
            final(bus)@ == old(bus)@ + old(self)@.clear_frame().ops,
    {
        if self.power != PowerState::Ready {
            assert(bus@ =~= old(bus)@ + Seq::<BusOp>::empty());
            return Err(Error::NotReady);
        }
        self.fill_bank(bus, Command::WriteRam);
        self.fill_bank(bus, Command::WriteRamRed);
        assert(bus@ =~= old(bus)@ + old(self)@.clear_frame_ops());
        Ok(())
    }

    /// Loads one of the built-in waveform tables; without a refresh mode,
    /// that of a full refresh.
    pub fn set_lut(
        &mut self,
        bus: &mut DisplayInterface,
        refresh_rate: Option<RefreshLut>,
    ) -> (r: Result<(), Error>)
        ensures
            r == old(self)@.set_lut(refresh_rate).result,
            final(self)@ == old(self)@.set_lut(refresh_rate).state,
            final(bus)@ == old(bus)@ + old(self)@.set_lut(refresh_rate).ops,
    {
        if self.power != PowerState::Ready {
            assert(bus@ =~= old(bus)@ + Seq::<BusOp>::empty());
            return Err(Error::NotReady);
        }
        if !self.profile.supports_lut {
            assert(bus@ =~= old(bus)@ + Seq::<BusOp>::empty());
            return Ok(());
        }
        match refresh_rate {
            Some(RefreshLut::Quick) => {
                bus.cmd_with_data(Command::WriteLutRegister, &LUT_PARTIAL_UPDATE);
                self.refresh = RefreshLut::Quick;
            },
            _ => {
                bus.cmd_with_data(Command::WriteLutRegister, &LUT_FULL_UPDATE);
                self.refresh = RefreshLut::Full;
            },
        }
        Ok(())
    }

    /// Writes both planes of a frame, the achromatic one first.
    pub fn update_color_frame(
        &mut self,
        bus: &mut DisplayInterface,
        black: &[u8],
        chromatic: &[u8],
    ) -> (r: Result<(), Error>)
        ensures
            r == old(self)@.update_color_frame(black@, chromatic@).result,
            final(self)@ == old(self)@.update_color_frame(black@, chromatic@).state,
            final(bus)@ == old(bus)@ + old(self)@.update_color_frame(black@, chromatic@).ops,
    {
        if self.power != PowerState::Ready {
            assert(bus@ =~= old(bus)@ + Seq::<BusOp>::empty());
            return Err(Error::NotReady);
        }
        if black.len() != Self::plane_len() || chromatic.len() != Self::plane_len() {
            assert(bus@ =~= old(bus)@ + Seq::<BusOp>::empty());
            return Err(Error::InvalidBufferLength);
        }
        let first: Result<(), Error> = self.update_achromatic_frame(bus, black);
        let second: Result<(), Error> = self.update_chromatic_frame(bus, chromatic);
        let ghost epd = old(self)@;
        assert(bus@ =~= old(bus)@ + (epd.update_achromatic_frame_ops(black@)
            + epd.update_chromatic_frame_ops(chromatic@)));
        second
    }

    /// Writes only the black and white plane of a frame.
    ///
    /// Finish by calling `update_chromatic_frame`.
    pub fn update_achromatic_frame(
        &mut self,
        bus: &mut DisplayInterface,
        black: &[u8],
    ) -> (r: Result<(), Error>)
        ensures
            r == old(self)@.update_achromatic_frame(black@).result,
            final(self)@ == old(self)@.update_achromatic_frame(black@).state,
            final(bus)@ == old(bus)@ + old(self)@.update_achromatic_frame(black@).ops,
    {
        if self.power != PowerState::Ready {
            assert(bus@ =~= old(bus)@ + Seq::<BusOp>::empty());
            return Err(Error::NotReady);
        }
        if black.len() != Self::plane_len() {
            assert(bus@ =~= old(bus)@ + Seq::<BusOp>::empty());
            return Err(Error::InvalidBufferLength);
        }
        self.wait_until_idle(bus);
        bus.cmd(Command::WriteRam);
        bus.data(black);
        assert(bus@ =~= old(bus)@ + old(self)@.update_achromatic_frame_ops(black@));
        Ok(())
    }

    /// Writes only the chromatic plane of a frame.
    ///
    /// On the panel this plane takes precedence over the black and white
    /// one.
    pub fn update_chromatic_frame(
        &mut self,
        bus: &mut DisplayInterface,
        chromatic: &[u8],
    ) -> (r: Result<(), Error>)
        ensures
            r == old(self)@.update_chromatic_frame(chromatic@).result,
            final(self)@ == old(self)@.update_chromatic_frame(chromatic@).state,
            final(bus)@ == old(bus)@ + old(self)@.update_chromatic_frame(chromatic@).ops,
    {
        if self.power != PowerState::Ready {
            assert(bus@ =~= old(bus)@ + Seq::<BusOp>::empty());
            return Err(Error::NotReady);
        }
        if chromatic.len() != Self::plane_len() {
            assert(bus@ =~= old(bus)@ + Seq::<BusOp>::empty());
            return Err(Error::InvalidBufferLength);
        }
        self.wait_until_idle(bus);
        bus.cmd(Command::WriteRamRed);
        if self.profile.chromatic_inverted {
            let plane: Vec<u8> = invert(chromatic);
            bus.data(plane.as_slice());
        } else {
            bus.data(chromatic);
        }
        self.wait_until_idle(bus);
        assert(bus@ =~= old(bus)@ + old(self)@.update_chromatic_frame_ops(chromatic@));
        Ok(())
    }

    /// Number of bytes in one plane of the panel.
    fn plane_len() -> (r: usize)
        ensures
            r == plane_size(WIDTH as nat, HEIGHT as nat),
            r == 4000,
    {
        assert(plane_size(WIDTH as nat, HEIGHT as nat) == 4000);
        buffer_len(WIDTH as usize, HEIGHT as usize)
    }

    /// The far corner and the area of a rectangle, unless one of them
    /// exceeds 32 bits.
    fn far_corner(x: u32, y: u32, width: u32, height: u32) -> (r: Option<(u32, u32, u32)>)
        ensures
            r is None <==> (x + width > u32::MAX || y + height > u32::MAX || width * height
                > u32::MAX),
            r matches Some(c) ==> c.0 == x + width && c.1 == y + height && c.2 == width * height,
    {
        let end_x: u32 = match x.checked_add(width) {
            Some(v) => v,
            None => { return None; },
        };
        let end_y: u32 = match y.checked_add(height) {
            Some(v) => v,
            None => { return None; },
        };
        let area: u32 = match width.checked_mul(height) {
            Some(v) => v,
            None => { return None; },
        };
        Some((end_x, end_y, area))
    }

    /// Fills one RAM bank with the background colour.
    fn fill_bank(&self, bus: &mut DisplayInterface, bank: Command)
        ensures
            final(bus)@ == old(bus)@ + self@.background_fill(bank),
    {
        let color: u8 = self.background_color.get_byte_value();
        Self::set_ram_area(bus, 0, 0, WIDTH - 1, HEIGHT - 1);
        self.set_ram_address_counters(bus, 0, 0);
        bus.cmd(bank);
        bus.data_x_times(color, Self::plane_len() as u32);
        assert(bus@ =~= old(bus)@ + self@.background_fill(bank));
    }

    /// Stages the steps that the next master activation carries out.
    pub fn set_display_update_control_2(bus: &mut DisplayInterface, value: DisplayUpdateControl2)
        ensures
            final(bus)@ == old(bus)@ + command_with_data(
                Command::DisplayUpdateControl2.opcode(),
                seq![value.0],
            ),
    {
        let payload: [u8; 1] = [value.0];
        assert(payload@ =~= seq![value.0]);
        bus.cmd_with_data(Command::DisplayUpdateControl2, &payload);
    }

    /// Triggers the deep sleep mode.
    pub fn set_sleep_mode(bus: &mut DisplayInterface, mode: DeepSleepMode)
        ensures
            final(bus)@ == old(bus)@ + command_with_data(
                Command::DeepSleepMode.opcode(),
                seq![mode.code()],
            ),
    {
        let payload: [u8; 1] = [mode.value()];
        assert(payload@ =~= seq![mode.code()]);
        bus.cmd_with_data(Command::DeepSleepMode, &payload);
    }

    /// Programs how the gates of the panel are scanned.
    pub fn set_driver_output(bus: &mut DisplayInterface, output: DriverOutput)
        ensures
            final(bus)@ == old(bus)@ + command_with_data(
                Command::DriverOutputControl.opcode(),
                output.bytes(),
            ),
    {
        let payload: [u8; 3] = output.to_bytes();
        bus.cmd_with_data(Command::DriverOutputControl, &payload);
    }

    /// Sets the data entry mode, that is how the X and Y counters move
    /// when data is written to RAM.
    pub fn set_data_entry_mode(
        bus: &mut DisplayInterface,
        counter_incr_mode: DataEntryModeIncr,
        counter_direction: DataEntryModeDir,
    )
        ensures
            final(bus)@ == old(bus)@ + command_with_data(
                Command::DataEntryModeSetting.opcode(),
                seq![data_entry_mode(counter_incr_mode, counter_direction)],
            ),
    {
        let mode: u8 = counter_incr_mode.value() | counter_direction.value();
        let payload: [u8; 1] = [mode];
        assert(payload@ =~= seq![data_entry_mode(counter_incr_mode, counter_direction)]);
        bus.cmd_with_data(Command::DataEntryModeSetting, &payload);
    }

    /// Programs the border waveform.
    pub fn set_border_waveform(bus: &mut DisplayInterface, borderwaveform: BorderWaveForm)
        ensures
            final(bus)@ == old(bus)@ + command_with_data(
                Command::BorderWaveformControl.opcode(),
                seq![borderwaveform.byte()],
            ),
    {
        let payload: [u8; 1] = [borderwaveform.to_u8()];
        assert(payload@ =~= seq![borderwaveform.byte()]);
        bus.cmd_with_data(Command::BorderWaveformControl, &payload);
    }

    /// Sets both X and Y pixel ranges.
    pub fn set_ram_area(bus: &mut DisplayInterface, start_x: u32, start_y: u32, end_x: u32, end_y: u32)
        ensures
            final(bus)@ == old(bus)@ + ram_area(start_x, start_y, end_x, end_y),
    {
        let xs: [u8; 2] = [to_low_byte(start_x >> 3), to_low_byte(end_x >> 3)];
        assert(xs@ =~= seq![low_byte(start_x >> 3), low_byte(end_x >> 3)]);
        bus.cmd_with_data(Command::SetRamXAddressStartEndPosition, &xs);
        let ys: [u8; 4] = [
            to_low_byte(start_y),
            to_low_byte(start_y >> 8),
            to_low_byte(end_y),
            to_low_byte(end_y >> 8),
        ];
        assert(ys@ =~= seq![
            low_byte(start_y),
            low_byte(start_y >> 8),
            low_byte(end_y),
            low_byte(end_y >> 8),
        ]);
        bus.cmd_with_data(Command::SetRamYAddressStartEndPosition, &ys);
        assert(bus@ =~= old(bus)@ + ram_area(start_x, start_y, end_x, end_y));
    }

    /// Sets both X and Y pixel counters for the data written to RAM next.
    pub fn set_ram_address_counters(&self, bus: &mut DisplayInterface, x: u32, y: u32)
        ensures
            final(bus)@ == old(bus)@ + self@.ram_counters(x, y),
    {
        self.wait_until_idle(bus);
        let xs: [u8; 1] = [to_low_byte(x >> 3)];
        assert(xs@ =~= seq![low_byte(x >> 3)]);
        bus.cmd_with_data(Command::SetRamXAddressCounter, &xs);
        let ys: [u8; 2] = [to_low_byte(y), to_low_byte(y >> 8)];
        assert(ys@ =~= seq![low_byte(y), low_byte(y >> 8)]);
        bus.cmd_with_data(Command::SetRamYAddressCounter, &ys);
        assert(bus@ =~= old(bus)@ + self@.ram_counters(x, y));
    }
}

} // verus!
