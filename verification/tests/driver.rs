use epd2in13b::color::TriColor;
use epd2in13b::constants::{LUT_FULL_UPDATE, LUT_PARTIAL_UPDATE};
use epd2in13b::epd::{Epd2in13b, PowerState, RefreshLut};
use epd2in13b::error::Error;
use epd2in13b::interface::{BusOp, DisplayInterface, Level};
use epd2in13b::profile::Profile;

fn cmd(opcode: u8) -> Vec<BusOp> {
    vec![
        BusOp::ChipSelect(Level::Low),
        BusOp::DataCommand(Level::Low),
        BusOp::Write(opcode),
        BusOp::ChipSelect(Level::High),
    ]
}

fn data(bytes: &[u8]) -> Vec<BusOp> {
    let mut ops = vec![BusOp::ChipSelect(Level::Low), BusOp::DataCommand(Level::High)];
    for b in bytes {
        ops.push(BusOp::Write(*b));
    }
    ops.push(BusOp::ChipSelect(Level::High));
    ops
}

fn cmd_data(opcode: u8, bytes: &[u8]) -> Vec<BusOp> {
    let mut ops = cmd(opcode);
    ops.extend(data(bytes));
    ops
}

fn wait() -> Vec<BusOp> {
    vec![BusOp::WaitWhileBusy(Level::High)]
}

fn full_window() -> Vec<BusOp> {
    let mut ops = cmd_data(0x44, &[0x00, 0x0F]);
    ops.extend(cmd_data(0x45, &[0x00, 0x00, 0xF9, 0x00]));
    ops.extend(wait());
    ops.extend(cmd_data(0x4E, &[0x00]));
    ops.extend(cmd_data(0x4F, &[0x00, 0x00]));
    ops
}

fn init_sequence() -> Vec<BusOp> {
    let mut ops = vec![
        BusOp::Reset(Level::Low),
        BusOp::DelayUs(10_000),
        BusOp::Reset(Level::High),
        BusOp::DelayUs(10_000),
    ];
    ops.extend(wait());
    ops.extend(cmd(0x12));
    ops.extend(wait());
    ops.extend(cmd_data(0x01, &[0xF9, 0x00, 0x00]));
    ops.extend(cmd_data(0x11, &[0x03]));
    ops.extend(full_window());
    ops.extend(cmd_data(0x3C, &[0x03]));
    ops.extend(cmd_data(0x18, &[0x80]));
    ops.extend(cmd_data(0x21, &[0x80, 0x80]));
    ops.extend(wait());
    ops
}

fn ready(profile: Profile) -> Epd2in13b {
    let mut bus = DisplayInterface::new();
    Epd2in13b::new(&mut bus, profile)
}

fn frame() -> Vec<u8> {
    (0..4000u32).map(|i| (i % 251) as u8).collect()
}

#[test]
fn new_initialises_the_controller() {
    let mut bus = DisplayInterface::new();
    let epd = Epd2in13b::new(&mut bus, Profile::v4());
    assert_eq!(epd.power_state(), PowerState::Ready);
    assert_eq!(epd.refresh_mode(), RefreshLut::Full);
    assert_eq!(*epd.background_color(), TriColor::White);
    assert_eq!(epd.profile(), Profile::v4());
    assert_eq!(bus.ops(), &init_sequence());
}

#[test]
fn init_is_the_same_on_both_revisions() {
    let mut bus = DisplayInterface::new();
    let epd = Epd2in13b::new(&mut bus, Profile::legacy());
    assert_eq!(epd.power_state(), PowerState::Ready);
    assert_eq!(bus.ops(), &init_sequence());
}

#[test]
fn ram_window_x_is_sent_in_units_of_eight_pixels() {
    let mut bus = DisplayInterface::new();
    let _epd = Epd2in13b::new(&mut bus, Profile::v4());
    let ops = bus.into_ops();
    let frame = cmd_data(0x44, &[0x00, 0x0F]);
    assert!(ops.windows(frame.len()).any(|w| w == &frame[..]));
}

#[test]
fn uninitialized_driver_sends_nothing_and_is_not_ready() {
    let mut bus = DisplayInterface::new();
    let mut epd = Epd2in13b::uninitialized(Profile::v4());
    assert_eq!(epd.power_state(), PowerState::Uninitialized);
    assert_eq!(epd.clear_frame(&mut bus), Err(Error::NotReady));
    assert_eq!(epd.sleep(&mut bus), Err(Error::NotReady));
    assert!(bus.ops().is_empty());
    epd.init(&mut bus);
    assert_eq!(epd.power_state(), PowerState::Ready);
    assert_eq!(bus.ops(), &init_sequence());
}

#[test]
fn width_and_height_are_those_of_the_panel() {
    let epd = ready(Profile::v4());
    assert_eq!(epd.width(), 122);
    assert_eq!(epd.height(), 250);
}

#[test]
fn background_colour_can_be_changed() {
    let mut epd = ready(Profile::v4());
    epd.set_background_color(TriColor::Black);
    assert_eq!(*epd.background_color(), TriColor::Black);
    assert_eq!(epd.power_state(), PowerState::Ready);
}

#[test]
fn sleep_on_v4_powers_down_then_enters_deep_sleep() {
    let mut epd = ready(Profile::v4());
    let mut bus = DisplayInterface::new();
    assert_eq!(epd.sleep(&mut bus), Ok(()));
    assert_eq!(epd.power_state(), PowerState::Sleeping);
    let mut expected = wait();
    expected.extend(cmd_data(0x22, &[0xC3]));
    expected.extend(cmd(0x20));
    expected.extend(cmd_data(0x10, &[0x00]));
    assert_eq!(bus.ops(), &expected);
}

#[test]
fn sleep_on_legacy_enters_deep_sleep_directly() {
    let mut epd = ready(Profile::legacy());
    let mut bus = DisplayInterface::new();
    assert_eq!(epd.sleep(&mut bus), Ok(()));
    assert_eq!(epd.power_state(), PowerState::Sleeping);
    let mut expected = wait();
    expected.extend(cmd_data(0x10, &[0x00]));
    assert_eq!(bus.ops(), &expected);
}

#[test]
fn wake_up_runs_the_initialisation_again() {
    let mut epd = ready(Profile::v4());
    let mut bus = DisplayInterface::new();
    epd.sleep(&mut bus).unwrap();
    let mut bus = DisplayInterface::new();
    epd.wake_up(&mut bus);
    assert_eq!(epd.power_state(), PowerState::Ready);
    assert_eq!(bus.ops(), &init_sequence());
    assert_eq!(epd.clear_frame(&mut bus), Ok(()));
}

#[test]
fn wait_until_idle_waits_on_the_busy_level_of_the_profile() {
    let epd = ready(Profile::v4());
    let mut bus = DisplayInterface::new();
    epd.wait_until_idle(&mut bus);
    assert_eq!(bus.ops(), &wait());
    let low_busy = Profile { busy_level: Level::Low, ..Profile::v4() };
    let epd = ready(low_busy);
    let mut bus = DisplayInterface::new();
    epd.wait_until_idle(&mut bus);
    assert_eq!(bus.ops(), &vec![BusOp::WaitWhileBusy(Level::Low)]);
}

#[test]
fn update_frame_writes_the_frame_and_mirrors_the_background() {
    let mut epd = ready(Profile::v4());
    let mut bus = DisplayInterface::new();
    let buffer = frame();
    assert_eq!(epd.update_frame(&mut bus, &buffer), Ok(()));
    let mut expected = full_window();
    expected.extend(cmd_data(0x24, &buffer));
    expected.extend(full_window());
    expected.extend(cmd(0x26));
    expected.extend(data(&vec![0xFF; 4000]));
    assert_eq!(bus.ops(), &expected);
    assert_eq!(epd.power_state(), PowerState::Ready);
}

#[test]
fn update_frame_mirrors_the_configured_background() {
    let mut epd = ready(Profile::legacy());
    epd.set_background_color(TriColor::Black);
    let mut bus = DisplayInterface::new();
    let buffer = frame();
    assert_eq!(epd.update_frame(&mut bus, &buffer), Ok(()));
    let mut expected = full_window();
    expected.extend(cmd_data(0x24, &buffer));
    expected.extend(full_window());
    expected.extend(cmd(0x26));
    expected.extend(data(&vec![0x00; 4000]));
    assert_eq!(bus.ops(), &expected);
}

#[test]
fn update_frame_rejects_any_other_buffer_length() {
    let mut epd = ready(Profile::v4());
    let mut bus = DisplayInterface::new();
    assert_eq!(epd.update_frame(&mut bus, &vec![0u8; 3999]), Err(Error::InvalidBufferLength));
    assert_eq!(epd.update_frame(&mut bus, &vec![0u8; 4001]), Err(Error::InvalidBufferLength));
    assert_eq!(epd.update_frame(&mut bus, &[]), Err(Error::InvalidBufferLength));
    assert!(bus.ops().is_empty());
    assert_eq!(epd.update_frame(&mut bus, &vec![0u8; 4000]), Ok(()));
}

#[test]
fn update_frame_in_partial_refresh_mode_leaves_the_chromatic_bank() {
    let mut epd = ready(Profile::v4());
    let mut bus = DisplayInterface::new();
    assert_eq!(epd.set_lut(&mut bus, Some(RefreshLut::Quick)), Ok(()));
    assert_eq!(epd.refresh_mode(), RefreshLut::Quick);
    let mut bus = DisplayInterface::new();
    let buffer = frame();
    assert_eq!(epd.update_frame(&mut bus, &buffer), Ok(()));
    let mut expected = full_window();
    expected.extend(cmd_data(0x24, &buffer));
    assert_eq!(bus.ops(), &expected);
}

#[test]
fn display_frame_on_v4_stages_the_update_then_activates() {
    let mut epd = ready(Profile::v4());
    let mut bus = DisplayInterface::new();
    assert_eq!(epd.display_frame(&mut bus), Ok(()));
    let mut expected = cmd_data(0x22, &[0xF7]);
    expected.extend(cmd(0x20));
    expected.extend(wait());
    assert_eq!(bus.ops(), &expected);
}

#[test]
fn display_frame_on_legacy_sends_the_update_sequence_command() {
    let mut epd = ready(Profile::legacy());
    let mut bus = DisplayInterface::new();
    assert_eq!(epd.display_frame(&mut bus), Ok(()));
    let mut expected = cmd(0x20);
    expected.extend(wait());
    assert_eq!(bus.ops(), &expected);
}

#[test]
fn update_and_display_frame_equals_update_then_display() {
    let buffer = frame();
    for profile in [Profile::v4(), Profile::legacy()] {
        let mut one = ready(profile);
        let mut bus_one = DisplayInterface::new();
        assert_eq!(one.update_and_display_frame(&mut bus_one, &buffer), Ok(()));

        let mut two = ready(profile);
        let mut bus_two = DisplayInterface::new();
        assert_eq!(two.update_frame(&mut bus_two, &buffer), Ok(()));
        assert_eq!(two.display_frame(&mut bus_two), Ok(()));

        assert_eq!(bus_one.ops(), bus_two.ops());
        assert_eq!(one.power_state(), PowerState::Ready);
        assert_eq!(two.power_state(), PowerState::Ready);
    }
}

#[test]
fn update_and_display_frame_sends_nothing_for_a_bad_buffer() {
    let mut epd = ready(Profile::v4());
    let mut bus = DisplayInterface::new();
    assert_eq!(
        epd.update_and_display_frame(&mut bus, &vec![0u8; 10]),
        Err(Error::InvalidBufferLength)
    );
    assert!(bus.ops().is_empty());
}

#[test]
fn clear_frame_fills_both_banks() {
    let mut epd = ready(Profile::v4());
    let mut bus = DisplayInterface::new();
    assert_eq!(epd.clear_frame(&mut bus), Ok(()));
    let mut expected = full_window();
    expected.extend(cmd(0x24));
    expected.extend(data(&vec![0xFF; 4000]));
    expected.extend(full_window());
    expected.extend(cmd(0x26));
    expected.extend(data(&vec![0xFF; 4000]));
    assert_eq!(bus.ops(), &expected);
}

#[test]
fn clear_frame_in_partial_refresh_mode_fills_both_banks() {
    let mut epd = ready(Profile::v4());
    let mut bus = DisplayInterface::new();
    epd.set_lut(&mut bus, Some(RefreshLut::Quick)).unwrap();
    epd.set_background_color(TriColor::Black);
    let mut bus = DisplayInterface::new();
    assert_eq!(epd.clear_frame(&mut bus), Ok(()));
    let mut expected = full_window();
    expected.extend(cmd(0x24));
    expected.extend(data(&vec![0x00; 4000]));
    expected.extend(full_window());
    expected.extend(cmd(0x26));
    expected.extend(data(&vec![0x00; 4000]));
    assert_eq!(bus.ops(), &expected);
}

#[test]
fn clear_frame_on_legacy_fills_both_banks() {
    let mut epd = ready(Profile::legacy());
    let mut bus = DisplayInterface::new();
    assert_eq!(epd.clear_frame(&mut bus), Ok(()));
    let mut expected = full_window();
    expected.extend(cmd(0x24));
    expected.extend(data(&vec![0xFF; 4000]));
    expected.extend(full_window());
    expected.extend(cmd(0x26));
    expected.extend(data(&vec![0xFF; 4000]));
    assert_eq!(bus.ops(), &expected);
}

#[test]
fn bus_failure_leaves_the_controller_uninitialized() {
    let mut epd = ready(Profile::v4());
    let mut bus = DisplayInterface::new();
    epd.set_lut(&mut bus, Some(RefreshLut::Quick)).unwrap();
    epd.set_background_color(TriColor::Black);
    epd.bus_failed();
    assert_eq!(epd.power_state(), PowerState::Uninitialized);
    assert_eq!(epd.refresh_mode(), RefreshLut::Quick);
    assert_eq!(*epd.background_color(), TriColor::Black);
    assert_eq!(epd.profile(), Profile::v4());
    let mut bus = DisplayInterface::new();
    assert_eq!(epd.display_frame(&mut bus), Err(Error::NotReady));
    assert_eq!(epd.sleep(&mut bus), Err(Error::NotReady));
    assert!(bus.ops().is_empty());
    epd.init(&mut bus);
    assert_eq!(epd.power_state(), PowerState::Ready);
    assert_eq!(epd.refresh_mode(), RefreshLut::Full);
    assert_eq!(bus.ops(), &init_sequence());
}

#[test]
fn bus_failure_while_sleeping_needs_an_initialisation() {
    let mut epd = ready(Profile::legacy());
    let mut bus = DisplayInterface::new();
    epd.sleep(&mut bus).unwrap();
    epd.bus_failed();
    assert_eq!(epd.power_state(), PowerState::Uninitialized);
    epd.wake_up(&mut bus);
    assert_eq!(epd.power_state(), PowerState::Ready);
}

#[test]
fn update_partial_frame_writes_the_rectangle_to_both_banks() {
    let mut epd = ready(Profile::v4());
    let mut bus = DisplayInterface::new();
    let buffer: Vec<u8> = (0..32u8).collect();
    assert_eq!(epd.update_partial_frame(&mut bus, &buffer, 16, 300, 16, 16), Ok(()));
    let mut window = cmd_data(0x44, &[0x02, 0x04]);
    window.extend(cmd_data(0x45, &[0x2C, 0x01, 0x3C, 0x01]));
    window.extend(wait());
    window.extend(cmd_data(0x4E, &[0x02]));
    window.extend(cmd_data(0x4F, &[0x2C, 0x01]));
    let mut expected = window.clone();
    expected.extend(cmd_data(0x24, &buffer));
    expected.extend(window);
    expected.extend(cmd_data(0x26, &buffer));
    assert_eq!(bus.ops(), &expected);
}

#[test]
fn update_partial_frame_in_partial_refresh_mode_writes_one_bank() {
    let mut epd = ready(Profile::v4());
    let mut bus = DisplayInterface::new();
    epd.set_lut(&mut bus, Some(RefreshLut::Quick)).unwrap();
    let mut bus = DisplayInterface::new();
    let buffer = [0xAAu8; 8];
    assert_eq!(epd.update_partial_frame(&mut bus, &buffer, 0, 0, 8, 8), Ok(()));
    let mut expected = cmd_data(0x44, &[0x00, 0x01]);
    expected.extend(cmd_data(0x45, &[0x00, 0x00, 0x08, 0x00]));
    expected.extend(wait());
    expected.extend(cmd_data(0x4E, &[0x00]));
    expected.extend(cmd_data(0x4F, &[0x00, 0x00]));
    expected.extend(cmd_data(0x24, &buffer));
    assert_eq!(bus.ops(), &expected);
}

#[test]
fn update_partial_frame_rejects_a_buffer_of_another_size() {
    let mut epd = ready(Profile::v4());
    let mut bus = DisplayInterface::new();
    assert_eq!(
        epd.update_partial_frame(&mut bus, &[0u8; 7], 0, 0, 8, 8),
        Err(Error::InvalidBufferLength)
    );
    assert_eq!(
        epd.update_partial_frame(&mut bus, &[0u8; 9], 0, 0, 8, 8),
        Err(Error::InvalidBufferLength)
    );
    assert_eq!(epd.update_partial_frame(&mut bus, &[0u8; 1], 0, 0, 3, 5), Ok(()));
    assert_eq!(epd.update_partial_frame(&mut DisplayInterface::new(), &[], 0, 0, 1, 7), Ok(()));
}

#[test]
fn update_partial_frame_rejects_a_rectangle_beyond_32_bits() {
    let mut epd = ready(Profile::v4());
    let mut bus = DisplayInterface::new();
    assert_eq!(
        epd.update_partial_frame(&mut bus, &[0u8; 1], u32::MAX, 0, 1, 8),
        Err(Error::InvalidGeometry)
    );
    assert_eq!(
        epd.update_partial_frame(&mut bus, &[0u8; 1], 0, u32::MAX - 7, 1, 8),
        Err(Error::InvalidGeometry)
    );
    assert_eq!(
        epd.update_partial_frame(&mut bus, &[0u8; 1], 0, 0, 0x1_0000, 0x1_0000),
        Err(Error::InvalidGeometry)
    );
    assert!(bus.ops().is_empty());
}

#[test]
fn update_partial_frame_is_not_supported_by_the_legacy_revision() {
    let mut epd = ready(Profile::legacy());
    let mut bus = DisplayInterface::new();
    assert_eq!(
        epd.update_partial_frame(&mut bus, &[0u8; 8], 0, 0, 8, 8),
        Err(Error::Unsupported)
    );
    assert!(bus.ops().is_empty());
}

#[test]
fn set_lut_writes_the_table_of_the_refresh_mode() {
    let mut epd = ready(Profile::v4());
    let mut bus = DisplayInterface::new();
    assert_eq!(epd.set_lut(&mut bus, Some(RefreshLut::Quick)), Ok(()));
    assert_eq!(bus.ops(), &cmd_data(0x32, &LUT_PARTIAL_UPDATE));
    assert_eq!(epd.refresh_mode(), RefreshLut::Quick);

    let mut bus = DisplayInterface::new();
    assert_eq!(epd.set_lut(&mut bus, Some(RefreshLut::Full)), Ok(()));
    assert_eq!(bus.ops(), &cmd_data(0x32, &LUT_FULL_UPDATE));
    assert_eq!(epd.refresh_mode(), RefreshLut::Full);
}

#[test]
fn set_lut_without_a_mode_writes_the_full_refresh_table() {
    let mut epd = ready(Profile::v4());
    let mut bus = DisplayInterface::new();
    epd.set_lut(&mut bus, Some(RefreshLut::Quick)).unwrap();
    let mut bus = DisplayInterface::new();
    assert_eq!(epd.set_lut(&mut bus, None), Ok(()));
    assert_eq!(bus.ops(), &cmd_data(0x32, &LUT_FULL_UPDATE));
    assert_eq!(epd.refresh_mode(), RefreshLut::Full);
}

#[test]
fn set_lut_is_a_no_op_on_the_legacy_revision() {
    let mut epd = ready(Profile::legacy());
    let mut bus = DisplayInterface::new();
    assert_eq!(epd.set_lut(&mut bus, Some(RefreshLut::Quick)), Ok(()));
    assert!(bus.ops().is_empty());
    assert_eq!(epd.refresh_mode(), RefreshLut::Full);
}

#[test]
fn init_brings_the_full_refresh_table_back() {
    let mut epd = ready(Profile::v4());
    let mut bus = DisplayInterface::new();
    epd.set_lut(&mut bus, Some(RefreshLut::Quick)).unwrap();
    epd.init(&mut bus);
    assert_eq!(epd.refresh_mode(), RefreshLut::Full);
}

#[test]
fn achromatic_plane_goes_to_the_black_bank() {
    let mut epd = ready(Profile::v4());
    let mut bus = DisplayInterface::new();
    let black = frame();
    assert_eq!(epd.update_achromatic_frame(&mut bus, &black), Ok(()));
    let mut expected = wait();
    expected.extend(cmd(0x24));
    expected.extend(data(&black));
    assert_eq!(bus.ops(), &expected);
}

#[test]
fn chromatic_plane_is_sent_as_it_is_on_v4() {
    let mut epd = ready(Profile::v4());
    let mut bus = DisplayInterface::new();
    let chromatic = frame();
    assert_eq!(epd.update_chromatic_frame(&mut bus, &chromatic), Ok(()));
    let mut expected = wait();
    expected.extend(cmd(0x26));
    expected.extend(data(&chromatic));
    expected.extend(wait());
    assert_eq!(bus.ops(), &expected);
}

#[test]
fn chromatic_plane_is_inverted_on_the_legacy_revision() {
    let mut epd = ready(Profile::legacy());
    let mut bus = DisplayInterface::new();
    let chromatic = frame();
    assert_eq!(epd.update_chromatic_frame(&mut bus, &chromatic), Ok(()));
    let flipped: Vec<u8> = chromatic.iter().map(|b| !b).collect();
    assert_eq!(flipped[1], 0xFE);
    let mut expected = wait();
    expected.extend(cmd(0x26));
    expected.extend(data(&flipped));
    expected.extend(wait());
    assert_eq!(bus.ops(), &expected);
}

#[test]
fn colour_frame_is_achromatic_then_chromatic() {
    let black = frame();
    let chromatic = vec![0x0Fu8; 4000];
    let mut one = ready(Profile::legacy());
    let mut bus_one = DisplayInterface::new();
    assert_eq!(one.update_color_frame(&mut bus_one, &black, &chromatic), Ok(()));
    let mut two = ready(Profile::legacy());
    let mut bus_two = DisplayInterface::new();
    assert_eq!(two.update_achromatic_frame(&mut bus_two, &black), Ok(()));
    assert_eq!(two.update_chromatic_frame(&mut bus_two, &chromatic), Ok(()));
    assert_eq!(bus_one.ops(), bus_two.ops());
}

#[test]
fn colour_planes_of_another_length_are_rejected() {
    let mut epd = ready(Profile::v4());
    let mut bus = DisplayInterface::new();
    let good = vec![0u8; 4000];
    let bad = vec![0u8; 3999];
    assert_eq!(epd.update_color_frame(&mut bus, &good, &bad), Err(Error::InvalidBufferLength));
    assert_eq!(epd.update_color_frame(&mut bus, &bad, &good), Err(Error::InvalidBufferLength));
    assert_eq!(epd.update_achromatic_frame(&mut bus, &bad), Err(Error::InvalidBufferLength));
    assert_eq!(epd.update_chromatic_frame(&mut bus, &bad), Err(Error::InvalidBufferLength));
    assert!(bus.ops().is_empty());
}

#[test]
fn sleeping_controller_refuses_every_frame_operation() {
    let mut epd = ready(Profile::v4());
    let mut bus = DisplayInterface::new();
    epd.sleep(&mut bus).unwrap();
    let mut bus = DisplayInterface::new();
    let buffer = vec![0u8; 4000];
    assert_eq!(epd.update_frame(&mut bus, &buffer), Err(Error::NotReady));
    assert_eq!(epd.update_partial_frame(&mut bus, &[0u8; 8], 0, 0, 8, 8), Err(Error::NotReady));
    assert_eq!(epd.display_frame(&mut bus), Err(Error::NotReady));
    assert_eq!(epd.update_and_display_frame(&mut bus, &buffer), Err(Error::NotReady));
    assert_eq!(epd.clear_frame(&mut bus), Err(Error::NotReady));
    assert_eq!(epd.update_color_frame(&mut bus, &buffer, &buffer), Err(Error::NotReady));
    assert_eq!(epd.update_achromatic_frame(&mut bus, &buffer), Err(Error::NotReady));
    assert_eq!(epd.update_chromatic_frame(&mut bus, &buffer), Err(Error::NotReady));
    assert_eq!(epd.set_lut(&mut bus, None), Err(Error::NotReady));
    assert_eq!(epd.sleep(&mut bus), Err(Error::NotReady));
    assert!(bus.ops().is_empty());
    assert_eq!(epd.power_state(), PowerState::Sleeping);
    epd.wake_up(&mut bus);
    assert_eq!(epd.display_frame(&mut bus), Ok(()));
}

#[test]
fn not_ready_takes_precedence_over_a_bad_buffer() {
    let mut epd = Epd2in13b::uninitialized(Profile::legacy());
    let mut bus = DisplayInterface::new();
    assert_eq!(epd.update_frame(&mut bus, &[]), Err(Error::NotReady));
    assert_eq!(epd.update_partial_frame(&mut bus, &[], 0, 0, 8, 8), Err(Error::NotReady));
}
