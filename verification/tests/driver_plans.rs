//! Scenario tests for the panel driver's transport plans.

use epd1in02::bus::BusAction;
use epd1in02::color::Color;
use epd1in02::driver::{
    DriverError, Epd1in02, RefreshLut, HEIGHT, LUT_B1, LUT_W1, NUM_DISPLAY_BITS, WIDTH,
};

/// The cold-init sequence: reset, the register writes in order, the
/// resolution phase, the two LUT loads, power-on, settle, idle wait.
fn expected_init_plan() -> Vec<BusAction> {
    vec![
        BusAction::Reset(2),
        BusAction::Command(0xd2),
        BusAction::Data(vec![0x3f]),
        BusAction::Command(0x00),
        BusAction::Data(vec![0x6f]),
        BusAction::Command(0x01),
        BusAction::Data(vec![0x03, 0x00, 0x2b, 0x2b]),
        BusAction::Command(0x06),
        BusAction::Data(vec![0x3f]),
        BusAction::Command(0x2a),
        BusAction::Data(vec![0x00, 0x00]),
        BusAction::Command(0x30),
        BusAction::Data(vec![0x17]),
        BusAction::Command(0x50),
        BusAction::Data(vec![0x57]),
        BusAction::Command(0x60),
        BusAction::Data(vec![0x22]),
        BusAction::Command(0x61),
        BusAction::Data(vec![0x50]),
        BusAction::Data(vec![0x80]),
        BusAction::Command(0x82),
        BusAction::Data(vec![0x12]),
        BusAction::Command(0xe3),
        BusAction::Data(vec![0x33]),
        BusAction::Command(0x23),
        BusAction::Data(LUT_W1.to_vec()),
        BusAction::Command(0x24),
        BusAction::Data(LUT_B1.to_vec()),
        BusAction::Command(0x04),
        BusAction::DelayMs(5),
        BusAction::WaitUntilIdle,
    ]
}

/// The data bytes a plan streams over the bus, in order.
fn data_bytes(plan: &[BusAction]) -> Vec<u8> {
    let mut out: Vec<u8> = Vec::new();
    for action in plan {
        match action {
            BusAction::Data(bytes) => out.extend_from_slice(bytes),
            BusAction::DataRepeat(byte, count) => {
                for _ in 0..*count {
                    out.push(*byte);
                }
            }
            _ => {}
        }
    }
    out
}

#[test]
fn construction_issues_the_full_init_sequence() {
    let (epd, plan) = Epd1in02::new();
    assert_eq!(plan, expected_init_plan());
    assert_eq!(*epd.background_color(), Color::White);
}

#[test]
fn resolution_phase_packs_width_and_height() {
    let (epd, _) = Epd1in02::new();
    assert_eq!(
        epd.send_resolution(),
        vec![
            BusAction::Command(0x61),
            BusAction::Data(vec![0b0101_0000]),
            BusAction::Data(vec![0x80]),
        ]
    );
}

#[test]
fn width_and_height_are_fixed() {
    let (epd, _) = Epd1in02::new();
    assert_eq!(epd.width(), 80);
    assert_eq!(epd.height(), 128);
    assert_eq!(WIDTH, 80);
    assert_eq!(HEIGHT, 128);
    assert_eq!(NUM_DISPLAY_BITS, 80 * 128 / 8);
}

#[test]
fn clear_frame_floods_both_planes_with_the_default_color() {
    let (mut epd, _) = Epd1in02::new();
    // Even with another current color, clearing uses the default one.
    epd.set_background_color(Color::Black);
    let plan = epd.clear_frame();
    assert_eq!(
        plan,
        vec![
            BusAction::WaitUntilIdle,
            BusAction::Command(0x10),
            BusAction::DataRepeat(0xff, NUM_DISPLAY_BITS),
            BusAction::Command(0x13),
            BusAction::DataRepeat(0xff, NUM_DISPLAY_BITS),
        ]
    );
    let bytes = data_bytes(&plan);
    assert_eq!(bytes.len() as u32, 2 * WIDTH * HEIGHT / 8);
    assert!(bytes.iter().all(|b| *b == 0xff));
}

#[test]
fn update_frame_floods_current_color_then_streams_the_buffer() {
    let (mut epd, _) = Epd1in02::new();
    epd.set_background_color(Color::Black);
    let buffer = [0xaa, 0x55, 0x0f];
    let plan = epd.update_frame(&buffer);
    assert_eq!(
        plan,
        vec![
            BusAction::Command(0x10),
            BusAction::DataRepeat(0x00, NUM_DISPLAY_BITS),
            BusAction::WaitUntilIdle,
            BusAction::Command(0x13),
            BusAction::Data(vec![0xaa, 0x55, 0x0f]),
        ]
    );
    let bytes = data_bytes(&plan);
    assert_eq!(bytes.len(), 1280 + buffer.len());
    assert!(bytes[..1280].iter().all(|b| *b == 0x00));
    assert_eq!(&bytes[1280..], &buffer);
}

#[test]
fn update_and_display_appends_the_refresh_phase() {
    let (epd, _) = Epd1in02::new();
    let buffer = [0x01, 0x02];
    let mut expected = epd.update_frame(&buffer);
    expected.extend(epd.display_frame());
    assert_eq!(epd.update_and_display_frame(&buffer), expected);
}

#[test]
fn display_frame_refreshes_then_waits() {
    let (epd, _) = Epd1in02::new();
    assert_eq!(
        epd.display_frame(),
        vec![BusAction::Command(0x12), BusAction::WaitUntilIdle]
    );
}

#[test]
fn update_partial_frame_is_unsupported_and_writes_nothing() {
    let (epd, _) = Epd1in02::new();
    assert_eq!(
        epd.update_partial_frame(&[0x00], 0, 0, 8, 8),
        Err(DriverError::Unsupported)
    );
    assert_eq!(
        epd.update_partial_frame(&[], 17, 93, 0, 1000),
        Err(DriverError::Unsupported)
    );
}

#[test]
fn sleep_parks_the_panel_in_deep_sleep() {
    let (epd, _) = Epd1in02::new();
    assert_eq!(
        epd.sleep(),
        vec![
            BusAction::WaitUntilIdle,
            BusAction::Command(0x02),
            BusAction::WaitUntilIdle,
            BusAction::Command(0x07),
            BusAction::Data(vec![0xa5]),
        ]
    );
}

#[test]
fn sleep_then_wake_reproduces_cold_init_byte_for_byte() {
    let (epd, init_plan) = Epd1in02::new();
    let _ = epd.sleep();
    assert_eq!(epd.wake_up(), init_plan);
    assert_eq!(epd.wake_up(), expected_init_plan());
}

#[test]
fn background_color_round_trips_without_bus_traffic() {
    let (mut epd, _) = Epd1in02::new();
    // Neither the set nor the get returns a plan: no bus traffic.
    epd.set_background_color(Color::Black);
    assert_eq!(*epd.background_color(), Color::Black);
    epd.set_background_color(Color::White);
    assert_eq!(*epd.background_color(), Color::White);
}

#[test]
fn set_lut_succeeds_with_an_empty_plan() {
    let (epd, _) = Epd1in02::new();
    assert_eq!(epd.set_lut(None), Ok(vec![]));
    assert_eq!(epd.set_lut(Some(RefreshLut::Full)), Ok(vec![]));
    assert_eq!(epd.set_lut(Some(RefreshLut::Quick)), Ok(vec![]));
}

#[test]
fn bounded_poll_decrements_and_times_out() {
    let (epd, _) = Epd1in02::new();
    // An idle sample (line high) ends the wait at once.
    assert_eq!(epd.poll_step(3, true), Ok(None));
    assert_eq!(epd.poll_step(0, true), Ok(None));
    // A busy sample (line low) spends one poll.
    assert_eq!(epd.poll_step(3, false), Ok(Some(2)));
    assert_eq!(epd.poll_step(1, false), Ok(Some(0)));
    // A busy sample with no polls left fails with the timeout signal.
    assert_eq!(epd.poll_step(0, false), Err(DriverError::BusyTimeout));
}

#[test]
fn busy_polarity_is_low() {
    let (epd, _) = Epd1in02::new();
    // The panel holds the line low while busy.
    assert!(epd.is_busy(false));
    assert!(!epd.is_busy(true));
}
